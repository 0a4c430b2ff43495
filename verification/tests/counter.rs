use oacounter::decimal::i64_to_decimal;
use oacounter::engine::CounterEngine;
use oacounter::engine::CounterVariant;
use oacounter::settings::CounterSettings;

fn persisted() -> CounterEngine {
    CounterEngine::new(CounterVariant::Persisted)
}

fn temporary() -> CounterEngine {
    CounterEngine::new(CounterVariant::Temporary)
}

#[test]
fn default_settings_count_from_zero_in_steps_of_one() {
    let s = CounterSettings::default();
    assert_eq!(s.step, 1);
    assert_eq!(s.value, 0);
}

#[test]
fn primary_activation_adds_one_step() {
    let s = CounterSettings { step: 1, value: 0 };
    let t = persisted().key_up(&s);
    assert_eq!(t.settings.value, 1);
    assert_eq!(t.settings.step, 1);
    assert_eq!(t.title.as_str(), "1");
}

#[test]
fn primary_activation_with_negative_step() {
    let s = CounterSettings { step: -4, value: 10 };
    let t = persisted().key_up(&s);
    assert_eq!(t.settings.value, 6);
    assert_eq!(t.title.as_str(), "6");
}

#[test]
fn rotation_adds_step_times_ticks() {
    let s = CounterSettings { step: 5, value: 10 };
    let t = persisted().dial_rotate(&s, -3);
    assert_eq!(t.settings.value, -5);
    assert_eq!(t.title.as_str(), "-5");
}

#[test]
fn rotation_forward() {
    let s = CounterSettings { step: 7, value: 2 };
    let t = temporary().dial_rotate(&s, 3);
    assert_eq!(t.settings.value, 23);
    assert_eq!(t.title.as_str(), "23");
}

#[test]
fn appearance_on_temporary_resets_to_zero() {
    let s = CounterSettings { step: 3, value: 7 };
    let t = temporary().will_appear(&s).expect("temporary appearance owes an outcome");
    assert_eq!(t.settings.value, 0);
    assert_eq!(t.settings.step, 3);
    assert_eq!(t.title.as_str(), "0");
}

#[test]
fn appearance_on_persisted_owes_no_action() {
    let s = CounterSettings { step: 3, value: 7 };
    assert!(persisted().will_appear(&s).is_none());
}

#[test]
fn secondary_activation_matches_primary() {
    let s = CounterSettings { step: 9, value: -2 };
    let primary = persisted().key_up(&s);
    let secondary = persisted().dial_up(&s);
    assert_eq!(secondary.settings, primary.settings);
    assert_eq!(secondary.title.as_str(), primary.title.as_str());
}

#[test]
fn zero_ticks_is_a_write_through_no_op() {
    let s = CounterSettings { step: 5, value: 42 };
    let t = persisted().dial_rotate(&s, 0);
    // The value is unchanged, yet an outcome is produced: the host still
    // owes one store write and one render of the unchanged value.
    assert_eq!(t.settings.value, 42);
    assert_eq!(t.settings.step, 5);
    assert_eq!(t.title.as_str(), "42");
}

#[test]
fn zero_step_activation_and_rotation_keep_the_value() {
    let s = CounterSettings { step: 0, value: 3 };
    let by_key = persisted().key_up(&s);
    assert_eq!(by_key.settings.value, 3);
    assert_eq!(by_key.title.as_str(), "3");
    let by_dial = persisted().dial_up(&s);
    assert_eq!(by_dial.settings.value, 3);
    assert_eq!(by_dial.title.as_str(), "3");
    let by_rotation = persisted().dial_rotate(&s, 11);
    assert_eq!(by_rotation.settings.value, 3);
    assert_eq!(by_rotation.title.as_str(), "3");
}

#[test]
fn activation_after_temporary_appearance() {
    let prior = CounterSettings { step: 2, value: 7 };
    let appeared = temporary().will_appear(&prior).expect("temporary appearance owes an outcome");
    assert_eq!(appeared.settings.value, 0);
    let t = temporary().key_up(&appeared.settings);
    assert_eq!(t.settings.value, 2);
    assert_eq!(t.title.as_str(), "2");
}

#[test]
fn activation_wraps_at_the_top_of_the_range() {
    let s = CounterSettings { step: 1, value: i64::MAX };
    let t = persisted().key_up(&s);
    assert_eq!(t.settings.value, i64::MIN);
    assert_eq!(t.title.as_str(), "-9223372036854775808");
}

#[test]
fn rotation_wraps_like_the_exact_product() {
    let s = CounterSettings { step: i64::MAX, value: 0 };
    let t = persisted().dial_rotate(&s, 2);
    assert_eq!(t.settings.value, (i64::MAX).wrapping_mul(2));
    assert_eq!(t.settings.value, -2);
}

#[test]
fn appearance_resets_even_the_minimum_value() {
    let s = CounterSettings { step: 1, value: i64::MIN };
    let t = temporary().will_appear(&s).expect("temporary appearance owes an outcome");
    assert_eq!(t.settings.value, 0);
    assert_eq!(t.title.as_str(), "0");
}

#[test]
fn decimal_of_zero() {
    assert_eq!(i64_to_decimal(0).as_str(), "0");
}

#[test]
fn decimal_of_small_negative() {
    assert_eq!(i64_to_decimal(-1).as_str(), "-1");
}

#[test]
fn decimal_of_a_round_number() {
    assert_eq!(i64_to_decimal(1_000_000).as_str(), "1000000");
}

#[test]
fn decimal_of_the_extremes() {
    assert_eq!(i64_to_decimal(i64::MAX).as_str(), "9223372036854775807");
    assert_eq!(i64_to_decimal(i64::MIN).as_str(), "-9223372036854775808");
}

#[test]
fn decimal_of_every_digit() {
    assert_eq!(i64_to_decimal(1234567890).as_str(), "1234567890");
    assert_eq!(i64_to_decimal(-987654321).as_str(), "-987654321");
}
