use crate::arith::lemma_wrap_i64_compose;
use crate::arith::lemma_wrap_i64_identity;
use crate::arith::lemma_wrapping_add_is_wrap;
use crate::arith::lemma_wrapping_mul_is_wrap;
use crate::arith::lemma_wrapping_sub_is_wrap;
use crate::arith::wrap_i64;
use crate::decimal::decimal_string;
use crate::decimal::i64_to_decimal;
use crate::settings::CounterSettings;
use vstd::prelude::*;

verus! {

/// Which counter variant an engine drives.
#[derive(Clone, Copy, PartialEq, Eq, Structural, Debug)]
pub enum CounterVariant {
    /// The value survives across appearances.
    Persisted,
    /// The value resets to zero every time the instance becomes visible.
    Temporary,
}

/// What the host owes after a transition: persist `settings` for the
/// instance, then render `title` as the instance's visual title. Both side
/// effects are owed even when the value did not change.
pub struct TransitionOutcome {
    pub settings: CounterSettings,
    pub title: String,
}

impl TransitionOutcome {
    /// The invariant of every outcome: the title is exactly the decimal
    /// string of the value to be persisted.
    pub open spec fn consistent(self) -> bool {
        self.title@ == decimal_string(self.settings.value as int)
    }
}

/// The value after one activation: one step forward, wrapping.
pub open spec fn activation_value(s: CounterSettings) -> int {
    wrap_i64(s.value + s.step)
}

/// The value after a rotation of `ticks` detents: `ticks` steps forward,
/// the exact result wrapped once.
pub open spec fn rotation_value(s: CounterSettings, ticks: int) -> int {
    wrap_i64(s.value + s.step * ticks)
}

/// The shared primitive behind every transition: a settings record identical
/// to the input except that `value` moved by `delta` (wrapping), paired with
/// the decimal title the host must render for it.
pub fn increment(settings: &CounterSettings, delta: i64) -> (t: TransitionOutcome)
    ensures
        t.settings.step == settings.step,
        t.settings.value == wrap_i64(settings.value + delta),
        t.consistent(),
{
    let value = settings.value.wrapping_add(delta);
    proof {
        lemma_wrapping_add_is_wrap(settings.value, delta);
    }
    let title = i64_to_decimal(value);
    TransitionOutcome { settings: CounterSettings { step: settings.step, value }, title }
}

/// A counter engine for one variant. All handlers are pure: the caller
/// passes the instance's current settings and carries out the returned
/// outcome (persist, then render).
#[derive(Clone, Copy, PartialEq, Eq, Structural, Debug)]
pub struct CounterEngine {
    pub variant: CounterVariant,
}

impl CounterEngine {
    pub fn new(variant: CounterVariant) -> (e: CounterEngine)
        ensures
            e.variant == variant,
    {
        CounterEngine { variant }
    }

    /// Primary activation (button release): one step forward.
    pub fn key_up(&self, settings: &CounterSettings) -> (t: TransitionOutcome)
        ensures
            t.settings.step == settings.step,
            t.settings.value == activation_value(*settings),
            t.consistent(),
    {
        increment(settings, settings.step)
    }

    /// Secondary activation (dial press): delegates fully to primary
    /// activation, so its contract is stated over the same spec function.
    pub fn dial_up(&self, settings: &CounterSettings) -> (t: TransitionOutcome)
        ensures
            t.settings.step == settings.step,
            t.settings.value == activation_value(*settings),
            t.consistent(),
    {
        self.key_up(settings)
    }

    /// Continuous input (dial rotation) with a signed count of detents:
    /// `ticks` steps forward. Wrapping the intermediate product before the
    /// sum makes no difference, so the contract wraps the exact result once.
    pub fn dial_rotate(&self, settings: &CounterSettings, ticks: i16) -> (t: TransitionOutcome)
        ensures
            t.settings.step == settings.step,
            t.settings.value == rotation_value(*settings, ticks as int),
            t.consistent(),
    {
        let delta = settings.step.wrapping_mul(ticks as i64);
        proof {
            lemma_wrapping_mul_is_wrap(settings.step, ticks as i64);
            lemma_wrap_i64_compose(settings.value as int, (settings.step * ticks) as int);
        }
        increment(settings, delta)
    }

    /// Appearance. The temporary variant resets its value to exactly zero
    /// (a reset, not a decrement by `step`); the persisted variant owes no
    /// action at all, so no outcome is produced and the stored value stays.
    pub fn will_appear(&self, settings: &CounterSettings) -> (t: Option<TransitionOutcome>)
        ensures
            self.variant == CounterVariant::Persisted <==> t is None,
            t is Some ==> t->Some_0.settings.step == settings.step,
            t is Some ==> t->Some_0.settings.value == 0,
            t is Some ==> t->Some_0.consistent(),
    {
        match self.variant {
            CounterVariant::Persisted => None,
            CounterVariant::Temporary => {
                let delta = 0i64.wrapping_sub(settings.value);
                proof {
                    lemma_wrapping_sub_is_wrap(0, settings.value);
                    lemma_wrap_i64_compose(
                        settings.value as int,
                        0 - (settings.value as int),
                    );
                    lemma_wrap_i64_identity(0);
                }
                Some(increment(settings, delta))
            },
        }
    }
}

/// Law: secondary activation yields the same value as primary activation —
/// both are stated over `activation_value` — and an activation is exactly a
/// rotation by a single detent.
pub proof fn lemma_activation_is_one_tick(s: CounterSettings)
    ensures
        activation_value(s) == rotation_value(s, 1),
{
}

/// Law: a rotation of zero detents leaves the value unchanged (the outcome,
/// with its store write and render, is still owed by the host).
pub proof fn lemma_zero_ticks_value_unchanged(s: CounterSettings)
    ensures
        rotation_value(s, 0) == s.value,
{
    lemma_wrap_i64_identity(s.value as int);
}

/// Law: with a step of zero, every activation and every rotation leaves the
/// value unchanged.
pub proof fn lemma_zero_step_value_unchanged(s: CounterSettings, ticks: int)
    requires
        s.step == 0,
    ensures
        activation_value(s) == s.value,
        rotation_value(s, ticks) == s.value,
{
    assert(s.step * ticks == 0) by (nonlinear_arith)
        requires
            s.step == 0,
    ;
    lemma_wrap_i64_identity(s.value as int);
}

/// Law: when the exact sum fits in `i64`, an activation is exact addition
/// of the step to the value.
pub proof fn lemma_activation_exact(s: CounterSettings)
    requires
        i64::MIN <= s.value + s.step <= i64::MAX,
    ensures
        activation_value(s) == s.value + s.step,
{
    lemma_wrap_i64_identity(s.value + s.step);
}

/// Law: when the exact result fits in `i64`, a rotation is exact addition
/// of `step * ticks` to the value.
pub proof fn lemma_rotation_exact(s: CounterSettings, ticks: int)
    requires
        i64::MIN <= s.value + s.step * ticks <= i64::MAX,
    ensures
        rotation_value(s, ticks) == s.value + s.step * ticks,
{
    lemma_wrap_i64_identity(s.value + s.step * ticks);
}

} // verus!
