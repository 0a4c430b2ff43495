use vstd::prelude::*;

verus! {

/// Per-instance durable settings for one counter control: the amount added
/// per unit of input, and the value currently displayed.
#[derive(Clone, Copy, PartialEq, Eq, Structural, Debug)]
pub struct CounterSettings {
    pub step: i64,
    pub value: i64,
}

impl Default for CounterSettings {
    /// A fresh instance counts from zero in steps of one.
    fn default() -> (r: Self)
        ensures
            r.step == 1,
            r.value == 0,
    {
        CounterSettings { step: 1, value: 0 }
    }
}

} // verus!
