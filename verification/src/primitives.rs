//! Small value types shared by the configuration modules, and the trusted view of `Duration`.
use std::time::Duration;
use vstd::prelude::*;

verus! {

/// A count that is never zero: a maximum number of parallel tests, or a number of retained
/// output lines.
#[derive(Debug, Clone, Copy, PartialEq, Eq, Hash, Structural)]
pub struct NonZeroCount {
    value: usize,
}

impl NonZeroCount {
    #[verifier::type_invariant]
    spec fn value_is_positive(self) -> bool {
        self.value > 0
    }

    /// The number this count stands for (the stored value, which the invariant keeps positive;
    /// [`Self::new`], [`Self::one`] and [`Self::get`] state it).
    pub closed spec fn view_value(self) -> nat {
        self.value as nat
    }

    /// The smallest count, one.
    pub fn one() -> (r: Self)
        ensures
            r.view_value() == 1,
            r.view_value() > 0,
    {
        NonZeroCount { value: 1 }
    }

    /// The count `n`, or `None` when `n` is zero.
    pub fn new(n: usize) -> (r: Option<Self>)
        ensures
            r is None <==> n == 0,
            r matches Some(c) ==> c.view_value() == n && c.view_value() > 0,
    {
        if n == 0 {
            None
        } else {
            Some(NonZeroCount { value: n })
        }
    }

    /// The number this count stands for; it is never zero.
    pub fn get(self) -> (r: usize)
        ensures
            r == self.view_value(),
            r > 0,
    {
        proof {
            use_type_invariant(&self);
        }
        self.value
    }

    /// A count is determined by its number: two counts for the same number are equal.
    pub proof fn lemma_same_number_same_count(a: Self, b: Self)
        requires
            a.view_value() == b.view_value(),
        ensures
            a == b,
    {
    }

    /// The number of a count fits in a `usize`.
    pub proof fn lemma_fits_usize(self)
        ensures
            self.view_value() <= usize::MAX,
    {
    }
}

/// Whether `Duration::is_zero` holds of a duration, that is, whether it spans no time.
pub uninterp spec fn duration_spans_no_time(d: Duration) -> bool;

/// Calls `Duration::is_zero`, which returns whether the duration spans no time.
#[verifier::external_body]
pub(crate) fn duration_is_zero(d: Duration) -> (r: bool)
    ensures
        r == duration_spans_no_time(d),
{
    d.is_zero()
}

} // verus!
