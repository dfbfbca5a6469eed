//! Integers that are never zero.
use vstd::prelude::*;

verus! {

/// A `u32` that is not zero.
#[derive(Debug, Clone, Copy)]
pub struct NonZeroU32 {
    value: u32,
}

impl View for NonZeroU32 {
    type V = nat;

    closed spec fn view(&self) -> nat {
        self.value as nat
    }
}

impl NonZeroU32 {
    #[verifier::type_invariant]
    closed spec fn not_zero(self) -> bool {
        self.value != 0
    }

    /// Wraps a value, unless it is zero.
    pub fn new(value: u32) -> (wrapped: Option<NonZeroU32>)
        ensures
            wrapped is None <==> value == 0,
            wrapped matches Some(nonzero) ==> nonzero@ == value,
    {
        if value == 0 {
            None
        } else {
            Some(NonZeroU32 { value })
        }
    }

    /// The wrapped value.
    pub fn get(self) -> (value: u32)
        ensures
            value == self@,
            value > 0,
    {
        proof {
            use_type_invariant(self);
        }
        self.value
    }
}

/// A `usize` that is not zero.
#[derive(Debug, Clone, Copy)]
pub struct NonZeroUsize {
    value: usize,
}

impl View for NonZeroUsize {
    type V = nat;

    closed spec fn view(&self) -> nat {
        self.value as nat
    }
}

impl NonZeroUsize {
    #[verifier::type_invariant]
    closed spec fn not_zero(self) -> bool {
        self.value != 0
    }

    /// Wraps a value, unless it is zero.
    pub fn new(value: usize) -> (wrapped: Option<NonZeroUsize>)
        ensures
            wrapped is None <==> value == 0,
            wrapped matches Some(nonzero) ==> nonzero@ == value,
    {
        if value == 0 {
            None
        } else {
            Some(NonZeroUsize { value })
        }
    }

    /// The wrapped value.
    pub fn get(self) -> (value: usize)
        ensures
            value == self@,
            value > 0,
    {
        proof {
            use_type_invariant(self);
        }
        self.value
    }
}

/// Every number but zero can be wrapped, and comes out as it went in.
pub proof fn law_all_but_zero_are_wrapped(
    small: u32,
    wrapped: Option<NonZeroU32>,
    got: u32,
    large: usize,
    other: Option<NonZeroUsize>,
    back: usize,
)
    ensures
        call_ensures(NonZeroU32::new, (small,), wrapped) ==> {
            &&& wrapped is None <==> small == 0
            &&& wrapped matches Some(number) ==> number@ == small && (call_ensures(
                NonZeroU32::get,
                (number,),
                got,
            ) ==> got == small)
        },
        call_ensures(NonZeroUsize::new, (large,), other) ==> {
            &&& other is None <==> large == 0
            &&& other matches Some(number) ==> number@ == large && (call_ensures(
                NonZeroUsize::get,
                (number,),
                back,
            ) ==> back == large)
        },
{
}

} // verus!
