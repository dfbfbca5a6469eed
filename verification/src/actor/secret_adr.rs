//! Messages of more than one type for one address.
use vstd::prelude::*;

verus! {

/// One of two messages.
#[derive(Debug, PartialEq, Eq)]
pub enum Multi<T1, T2> {
    Left(T1),
    Right(T2),
}

impl<T1, T2> Multi<T1, T2> {
    /// Sends the message, each type in its own way.
    pub fn send_with<R, L, F>(self, left: L, right: F) -> (sent: R) where
        L: FnOnce(T1) -> R,
        F: FnOnce(T2) -> R,

        requires
            self matches Multi::Left(msg) ==> call_requires(left, (msg,)),
            self matches Multi::Right(msg) ==> call_requires(right, (msg,)),
        ensures
            match self {
                Multi::Left(msg) => call_ensures(left, (msg,), sent),
                Multi::Right(msg) => call_ensures(right, (msg,), sent),
            },
    {
        match self {
            Multi::Left(msg) => left(msg),
            Multi::Right(msg) => right(msg),
        }
    }
}

/// A message of either type is sent in the way of its own type.
pub proof fn law_each_type_is_sent_in_its_own_way<T1, T2, R, L, F>(
    multi: Multi<T1, T2>,
    left: L,
    right: F,
    sent: R,
) where L: FnOnce(T1) -> R, F: FnOnce(T2) -> R
    requires
        call_ensures(Multi::<T1, T2>::send_with::<R, L, F>, (multi, left, right), sent),
    ensures
        multi matches Multi::Left(msg) ==> call_ensures(left, (msg,), sent),
        multi matches Multi::Right(msg) ==> call_ensures(right, (msg,), sent),
{
}

} // verus!
