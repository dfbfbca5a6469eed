//! What one poll of a future or of a stream came to.
use vstd::prelude::*;

verus! {

/// The outcome of one poll.
#[derive(Debug, PartialEq, Eq)]
pub enum Polled<T> {
    /// It is done, with this value.
    Ready(T),
    /// It has to be polled again later.
    Pending,
}

/// The poll of a stream produced an item.
pub open spec fn has_item<I>(polled: Polled<Option<I>>) -> bool {
    polled matches Polled::Ready(Some(_))
}

/// The poll of a stream found its end.
pub open spec fn at_end<I>(polled: Polled<Option<I>>) -> bool {
    polled matches Polled::Ready(None)
}

/// A poll of a stream comes to an item, to the end or to nothing yet: to one of these, and not to
/// two of them.
pub proof fn law_a_poll_comes_to_one_thing<I>(polled: Polled<Option<I>>)
    ensures
        has_item(polled) <==> exists|item: I| polled == Polled::Ready(Some(item)),
        at_end(polled) <==> polled == Polled::<Option<I>>::Ready(None),
        polled is Pending <==> !has_item(polled) && !at_end(polled),
        !(has_item(polled) && at_end(polled)),
{
    if has_item(polled) {
        assert(polled == Polled::Ready(Some(polled->Ready_0->0)));
    }
}

} // verus!
