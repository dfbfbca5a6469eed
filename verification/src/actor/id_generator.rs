//! Numbers for the actors.
use vstd::prelude::*;

verus! {

/// The number of an actor.
pub type Id = u64;

/// How many ids there are. After that they start again.
pub open spec fn ids() -> int {
    0x1_0000_0000_0000_0000
}

/// Gives a number to every actor. Stages that work together share one.
pub struct IdGenerator {
    counter: u64,
}

impl IdGenerator {
    /// The number that is next.
    pub closed spec fn upcoming(self) -> Id {
        self.counter
    }

    /// Starts with zero.
    pub fn new() -> (generator: Self)
        ensures
            generator.upcoming() == 0,
    {
        IdGenerator { counter: 0 }
    }

    /// The next number.
    pub fn generate(&mut self) -> (id: Id)
        ensures
            id == old(self).upcoming(),
            final(self).upcoming() == (old(self).upcoming() + 1) % ids(),
    {
        let id: Id = self.counter;
        self.counter = id.wrapping_add(1);
        id
    }
}

/// The number that is next after `n` of them.
pub open spec fn upcoming_after(n: nat) -> int
    decreases n,
{
    if n == 0 {
        0
    } else {
        (upcoming_after((n - 1) as nat) + 1) % ids()
    }
}

proof fn lemma_upcoming(n: nat)
    requires
        n <= u64::MAX,
    ensures
        upcoming_after(n) == n,
    decreases n,
{
    if n > 0 {
        lemma_upcoming((n - 1) as nat);
    }
}

/// No two actors have the same number, as long as there are numbers left: they are counted from
/// zero.
pub proof fn law_ids_are_unique(i: nat, j: nat)
    requires
        i < j <= u64::MAX,
    ensures
        upcoming_after(i) != upcoming_after(j),
        upcoming_after(i) == i,
{
    lemma_upcoming(i);
    lemma_upcoming(j);
}

/// The numbers are counted from zero, and start again after the largest one.
pub proof fn law_ids_start_again(n: nat)
    ensures
        upcoming_after(n) == n % (u64::MAX as nat + 1),
    decreases n,
{
    let size = u64::MAX as int + 1;
    if n == 0 {
        vstd::arithmetic::div_mod::lemma_small_mod(0, size as nat);
    } else {
        law_ids_start_again((n - 1) as nat);
        vstd::arithmetic::div_mod::lemma_add_mod_noop(n - 1, 1, size);
        vstd::arithmetic::div_mod::lemma_small_mod(1, size as nat);
    }
}

/// A generator gives out the number that is next, and counts on; it starts again only after the
/// largest one.
pub proof fn law_a_generator_counts(fresh: IdGenerator, id: Id)
    ensures
        call_ensures(IdGenerator::new, (), fresh) ==> fresh.upcoming() == 0,
        forall|generator: &mut IdGenerator| #[trigger]
            call_ensures(IdGenerator::generate, (generator,), id) ==> {
                &&& id == generator.upcoming()
                &&& id < u64::MAX ==> final(generator).upcoming() == id + 1
                &&& id == u64::MAX ==> final(generator).upcoming() == 0
            },
{
}

} // verus!
