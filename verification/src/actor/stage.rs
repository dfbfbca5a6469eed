//! Where the actors of a thread play, until all of them are dead or the play is interrupted.
use crate::heart::PanicError;
use crate::kill_switch::{Bomb, Switch, Tick};
use crate::signals::StageGuard;
use vstd::prelude::*;

verus! {

/// Why a play did not end well.
#[derive(Debug)]
pub enum StageError {
    /// Not all of the actors died in peace.
    ActorPanic { source: PanicError },
    /// It was interrupted.
    Interrupted,
}

impl StageError {
    /// The error in words.
    pub fn message(&self) -> (message: &'static str)
        ensures
            message@ == match self {
                StageError::ActorPanic { source: _ } => "One or more actors panicked"@,
                StageError::Interrupted => "Abruptly interrupted"@,
            },
    {
        match self {
            StageError::ActorPanic { source: _ } => "One or more actors panicked",
            StageError::Interrupted => "Abruptly interrupted",
        }
    }
}

/// How a play ended: by itself, when the heart of the actors died, or by the bomb of the stage.
pub open spec fn play_outcome(tick: Tick<Result<(), PanicError>>) -> Result<(), StageError> {
    match tick {
        Tick::Tock(Ok(_)) => Ok(()),
        Tick::Tock(Err(source)) => Err(StageError::ActorPanic { source }),
        Tick::Boom => Err(StageError::Interrupted),
    }
}

/// How a play ended: by itself, when the heart of the actors died, or by the bomb of the stage.
pub fn play_result(tick: Tick<Result<(), PanicError>>) -> (result: Result<(), StageError>)
    ensures
        result == play_outcome(tick),
{
    match tick {
        Tick::Tock(Ok(_)) => Ok(()),
        Tick::Tock(Err(source)) => Err(StageError::ActorPanic { source }),
        Tick::Boom => Err(StageError::Interrupted),
    }
}

/// A switch of this bomb was registered, which gave this guard.
pub open spec fn registered<F: FnOnce(Switch) -> StageGuard>(
    bomb: Bomb,
    register: F,
    switch: Switch,
    guard: StageGuard,
) -> bool {
    switch.bomb() == bomb.identity() && call_ensures(register, (switch,), guard)
}

/// What interrupts the play on a stage.
pub struct Interruption {
    sig_bomb: Bomb,
    sig_guard: Option<StageGuard>,
}

impl Interruption {
    /// The bomb that interrupts the play.
    pub closed spec fn bomb(self) -> Bomb {
        self.sig_bomb
    }

    /// What keeps the stage registered for signals, if it is.
    pub closed spec fn guard(self) -> Option<StageGuard> {
        self.sig_guard
    }

    /// Nothing will interrupt the play yet.
    pub fn new() -> (interruption: Self)
        ensures
            !interruption.bomb().set_off(),
            interruption.guard() is None,
    {
        Interruption { sig_bomb: Bomb::new(), sig_guard: None }
    }

    /// Whether the stage is registered for signals.
    pub fn is_registered(&self) -> (registered: bool)
        ensures
            registered == self.guard() is Some,
    {
        self.sig_guard.is_some()
    }

    /// Has the play interrupted by signals: registers a switch of the bomb. That is done once.
    pub fn register_signals<F: FnOnce(Switch) -> StageGuard>(&mut self, register: F)
        requires
            old(self).guard() is None,
            forall|switch: Switch|
                switch.bomb() == old(self).bomb().identity() ==> #[trigger] call_requires(
                    register,
                    (switch,),
                ),
        ensures
            final(self).bomb() == old(self).bomb(),
            final(self).guard() is Some,
            exists|switch: Switch| #[trigger]
                registered(old(self).bomb(), register, switch, final(self).guard()->0),
    {
        let switch = self.sig_bomb.get_switch();
        let ghost handed = switch;
        let guard = register(switch);
        self.sig_guard = Some(guard);
        assert(registered(old(self).bomb(), register, handed, self.guard()->0));
    }

    /// The bomb, and what keeps the stage registered.
    pub fn into_parts(self) -> (parts: (Bomb, Option<StageGuard>))
        ensures
            parts == (self.bomb(), self.guard()),
    {
        (self.sig_bomb, self.sig_guard)
    }
}

/// A play is a success if and only if it was not interrupted and all the actors died in peace.
pub proof fn law_a_play_succeeds_in_peace(tick: Tick<Result<(), PanicError>>)
    ensures
        play_outcome(tick) is Ok <==> (tick matches Tick::Tock(report) && report is Ok),
        play_outcome(tick) == Err::<(), StageError>(StageError::Interrupted) <==> tick is Boom,
{
}

/// What is said of a play tells how it ended: with the very error of the heart, if there was one.
pub proof fn law_a_play_tells_how_it_ended(
    tick: Tick<Result<(), PanicError>>,
    source: PanicError,
)
    ensures
        play_outcome(tick) is Ok <==> tick == Tick::Tock(Ok::<(), PanicError>(())),
        play_outcome(tick) == Err::<(), StageError>(StageError::ActorPanic { source }) <==> tick
            == Tick::Tock(Err::<(), PanicError>(source)),
        play_outcome(tick) == Err::<(), StageError>(StageError::Interrupted) <==> tick is Boom,
{
    if let Tick::Tock(Ok(unit)) = tick {
        assert(unit == ());
    }
}

/// A stage is registered by a switch of its own bomb.
pub proof fn law_a_stage_is_registered_by_its_own_switch<F: FnOnce(Switch) -> StageGuard>(
    bomb: Bomb,
    register: F,
    switch: Switch,
    guard: StageGuard,
)
    requires
        registered(bomb, register, switch, guard),
    ensures
        switch.bomb() == bomb.identity(),
        call_ensures(register, (switch,), guard),
{
}

/// What is made of the end of a play says how it ended; and a stage is registered once, by a switch
/// of its own bomb.
pub proof fn law_a_play_is_judged_by_its_end<F: FnOnce(Switch) -> StageGuard>(
    tick: Tick<Result<(), PanicError>>,
    result: Result<(), StageError>,
    fresh: Interruption,
    register: F,
)
    ensures
        call_ensures(play_result, (tick,), result) ==> match tick {
            Tick::Tock(Ok(_)) => result is Ok,
            Tick::Tock(Err(source)) => result == Err::<(), StageError>(
                StageError::ActorPanic { source },
            ),
            Tick::Boom => result == Err::<(), StageError>(StageError::Interrupted),
        },
        call_ensures(Interruption::new, (), fresh) ==> !fresh.bomb().set_off()
            && fresh.guard() is None,
        forall|own: &mut Interruption|
            own.guard() is None && #[trigger] call_ensures(
                Interruption::register_signals::<F>,
                (own, register),
                (),
            ) ==> {
                &&& final(own).bomb() == own.bomb()
                &&& final(own).guard() matches Some(guard) && exists|switch: Switch|
                    switch.bomb() == own.bomb().identity() && #[trigger] call_ensures(
                        register,
                        (switch,),
                        guard,
                    )
            },
{
    assert forall|own: &mut Interruption|
        own.guard() is None && #[trigger] call_ensures(
            Interruption::register_signals::<F>,
            (own, register),
            (),
        ) implies exists|switch: Switch|
        switch.bomb() == own.bomb().identity() && #[trigger] call_ensures(
            register,
            (switch,),
            final(own).guard()->0,
        ) by {
        let switch = choose|switch: Switch| #[trigger]
            registered(own.bomb(), register, switch, final(own).guard()->0);
        assert(call_ensures(register, (switch,), final(own).guard()->0));
    }
}

} // verus!
