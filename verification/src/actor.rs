//! Actors: what they are made of, how they are reached and how they live.
pub mod address;
pub mod bg_job;
pub mod builder;
pub mod control;
pub mod id_generator;
pub mod main_loop;
pub mod oneshot_broadcast;
pub mod scope;
pub mod secret_adr;
pub mod stage;

use crate::nonzero::NonZeroUsize;
use vstd::prelude::*;

verus! {

/// How many messages can wait for an actor.
#[derive(Debug, Clone, Copy)]
pub enum MailboxSize {
    /// As many as there are.
    Unbounded,
    /// No more than this.
    Bounded(NonZeroUsize),
}

impl MailboxSize {
    /// Room for a few messages.
    pub fn default() -> (size: Self)
        ensures
            size matches MailboxSize::Bounded(bound) && bound@ == 16,
    {
        MailboxSize::Bounded(NonZeroUsize::new(16).unwrap())
    }
}

/// The error of an actor that always exits cleanly.
pub type NoError = std::convert::Infallible;

/// Something that receives messages and acts on them.
pub trait Actor: Sized {
    /// Why it may have to give up.
    type Error: Clone;
}

/// The mailbox of an actor takes no more messages.
#[derive(Debug, Clone, Copy, PartialEq, Eq, Structural)]
pub struct AddressClosedError;

impl AddressClosedError {
    /// The error in words.
    pub fn message(&self) -> (message: &'static str)
        ensures
            message@ == "The address is closed"@,
    {
        "The address is closed"
    }
}

/// How an actor died, if not cleanly.
#[derive(Debug)]
pub enum WaitError<T> {
    /// It never said why.
    Panicked,
    /// It exited with an error.
    Exited { source: T },
}

impl<T> WaitError<T> {
    /// The error in words.
    pub fn message(&self) -> (message: &'static str)
        ensures
            message@ == match self {
                WaitError::Panicked => "No error available, the actor must have panicked"@,
                WaitError::Exited { source: _ } => "Actor exited with an error"@,
            },
    {
        match self {
            WaitError::Panicked => "No error available, the actor must have panicked",
            WaitError::Exited { source: _ } => "Actor exited with an error",
        }
    }
}

/// How an actor died, if it is dead, and if not cleanly.
#[derive(Debug)]
pub enum TryWaitError<T> {
    /// It never said why.
    Panicked,
    /// It is not dead.
    StillAlive,
    /// It exited with an error.
    Exited { source: T },
}

impl<T> TryWaitError<T> {
    /// The error in words.
    pub fn message(&self) -> (message: &'static str)
        ensures
            message@ == match self {
                TryWaitError::Panicked => "No error available, the actor must have panicked"@,
                TryWaitError::StillAlive => "The actor is still alive"@,
                TryWaitError::Exited { source: _ } => "Actor exited with an error"@,
            },
    {
        match self {
            TryWaitError::Panicked => "No error available, the actor must have panicked",
            TryWaitError::StillAlive => "The actor is still alive",
            TryWaitError::Exited { source: _ } => "Actor exited with an error",
        }
    }
}

/// A message could not be sent.
#[derive(Debug, Clone, Copy, PartialEq, Eq, Structural)]
pub struct SendError;

impl SendError {
    /// The error in words.
    pub fn message(&self) -> (message: &'static str)
        ensures
            message@ == "Could not send message, actor dead :("@,
    {
        "Could not send message, actor dead :("
    }
}

/// A message could not be sent at once.
#[derive(Debug, Clone, Copy, PartialEq, Eq, Structural)]
pub enum TrySendError {
    /// There is no room for it.
    Full,
    /// The mailbox is closed.
    Closed,
}

impl TrySendError {
    /// The error in words.
    pub fn message(&self) -> (message: &'static str)
        ensures
            message@ == match self {
                TrySendError::Full => "Could not send message, mailbox full"@,
                TrySendError::Closed => "Could not send message, actor dead :("@,
            },
    {
        match self {
            TrySendError::Full => "Could not send message, mailbox full",
            TrySendError::Closed => "Could not send message, actor dead :(",
        }
    }
}

/// There will be no reply to a message.
#[derive(Debug, Clone, Copy, PartialEq, Eq, Structural)]
pub struct ReplyError;

impl ReplyError {
    /// The error in words.
    pub fn message(&self) -> (message: &'static str)
        ensures
            message@ == "Could not receive reply, actor dead :("@,
    {
        "Could not receive reply, actor dead :("
    }
}

/// A mailbox has room for sixteen messages unless something else is chosen.
pub proof fn law_a_mailbox_has_room_for_a_few(size: MailboxSize)
    requires
        call_ensures(MailboxSize::default, (), size),
    ensures
        size matches MailboxSize::Bounded(bound) && bound@ == 16,
{
}

} // verus!
