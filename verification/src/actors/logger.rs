//! An actor that logs what it is sent.
use crate::actor::{Actor, NoError};
use vstd::prelude::*;

verus! {

/// An actor that logs what it is sent.
pub struct Logger;

impl Actor for Logger {
    type Error = NoError;
}

/// Something that is logged as it is displayed.
pub struct Display<T>(T);

impl<T> Display<T> {
    /// What is displayed.
    pub closed spec fn shown(self) -> T {
        self.0
    }

    /// Something to be logged as it is displayed.
    pub fn new(shown: T) -> (display: Self)
        ensures
            display.shown() == shown,
    {
        Display(shown)
    }

    /// What is displayed.
    pub fn get(&self) -> (shown: &T)
        ensures
            *shown == self.shown(),
    {
        &self.0
    }
}

} // verus!
