//! How the owner thread tells the constructing thread how its start went.

use crate::error::Error;
use vstd::prelude::*;

verus! {

/// The cell between the two threads. It is written once, by the owner
/// thread, and read by the constructing thread when it has been written.
/// The lock and the waiting that the two threads need around it are not part
/// of it.
#[derive(Debug)]
pub struct Handshake {
    started: bool,
    result: Result<(), Error>,
}

impl View for Handshake {
    type V = Option<Result<(), Error>>;

    /// What the owner thread has announced, if it has announced anything.
    closed spec fn view(&self) -> Option<Result<(), Error>> {
        if self.started {
            Some(self.result)
        } else {
            None
        }
    }
}

impl Handshake {
    /// A cell in which nothing is announced yet.
    pub fn new() -> (cell: Handshake)
        ensures
            cell@ is None,
    {
        Handshake { started: false, result: Ok(()) }
    }

    /// Writes the outcome of the start into the cell. Only the first outcome
    /// is kept: the answer tells whether this was the first.
    pub fn announce(&mut self, outcome: Result<(), Error>) -> (first: bool)
        ensures
            first == (old(self)@ is None),
            first ==> final(self)@ == Some(outcome),
            !first ==> final(self)@ == old(self)@,
    {
        if self.started {
            false
        } else {
            self.result = outcome;
            self.started = true;
            true
        }
    }

    /// Whether the owner thread has announced the outcome of its start. The
    /// constructing thread waits until it has.
    pub fn is_started(&self) -> (started: bool)
        ensures
            started == (self@ is Some),
    {
        self.started
    }

    /// What the owner thread has announced, if it has announced anything.
    pub fn outcome(&self) -> (outcome: Option<Result<(), Error>>)
        ensures
            outcome == self@,
    {
        if self.started {
            Some(self.result)
        } else {
            None
        }
    }
}

} // verus!
