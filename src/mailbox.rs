use vstd::prelude::*;
use crate::door::GpioCommand;

verus! {

/// A single-slot inbox of commands for the control loop. A command posted
/// before the previous one was taken replaces it: the earlier command is lost
/// by design.
pub struct Mailbox {
    slot: Option<GpioCommand>,
}

impl View for Mailbox {
    type V = Option<GpioCommand>;

    closed spec fn view(&self) -> Option<GpioCommand> {
        self.slot
    }
}

impl Mailbox {
    pub fn new() -> (r: Mailbox)
        ensures
            r@ is None,
    {
        Mailbox { slot: None }
    }

    /// Stores `command`, replacing any command not yet taken.
    pub fn post(&mut self, command: GpioCommand)
        ensures
            final(self)@ == Some(command),
    {
        self.slot = Some(command);
    }

    /// Takes the pending command, if any, and leaves the slot empty.
    pub fn take(&mut self) -> (r: Option<GpioCommand>)
        ensures
            r == old(self)@,
            final(self)@ is None,
    {
        self.slot.take()
    }
}

} // verus!
