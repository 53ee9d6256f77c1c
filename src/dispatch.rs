use vstd::prelude::*;

use crate::command::{decode, decode_spec, Command, CommandError};
use crate::init::{started, DeviceInitializer};

verus! {

/// What one processing cycle asks of the port after looking at the pending command.
#[derive(Debug)]
pub enum Cycle {
    /// No command was pending.
    Idle,
    /// An initialization run was started: write `init.next_write()` until it is done.
    Init,
    /// Write these bytes once.
    Write(Vec<u8>),
    /// The command text was refused; nothing is written.
    Rejected(CommandError),
}

/// The four-byte event that a raw command writes: its three bytes, then a zero.
pub open spec fn raw_event(a: u8, b: u8, c: u8) -> Seq<u8> {
    seq![a, b, c, 0u8]
}

/// The decisions of the real-time callback.
pub struct Dispatcher {
    pub init: DeviceInitializer,
}

impl Dispatcher {
    /// A dispatcher for a device that was never initialized.
    pub fn new() -> (r: Dispatcher)
        ensures
            r.init == DeviceInitializer::new_spec(),
            r.init.wf(),
    {
        Dispatcher { init: DeviceInitializer::new() }
    }

    /// Handles what one cycle took from the command channel (`None` when nothing
    /// was pending, or when the channel could not be had without waiting).
    pub fn process(&mut self, polled: Option<String>) -> (r: Cycle)
        requires
            old(self).init.wf(),
        ensures
            final(self).init.wf(),
            polled is None ==> r is Idle && final(self).init == old(self).init,
            polled is Some ==> match decode_spec(polled->0@) {
                Ok(Command::Init) => r is Init && final(self).init == started(),
                Ok(Command::RawTriple(a, b, c)) => r is Write && r->Write_0@ == raw_event(a, b, c)
                    && final(self).init == old(self).init,
                Err(e) => r == Cycle::Rejected(e) && final(self).init == old(self).init,
            },
    {
        match polled {
            None => Cycle::Idle,
            Some(text) => match decode(text.as_str()) {
                Ok(Command::Init) => {
                    self.init.start();
                    Cycle::Init
                },
                Ok(Command::RawTriple(a, b, c)) => {
                    let v = vec![a, b, c, 0u8];
                    assert(v@ =~= raw_event(a, b, c));
                    Cycle::Write(v)
                },
                Err(e) => Cycle::Rejected(e),
            },
        }
    }
}

} // verus!
