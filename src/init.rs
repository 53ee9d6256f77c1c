use vstd::prelude::*;

verus! {

/// Where the device initialization stands.
#[derive(Clone, Copy, Debug, PartialEq, Eq, Structural)]
pub enum InitPhase {
    /// No initialization was ever started.
    Uninitialized,
    /// The extended-mode enable write is next.
    Enabling,
    /// Pads below the given LED index are colored; at 121 only the closing
    /// controller change is left.
    Coloring(u8),
    /// The whole sequence was written.
    Ready,
}

/// The device initialization sequence as a resumable step machine: the caller
/// performs one write at a time and reports how it went.
#[derive(Clone, Copy, Debug, PartialEq, Eq, Structural)]
pub struct DeviceInitializer {
    pub phase: InitPhase,
    /// Whether a run is in progress (false after a failed write, until restarted).
    pub active: bool,
}

/// The `k`-th write of an initialization run.
pub open spec fn init_event(k: int) -> Seq<u8> {
    if k == 0 {
        seq![0x9Fu8, 12u8, 127u8, 0u8]
    } else if k <= 25 {
        seq![0x9Fu8, (95 + k) as u8, 47u8, 0u8]
    } else {
        seq![0xBFu8, 59u8, 127u8]
    }
}

/// All writes of an initialization run, in order.
pub open spec fn init_events() -> Seq<Seq<u8>> {
    Seq::new(27, |k: int| init_event(k))
}

/// The state right after a run was started.
pub open spec fn started() -> DeviceInitializer {
    DeviceInitializer { phase: InitPhase::Enabling, active: true }
}

impl DeviceInitializer {
    pub open spec fn wf(self) -> bool {
        match self.phase {
            InitPhase::Coloring(i) => 96 <= i <= 121,
            InitPhase::Enabling => true,
            _ => !self.active,
        }
    }

    /// How many writes of the run are done.
    pub open spec fn written(self) -> int {
        match self.phase {
            InitPhase::Coloring(i) => i - 95,
            InitPhase::Ready => 27,
            _ => 0,
        }
    }

    /// The write that the run asks for next, if a run is in progress.
    pub open spec fn pending_write(self) -> Option<Seq<u8>> {
        if self.active && self.written() < 27 {
            Some(init_event(self.written()))
        } else {
            None
        }
    }

    /// The state after the pending write succeeded.
    pub open spec fn after_success(self) -> DeviceInitializer {
        match self.phase {
            InitPhase::Enabling => DeviceInitializer { phase: InitPhase::Coloring(96), active: true },
            InitPhase::Coloring(i) => if i < 121 {
                DeviceInitializer { phase: InitPhase::Coloring((i + 1) as u8), active: true }
            } else {
                DeviceInitializer { phase: InitPhase::Ready, active: false }
            },
            _ => self,
        }
    }

    pub open spec fn new_spec() -> DeviceInitializer {
        DeviceInitializer { phase: InitPhase::Uninitialized, active: false }
    }

    /// A device that was never initialized.
    pub fn new() -> (r: DeviceInitializer)
        ensures
            r == DeviceInitializer::new_spec(),
            r.wf(),
    {
        DeviceInitializer { phase: InitPhase::Uninitialized, active: false }
    }

    /// Starts a run from its first write, whatever state the last one left.
    pub fn start(&mut self)
        ensures
            *final(self) == started(),
            final(self).wf(),
    {
        self.phase = InitPhase::Enabling;
        self.active = true;
    }

    /// The bytes of the next write of the run in progress.
    pub fn next_write(&self) -> (r: Option<Vec<u8>>)
        requires
            self.wf(),
        ensures
            r is Some <==> self.pending_write() is Some,
            r is Some ==> r->0@ == self.pending_write()->0,
    {
        if !self.active {
            return None;
        }
        match self.phase {
            InitPhase::Enabling => Some(vec![0x9Fu8, 12u8, 127u8, 0u8]),
            InitPhase::Coloring(i) => if i <= 120 {
                let r = vec![0x9Fu8, i, 47u8, 0u8];
                assert(r@ =~= init_event(self.written()));
                Some(r)
            } else {
                let r = vec![0xBFu8, 59u8, 127u8];
                assert(r@ =~= init_event(self.written()));
                Some(r)
            },
            _ => None,
        }
    }

    /// Records that the pending write went out.
    pub fn write_succeeded(&mut self)
        requires
            old(self).wf(),
            old(self).active,
        ensures
            *final(self) == old(self).after_success(),
            final(self).wf(),
            final(self).written() == old(self).written() + 1,
    {
        match self.phase {
            InitPhase::Enabling => {
                self.phase = InitPhase::Coloring(96);
            },
            InitPhase::Coloring(i) => {
                if i < 121 {
                    self.phase = InitPhase::Coloring(i + 1);
                } else {
                    self.phase = InitPhase::Ready;
                    self.active = false;
                }
            },
            _ => {},
        }
    }

    /// Records that the pending write failed: the run stops where it is, and only
    /// a new start resumes the device's initialization.
    pub fn write_failed(&mut self)
        requires
            old(self).wf(),
        ensures
            final(self).phase == old(self).phase,
            !final(self).active,
            final(self).wf(),
            final(self).pending_write() is None,
    {
        self.active = false;
    }

    /// Whether the whole sequence was written.
    pub fn is_ready(&self) -> (r: bool)
        ensures
            r == (self.phase == InitPhase::Ready),
    {
        match self.phase {
            InitPhase::Ready => true,
            _ => false,
        }
    }
}

/// The state after `k` successful writes of a run begun at `d`.
pub open spec fn run(d: DeviceInitializer, k: nat) -> DeviceInitializer
    decreases k,
{
    if k == 0 {
        d
    } else {
        run(d, (k - 1) as nat).after_success()
    }
}

/// A started run asks for exactly the writes of `init_events()`, in order: after
/// `k` successful writes it asks for the `k`-th one, and after all of them it asks
/// for nothing more and the device is ready.
pub proof fn lemma_init_sequence(k: nat)
    requires
        k <= 27,
    ensures
        run(started(), k).wf(),
        run(started(), k).written() == k,
        k < 27 ==> run(started(), k).pending_write() == Some(init_events()[k as int]),
        k == 27 ==> run(started(), k).pending_write() is None,
        k == 27 ==> run(started(), k).phase == InitPhase::Ready,
        init_events().len() == 27,
    decreases k,
{
    if k > 0 {
        lemma_init_sequence((k - 1) as nat);
    }
}

} // verus!
