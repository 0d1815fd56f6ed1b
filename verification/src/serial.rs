//! The serial run: the same file read, a fixed number of times, each one
//! started only when the one before it has finished.

use vstd::prelude::*;

verus! {

/// How many file reads a serial run performs.
pub const READS: u32 = 3;

/// What the driver of a serial run does next.
#[derive(Clone, Copy, Debug, PartialEq, Eq, Structural)]
pub enum SerialStep {
    /// Read the file and wait until that read, with the work that follows
    /// it, has finished.
    Read,
    /// All reads are done.
    Finish,
}

/// The state of a serial run: how many reads have been handed out.
#[derive(Debug)]
pub struct SerialRun {
    started: u32,
}

impl SerialRun {
    #[verifier::type_invariant]
    spec fn in_range(self) -> bool {
        self.started <= READS
    }

    /// How many reads the run has still to hand out.
    pub closed spec fn remaining(self) -> nat {
        (READS - self.started) as nat
    }

    /// A run in which no read has been started.
    pub fn new() -> (run: SerialRun)
        ensures
            run.remaining() == READS,
    {
        SerialRun { started: 0 }
    }

    /// Decides the next move. The driver calls this first at the start of
    /// the run and then each time the read it was told to do has finished,
    /// so no two reads overlap.
    pub fn step(&mut self) -> (step: SerialStep)
        ensures
            old(self).remaining() > 0 ==> {
                &&& step == SerialStep::Read
                &&& final(self).remaining() == old(self).remaining() - 1
            },
            old(self).remaining() == 0 ==> {
                &&& step == SerialStep::Finish
                &&& final(self).remaining() == 0
            },
    {
        proof {
            use_type_invariant(&*self);
        }
        if self.started < READS {
            self.started = self.started + 1;
            SerialStep::Read
        } else {
            SerialStep::Finish
        }
    }
}

} // verus!
