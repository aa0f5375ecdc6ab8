//! Running a program to its end, and why every run has one.

use crate::error::Chip8Error;
use crate::machine::ExecutionState;
use crate::machine::Machine;
use vstd::prelude::*;

verus! {

impl Machine {
    /// How far the instruction stream of one level of the call stack is from
    /// the end of the address space. Level `stack_pointer` is the code that is
    /// executing, measured at the program counter; a level below it is a
    /// caller, measured at the address it will be resumed at; a level above it
    /// is not in use and measures zero.
    ///
    /// Taken over all levels, lowest first, these distances decrease
    /// lexicographically with every step: an instruction moves the executing
    /// level forward, a call moves the caller's level forward before it opens
    /// a new one, and a return closes the executing level and leaves those
    /// below as they are.
    pub open spec fn remaining(self, level: nat) -> nat {
        if level < self.stack_pointer {
            (0x1_0000 - self.stack[level as int]) as nat
        } else if level == self.stack_pointer {
            (0x1_0000 - self.program_counter) as nat
        } else {
            0
        }
    }

    /// The processor stepped until it halts or a step fails, together with
    /// how that ended: `Ok` with the halted processor, or the error of the
    /// step that failed with the processor as that step found it.
    ///
    /// Every run ends, since each step decreases [`Machine::remaining`].
    pub open spec fn run(self) -> (Machine, Result<(), Chip8Error>)
        decreases
            self.remaining(0),
            self.remaining(1),
            self.remaining(2),
            self.remaining(3),
            self.remaining(4),
            self.remaining(5),
            self.remaining(6),
            self.remaining(7),
            self.remaining(8),
            self.remaining(9),
            self.remaining(10),
            self.remaining(11),
            self.remaining(12),
            self.remaining(13),
            self.remaining(14),
            self.remaining(15),
            self.remaining(16),
        when self.wf()
    {
        if self.state == ExecutionState::Halted {
            (self, Ok(()))
        } else {
            match self.step() {
                Ok(next) => {
                    proof {
                        lemma_step_descends(self);
                    }
                    next.run()
                },
                Err(e) => (self, Err(e)),
            }
        }
    }
}

/// A step that succeeds decreases the distances of [`Machine::remaining`],
/// taken lexicographically from level 0 up.
pub proof fn lemma_step_descends(m: Machine)
    requires
        m.wf(),
        m.step() is Ok,
    ensures
        decreases_to!(
            m.remaining(0),
            m.remaining(1),
            m.remaining(2),
            m.remaining(3),
            m.remaining(4),
            m.remaining(5),
            m.remaining(6),
            m.remaining(7),
            m.remaining(8),
            m.remaining(9),
            m.remaining(10),
            m.remaining(11),
            m.remaining(12),
            m.remaining(13),
            m.remaining(14),
            m.remaining(15),
            m.remaining(16)
            =>
            m.step()->Ok_0.remaining(0),
            m.step()->Ok_0.remaining(1),
            m.step()->Ok_0.remaining(2),
            m.step()->Ok_0.remaining(3),
            m.step()->Ok_0.remaining(4),
            m.step()->Ok_0.remaining(5),
            m.step()->Ok_0.remaining(6),
            m.step()->Ok_0.remaining(7),
            m.step()->Ok_0.remaining(8),
            m.step()->Ok_0.remaining(9),
            m.step()->Ok_0.remaining(10),
            m.step()->Ok_0.remaining(11),
            m.step()->Ok_0.remaining(12),
            m.step()->Ok_0.remaining(13),
            m.step()->Ok_0.remaining(14),
            m.step()->Ok_0.remaining(15),
            m.step()->Ok_0.remaining(16)
        ),
{
}

} // verus!
