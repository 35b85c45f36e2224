//! The background activity that keeps the deployed service busy: mine a
//! block, pause, submit a task, mine a block, and again.

use vstd::prelude::*;
use crate::address::Address;

verus! {

/// The iteration after which a generator stops, so that its counters stay
/// within their type.
pub const ITERATION_LIMIT: u64 = 0x7fff_ffff_ffff_fffe;

/// The step of the loop body that is due.
#[derive(Clone, Copy, Debug, PartialEq, Eq, Structural)]
pub enum Phase {
    /// Mine the block that opens the iteration.
    MineBefore,
    /// Wait for the interval.
    Pause,
    /// Submit the task.
    Submit,
    /// Mine the block that confirms the task.
    MineAfter,
    /// The loop has ended.
    Stopped,
}

/// What the driver reports of the action it performed.
#[derive(Clone, Copy, Debug, PartialEq, Eq, Structural)]
pub enum GeneratorEvent {
    /// The action was performed; for a task, the pool accepted it.
    Done,
    /// The outcome of the action could not be had.
    Failed,
}

/// What the driver is to do next.
#[derive(Debug)]
pub enum GeneratorAction {
    /// Mine exactly one block.
    MineBlock,
    /// Wait for this many milliseconds.
    Pause { millis: u64 },
    /// Submit a task from `sender` and wait until the pool has accepted it.
    /// `sequence` counts the tasks submitted before this one.
    SubmitTask { sequence: u64, operand: u64, quota: u32, payload: Vec<u8>, sender: Address },
    /// Nothing: the loop has ended.
    Halt,
}

/// The task generator: its settings, the phase that is due, and its
/// counters.
#[derive(Debug)]
pub struct TaskGenerator {
    pub phase: Phase,
    /// Iterations completed.
    pub iterations: u64,
    /// Blocks mined.
    pub blocks_mined: u64,
    /// Tasks that the pool accepted.
    pub tasks_submitted: u64,
    /// The number to be squared.
    pub operand: u64,
    /// The quota parameter of a task.
    pub quota: u32,
    /// The auxiliary bytes of a task.
    pub payload: Vec<u8>,
    /// The pause between the first block and the task, in milliseconds.
    pub interval_millis: u64,
    /// The account that submits the tasks.
    pub sender: Address,
}

impl TaskGenerator {
    /// The counters fit the phase: an iteration mines two blocks and submits
    /// one task between them.
    pub open spec fn consistent(&self) -> bool {
        &&& self.iterations <= ITERATION_LIMIT
        &&& match self.phase {
            Phase::MineBefore => self.iterations < ITERATION_LIMIT && self.blocks_mined == 2
                * self.iterations && self.tasks_submitted == self.iterations,
            Phase::Pause | Phase::Submit => self.iterations < ITERATION_LIMIT && self.blocks_mined
                == 2 * self.iterations + 1 && self.tasks_submitted == self.iterations,
            Phase::MineAfter => self.iterations < ITERATION_LIMIT && self.blocks_mined == 2
                * self.iterations + 1 && self.tasks_submitted == self.iterations + 1,
            Phase::Stopped => 2 * self.iterations <= self.blocks_mined <= 2 * self.iterations + 1
                && self.iterations <= self.tasks_submitted <= self.iterations + 1,
        }
    }

    /// The generator after the driver reports `event` of the due action. A
    /// failure ends the loop; so does reaching the iteration limit.
    pub open spec fn after(self, event: GeneratorEvent) -> TaskGenerator {
        if self.phase is Stopped {
            self
        } else if event is Failed {
            TaskGenerator { phase: Phase::Stopped, ..self }
        } else {
            match self.phase {
                Phase::MineBefore => TaskGenerator {
                    phase: Phase::Pause,
                    blocks_mined: (self.blocks_mined + 1) as u64,
                    ..self
                },
                Phase::Pause => TaskGenerator { phase: Phase::Submit, ..self },
                Phase::Submit => TaskGenerator {
                    phase: Phase::MineAfter,
                    tasks_submitted: (self.tasks_submitted + 1) as u64,
                    ..self
                },
                _ => TaskGenerator {
                    phase: if self.iterations + 1 >= ITERATION_LIMIT {
                        Phase::Stopped
                    } else {
                        Phase::MineBefore
                    },
                    iterations: (self.iterations + 1) as u64,
                    blocks_mined: (self.blocks_mined + 1) as u64,
                    ..self
                },
            }
        }
    }

    /// The generator after `count` whole iterations in which nothing failed.
    pub open spec fn after_iterations(self, count: nat) -> TaskGenerator
        decreases count,
    {
        if count == 0 {
            self
        } else {
            self.after_iterations((count - 1) as nat).after(GeneratorEvent::Done).after(
                GeneratorEvent::Done,
            ).after(GeneratorEvent::Done).after(GeneratorEvent::Done)
        }
    }

    /// A generator at the start of its first iteration.
    pub fn new(operand: u64, quota: u32, payload: Vec<u8>, interval_millis: u64, sender: Address) -> (result:
        TaskGenerator)
        ensures
            result.consistent(),
            result.phase is MineBefore,
            result.iterations == 0 && result.blocks_mined == 0 && result.tasks_submitted == 0,
            result.operand == operand && result.quota == quota && result.payload == payload
                && result.interval_millis == interval_millis && result.sender == sender,
    {
        TaskGenerator {
            phase: Phase::MineBefore,
            iterations: 0,
            blocks_mined: 0,
            tasks_submitted: 0,
            operand,
            quota,
            payload,
            interval_millis,
            sender,
        }
    }

    /// Checks that the counters fit the phase, for a caller that built or
    /// changed the value by hand.
    pub fn is_consistent(&self) -> (result: bool)
        ensures
            result == self.consistent(),
    {
        if self.iterations > ITERATION_LIMIT {
            return false;
        }
        let opened = 2 * self.iterations;
        match self.phase {
            Phase::MineBefore => self.iterations < ITERATION_LIMIT && self.blocks_mined == opened
                && self.tasks_submitted == self.iterations,
            Phase::Pause | Phase::Submit => self.iterations < ITERATION_LIMIT && self.blocks_mined
                == opened + 1 && self.tasks_submitted == self.iterations,
            Phase::MineAfter => self.iterations < ITERATION_LIMIT && self.blocks_mined == opened
                + 1 && self.tasks_submitted == self.iterations + 1,
            Phase::Stopped => opened <= self.blocks_mined && self.blocks_mined <= opened + 1
                && self.iterations <= self.tasks_submitted && self.tasks_submitted
                <= self.iterations + 1,
        }
    }

    /// The action that is due.
    pub fn action(&self) -> (result: GeneratorAction)
        ensures
            match self.phase {
                Phase::MineBefore | Phase::MineAfter => result is MineBlock,
                Phase::Pause => result == (GeneratorAction::Pause { millis: self.interval_millis }),
                Phase::Submit => result is SubmitTask && result->sequence == self.tasks_submitted
                    && result->operand == self.operand && result->quota == self.quota
                    && result->payload@ == self.payload@ && result->sender == self.sender,
                Phase::Stopped => result is Halt,
            },
    {
        match self.phase {
            Phase::MineBefore => GeneratorAction::MineBlock,
            Phase::MineAfter => GeneratorAction::MineBlock,
            Phase::Pause => GeneratorAction::Pause { millis: self.interval_millis },
            Phase::Submit => GeneratorAction::SubmitTask {
                sequence: self.tasks_submitted,
                operand: self.operand,
                quota: self.quota,
                payload: copy_bytes(&self.payload),
                sender: self.sender,
            },
            Phase::Stopped => GeneratorAction::Halt,
        }
    }

    /// Takes the driver's report of the due action and moves to the next
    /// phase.
    pub fn advance(&mut self, event: GeneratorEvent)
        requires
            old(self).consistent(),
        ensures
            *final(self) == old(self).after(event),
            final(self).consistent(),
    {
        match self.phase {
            Phase::Stopped => {
                return ;
            },
            _ => {},
        }
        match event {
            GeneratorEvent::Failed => {
                self.phase = Phase::Stopped;
                return ;
            },
            GeneratorEvent::Done => {},
        }
        match self.phase {
            Phase::MineBefore => {
                self.blocks_mined = self.blocks_mined + 1;
                self.phase = Phase::Pause;
            },
            Phase::Pause => {
                self.phase = Phase::Submit;
            },
            Phase::Submit => {
                self.tasks_submitted = self.tasks_submitted + 1;
                self.phase = Phase::MineAfter;
            },
            _ => {
                self.blocks_mined = self.blocks_mined + 1;
                self.iterations = self.iterations + 1;
                self.phase = if self.iterations >= ITERATION_LIMIT {
                    Phase::Stopped
                } else {
                    Phase::MineBefore
                };
            },
        }
    }
}

fn copy_bytes(bytes: &Vec<u8>) -> (result: Vec<u8>)
    ensures
        result@ == bytes@,
{
    let mut out: Vec<u8> = Vec::new();
    let mut i: usize = 0;
    while i < bytes.len()
        invariant
            i <= bytes@.len(),
            out@ == bytes@.subrange(0, i as int),
        decreases bytes@.len() - i,
    {
        out.push(bytes[i]);
        assert(out@ =~= bytes@.subrange(0, i + 1));
        i = i + 1;
    }
    assert(bytes@.subrange(0, i as int) =~= bytes@);
    out
}

/// Whatever the driver reports, the counters stay consistent and never go
/// down, and an accepted task raises the number that the next task carries.
pub proof fn every_report_keeps_the_counters(g: TaskGenerator, event: GeneratorEvent)
    requires
        g.consistent(),
    ensures
        g.after(event).consistent(),
        g.after(event).blocks_mined >= g.blocks_mined,
        g.after(event).tasks_submitted >= g.tasks_submitted,
        g.phase is Submit && event is Done ==> g.after(event).tasks_submitted > g.tasks_submitted,
{
}

/// A generator that starts an iteration and runs `count` iterations without
/// a failure has mined two blocks and submitted one task in each.
pub proof fn iterations_mine_and_submit(g: TaskGenerator, count: nat)
    requires
        g.consistent(),
        g.phase is MineBefore,
        g.iterations + count < ITERATION_LIMIT,
    ensures
        g.after_iterations(count).consistent(),
        g.after_iterations(count).phase is MineBefore,
        g.after_iterations(count).iterations == g.iterations + count,
        g.after_iterations(count).blocks_mined == g.blocks_mined + 2 * count,
        g.after_iterations(count).tasks_submitted == g.tasks_submitted + count,
    decreases count,
{
    if count > 0 {
        iterations_mine_and_submit(g, (count - 1) as nat);
        let a = g.after_iterations((count - 1) as nat);
        let b = a.after(GeneratorEvent::Done);
        let c = b.after(GeneratorEvent::Done);
        let d = c.after(GeneratorEvent::Done);
        let e = d.after(GeneratorEvent::Done);
        assert(b.phase is Pause);
        assert(c.phase is Submit);
        assert(d.phase is MineAfter);
        assert(e.phase is MineBefore);
        assert(e == g.after_iterations(count));
    }
}

} // verus!
