//! The processor's tick: spin while an instruction's cost is owed, else
//! fetch, decode and execute the next one.
use vstd::prelude::*;
use crate::cpu::machine::reached;
use crate::cpu::machine::Machine;
use crate::cpu::opcodes::Opcode;
use crate::cpu::CentralProcessor;
use crate::fault::Fault;
use crate::memory::MemoryMap;

verus! {

impl Machine {
    /// The machine with one machine cycle of the owed cost paid off.
    pub open spec fn paid(self) -> Machine {
        self.with_cpu(CentralProcessor { cost: (self.cpu.cost - 1) as u8, ..self.cpu })
    }

    /// The outcome of fetching and executing the next instruction and
    /// paying the first cycle of its cost.
    pub open spec fn started(self) -> (Machine, Result<(), Fault>) {
        match self.fetched() {
            (decoded, Ok(op)) => match decoded.executed(op) {
                (done, Ok(_)) => (done.paid(), Ok(())),
                (done, Err(fault)) => (done, Err(fault)),
            },
            (decoded, Err(fault)) => (decoded, Err(fault)),
        }
    }

    /// The outcome of one tick of the processor: while cost is owed, one
    /// cycle of it is paid and nothing else happens; otherwise the next
    /// instruction is fetched and executed, and the first cycle of its
    /// cost is paid at once.
    pub open spec fn cycled(self) -> (Machine, Result<(), Fault>) {
        if self.cpu.cost != 0 {
            (self.paid(), Ok(()))
        } else {
            self.started()
        }
    }

    /// The machine after `n` successful ticks of the processor, or after
    /// the first that faults.
    pub open spec fn cycled_times(self, n: nat) -> (Machine, Result<(), Fault>)
        decreases n,
    {
        if n == 0 {
            (self, Ok(()))
        } else {
            match self.cycled() {
                (next, Ok(_)) => next.cycled_times((n - 1) as nat),
                (next, Err(fault)) => (next, Err(fault)),
            }
        }
    }
}

impl CentralProcessor {
    /// Fetches and executes the next instruction and pays the first cycle
    /// of its cost.
    fn start_instruction(&mut self, mmap: &mut MemoryMap) -> (out: Result<(), Fault>)
        requires
            old(mmap).wf(),
        ensures
            final(mmap).wf(),
            reached(*final(self), *final(mmap), out, Machine::of(*old(self), *old(mmap)).started()),
    {
        let op = self.fetch_instruction(mmap)?;
        self.execute(mmap, op)?;
        self.cost = self.cost - 1;
        Ok(())
    }

    /// Advances the processor by one tick.
    pub fn cycle(&mut self, mmap: &mut MemoryMap) -> (out: Result<(), Fault>)
        requires
            old(mmap).wf(),
        ensures
            final(mmap).wf(),
            reached(*final(self), *final(mmap), out, Machine::of(*old(self), *old(mmap)).cycled()),
    {
        if self.cost != 0 {
            self.cost = self.cost - 1;
            return Ok(());
        }
        self.start_instruction(mmap)
    }
}

/// An instruction that executes leaves its table cost, less the cycle
/// paid by executing it, on the counter: the tick that fetches `op` and
/// executes it without a fault ends with the cost at the machine cycles of
/// `op` minus one.
pub proof fn lemma_cost_after_execution(m: Machine, op: Opcode)
    requires
        m.cpu.cost == 0,
        m.fetched().1 == Ok::<Opcode, Fault>(op),
        m.cycled().1 is Ok,
    ensures
        m.cycled().0.cpu.cost == op.cycles(m.fetched().0.cpu.takes(op)) - 1,
{
}

/// While cost is owed the processor spins: `n` ticks, for `n` up to the
/// cost, pay `n` cycles and change nothing else, so that the next fetch
/// comes exactly when the cost is paid off.
pub proof fn lemma_spin(m: Machine, n: nat)
    requires
        n <= m.cpu.cost,
    ensures
        m.cycled_times(n) == (
            m.with_cpu(CentralProcessor { cost: (m.cpu.cost - n) as u8, ..m.cpu }),
            Ok::<(), Fault>(()),
        ),
    decreases n,
{
    if n > 0 {
        lemma_spin(m.paid(), (n - 1) as nat);
    }
}

} // verus!
