use vstd::prelude::*;
use crate::cpu::CentralProcessor;
use crate::fault::Fault;
use crate::memory::BusView;
use crate::memory::MemoryMap;
use crate::types::address::Address;
use crate::types::byte::Byte;
use crate::types::signed_byte::SignedByte;

verus! {

/// The processor together with the bus it is attached to: the state on
/// which instructions are defined.
pub struct Machine {
    pub cpu: CentralProcessor,
    pub bus: BusView,
}

/// Whether the processor `cpu` and the bus `mmap`, with the value `out`
/// handed back, are what `outcome` describes.
pub open spec fn reached<T>(
    cpu: CentralProcessor,
    mmap: MemoryMap,
    out: Result<T, Fault>,
    outcome: (Machine, Result<T, Fault>),
) -> bool {
    &&& outcome.0.cpu == cpu
    &&& outcome.0.bus == mmap@
    &&& outcome.1 == out
}

impl Machine {
    /// The machine made of a processor and the state of a bus.
    pub open spec fn of(cpu: CentralProcessor, mmap: MemoryMap) -> Machine {
        Machine { cpu, bus: mmap@ }
    }

    /// The bus is in order.
    pub open spec fn wf(self) -> bool {
        self.bus.wf()
    }

    /// The machine with the processor replaced.
    pub open spec fn with_cpu(self, cpu: CentralProcessor) -> Machine {
        Machine { cpu, ..self }
    }

    /// The machine with the program counter replaced.
    pub open spec fn with_pc(self, pc: Address) -> Machine {
        self.with_cpu(CentralProcessor { pc, ..self.cpu })
    }

    /// The machine with the stack pointer replaced.
    pub open spec fn with_sp(self, sp: Address) -> Machine {
        self.with_cpu(CentralProcessor { sp, ..self.cpu })
    }

    /// The outcome of storing `value` at `address`: the bus after the
    /// write, or the fault with the machine untouched.
    pub open spec fn stored(self, address: Address, value: Byte) -> (Machine, Result<(), Fault>) {
        match self.bus.written(address, value) {
            Ok(bus) => (Machine { bus, ..self }, Ok(())),
            Err(fault) => (self, Err(fault)),
        }
    }

    /// The outcome of taking the byte at the program counter: the byte,
    /// with the counter moved past it, or the fault with the counter left
    /// in place.
    pub open spec fn consumed_byte(self) -> (Machine, Result<Byte, Fault>) {
        match self.bus.read(self.cpu.pc) {
            Ok(byte) => (self.with_pc(self.cpu.pc.offset(1)), Ok(byte)),
            Err(fault) => (self, Err(fault)),
        }
    }

    /// The outcome of taking the byte at the program counter as a signed
    /// number.
    pub open spec fn consumed_signed_byte(self) -> (Machine, Result<SignedByte, Fault>) {
        match self.consumed_byte() {
            (next, Ok(byte)) => (next, Ok(SignedByte(byte.signed() as i8))),
            (next, Err(fault)) => (next, Err(fault)),
        }
    }

    /// The outcome of taking a little-endian pair at the program counter:
    /// the low byte comes first in the stream.
    pub open spec fn consumed_pair(self) -> (Machine, Result<Address, Fault>) {
        match self.consumed_byte() {
            (first, Ok(low)) => match first.consumed_byte() {
                (second, Ok(high)) => (second, Ok(Address::join(high, low))),
                (second, Err(fault)) => (second, Err(fault)),
            },
            (first, Err(fault)) => (first, Err(fault)),
        }
    }

    /// The outcome of pushing `addr`: the stack pointer steps down and the
    /// high byte is stored, then the same for the low byte.
    pub open spec fn pushed(self, addr: Address) -> (Machine, Result<(), Fault>) {
        let upper = self.with_sp(self.cpu.sp.offset(-1));
        match upper.stored(upper.cpu.sp, addr.high()) {
            (after, Ok(_)) => {
                let lower = after.with_sp(after.cpu.sp.offset(-1));
                lower.stored(lower.cpu.sp, addr.low())
            },
            (after, Err(fault)) => (after, Err(fault)),
        }
    }

    /// The outcome of popping a pair: the low byte is read and the stack
    /// pointer steps up, then the same for the high byte.
    pub open spec fn popped(self) -> (Machine, Result<Address, Fault>) {
        match self.bus.read(self.cpu.sp) {
            Ok(low) => {
                let upper = self.with_sp(self.cpu.sp.offset(1));
                match upper.bus.read(upper.cpu.sp) {
                    Ok(high) => (upper.with_sp(upper.cpu.sp.offset(1)), Ok(Address::join(high, low))),
                    Err(fault) => (upper, Err(fault)),
                }
            },
            Err(fault) => (self, Err(fault)),
        }
    }
}

impl CentralProcessor {
    /// Takes the byte at the program counter and moves the counter past
    /// it.
    pub fn consume_byte(&mut self, mmap: &MemoryMap) -> (out: Result<Byte, Fault>)
        requires
            mmap.wf(),
        ensures
            reached(*final(self), *mmap, out, Machine::of(*old(self), *mmap).consumed_byte()),
    {
        let out = mmap.read(self.pc)?;
        self.pc = self.pc.next();
        Ok(out)
    }

    /// Takes the byte at the program counter as a signed number.
    pub fn consume_signed_byte(&mut self, mmap: &MemoryMap) -> (out: Result<SignedByte, Fault>)
        requires
            mmap.wf(),
        ensures
            reached(
                *final(self),
                *mmap,
                out,
                Machine::of(*old(self), *mmap).consumed_signed_byte(),
            ),
    {
        let out = self.consume_byte(mmap)?;
        Ok(out.to_signed())
    }

    /// Takes a little-endian pair at the program counter.
    pub fn consume_pair(&mut self, mmap: &MemoryMap) -> (out: Result<Address, Fault>)
        requires
            mmap.wf(),
        ensures
            reached(*final(self), *mmap, out, Machine::of(*old(self), *mmap).consumed_pair()),
    {
        let low = self.consume_byte(mmap)?;
        let high = self.consume_byte(mmap)?;
        Ok(Address::from_pair(high, low))
    }

    /// Pushes `addr`: the stack grows downward, high byte first.
    pub fn push_address(&mut self, mmap: &mut MemoryMap, addr: Address) -> (out: Result<
        (),
        Fault,
    >)
        requires
            old(mmap).wf(),
        ensures
            final(mmap).wf(),
            reached(
                *final(self),
                *final(mmap),
                out,
                Machine::of(*old(self), *old(mmap)).pushed(addr),
            ),
    {
        let (h, l) = addr.split();
        self.sp = self.sp.prev();
        mmap.write(self.sp, h)?;
        self.sp = self.sp.prev();
        mmap.write(self.sp, l)
    }

    /// Pops a pair: low byte first, the stack pointer stepping up.
    pub fn pop_address(&mut self, mmap: &MemoryMap) -> (out: Result<Address, Fault>)
        requires
            mmap.wf(),
        ensures
            reached(*final(self), *mmap, out, Machine::of(*old(self), *mmap).popped()),
    {
        let l = mmap.read(self.sp)?;
        self.sp = self.sp.next();
        let h = mmap.read(self.sp)?;
        self.sp = self.sp.next();
        Ok(Address::from_pair(h, l))
    }
}

} // verus!
