//! What each instruction does to the machine, as functions on its state.
use vstd::prelude::*;
use crate::cpu::arith::low_octet;
use crate::cpu::arith::rotated_left;
use crate::cpu::arith::rotated_right;
use crate::cpu::arith::shifted_left;
use crate::cpu::arith::shifted_right;
use crate::cpu::arith::swapped;
use crate::cpu::machine::Machine;
use crate::cpu::opcodes::Alu;
use crate::cpu::opcodes::Indirect;
use crate::cpu::opcodes::Opcode;
use crate::cpu::opcodes::Operand;
use crate::cpu::opcodes::Pair;
use crate::cpu::opcodes::Shift;
use crate::cpu::opcodes::StackPair;
use crate::cpu::CentralProcessor;
use crate::fault::Fault;
use crate::types::address::Address;
use crate::types::byte::Byte;
use crate::types::signed_byte::SignedByte;

verus! {

/// The result and the bit moved out of a rotate or shift of `v`; `carry`
/// is the carry flag going in.
pub open spec fn shift_result(shift: Shift, v: Byte, carry: bool) -> (Byte, bool) {
    match shift {
        Shift::Rlc => (rotated_left(v), v.0 >= 128),
        Shift::Rrc => (rotated_right(v), v.0 % 2 == 1),
        Shift::Rl => (shifted_left(v, carry), v.0 >= 128),
        Shift::Rr => (shifted_right(v, carry), v.0 % 2 == 1),
        Shift::Sla => (shifted_left(v, false), v.0 >= 128),
        Shift::Sra => (shifted_right(v, v.0 >= 128), v.0 % 2 == 1),
        Shift::Swap => (swapped(v), false),
        Shift::Srl => (shifted_right(v, false), v.0 % 2 == 1),
    }
}

/// The address in the high page that `offset` selects.
pub open spec fn high_page(offset: Byte) -> Address {
    Address((0xFF00 + offset.0) as u16)
}

/// The address of restart vector `n`.
pub open spec fn restart_vector(n: u8) -> Address {
    Address((8 * n) as u16)
}

impl CentralProcessor {
    /// The value of a sixteen-bit register.
    pub open spec fn pair(self, p: Pair) -> Address {
        match p {
            Pair::BC => self.bc(),
            Pair::DE => self.de(),
            Pair::HL => self.hl(),
            Pair::SP => self.sp,
        }
    }

    /// The state with a sixteen-bit register replaced.
    pub open spec fn with_pair(self, p: Pair, v: Address) -> CentralProcessor {
        match p {
            Pair::BC => self.with_bc(v),
            Pair::DE => self.with_de(v),
            Pair::HL => self.with_hl(v),
            Pair::SP => CentralProcessor { sp: v, ..self },
        }
    }

    /// The value that a push of `p` puts on the stack.
    pub open spec fn stack_pair(self, p: StackPair) -> Address {
        match p {
            StackPair::BC => self.bc(),
            StackPair::DE => self.de(),
            StackPair::HL => self.hl(),
            StackPair::AF => self.af(),
        }
    }

    /// The state after a pop into `p`.
    pub open spec fn with_stack_pair(self, p: StackPair, v: Address) -> CentralProcessor {
        match p {
            StackPair::BC => self.with_bc(v),
            StackPair::DE => self.with_de(v),
            StackPair::HL => self.with_hl(v),
            StackPair::AF => self.with_af(v),
        }
    }

    /// The address that an accumulator load or store goes through.
    pub open spec fn pointer(self, ind: Indirect) -> Address {
        match ind {
            Indirect::BC => self.bc(),
            Indirect::DE => self.de(),
            Indirect::HlIncrement => self.hl(),
            Indirect::HlDecrement => self.hl(),
        }
    }

    /// The state after the access: HL stepped on or back where the
    /// instruction says so.
    pub open spec fn after_pointer(self, ind: Indirect) -> CentralProcessor {
        match ind {
            Indirect::BC => self,
            Indirect::DE => self,
            Indirect::HlIncrement => self.with_hl(self.hl().offset(1)),
            Indirect::HlDecrement => self.with_hl(self.hl().offset(-1)),
        }
    }

    /// The state after an accumulator operation with operand `v`.
    pub open spec fn alu(self, op: Alu, v: Byte) -> CentralProcessor {
        match op {
            Alu::Add => self.added(v, false),
            Alu::Adc => self.added(v, self.c_flag),
            Alu::Sub => self.subtracted(v, false),
            Alu::Sbc => self.subtracted(v, self.c_flag),
            Alu::And => self.with_logic_result(Byte(self.a.0 & v.0), true),
            Alu::Xor => self.with_logic_result(Byte(self.a.0 ^ v.0), false),
            Alu::Or => self.with_logic_result(Byte(self.a.0 | v.0), false),
            Alu::Cp => self.compared(v),
        }
    }

    /// The flags after `v` was incremented: Z from the result, N clear, H
    /// on a carry out of bit 3, C kept.
    pub open spec fn with_increment_flags(self, v: Byte) -> CentralProcessor {
        self.with_flags(low_octet(v.0 + 1).0 == 0, false, v.0 % 16 == 15, self.c_flag)
    }

    /// The flags after `v` was decremented: Z from the result, N set, H on
    /// a borrow from bit 4, C kept.
    pub open spec fn with_decrement_flags(self, v: Byte) -> CentralProcessor {
        self.with_flags(low_octet(v.0 - 1).0 == 0, true, v.0 % 16 == 0, self.c_flag)
    }

    /// The flags of a stack-relative addition of `by` to `base`: Z and N
    /// clear, H and C as if the operand's bit pattern were added,
    /// unsigned, to the low octet of `base`.
    pub open spec fn with_offset_flags(self, base: Address, by: SignedByte) -> CentralProcessor {
        self.with_flags(
            false,
            false,
            base.0 % 16 + by.raw() % 16 > 15,
            base.0 % 256 + by.raw() > 255,
        )
    }

    /// The state after `ADD HL, rr` with operand `v`: Z kept, N clear, H
    /// on a carry out of bit 11, C on a carry out of bit 15.
    pub open spec fn with_hl_sum(self, v: Address) -> CentralProcessor {
        self.with_hl(self.hl().offset(v.0 as int)).with_flags(
            self.z_flag,
            false,
            self.hl().0 % 4096 + v.0 % 4096 > 4095,
            self.hl().0 + v.0 > 65535,
        )
    }

    /// The state after an accumulator rotate of the short form: as the
    /// long form on A, but with Z clear.
    pub open spec fn with_accumulator_shift(self, shift: Shift) -> CentralProcessor {
        let (result, carry) = shift_result(shift, self.a, self.c_flag);
        CentralProcessor { a: result, ..self }.with_flags(false, false, false, carry)
    }

    /// The state after an instruction that touches no memory, before its
    /// cost is charged.
    #[verifier::opaque]
    pub open spec fn internal(self, op: Opcode) -> CentralProcessor {
        match op {
            Opcode::Cpl => CentralProcessor { a: Byte((255 - self.a.0) as u8), ..self }.with_flags(
                self.z_flag,
                true,
                true,
                self.c_flag,
            ),
            Opcode::Scf => self.with_flags(self.z_flag, false, false, true),
            Opcode::Ccf => self.with_flags(self.z_flag, false, false, !self.c_flag),
            Opcode::Di => CentralProcessor { interupt_master_enable: false, ..self },
            Opcode::Ei => CentralProcessor { interupt_master_enable: true, ..self },
            Opcode::Rlca => self.with_accumulator_shift(Shift::Rlc),
            Opcode::Rrca => self.with_accumulator_shift(Shift::Rrc),
            Opcode::Rla => self.with_accumulator_shift(Shift::Rl),
            Opcode::Rra => self.with_accumulator_shift(Shift::Rr),
            Opcode::LoadPair(p, v) => self.with_pair(p, v),
            Opcode::LoadSpHl => CentralProcessor { sp: self.hl(), ..self },
            Opcode::LoadHlSpOffset(by) => self.with_hl(
                self.sp.offset(by.0 as int),
            ).with_offset_flags(self.sp, by),
            Opcode::AddSp(by) => CentralProcessor {
                sp: self.sp.offset(by.0 as int),
                ..self
            }.with_offset_flags(self.sp, by),
            Opcode::IncPair(p) => self.with_pair(p, self.pair(p).offset(1)),
            Opcode::DecPair(p) => self.with_pair(p, self.pair(p).offset(-1)),
            Opcode::AddHl(p) => self.with_hl_sum(self.pair(p)),
            Opcode::Jump(target) => CentralProcessor { pc: target, ..self },
            Opcode::JumpIf(cond, target) => if self.holds(cond) {
                CentralProcessor { pc: target, ..self }
            } else {
                self
            },
            Opcode::JumpHl => CentralProcessor { pc: self.hl(), ..self },
            Opcode::JumpRelative(by) => CentralProcessor { pc: self.pc.offset(by.0 as int), ..self },
            Opcode::JumpRelativeIf(cond, by) => if self.holds(cond) {
                CentralProcessor { pc: self.pc.offset(by.0 as int), ..self }
            } else {
                self
            },
            _ => self,
        }
    }
}

impl Opcode {
    /// Whether the instruction works on the accumulator, the flags or the
    /// interrupt enable alone.
    pub open spec fn is_flag_operation(self) -> bool {
        match self {
            Opcode::Cpl | Opcode::Scf | Opcode::Ccf | Opcode::Di | Opcode::Ei | Opcode::Rlca
            | Opcode::Rrca | Opcode::Rla | Opcode::Rra => true,
            _ => false,
        }
    }

    /// Whether the instruction works on the sixteen-bit registers alone.
    pub open spec fn is_pair_operation(self) -> bool {
        match self {
            Opcode::LoadPair(_, _) | Opcode::LoadSpHl | Opcode::LoadHlSpOffset(_)
            | Opcode::AddSp(_) | Opcode::IncPair(_) | Opcode::DecPair(_) | Opcode::AddHl(_) => true,
            _ => false,
        }
    }

    /// Whether the instruction is a jump.
    pub open spec fn is_jump(self) -> bool {
        match self {
            Opcode::Jump(_) | Opcode::JumpIf(_, _) | Opcode::JumpHl | Opcode::JumpRelative(_)
            | Opcode::JumpRelativeIf(_, _) => true,
            _ => false,
        }
    }

    /// Whether the instruction touches no memory once it is decoded.
    pub open spec fn is_internal(self) -> bool {
        self == Opcode::Nop || self.is_flag_operation() || self.is_pair_operation()
            || self.is_jump()
    }

    /// The byte that encodes an instruction that is recognised but not
    /// modelled, and the number of bytes it occupies.
    pub open spec fn unmodelled(self) -> Option<(Byte, int)> {
        match self {
            Opcode::Stop(_) => Some((Byte(0x10), 2)),
            Opcode::Halt => Some((Byte(0x76), 1)),
            Opcode::Daa => Some((Byte(0x27), 1)),
            _ => None,
        }
    }
}

impl Machine {
    /// What reading the operand gives.
    pub open spec fn operand(self, x: Operand) -> Result<Byte, Fault> {
        match x {
            Operand::Reg(r) => Ok(self.cpu.register(r)),
            Operand::HlIndirect => self.bus.read(self.cpu.hl()),
        }
    }

    /// The outcome of writing the operand.
    pub open spec fn with_operand(self, x: Operand, v: Byte) -> (Machine, Result<(), Fault>) {
        match x {
            Operand::Reg(r) => (self.with_cpu(self.cpu.with_register(r, v)), Ok(())),
            Operand::HlIndirect => self.stored(self.cpu.hl(), v),
        }
    }

    /// The outcome of replacing the operand by `result` and then taking
    /// the flags from `flags`; a fault leaves the flags alone.
    pub open spec fn with_result(self, x: Operand, result: Byte, flags: CentralProcessor) -> (
        Machine,
        Result<(), Fault>,
    ) {
        match self.with_operand(x, result) {
            (next, Ok(_)) => (
                next.with_cpu(
                    next.cpu.with_flags(flags.z_flag, flags.n_flag, flags.h_flag, flags.c_flag),
                ),
                Ok(()),
            ),
            (next, Err(fault)) => (next, Err(fault)),
        }
    }

    /// The outcome of `LD dst, src`.
    pub open spec fn moved(self, dst: Operand, src: Operand) -> (Machine, Result<(), Fault>) {
        match self.operand(src) {
            Ok(v) => self.with_operand(dst, v),
            Err(fault) => (self, Err(fault)),
        }
    }

    /// The outcome of an accumulator operation on the operand `src`.
    pub open spec fn combined(self, alu: Alu, src: Operand) -> (Machine, Result<(), Fault>) {
        match self.operand(src) {
            Ok(v) => (self.with_cpu(self.cpu.alu(alu, v)), Ok(())),
            Err(fault) => (self, Err(fault)),
        }
    }

    /// The outcome of `INC x`.
    pub open spec fn incremented(self, x: Operand) -> (Machine, Result<(), Fault>) {
        match self.operand(x) {
            Ok(v) => self.with_result(x, low_octet(v.0 + 1), self.cpu.with_increment_flags(v)),
            Err(fault) => (self, Err(fault)),
        }
    }

    /// The outcome of `DEC x`.
    pub open spec fn decremented(self, x: Operand) -> (Machine, Result<(), Fault>) {
        match self.operand(x) {
            Ok(v) => self.with_result(x, low_octet(v.0 - 1), self.cpu.with_decrement_flags(v)),
            Err(fault) => (self, Err(fault)),
        }
    }

    /// The outcome of a rotate or shift of `x`.
    pub open spec fn shifted(self, shift: Shift, x: Operand) -> (Machine, Result<(), Fault>) {
        match self.operand(x) {
            Ok(v) => {
                let (result, carry) = shift_result(shift, v, self.cpu.c_flag);
                self.with_result(x, result, self.cpu.with_shift_flags(result, carry))
            },
            Err(fault) => (self, Err(fault)),
        }
    }

    /// The outcome of `BIT n, x`: Z tells that the bit is zero, N is
    /// cleared, H is set, C is kept.
    pub open spec fn bit_tested(self, n: u8, x: Operand) -> (Machine, Result<(), Fault>) {
        match self.operand(x) {
            Ok(v) => (
                self.with_cpu(self.cpu.with_flags(!v.bit(n), false, true, self.cpu.c_flag)),
                Ok(()),
            ),
            Err(fault) => (self, Err(fault)),
        }
    }

    /// The outcome of `SET n, x` or `RES n, x`.
    pub open spec fn bit_written(self, n: u8, x: Operand, set: bool) -> (
        Machine,
        Result<(), Fault>,
    ) {
        match self.operand(x) {
            Ok(v) => self.with_operand(x, v.with_bit(n, set)),
            Err(fault) => (self, Err(fault)),
        }
    }

    /// The outcome of an instruction that works on one eight-bit operand,
    /// before its cost is charged.
    #[verifier::opaque]
    pub open spec fn on_operand(self, op: Opcode) -> (Machine, Result<(), Fault>) {
        match op {
            Opcode::Load(dst, src) => self.moved(dst, src),
            Opcode::LoadImmediate(dst, v) => self.with_operand(dst, v),
            Opcode::Arith(alu, src) => self.combined(alu, src),
            Opcode::ArithImmediate(alu, v) => (self.with_cpu(self.cpu.alu(alu, v)), Ok(())),
            Opcode::Inc(x) => self.incremented(x),
            Opcode::Dec(x) => self.decremented(x),
            Opcode::Rotate(shift, x) => self.shifted(shift, x),
            Opcode::TestBit(n, x) => self.bit_tested(n, x),
            Opcode::ResetBit(n, x) => self.bit_written(n, x, false),
            Opcode::SetBit(n, x) => self.bit_written(n, x, true),
            _ => (self, Ok(())),
        }
    }

    /// The outcome of storing the accumulator at `address`.
    pub open spec fn accumulator_stored(self, address: Address) -> (Machine, Result<(), Fault>) {
        self.stored(address, self.cpu.a)
    }

    /// The outcome of loading the accumulator from `address`.
    pub open spec fn accumulator_loaded(self, address: Address) -> (Machine, Result<(), Fault>) {
        match self.bus.read(address) {
            Ok(v) => (self.with_cpu(CentralProcessor { a: v, ..self.cpu }), Ok(())),
            Err(fault) => (self, Err(fault)),
        }
    }

    /// The outcome of an accumulator load or store through a pointer or an
    /// address, before its cost is charged.
    #[verifier::opaque]
    pub open spec fn on_accumulator(self, op: Opcode) -> (Machine, Result<(), Fault>) {
        match op {
            Opcode::StoreA(ind) => match self.accumulator_stored(self.cpu.pointer(ind)) {
                (next, Ok(_)) => (next.with_cpu(next.cpu.after_pointer(ind)), Ok(())),
                (next, Err(fault)) => (next, Err(fault)),
            },
            Opcode::LoadA(ind) => match self.accumulator_loaded(self.cpu.pointer(ind)) {
                (next, Ok(_)) => (next.with_cpu(next.cpu.after_pointer(ind)), Ok(())),
                (next, Err(fault)) => (next, Err(fault)),
            },
            Opcode::StoreAHigh(offset) => self.accumulator_stored(high_page(offset)),
            Opcode::LoadAHigh(offset) => self.accumulator_loaded(high_page(offset)),
            Opcode::StoreAHighC => self.accumulator_stored(high_page(self.cpu.c)),
            Opcode::LoadAHighC => self.accumulator_loaded(high_page(self.cpu.c)),
            Opcode::StoreAAbsolute(address) => self.accumulator_stored(address),
            Opcode::LoadAAbsolute(address) => self.accumulator_loaded(address),
            _ => (self, Ok(())),
        }
    }

    /// The outcome of a call to `target`: the program counter is pushed
    /// and then replaced.
    pub open spec fn called(self, target: Address) -> (Machine, Result<(), Fault>) {
        match self.pushed(self.cpu.pc) {
            (next, Ok(_)) => (next.with_pc(target), Ok(())),
            (next, Err(fault)) => (next, Err(fault)),
        }
    }

    /// The outcome of a return: the program counter is popped.
    pub open spec fn returned(self) -> (Machine, Result<(), Fault>) {
        match self.popped() {
            (next, Ok(target)) => (next.with_pc(target), Ok(())),
            (next, Err(fault)) => (next, Err(fault)),
        }
    }

    /// The outcome of storing the stack pointer at `address`, low byte
    /// first.
    pub open spec fn stack_pointer_stored(self, address: Address) -> (Machine, Result<(), Fault>) {
        match self.stored(address, self.cpu.sp.low()) {
            (next, Ok(_)) => next.stored(address.offset(1), self.cpu.sp.high()),
            (next, Err(fault)) => (next, Err(fault)),
        }
    }

    /// The outcome of an instruction that uses the stack, before its cost
    /// is charged.
    #[verifier::opaque]
    pub open spec fn on_stack(self, op: Opcode) -> (Machine, Result<(), Fault>) {
        match op {
            Opcode::Push(p) => self.pushed(self.cpu.stack_pair(p)),
            Opcode::Pop(p) => match self.popped() {
                (next, Ok(v)) => (next.with_cpu(next.cpu.with_stack_pair(p, v)), Ok(())),
                (next, Err(fault)) => (next, Err(fault)),
            },
            Opcode::Call(target) => self.called(target),
            Opcode::CallIf(cond, target) => if self.cpu.holds(cond) {
                self.called(target)
            } else {
                (self, Ok(()))
            },
            Opcode::Return => self.returned(),
            Opcode::ReturnIf(cond) => if self.cpu.holds(cond) {
                self.returned()
            } else {
                (self, Ok(()))
            },
            Opcode::ReturnInterrupt => match self.returned() {
                (next, Ok(_)) => (
                    next.with_cpu(CentralProcessor { interupt_master_enable: true, ..next.cpu }),
                    Ok(()),
                ),
                (next, Err(fault)) => (next, Err(fault)),
            },
            Opcode::Restart(n) => self.called(restart_vector(n)),
            Opcode::StoreSp(address) => self.stack_pointer_stored(address),
            _ => (self, Ok(())),
        }
    }

    /// The outcome of the instruction before its cost is charged. An
    /// instruction that is not modelled faults with its opcode and the
    /// address it was fetched from, and changes nothing.
    pub open spec fn performed(self, op: Opcode) -> (Machine, Result<(), Fault>) {
        match op.unmodelled() {
            Some((byte, length)) => (
                self,
                Err(Fault::Unimplemented(byte, self.cpu.pc.offset(-length))),
            ),
            None => if op.is_internal() {
                (self.with_cpu(self.cpu.internal(op)), Ok(()))
            } else {
                match op {
                    Opcode::Load(_, _) | Opcode::LoadImmediate(_, _) | Opcode::Arith(_, _)
                    | Opcode::ArithImmediate(_, _) | Opcode::Inc(_) | Opcode::Dec(_)
                    | Opcode::Rotate(_, _) | Opcode::TestBit(_, _) | Opcode::ResetBit(_, _)
                    | Opcode::SetBit(_, _) => self.on_operand(op),
                    Opcode::StoreA(_) | Opcode::LoadA(_) | Opcode::StoreAHigh(_)
                    | Opcode::LoadAHigh(_) | Opcode::StoreAHighC | Opcode::LoadAHighC
                    | Opcode::StoreAAbsolute(_) | Opcode::LoadAAbsolute(_) => self.on_accumulator(
                        op,
                    ),
                    _ => self.on_stack(op),
                }
            },
        }
    }

    /// The outcome of executing `op`: what the instruction does, and on
    /// success the machine cycles it takes charged to the processor. The
    /// flags as they were before the instruction decide whether a
    /// conditional instruction is taken.
    pub open spec fn executed(self, op: Opcode) -> (Machine, Result<(), Fault>) {
        match self.performed(op) {
            (next, Ok(_)) => (
                next.with_cpu(
                    CentralProcessor { cost: op.cycles(self.cpu.takes(op)) as u8, ..next.cpu },
                ),
                Ok(()),
            ),
            (next, Err(fault)) => (next, Err(fault)),
        }
    }
}

/// After any of the eight accumulator operations but the comparison, Z is
/// set exactly when the new A is zero; after an increment or a decrement,
/// exactly when the result is zero.
pub proof fn lemma_zero_flag_of_result(cpu: CentralProcessor, op: Alu, v: Byte)
    ensures
        op != Alu::Cp ==> (cpu.alu(op, v).z_flag <==> cpu.alu(op, v).a.0 == 0),
        op == Alu::Cp ==> (cpu.alu(op, v).z_flag <==> cpu.a == v),
        cpu.with_increment_flags(v).z_flag <==> low_octet(v.0 + 1).0 == 0,
        cpu.with_decrement_flags(v).z_flag <==> low_octet(v.0 - 1).0 == 0,
{
}

} // verus!
