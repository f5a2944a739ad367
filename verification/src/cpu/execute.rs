//! The execution of decoded instructions.
use vstd::prelude::*;
use crate::cpu::machine::reached;
use crate::cpu::machine::Machine;
use crate::cpu::opcodes::Alu;
use crate::cpu::opcodes::Indirect;
use crate::cpu::opcodes::Opcode;
use crate::cpu::opcodes::Operand;
use crate::cpu::opcodes::Pair;
use crate::cpu::opcodes::Shift;
use crate::cpu::opcodes::StackPair;
use crate::cpu::semantics::high_page;
use crate::cpu::semantics::restart_vector;
use crate::cpu::semantics::shift_result;
use crate::cpu::CentralProcessor;
use crate::fault::Fault;
use crate::memory::MemoryMap;
use crate::types::address::Address;
use crate::types::byte::Byte;
use crate::types::signed_byte::SignedByte;

verus! {

/// Complementing an octet bit by bit subtracts it from 255.
proof fn lemma_complement(v: u8)
    by (bit_vector)
    ensures
        !v == 255u8 - v,
{
}

impl CentralProcessor {
    /// Reads a sixteen-bit register.
    pub fn get_pair(&self, p: Pair) -> (out: Address)
        ensures
            out == self.pair(p),
    {
        match p {
            Pair::BC => self.read_bc(),
            Pair::DE => self.read_de(),
            Pair::HL => self.read_hl(),
            Pair::SP => self.sp,
        }
    }

    /// Writes a sixteen-bit register.
    pub fn set_pair(&mut self, p: Pair, v: Address)
        ensures
            *final(self) == old(self).with_pair(p, v),
    {
        match p {
            Pair::BC => self.write_bc(v),
            Pair::DE => self.write_de(v),
            Pair::HL => self.write_hl(v),
            Pair::SP => self.sp = v,
        }
    }

    /// Reads a sixteen-bit register as the stack instructions name it.
    pub fn get_stack_pair(&self, p: StackPair) -> (out: Address)
        ensures
            out == self.stack_pair(p),
    {
        match p {
            StackPair::BC => self.read_bc(),
            StackPair::DE => self.read_de(),
            StackPair::HL => self.read_hl(),
            StackPair::AF => self.read_af(),
        }
    }

    /// Writes a sixteen-bit register as the stack instructions name it.
    pub fn set_stack_pair(&mut self, p: StackPair, v: Address)
        ensures
            *final(self) == old(self).with_stack_pair(p, v),
    {
        match p {
            StackPair::BC => self.write_bc(v),
            StackPair::DE => self.write_de(v),
            StackPair::HL => self.write_hl(v),
            StackPair::AF => self.write_af(v),
        }
    }

    /// Performs an accumulator operation with operand `v`.
    pub fn apply_alu(&mut self, op: Alu, v: Byte)
        ensures
            *final(self) == old(self).alu(op, v),
    {
        match op {
            Alu::Add => self.add(v),
            Alu::Adc => self.adc(v),
            Alu::Sub => self.sub(v),
            Alu::Sbc => self.sbc(v),
            Alu::And => self.and(v),
            Alu::Xor => self.xor(v),
            Alu::Or => self.or(v),
            Alu::Cp => self.cp(v),
        }
    }

    /// Performs a rotate or shift of `v` and sets the flags from it.
    pub fn apply_shift(&mut self, shift: Shift, v: Byte) -> (out: Byte)
        ensures
            out == shift_result(shift, v, old(self).c_flag).0,
            *final(self) == old(self).with_shift_flags(
                out,
                shift_result(shift, v, old(self).c_flag).1,
            ),
    {
        match shift {
            Shift::Rlc => self.rlc(v),
            Shift::Rrc => self.rrc(v),
            Shift::Rl => self.rl(v),
            Shift::Rr => self.rr(v),
            Shift::Sla => self.sla(v),
            Shift::Sra => self.sra(v),
            Shift::Swap => self.swap(v),
            Shift::Srl => self.srl(v),
        }
    }

    /// Performs a rotate of the accumulator in its short form.
    fn shift_accumulator(&mut self, shift: Shift)
        ensures
            *final(self) == old(self).with_accumulator_shift(shift),
    {
        let result = self.apply_shift(shift, self.a);
        self.a = result;
        self.z_flag = false;
    }

    /// Sets the flags of a stack-relative addition of `by` to `base`.
    fn set_offset_flags(&mut self, base: Address, by: SignedByte)
        ensures
            *final(self) == old(self).with_offset_flags(base, by),
    {
        self.clear_flags();
        self.check_half_carry_signed_address(base, by);
        self.check_carry_signed_address(base, by);
    }

    /// Adds `v` to HL and sets the flags of the sixteen-bit addition.
    fn add_to_hl(&mut self, v: Address)
        ensures
            *final(self) == old(self).with_hl_sum(v),
    {
        let hl = self.read_hl();
        self.check_half_carry_add_address(hl, v);
        self.check_carry_add_address(hl, v);
        self.n_flag = false;
        self.write_hl(Address(hl.0.wrapping_add(v.0)));
    }

    /// Executes an instruction that works on the accumulator, the flags or
    /// the interrupt enable alone.
    fn execute_flag_operation(&mut self, op: Opcode)
        requires
            op.is_flag_operation(),
        ensures
            *final(self) == old(self).internal(op),
    {
        reveal(CentralProcessor::internal);
        match op {
            Opcode::Cpl => {
                proof {
                    lemma_complement(self.a.0);
                }
                self.a = Byte(!self.a.0);
                self.n_flag = true;
                self.h_flag = true;
            },
            Opcode::Scf => {
                self.c_flag = true;
                self.n_flag = false;
                self.h_flag = false;
            },
            Opcode::Ccf => {
                self.c_flag = !self.c_flag;
                self.n_flag = false;
                self.h_flag = false;
            },
            Opcode::Di => self.interupt_master_enable = false,
            Opcode::Ei => self.interupt_master_enable = true,
            Opcode::Rlca => self.shift_accumulator(Shift::Rlc),
            Opcode::Rrca => self.shift_accumulator(Shift::Rrc),
            Opcode::Rla => self.shift_accumulator(Shift::Rl),
            _ => self.shift_accumulator(Shift::Rr),
        }
    }

    /// Executes an instruction that works on the sixteen-bit registers.
    fn execute_pair_operation(&mut self, op: Opcode)
        requires
            op.is_pair_operation(),
        ensures
            *final(self) == old(self).internal(op),
    {
        reveal(CentralProcessor::internal);
        match op {
            Opcode::LoadPair(p, v) => self.set_pair(p, v),
            Opcode::LoadSpHl => self.sp = self.read_hl(),
            Opcode::LoadHlSpOffset(by) => {
                let base = self.sp;
                self.write_hl(base.displaced(by));
                self.set_offset_flags(base, by);
            },
            Opcode::AddSp(by) => {
                let base = self.sp;
                self.sp = base.displaced(by);
                self.set_offset_flags(base, by);
            },
            Opcode::IncPair(p) => {
                let v = self.get_pair(p);
                self.set_pair(p, v.next());
            },
            Opcode::DecPair(p) => {
                let v = self.get_pair(p);
                self.set_pair(p, v.prev());
            },
            Opcode::AddHl(p) => {
                let v = self.get_pair(p);
                self.add_to_hl(v);
            },
            _ => {},
        }
    }

    /// Executes a jump.
    fn execute_jump(&mut self, op: Opcode)
        requires
            op.is_jump(),
        ensures
            *final(self) == old(self).internal(op),
    {
        reveal(CentralProcessor::internal);
        match op {
            Opcode::Jump(target) => self.pc = target,
            Opcode::JumpIf(cond, target) => {
                if self.check(cond) {
                    self.pc = target;
                }
            },
            Opcode::JumpHl => self.pc = self.read_hl(),
            Opcode::JumpRelative(by) => self.pc = self.pc.displaced(by),
            Opcode::JumpRelativeIf(cond, by) => {
                if self.check(cond) {
                    self.pc = self.pc.displaced(by);
                }
            },
            _ => {},
        }
    }

    /// Executes an instruction that touches no memory.
    pub fn execute_internal(&mut self, op: Opcode)
        requires
            op.is_internal(),
        ensures
            *final(self) == old(self).internal(op),
    {
        match op {
            Opcode::Cpl | Opcode::Scf | Opcode::Ccf | Opcode::Di | Opcode::Ei | Opcode::Rlca
            | Opcode::Rrca | Opcode::Rla | Opcode::Rra => self.execute_flag_operation(op),
            Opcode::LoadPair(_, _) | Opcode::LoadSpHl | Opcode::LoadHlSpOffset(_)
            | Opcode::AddSp(_) | Opcode::IncPair(_) | Opcode::DecPair(_) | Opcode::AddHl(_) => {
                self.execute_pair_operation(op)
            },
            Opcode::Jump(_) | Opcode::JumpIf(_, _) | Opcode::JumpHl | Opcode::JumpRelative(_)
            | Opcode::JumpRelativeIf(_, _) => self.execute_jump(op),
            _ => {
                reveal(CentralProcessor::internal);
            },
        }
    }

    /// Reads an eight-bit operand.
    pub fn read_operand(&self, mmap: &MemoryMap, x: Operand) -> (out: Result<Byte, Fault>)
        requires
            mmap.wf(),
        ensures
            out == Machine::of(*self, *mmap).operand(x),
    {
        match x {
            Operand::Reg(r) => Ok(self.read_register(r)),
            Operand::HlIndirect => mmap.read(self.read_hl()),
        }
    }

    /// Writes an eight-bit operand.
    pub fn write_operand(&mut self, mmap: &mut MemoryMap, x: Operand, v: Byte) -> (out: Result<
        (),
        Fault,
    >)
        requires
            old(mmap).wf(),
        ensures
            final(mmap).wf(),
            reached(
                *final(self),
                *final(mmap),
                out,
                Machine::of(*old(self), *old(mmap)).with_operand(x, v),
            ),
    {
        match x {
            Operand::Reg(r) => {
                self.write_register(r, v);
                Ok(())
            },
            Operand::HlIndirect => mmap.write(self.read_hl(), v),
        }
    }

    /// Replaces an operand by `result` and then takes the flags from
    /// `flags`.
    fn write_result(
        &mut self,
        mmap: &mut MemoryMap,
        x: Operand,
        result: Byte,
        flags: CentralProcessor,
    ) -> (out: Result<(), Fault>)
        requires
            old(mmap).wf(),
        ensures
            final(mmap).wf(),
            reached(
                *final(self),
                *final(mmap),
                out,
                Machine::of(*old(self), *old(mmap)).with_result(x, result, flags),
            ),
    {
        self.write_operand(mmap, x, result)?;
        self.z_flag = flags.z_flag;
        self.n_flag = flags.n_flag;
        self.h_flag = flags.h_flag;
        self.c_flag = flags.c_flag;
        Ok(())
    }

    /// Copies the operand `src` to the operand `dst`.
    fn move_operand(&mut self, mmap: &mut MemoryMap, dst: Operand, src: Operand) -> (out: Result<(), Fault>)
        requires
            old(mmap).wf(),
        ensures
            final(mmap).wf(),
            reached(
                *final(self),
                *final(mmap),
                out,
                Machine::of(*old(self), *old(mmap)).moved(dst, src),
            ),
    {
        let v = self.read_operand(mmap, src)?;
        self.write_operand(mmap, dst, v)
    }

    /// Performs an accumulator operation on the operand `src`.
    fn combine(&mut self, mmap: &mut MemoryMap, alu: Alu, src: Operand) -> (out: Result<(), Fault>)
        requires
            old(mmap).wf(),
        ensures
            final(mmap).wf(),
            reached(
                *final(self),
                *final(mmap),
                out,
                Machine::of(*old(self), *old(mmap)).combined(alu, src),
            ),
    {
        let v = self.read_operand(mmap, src)?;
        self.apply_alu(alu, v);
        Ok(())
    }

    /// Increments the operand.
    fn increment(&mut self, mmap: &mut MemoryMap, x: Operand) -> (out: Result<(), Fault>)
        requires
            old(mmap).wf(),
        ensures
            final(mmap).wf(),
            reached(
                *final(self),
                *final(mmap),
                out,
                Machine::of(*old(self), *old(mmap)).incremented(x),
            ),
    {
        let v = self.read_operand(mmap, x)?;
        let mut flags = *self;
        flags.check_half_carry_add_byte(v, Byte(1));
        flags.n_flag = false;
        let result = Byte(v.0.wrapping_add(1));
        flags.check_zero(result);
        self.write_result(mmap, x, result, flags)
    }

    /// Decrements the operand.
    fn decrement(&mut self, mmap: &mut MemoryMap, x: Operand) -> (out: Result<(), Fault>)
        requires
            old(mmap).wf(),
        ensures
            final(mmap).wf(),
            reached(
                *final(self),
                *final(mmap),
                out,
                Machine::of(*old(self), *old(mmap)).decremented(x),
            ),
    {
        let v = self.read_operand(mmap, x)?;
        let mut flags = *self;
        flags.check_half_carry_sub_byte(v, Byte(1));
        flags.n_flag = true;
        let result = Byte(v.0.wrapping_sub(1));
        flags.check_zero(result);
        self.write_result(mmap, x, result, flags)
    }

    /// Rotates or shifts the operand.
    fn shift_operand(&mut self, mmap: &mut MemoryMap, shift: Shift, x: Operand) -> (out: Result<(), Fault>)
        requires
            old(mmap).wf(),
        ensures
            final(mmap).wf(),
            reached(
                *final(self),
                *final(mmap),
                out,
                Machine::of(*old(self), *old(mmap)).shifted(shift, x),
            ),
    {
        let v = self.read_operand(mmap, x)?;
        let mut flags = *self;
        let result = flags.apply_shift(shift, v);
        self.write_result(mmap, x, result, flags)
    }

    /// Tests bit `n` of the operand.
    fn test_bit(&mut self, mmap: &mut MemoryMap, n: u8, x: Operand) -> (out: Result<(), Fault>)
        requires
            old(mmap).wf(),
            n < 8,
        ensures
            final(mmap).wf(),
            reached(
                *final(self),
                *final(mmap),
                out,
                Machine::of(*old(self), *old(mmap)).bit_tested(n, x),
            ),
    {
        let v = self.read_operand(mmap, x)?;
        self.bit(n, v);
        Ok(())
    }

    /// Forces bit `n` of the operand to `set`.
    fn assign_bit(&mut self, mmap: &mut MemoryMap, n: u8, x: Operand, set: bool) -> (out: Result<(), Fault>)
        requires
            old(mmap).wf(),
            n < 8,
        ensures
            final(mmap).wf(),
            reached(
                *final(self),
                *final(mmap),
                out,
                Machine::of(*old(self), *old(mmap)).bit_written(n, x, set),
            ),
    {
        let mut v = self.read_operand(mmap, x)?;
        v.write_bit(n, set);
        self.write_operand(mmap, x, v)
    }

    /// Executes an instruction that works on one eight-bit operand.
    pub fn execute_operand(&mut self, mmap: &mut MemoryMap, op: Opcode) -> (out: Result<
        (),
        Fault,
    >)
        requires
            old(mmap).wf(),
            op.wf(),
        ensures
            final(mmap).wf(),
            reached(
                *final(self),
                *final(mmap),
                out,
                Machine::of(*old(self), *old(mmap)).on_operand(op),
            ),
    {
        reveal(Machine::on_operand);
        match op {
            Opcode::Load(dst, src) => self.move_operand(mmap, dst, src),
            Opcode::LoadImmediate(dst, v) => self.write_operand(mmap, dst, v),
            Opcode::Arith(alu, src) => self.combine(mmap, alu, src),
            Opcode::ArithImmediate(alu, v) => {
                self.apply_alu(alu, v);
                Ok(())
            },
            Opcode::Inc(x) => self.increment(mmap, x),
            Opcode::Dec(x) => self.decrement(mmap, x),
            Opcode::Rotate(shift, x) => self.shift_operand(mmap, shift, x),
            Opcode::TestBit(n, x) => self.test_bit(mmap, n, x),
            Opcode::ResetBit(n, x) => self.assign_bit(mmap, n, x, false),
            Opcode::SetBit(n, x) => self.assign_bit(mmap, n, x, true),
            _ => Ok(()),
        }
    }

    /// Reads the pointer of an accumulator load or store.
    fn read_pointer(&self, ind: Indirect) -> (out: Address)
        ensures
            out == self.pointer(ind),
    {
        match ind {
            Indirect::BC => self.read_bc(),
            Indirect::DE => self.read_de(),
            Indirect::HlIncrement => self.read_hl(),
            Indirect::HlDecrement => self.read_hl(),
        }
    }

    /// Steps HL on or back after an access through it.
    fn step_pointer(&mut self, ind: Indirect)
        ensures
            *final(self) == old(self).after_pointer(ind),
    {
        match ind {
            Indirect::BC => {},
            Indirect::DE => {},
            Indirect::HlIncrement => {
                let hl = self.read_hl();
                self.write_hl(hl.next());
            },
            Indirect::HlDecrement => {
                let hl = self.read_hl();
                self.write_hl(hl.prev());
            },
        }
    }

    /// Stores the accumulator at `address`.
    fn store_accumulator(&mut self, mmap: &mut MemoryMap, address: Address) -> (out: Result<
        (),
        Fault,
    >)
        requires
            old(mmap).wf(),
        ensures
            final(mmap).wf(),
            reached(
                *final(self),
                *final(mmap),
                out,
                Machine::of(*old(self), *old(mmap)).accumulator_stored(address),
            ),
    {
        mmap.write(address, self.a)
    }

    /// Loads the accumulator from `address`.
    fn load_accumulator(&mut self, mmap: &MemoryMap, address: Address) -> (out: Result<(), Fault>)
        requires
            mmap.wf(),
        ensures
            reached(
                *final(self),
                *mmap,
                out,
                Machine::of(*old(self), *mmap).accumulator_loaded(address),
            ),
    {
        self.a = mmap.read(address)?;
        Ok(())
    }

    /// Executes an accumulator load or store through a pointer or an
    /// address.
    pub fn execute_accumulator(&mut self, mmap: &mut MemoryMap, op: Opcode) -> (out: Result<
        (),
        Fault,
    >)
        requires
            old(mmap).wf(),
        ensures
            final(mmap).wf(),
            reached(
                *final(self),
                *final(mmap),
                out,
                Machine::of(*old(self), *old(mmap)).on_accumulator(op),
            ),
    {
        reveal(Machine::on_accumulator);
        match op {
            Opcode::StoreA(ind) => {
                let address = self.read_pointer(ind);
                self.store_accumulator(mmap, address)?;
                self.step_pointer(ind);
                Ok(())
            },
            Opcode::LoadA(ind) => {
                let address = self.read_pointer(ind);
                self.load_accumulator(mmap, address)?;
                self.step_pointer(ind);
                Ok(())
            },
            Opcode::StoreAHigh(offset) => {
                self.store_accumulator(mmap, Address(0xFF00 + offset.0 as u16))
            },
            Opcode::LoadAHigh(offset) => {
                self.load_accumulator(mmap, Address(0xFF00 + offset.0 as u16))
            },
            Opcode::StoreAHighC => self.store_accumulator(mmap, Address(0xFF00 + self.c.0 as u16)),
            Opcode::LoadAHighC => self.load_accumulator(mmap, Address(0xFF00 + self.c.0 as u16)),
            Opcode::StoreAAbsolute(address) => self.store_accumulator(mmap, address),
            Opcode::LoadAAbsolute(address) => self.load_accumulator(mmap, address),
            _ => Ok(()),
        }
    }

    /// Calls `target`: pushes the program counter and jumps.
    fn call(&mut self, mmap: &mut MemoryMap, target: Address) -> (out: Result<(), Fault>)
        requires
            old(mmap).wf(),
        ensures
            final(mmap).wf(),
            reached(
                *final(self),
                *final(mmap),
                out,
                Machine::of(*old(self), *old(mmap)).called(target),
            ),
    {
        self.push_address(mmap, self.pc)?;
        self.pc = target;
        Ok(())
    }

    /// Returns: pops the program counter.
    fn ret(&mut self, mmap: &MemoryMap) -> (out: Result<(), Fault>)
        requires
            mmap.wf(),
        ensures
            reached(*final(self), *mmap, out, Machine::of(*old(self), *mmap).returned()),
    {
        self.pc = self.pop_address(mmap)?;
        Ok(())
    }

    /// Stores the stack pointer at `address`, low byte first.
    fn store_stack_pointer(&mut self, mmap: &mut MemoryMap, address: Address) -> (out: Result<
        (),
        Fault,
    >)
        requires
            old(mmap).wf(),
        ensures
            final(mmap).wf(),
            reached(
                *final(self),
                *final(mmap),
                out,
                Machine::of(*old(self), *old(mmap)).stack_pointer_stored(address),
            ),
    {
        let (h, l) = self.sp.split();
        mmap.write(address, l)?;
        mmap.write(address.next(), h)
    }

    /// Executes an instruction that uses the stack.
    pub fn execute_stack(&mut self, mmap: &mut MemoryMap, op: Opcode) -> (out: Result<(), Fault>)
        requires
            old(mmap).wf(),
            op.wf(),
        ensures
            final(mmap).wf(),
            reached(
                *final(self),
                *final(mmap),
                out,
                Machine::of(*old(self), *old(mmap)).on_stack(op),
            ),
    {
        reveal(Machine::on_stack);
        match op {
            Opcode::Push(p) => {
                let v = self.get_stack_pair(p);
                self.push_address(mmap, v)
            },
            Opcode::Pop(p) => {
                let v = self.pop_address(mmap)?;
                self.set_stack_pair(p, v);
                Ok(())
            },
            Opcode::Call(target) => self.call(mmap, target),
            Opcode::CallIf(cond, target) => {
                if self.check(cond) {
                    self.call(mmap, target)
                } else {
                    Ok(())
                }
            },
            Opcode::Return => self.ret(mmap),
            Opcode::ReturnIf(cond) => {
                if self.check(cond) {
                    self.ret(mmap)
                } else {
                    Ok(())
                }
            },
            Opcode::ReturnInterrupt => {
                self.ret(mmap)?;
                self.interupt_master_enable = true;
                Ok(())
            },
            Opcode::Restart(n) => self.call(mmap, Address(8 * n as u16)),
            Opcode::StoreSp(address) => self.store_stack_pointer(mmap, address),
            _ => Ok(()),
        }
    }

    /// Carries out `op` without charging its cost.
    fn perform(&mut self, mmap: &mut MemoryMap, op: Opcode) -> (out: Result<(), Fault>)
        requires
            old(mmap).wf(),
            op.wf(),
        ensures
            final(mmap).wf(),
            reached(
                *final(self),
                *final(mmap),
                out,
                Machine::of(*old(self), *old(mmap)).performed(op),
            ),
    {
        match op {
            Opcode::Stop(_) => Err(Fault::Unimplemented(Byte(0x10), self.pc.prev().prev())),
            Opcode::Halt => Err(Fault::Unimplemented(Byte(0x76), self.pc.prev())),
            Opcode::Daa => Err(Fault::Unimplemented(Byte(0x27), self.pc.prev())),
            Opcode::Nop | Opcode::Cpl | Opcode::Scf | Opcode::Ccf | Opcode::Di | Opcode::Ei
            | Opcode::Rlca | Opcode::Rrca | Opcode::Rla | Opcode::Rra | Opcode::LoadPair(_, _)
            | Opcode::LoadSpHl | Opcode::LoadHlSpOffset(_) | Opcode::AddSp(_) | Opcode::IncPair(_)
            | Opcode::DecPair(_) | Opcode::AddHl(_) | Opcode::Jump(_) | Opcode::JumpIf(_, _)
            | Opcode::JumpHl | Opcode::JumpRelative(_) | Opcode::JumpRelativeIf(_, _) => {
                self.execute_internal(op);
                Ok(())
            },
            Opcode::Load(_, _) | Opcode::LoadImmediate(_, _) | Opcode::Arith(_, _)
            | Opcode::ArithImmediate(_, _) | Opcode::Inc(_) | Opcode::Dec(_) | Opcode::Rotate(_, _)
            | Opcode::TestBit(_, _) | Opcode::ResetBit(_, _) | Opcode::SetBit(_, _) => {
                self.execute_operand(mmap, op)
            },
            Opcode::StoreA(_) | Opcode::LoadA(_) | Opcode::StoreAHigh(_) | Opcode::LoadAHigh(_)
            | Opcode::StoreAHighC | Opcode::LoadAHighC | Opcode::StoreAAbsolute(_)
            | Opcode::LoadAAbsolute(_) => self.execute_accumulator(mmap, op),
            Opcode::Push(_) | Opcode::Pop(_) | Opcode::Call(_) | Opcode::CallIf(_, _)
            | Opcode::Return | Opcode::ReturnIf(_) | Opcode::ReturnInterrupt | Opcode::Restart(_)
            | Opcode::StoreSp(_) => self.execute_stack(mmap, op),
        }
    }

    /// Executes `op` and charges the machine cycles it takes. A fault
    /// leaves the cost as it was.
    pub fn execute(&mut self, mmap: &mut MemoryMap, op: Opcode) -> (out: Result<(), Fault>)
        requires
            old(mmap).wf(),
            op.wf(),
        ensures
            final(mmap).wf(),
            reached(
                *final(self),
                *final(mmap),
                out,
                Machine::of(*old(self), *old(mmap)).executed(op),
            ),
    {
        let taken = match op {
            Opcode::JumpIf(cond, _) => self.check(cond),
            Opcode::JumpRelativeIf(cond, _) => self.check(cond),
            Opcode::CallIf(cond, _) => self.check(cond),
            Opcode::ReturnIf(cond) => self.check(cond),
            _ => true,
        };
        self.perform(mmap, op)?;
        self.cost = op.cost(taken);
        Ok(())
    }
}

} // verus!
