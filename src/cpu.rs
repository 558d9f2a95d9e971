use vstd::prelude::*;

use crate::flags::FlagsRegister;
use crate::instructions::{
    decode_spec, ArithmeticSource, ArithmeticTarget, BitSource, CompareSource, DecrementTarget,
    IncTarget, Instruction, JumpCondition, LoadHSource, LoadHTarget, LoadSource, LoadTarget,
    LoadTypeN16, PopTarget, PushTarget, RotateTarget, PREFIX_BYTE,
};
use crate::memory_bus::{signed_of, written, MemoryBus, MEMORY_SIZE};
use crate::registers::{combine, high_of, low_of, pair_of, split, Registers};

verus! {

/// `x` reduced modulo 2^16.
pub open spec fn wrap16(x: int) -> u16 {
    (x % 0x10000) as u16
}

/// `x` reduced modulo 2^8.
pub open spec fn wrap8(x: int) -> u8 {
    (x % 0x100) as u8
}

/// Address `0xFF00 + n` of the high page.
pub open spec fn high_page(n: u8) -> u16 {
    (0xFF00 + n as int) as u16
}

/// Whether bit `n` of `v` is set; bit 0 is the least significant.
pub open spec fn bit_is_set(v: u8, n: u8) -> bool {
    (v >> n) & 1u8 == 1u8
}

/// `v` shifted left by one with `carry` entering bit 0.
pub open spec fn rotate_through_carry(v: u8, carry: bool) -> u8 {
    ((v << 1u8) | (if carry { 1u8 } else { 0u8 })) as u8
}

/// Why a step did not complete.
#[derive(Clone, Copy, Debug, PartialEq, Eq, Structural)]
pub enum StepError {
    /// The byte has no entry in the selected opcode space.
    UnknownOpcode { opcode: u8, prefixed: bool },
    /// The instruction was decoded, but this engine does not carry out its operand combination.
    Unimplemented(Instruction),
}

/// The whole machine state as the instructions see it.
pub struct CpuState {
    pub registers: Registers,
    pub flags: FlagsRegister,
    pub pc: u16,
    pub sp: u16,
    pub mem: Seq<u8>,
}

impl CpuState {
    pub open spec fn at(self, address: u16) -> u8 {
        self.mem[address as int]
    }

    /// The byte at the program counter.
    pub open spec fn imm8(self) -> u8 {
        self.at(self.pc)
    }

    /// The little-endian word at the program counter.
    pub open spec fn imm16(self) -> u16 {
        pair_of(self.at(wrap16(self.pc + 1)), self.at(self.pc))
    }

    /// The state with the program counter moved on by `n` bytes.
    pub open spec fn advance(self, n: int) -> CpuState {
        CpuState { pc: wrap16(self.pc + n), ..self }
    }

    pub open spec fn with_registers(self, registers: Registers) -> CpuState {
        CpuState { registers, ..self }
    }

    pub open spec fn with_flags(self, flags: FlagsRegister) -> CpuState {
        CpuState { flags, ..self }
    }

    pub open spec fn store(self, address: u16, v: u8) -> CpuState {
        CpuState { mem: self.mem.update(address as int, v), ..self }
    }

    /// The state after one byte was pushed: the stack pointer is decremented first.
    pub open spec fn push(self, v: u8) -> CpuState {
        CpuState { sp: wrap16(self.sp - 1), mem: self.mem.update(wrap16(self.sp - 1) as int, v), ..self }
    }

    /// The state after one byte was popped (the byte is `self.at(self.sp)`).
    pub open spec fn pop(self) -> CpuState {
        CpuState { sp: wrap16(self.sp + 1), ..self }
    }
}

/// Flags after an 8-bit increment of `v`; the carry flag is kept.
pub open spec fn inc_flags(f: FlagsRegister, v: u8) -> FlagsRegister {
    FlagsRegister { zero: wrap8(v + 1) == 0, subtract: false, half_carry: v % 16 == 15, ..f }
}

/// Flags after an 8-bit decrement of `v`; the carry flag is kept.
pub open spec fn dec_flags(f: FlagsRegister, v: u8) -> FlagsRegister {
    FlagsRegister { zero: wrap8(v - 1) == 0, subtract: true, half_carry: v % 16 == 0, ..f }
}

/// Flags after comparing the accumulator `a` with `n`.
pub open spec fn compare_flags(a: u8, n: u8) -> FlagsRegister {
    FlagsRegister { zero: a == n, subtract: true, half_carry: a % 16 < n % 16, carry: a < n }
}

/// Flags after a XOR that produced `result`.
pub open spec fn xor_flags(result: u8) -> FlagsRegister {
    FlagsRegister { zero: result == 0, subtract: false, half_carry: false, carry: false }
}

pub open spec fn bit_spec(s: CpuState, n: u8, source: BitSource) -> CpuState {
    let v = match source {
        BitSource::H => s.registers.h,
    };
    s.with_flags(FlagsRegister { zero: !bit_is_set(v, n), subtract: false, half_carry: true, ..s.flags })
}

pub open spec fn call_spec(s: CpuState) -> CpuState {
    let target = s.imm16();
    let after = s.advance(2);
    let ret = after.pc;
    CpuState { pc: target, ..after.push(high_of(ret)).push(low_of(ret)) }
}

pub open spec fn ret_spec(s: CpuState) -> CpuState {
    CpuState { pc: pair_of(s.at(wrap16(s.sp + 1)), s.at(s.sp)), ..s.pop().pop() }
}

pub open spec fn compare_spec(s: CpuState, source: CompareSource) -> CpuState {
    match source {
        CompareSource::HL_ => s.with_flags(compare_flags(s.registers.a, s.at(s.registers.hl()))),
        CompareSource::N8 => s.advance(1).with_flags(compare_flags(s.registers.a, s.imm8())),
    }
}

pub open spec fn dec_spec(s: CpuState, target: DecrementTarget) -> CpuState {
    let r = s.registers;
    let (v, regs) = match target {
        DecrementTarget::A => (r.a, Registers { a: wrap8(r.a - 1), ..r }),
        DecrementTarget::B => (r.b, Registers { b: wrap8(r.b - 1), ..r }),
        DecrementTarget::C => (r.c, Registers { c: wrap8(r.c - 1), ..r }),
        DecrementTarget::D => (r.d, Registers { d: wrap8(r.d - 1), ..r }),
        DecrementTarget::E => (r.e, Registers { e: wrap8(r.e - 1), ..r }),
    };
    s.with_registers(regs).with_flags(dec_flags(s.flags, v))
}

pub open spec fn inc_spec(s: CpuState, target: IncTarget) -> CpuState {
    let r = s.registers;
    match target {
        IncTarget::B => s.with_registers(Registers { b: wrap8(r.b + 1), ..r }).with_flags(
            inc_flags(s.flags, r.b),
        ),
        IncTarget::C => s.with_registers(Registers { c: wrap8(r.c + 1), ..r }).with_flags(
            inc_flags(s.flags, r.c),
        ),
        IncTarget::H => s.with_registers(Registers { h: wrap8(r.h + 1), ..r }).with_flags(
            inc_flags(s.flags, r.h),
        ),
        IncTarget::DE => s.with_registers(r.with_de(wrap16(r.de() + 1))),
        IncTarget::HL => s.with_registers(r.with_hl(wrap16(r.hl() + 1))),
    }
}

pub open spec fn jump_taken(s: CpuState, condition: JumpCondition) -> bool {
    match condition {
        JumpCondition::Always => true,
        JumpCondition::NZ => !s.flags.zero,
        JumpCondition::Z => s.flags.zero,
    }
}

pub open spec fn jr_spec(s: CpuState, condition: JumpCondition) -> CpuState {
    if jump_taken(s, condition) {
        CpuState { pc: wrap16(s.pc + 1 + signed_of(s.imm8())), ..s }
    } else {
        s.advance(1)
    }
}

/// The value an LD reads, and the state after reading it.
pub open spec fn load_source_spec(s: CpuState, source: LoadSource) -> (u8, CpuState) {
    let r = s.registers;
    match source {
        LoadSource::A => (r.a, s),
        LoadSource::B => (r.b, s),
        LoadSource::E => (r.e, s),
        LoadSource::H => (r.h, s),
        LoadSource::L => (r.l, s),
        LoadSource::DE_ => (s.at(r.de()), s),
        LoadSource::N8 => (s.imm8(), s.advance(1)),
    }
}

/// The state after an LD stored `v`.
pub open spec fn load_target_spec(s: CpuState, target: LoadTarget, v: u8) -> CpuState {
    let r = s.registers;
    match target {
        LoadTarget::A => s.with_registers(Registers { a: v, ..r }),
        LoadTarget::B => s.with_registers(Registers { b: v, ..r }),
        LoadTarget::C => s.with_registers(Registers { c: v, ..r }),
        LoadTarget::D => s.with_registers(Registers { d: v, ..r }),
        LoadTarget::E => s.with_registers(Registers { e: v, ..r }),
        LoadTarget::H => s.with_registers(Registers { h: v, ..r }),
        LoadTarget::L => s.with_registers(Registers { l: v, ..r }),
        LoadTarget::HL_ => s.store(r.hl(), v),
        LoadTarget::HLD => s.store(r.hl(), v).with_registers(r.with_hl(wrap16(r.hl() - 1))),
        LoadTarget::HLI => s.store(r.hl(), v).with_registers(r.with_hl(wrap16(r.hl() + 1))),
        LoadTarget::N16_ => s.advance(2).store(s.imm16(), v),
    }
}

pub open spec fn ld_spec(s: CpuState, target: LoadTarget, source: LoadSource) -> CpuState {
    let (v, after) = load_source_spec(s, source);
    load_target_spec(after, target, v)
}

pub open spec fn ldh_spec(s: CpuState, target: LoadHTarget, source: LoadHSource) -> Option<CpuState> {
    let r = s.registers;
    match (target, source) {
        (LoadHTarget::C_, LoadHSource::A) => Some(s.store(high_page(r.c), r.a)),
        (LoadHTarget::N8_, LoadHSource::A) => Some(s.advance(1).store(high_page(s.imm8()), r.a)),
        (LoadHTarget::A, LoadHSource::N8_) => Some(
            s.advance(1).with_registers(Registers { a: s.at(high_page(s.imm8())), ..r }),
        ),
        _ => None,
    }
}

pub open spec fn ldn16_spec(s: CpuState, target: LoadTypeN16) -> CpuState {
    let v = s.imm16();
    let after = s.advance(2);
    match target {
        LoadTypeN16::DE => after.with_registers(s.registers.with_de(v)),
        LoadTypeN16::SP => CpuState { sp: v, ..after },
        LoadTypeN16::HL => after.with_registers(s.registers.with_hl(v)),
    }
}

pub open spec fn pop_spec(s: CpuState, target: PopTarget) -> CpuState {
    match target {
        PopTarget::BC => s.pop().pop().with_registers(
            s.registers.with_bc(pair_of(s.at(wrap16(s.sp + 1)), s.at(s.sp))),
        ),
    }
}

pub open spec fn push_spec(s: CpuState, target: PushTarget) -> CpuState {
    match target {
        PushTarget::BC => s.push(s.registers.b).push(s.registers.c),
    }
}

pub open spec fn rl_spec(s: CpuState, target: RotateTarget) -> CpuState {
    match target {
        RotateTarget::C => {
            let v = s.registers.c;
            let result = rotate_through_carry(v, s.flags.carry);
            s.with_registers(Registers { c: result, ..s.registers }).with_flags(
                FlagsRegister { zero: result == 0, subtract: false, half_carry: false, carry: v >= 0x80 },
            )
        },
    }
}

pub open spec fn rla_spec(s: CpuState) -> CpuState {
    let v = s.registers.a;
    s.with_registers(Registers { a: rotate_through_carry(v, s.flags.carry), ..s.registers }).with_flags(
        FlagsRegister { zero: false, subtract: false, half_carry: false, carry: v >= 0x80 },
    )
}

pub open spec fn xor_spec(s: CpuState, target: ArithmeticTarget, source: ArithmeticSource) -> Option<CpuState> {
    let r = s.registers;
    let operand = match source {
        ArithmeticSource::A => Some(r.a),
        ArithmeticSource::B => Some(r.b),
        ArithmeticSource::C => Some(r.c),
        ArithmeticSource::D => Some(r.d),
        ArithmeticSource::E => Some(r.e),
        ArithmeticSource::H => Some(r.h),
        ArithmeticSource::L => Some(r.l),
        ArithmeticSource::HL_ => Some(s.at(r.hl())),
        ArithmeticSource::HLI => None,
    };
    match (target, operand) {
        (ArithmeticTarget::A, Some(v)) => {
            let result = r.a ^ v;
            Some(s.with_registers(Registers { a: result, ..r }).with_flags(xor_flags(result)))
        },
        _ => None,
    }
}

/// The state after carrying out `ins`, or `None` where this engine has no
/// semantics for its operand combination.
pub open spec fn exec_spec(s: CpuState, ins: Instruction) -> Option<CpuState> {
    match ins {
        Instruction::ADD(_) => None,
        Instruction::SUB(_) => None,
        Instruction::BIT(n, source) => if n < 8 {
            Some(bit_spec(s, n, source))
        } else {
            None
        },
        Instruction::CALL => Some(call_spec(s)),
        Instruction::CP(source) => Some(compare_spec(s, source)),
        Instruction::DEC(target) => Some(dec_spec(s, target)),
        Instruction::INC(target) => Some(inc_spec(s, target)),
        Instruction::JR(condition) => Some(jr_spec(s, condition)),
        Instruction::LD(target, source) => Some(ld_spec(s, target, source)),
        Instruction::LDH(target, source) => ldh_spec(s, target, source),
        Instruction::LDN16(target) => Some(ldn16_spec(s, target)),
        Instruction::NOP => Some(s),
        Instruction::POP(target) => Some(pop_spec(s, target)),
        Instruction::PUSH(target) => Some(push_spec(s, target)),
        Instruction::RET => Some(ret_spec(s)),
        Instruction::RL(target) => Some(rl_spec(s, target)),
        Instruction::RLA => Some(rla_spec(s)),
        Instruction::XOR(target, source) => xor_spec(s, target, source),
    }
}

/// The outcome of executing `ins`: the new state and `Ok`, or the state
/// unchanged and the error for an operand combination without semantics.
pub open spec fn execute_outcome(s: CpuState, ins: Instruction) -> (CpuState, Result<(), StepError>) {
    match exec_spec(s, ins) {
        Some(t) => (t, Ok(())),
        None => (s, Err(StepError::Unimplemented(ins))),
    }
}

/// The opcode fetched at the program counter, whether it came after the
/// prefix byte, and the state with the program counter past it.
pub open spec fn fetch_spec(s: CpuState) -> (u8, bool, CpuState) {
    if s.imm8() == PREFIX_BYTE {
        (s.at(wrap16(s.pc + 1)), true, s.advance(2))
    } else {
        (s.imm8(), false, s.advance(1))
    }
}

/// One fetch-decode-execute cycle.
pub open spec fn step_spec(s: CpuState) -> (CpuState, Result<(), StepError>) {
    let (opcode, prefixed, after) = fetch_spec(s);
    match decode_spec(opcode, prefixed) {
        None => (after, Err(StepError::UnknownOpcode { opcode, prefixed })),
        Some(ins) => execute_outcome(after, ins),
    }
}

/// XOR of the accumulator with itself clears it, sets the zero flag and clears
/// the other flags, whatever the accumulator held.
pub proof fn lemma_xor_self_clears(s: CpuState)
    ensures
        execute_outcome(s, Instruction::XOR(ArithmeticTarget::A, ArithmeticSource::A)) == (
            s.with_registers(Registers { a: 0, ..s.registers }).with_flags(
                FlagsRegister { zero: true, subtract: false, half_carry: false, carry: false },
            ),
            Ok::<(), StepError>(()),
        ),
{
    let a = s.registers.a;
    assert(a ^ a == 0) by (bit_vector);
}

/// A CALL followed by a RET resumes right after the CALL's operand with the
/// stack pointer where it was; the return address sits on the stack high byte
/// above low byte.
pub proof fn lemma_call_then_ret(s: CpuState)
    requires
        s.mem.len() == MEMORY_SIZE,
    ensures
        ({
            let called = call_spec(s);
            let ret = wrap16(s.pc + 2);
            &&& called.sp == wrap16(s.sp - 2)
            &&& called.pc == s.imm16()
            &&& called.at(wrap16(s.sp - 1)) == high_of(ret)
            &&& called.at(wrap16(s.sp - 2)) == low_of(ret)
            &&& ret_spec(called).pc == ret
            &&& ret_spec(called).sp == s.sp
        }),
{
    let ret = wrap16(s.pc + 2);
    assert(pair_of(high_of(ret), low_of(ret)) == ret);
}

/// The processor: registers, flags, program counter, stack pointer and bus.
pub struct CPU {
    pub registers: Registers,
    pub sp: u16,
    pub pc: u16,
    pub flags_register: FlagsRegister,
    pub bus: MemoryBus,
}

impl View for CPU {
    type V = CpuState;

    open spec fn view(&self) -> CpuState {
        CpuState {
            registers: self.registers,
            flags: self.flags_register,
            pc: self.pc,
            sp: self.sp,
            mem: self.bus@,
        }
    }
}

impl CPU {
    /// A processor with every register, flag, the program counter and the
    /// stack pointer at zero, and a zero-filled bus.
    pub fn new() -> (r: CPU)
        ensures
            r.registers == (Registers { a: 0, b: 0, c: 0, d: 0, e: 0, f: 0, h: 0, l: 0 }),
            r.flags_register == (FlagsRegister { zero: false, subtract: false, half_carry: false, carry: false }),
            r.pc == 0,
            r.sp == 0,
            r.bus@ == Seq::new(MEMORY_SIZE as nat, |i: int| 0u8),
    {
        CPU {
            registers: Registers::new(),
            flags_register: FlagsRegister::new(),
            sp: 0,
            pc: 0,
            bus: MemoryBus::new(),
        }
    }

    /// Reads the byte at the program counter and moves past it.
    fn fetch_byte(&mut self) -> (r: u8)
        ensures
            r == old(self)@.imm8(),
            final(self)@ == old(self)@.advance(1),
    {
        let r = self.bus.read_byte(self.pc);
        self.pc = self.pc.wrapping_add(1);
        r
    }

    /// Reads the little-endian word at the program counter and moves past it.
    fn fetch_word(&mut self) -> (r: u16)
        ensures
            r == old(self)@.imm16(),
            final(self)@ == old(self)@.advance(2),
    {
        let low = self.fetch_byte();
        let high = self.fetch_byte();
        combine(high, low)
    }

    fn push_byte(&mut self, v: u8)
        ensures
            final(self)@ == old(self)@.push(v),
    {
        self.sp = self.sp.wrapping_sub(1);
        self.bus.write_byte(self.sp, v);
    }

    fn pop_byte(&mut self) -> (r: u8)
        ensures
            r == old(self)@.at(old(self).sp),
            final(self)@ == old(self)@.pop(),
    {
        let r = self.bus.read_byte(self.sp);
        self.sp = self.sp.wrapping_add(1);
        r
    }

    fn execute_bit(&mut self, n: u8, source: BitSource)
        requires
            n < 8,
        ensures
            final(self)@ == bit_spec(old(self)@, n, source),
    {
        let v = match source {
            BitSource::H => self.registers.h,
        };
        self.flags_register.zero = (v >> n) & 1u8 != 1u8;
        self.flags_register.subtract = false;
        self.flags_register.half_carry = true;
    }

    fn execute_call(&mut self)
        ensures
            final(self)@ == call_spec(old(self)@),
    {
        let target = self.fetch_word();
        let (high, low) = split(self.pc);
        self.push_byte(high);
        self.push_byte(low);
        self.pc = target;
    }

    fn execute_ret(&mut self)
        ensures
            final(self)@ == ret_spec(old(self)@),
    {
        let low = self.pop_byte();
        let high = self.pop_byte();
        self.pc = combine(high, low);
    }

    fn execute_compare(&mut self, source: CompareSource)
        ensures
            final(self)@ == compare_spec(old(self)@, source),
    {
        let n = match source {
            CompareSource::HL_ => self.bus.read_byte(self.registers.get_hl()),
            CompareSource::N8 => self.fetch_byte(),
        };
        let a = self.registers.a;
        self.flags_register = FlagsRegister {
            zero: a == n,
            subtract: true,
            half_carry: a % 16 < n % 16,
            carry: a < n,
        };
    }

    fn execute_dec(&mut self, target: DecrementTarget)
        ensures
            final(self)@ == dec_spec(old(self)@, target),
    {
        let v = match target {
            DecrementTarget::A => self.registers.a,
            DecrementTarget::B => self.registers.b,
            DecrementTarget::C => self.registers.c,
            DecrementTarget::D => self.registers.d,
            DecrementTarget::E => self.registers.e,
        };
        let result = v.wrapping_sub(1);
        match target {
            DecrementTarget::A => self.registers.a = result,
            DecrementTarget::B => self.registers.b = result,
            DecrementTarget::C => self.registers.c = result,
            DecrementTarget::D => self.registers.d = result,
            DecrementTarget::E => self.registers.e = result,
        }
        self.flags_register.zero = result == 0;
        self.flags_register.subtract = true;
        self.flags_register.half_carry = v % 16 == 0;
    }

    /// Increments an 8-bit register value and sets the flags accordingly.
    fn increment_byte(&mut self, v: u8) -> (r: u8)
        ensures
            r == wrap8(v + 1),
            final(self)@ == old(self)@.with_flags(inc_flags(old(self).flags_register, v)),
    {
        let result = v.wrapping_add(1);
        self.flags_register.zero = result == 0;
        self.flags_register.subtract = false;
        self.flags_register.half_carry = v % 16 == 15;
        result
    }

    fn execute_inc(&mut self, target: IncTarget)
        ensures
            final(self)@ == inc_spec(old(self)@, target),
    {
        match target {
            IncTarget::B => {
                let v = self.registers.b;
                self.registers.b = self.increment_byte(v);
            },
            IncTarget::C => {
                let v = self.registers.c;
                self.registers.c = self.increment_byte(v);
            },
            IncTarget::H => {
                let v = self.registers.h;
                self.registers.h = self.increment_byte(v);
            },
            IncTarget::DE => {
                let de = self.registers.get_de();
                self.registers.set_de(de.wrapping_add(1));
            },
            IncTarget::HL => {
                let hl = self.registers.get_hl();
                self.registers.set_hl(hl.wrapping_add(1));
            },
        }
    }

    fn execute_jr(&mut self, condition: JumpCondition)
        ensures
            final(self)@ == jr_spec(old(self)@, condition),
    {
        let taken = match condition {
            JumpCondition::Always => true,
            JumpCondition::NZ => !self.flags_register.zero,
            JumpCondition::Z => self.flags_register.zero,
        };
        let distance = self.bus.read_signed_byte(self.pc);
        self.pc = self.pc.wrapping_add(1);
        if taken {
            self.pc = self.pc.wrapping_add_signed(distance as i16);
        }
    }

    fn load_source(&mut self, source: LoadSource) -> (r: u8)
        ensures
            (r, final(self)@) == load_source_spec(old(self)@, source),
    {
        match source {
            LoadSource::A => self.registers.a,
            LoadSource::B => self.registers.b,
            LoadSource::E => self.registers.e,
            LoadSource::H => self.registers.h,
            LoadSource::L => self.registers.l,
            LoadSource::DE_ => self.bus.read_byte(self.registers.get_de()),
            LoadSource::N8 => self.fetch_byte(),
        }
    }

    /// Writes `v` to the byte that HL addresses and returns HL.
    fn store_at_hl(&mut self, v: u8) -> (r: u16)
        ensures
            r == old(self).registers.hl(),
            final(self)@ == old(self)@.store(r, v),
    {
        let hl = self.registers.get_hl();
        self.bus.write_byte(hl, v);
        hl
    }

    fn load_target(&mut self, target: LoadTarget, v: u8)
        ensures
            final(self)@ == load_target_spec(old(self)@, target, v),
    {
        match target {
            LoadTarget::A => self.registers.a = v,
            LoadTarget::B => self.registers.b = v,
            LoadTarget::C => self.registers.c = v,
            LoadTarget::D => self.registers.d = v,
            LoadTarget::E => self.registers.e = v,
            LoadTarget::H => self.registers.h = v,
            LoadTarget::L => self.registers.l = v,
            LoadTarget::HL_ => {
                self.store_at_hl(v);
            },
            LoadTarget::HLD => {
                let hl = self.store_at_hl(v);
                self.registers.set_hl(hl.wrapping_sub(1));
            },
            LoadTarget::HLI => {
                let hl = self.store_at_hl(v);
                self.registers.set_hl(hl.wrapping_add(1));
            },
            LoadTarget::N16_ => {
                let address = self.fetch_word();
                self.bus.write_byte(address, v);
            },
        }
    }

    fn execute_ldh(&mut self, target: LoadHTarget, source: LoadHSource) -> (r: bool)
        ensures
            match ldh_spec(old(self)@, target, source) {
                Some(t) => r && final(self)@ == t,
                None => !r && final(self)@ == old(self)@,
            },
    {
        match (target, source) {
            (LoadHTarget::C_, LoadHSource::A) => {
                let address = 0xFF00u16 + self.registers.c as u16;
                self.bus.write_byte(address, self.registers.a);
                true
            },
            (LoadHTarget::N8_, LoadHSource::A) => {
                let n = self.fetch_byte();
                self.bus.write_byte(0xFF00u16 + n as u16, self.registers.a);
                true
            },
            (LoadHTarget::A, LoadHSource::N8_) => {
                let n = self.fetch_byte();
                self.registers.a = self.bus.read_byte(0xFF00u16 + n as u16);
                true
            },
            _ => false,
        }
    }

    fn execute_ldn16(&mut self, target: LoadTypeN16)
        ensures
            final(self)@ == ldn16_spec(old(self)@, target),
    {
        let v = self.fetch_word();
        match target {
            LoadTypeN16::DE => self.registers.set_de(v),
            LoadTypeN16::SP => self.sp = v,
            LoadTypeN16::HL => self.registers.set_hl(v),
        }
    }

    fn execute_pop(&mut self, target: PopTarget)
        ensures
            final(self)@ == pop_spec(old(self)@, target),
    {
        match target {
            PopTarget::BC => {
                let low = self.pop_byte();
                let high = self.pop_byte();
                self.registers.c = low;
                self.registers.b = high;
            },
        }
    }

    fn execute_push(&mut self, target: PushTarget)
        ensures
            final(self)@ == push_spec(old(self)@, target),
    {
        match target {
            PushTarget::BC => {
                let high = self.registers.b;
                let low = self.registers.c;
                self.push_byte(high);
                self.push_byte(low);
            },
        }
    }

    /// Rotates `v` left through the carry flag and sets the other flags; the
    /// zero flag follows the result only where `zero_from_result` holds.
    fn rotate_left(&mut self, v: u8, zero_from_result: bool) -> (r: u8)
        ensures
            r == rotate_through_carry(v, old(self).flags_register.carry),
            final(self)@ == old(self)@.with_flags(
                FlagsRegister {
                    zero: zero_from_result && r == 0,
                    subtract: false,
                    half_carry: false,
                    carry: v >= 0x80,
                },
            ),
    {
        let carry_in: u8 = if self.flags_register.carry { 1 } else { 0 };
        let result = (v << 1u8) | carry_in;
        self.flags_register.zero = zero_from_result && result == 0;
        self.flags_register.subtract = false;
        self.flags_register.half_carry = false;
        self.flags_register.carry = v >= 0x80;
        result
    }

    fn execute_xor(&mut self, target: ArithmeticTarget, source: ArithmeticSource) -> (r: bool)
        ensures
            match xor_spec(old(self)@, target, source) {
                Some(t) => r && final(self)@ == t,
                None => !r && final(self)@ == old(self)@,
            },
    {
        let v = match source {
            ArithmeticSource::A => self.registers.a,
            ArithmeticSource::B => self.registers.b,
            ArithmeticSource::C => self.registers.c,
            ArithmeticSource::D => self.registers.d,
            ArithmeticSource::E => self.registers.e,
            ArithmeticSource::H => self.registers.h,
            ArithmeticSource::L => self.registers.l,
            ArithmeticSource::HL_ => self.bus.read_byte(self.registers.get_hl()),
            ArithmeticSource::HLI => {
                return false;
            },
        };
        match target {
            ArithmeticTarget::A => {
                let result = self.registers.a ^ v;
                self.registers.a = result;
                self.flags_register = FlagsRegister {
                    zero: result == 0,
                    subtract: false,
                    half_carry: false,
                    carry: false,
                };
                true
            },
            _ => false,
        }
    }

    /// Carries out one decoded instruction. An operand combination that this
    /// engine has no semantics for is reported and leaves the state untouched.
    pub fn execute(&mut self, instruction: Instruction) -> (r: Result<(), StepError>)
        ensures
            (final(self)@, r) == execute_outcome(old(self)@, instruction),
    {
        let done = match instruction {
            Instruction::BIT(n, source) => {
                if n < 8 {
                    self.execute_bit(n, source);
                    true
                } else {
                    false
                }
            },
            Instruction::CALL => {
                self.execute_call();
                true
            },
            Instruction::CP(source) => {
                self.execute_compare(source);
                true
            },
            Instruction::DEC(target) => {
                self.execute_dec(target);
                true
            },
            Instruction::INC(target) => {
                self.execute_inc(target);
                true
            },
            Instruction::JR(condition) => {
                self.execute_jr(condition);
                true
            },
            Instruction::LD(target, source) => {
                let v = self.load_source(source);
                self.load_target(target, v);
                true
            },
            Instruction::LDH(target, source) => self.execute_ldh(target, source),
            Instruction::LDN16(target) => {
                self.execute_ldn16(target);
                true
            },
            Instruction::NOP => true,
            Instruction::POP(target) => {
                self.execute_pop(target);
                true
            },
            Instruction::PUSH(target) => {
                self.execute_push(target);
                true
            },
            Instruction::RET => {
                self.execute_ret();
                true
            },
            Instruction::RL(target) => {
                match target {
                    RotateTarget::C => {
                        let v = self.registers.c;
                        self.registers.c = self.rotate_left(v, true);
                    },
                }
                true
            },
            Instruction::RLA => {
                let v = self.registers.a;
                self.registers.a = self.rotate_left(v, false);
                true
            },
            Instruction::XOR(target, source) => self.execute_xor(target, source),
            Instruction::ADD(_) | Instruction::SUB(_) => false,
        };
        if done {
            Ok(())
        } else {
            Err(StepError::Unimplemented(instruction))
        }
    }

    /// One fetch-decode-execute cycle: reads the opcode at the program counter
    /// (a second byte after the prefix byte), moves past it, decodes and executes.
    pub fn step(&mut self) -> (r: Result<(), StepError>)
        ensures
            (final(self)@, r) == step_spec(old(self)@),
    {
        let mut opcode = self.fetch_byte();
        let prefixed = opcode == PREFIX_BYTE;
        if prefixed {
            opcode = self.fetch_byte();
        }
        match Instruction::from_byte(opcode, prefixed) {
            Some(instruction) => self.execute(instruction),
            None => Err(StepError::UnknownOpcode { opcode, prefixed }),
        }
    }

    /// Writes `bytes` to the bus from address 0 on.
    pub fn load_bootstrap(&mut self, bytes: &[u8])
        requires
            bytes@.len() <= MEMORY_SIZE,
        ensures
            final(self)@ == (CpuState { mem: written(old(self).bus@, 0, bytes@), ..old(self)@ }),
    {
        self.bus.write_array(0, bytes);
    }
}

impl Default for CPU {
    fn default() -> (r: CPU)
        ensures
            r.registers == (Registers { a: 0, b: 0, c: 0, d: 0, e: 0, f: 0, h: 0, l: 0 }),
            r.flags_register == (FlagsRegister { zero: false, subtract: false, half_carry: false, carry: false }),
            r.pc == 0,
            r.sp == 0,
            r.bus@ == Seq::new(MEMORY_SIZE as nat, |i: int| 0u8),
    {
        CPU::new()
    }
}

} // verus!
