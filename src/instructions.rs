use vstd::prelude::*;

verus! {

/// One decoded instruction: an operation and its operand selectors.
#[derive(Clone, Copy, Debug, PartialEq, Eq, Structural)]
pub enum Instruction {
    ADD(ArithmeticSource),
    BIT(u8, BitSource),
    CALL,
    CP(CompareSource),
    DEC(DecrementTarget),
    INC(IncTarget),
    JR(JumpCondition),
    LD(LoadTarget, LoadSource),
    LDH(LoadHTarget, LoadHSource),
    LDN16(LoadTypeN16),
    NOP,
    POP(PopTarget),
    PUSH(PushTarget),
    RET,
    RL(RotateTarget),
    RLA,
    SUB(ArithmeticSource),
    XOR(ArithmeticTarget, ArithmeticSource),
}

/// Destination register of a logic operation.
#[derive(Clone, Copy, Debug, PartialEq, Eq, Structural)]
pub enum ArithmeticTarget {
    A,
    B,
    C,
    D,
    E,
    H,
    L,
}

/// Operand of an arithmetic or logic operation; `HL_` is the byte at HL.
#[derive(Clone, Copy, Debug, PartialEq, Eq, Structural)]
#[allow(non_camel_case_types)]
pub enum ArithmeticSource {
    A,
    B,
    C,
    D,
    E,
    H,
    L,
    HL_,
    HLI,
}

/// Register tested by BIT.
#[derive(Clone, Copy, Debug, PartialEq, Eq, Structural)]
pub enum BitSource {
    H,
}

/// Operand of CP: the byte at HL or an immediate byte.
#[derive(Clone, Copy, Debug, PartialEq, Eq, Structural)]
#[allow(non_camel_case_types)]
pub enum CompareSource {
    HL_,
    N8,
}

/// Register decremented by DEC.
#[derive(Clone, Copy, Debug, PartialEq, Eq, Structural)]
pub enum DecrementTarget {
    A,
    B,
    C,
    D,
    E,
}

/// Register or pair incremented by INC.
#[derive(Clone, Copy, Debug, PartialEq, Eq, Structural)]
pub enum IncTarget {
    B,
    C,
    H,
    DE,
    HL,
}

/// Condition of a relative jump.
#[derive(Clone, Copy, Debug, PartialEq, Eq, Structural)]
pub enum JumpCondition {
    Always,
    NZ,
    Z,
}

/// Destination of LD; `HL_` is the byte at HL, `HLD`/`HLI` also step HL afterwards, `N16_` is the byte at an immediate address.
#[derive(Clone, Copy, Debug, PartialEq, Eq, Structural)]
#[allow(non_camel_case_types)]
pub enum LoadTarget {
    A,
    B,
    C,
    D,
    E,
    H,
    L,
    HL_,
    HLD,
    HLI,
    N16_,
}

/// Source of LD; `DE_` is the byte at DE, `N8` an immediate byte.
#[derive(Clone, Copy, Debug, PartialEq, Eq, Structural)]
#[allow(non_camel_case_types)]
pub enum LoadSource {
    A,
    B,
    E,
    H,
    L,
    DE_,
    N8,
}

/// Destination of LDH; `C_` and `N8_` address the page 0xFF00.
#[derive(Clone, Copy, Debug, PartialEq, Eq, Structural)]
#[allow(non_camel_case_types)]
pub enum LoadHTarget {
    A,
    C_,
    N8_,
}

/// Source of LDH; `N8_` is the byte at 0xFF00 plus an immediate.
#[derive(Clone, Copy, Debug, PartialEq, Eq, Structural)]
#[allow(non_camel_case_types)]
pub enum LoadHSource {
    A,
    N8_,
}

/// Destination of a 16-bit immediate load.
#[derive(Clone, Copy, Debug, PartialEq, Eq, Structural)]
pub enum LoadTypeN16 {
    DE,
    SP,
    HL,
}

/// Register rotated by RL.
#[derive(Clone, Copy, Debug, PartialEq, Eq, Structural)]
pub enum RotateTarget {
    C,
}

/// Pair filled by POP.
#[derive(Clone, Copy, Debug, PartialEq, Eq, Structural)]
pub enum PopTarget {
    BC,
}

/// Pair stored by PUSH.
#[derive(Clone, Copy, Debug, PartialEq, Eq, Structural)]
pub enum PushTarget {
    BC,
}

/// The byte that introduces the prefixed opcode space.
pub const PREFIX_BYTE: u8 = 0xCB;

/// The opcode table of the unprefixed space.
pub open spec fn unprefixed_table(byte: u8) -> Option<Instruction> {
    match byte {
        0x00 => Some(Instruction::NOP),
        0x04 => Some(Instruction::INC(IncTarget::B)),
        0x05 => Some(Instruction::DEC(DecrementTarget::B)),
        0x06 => Some(Instruction::LD(LoadTarget::B, LoadSource::N8)),
        0x0c => Some(Instruction::INC(IncTarget::C)),
        0x0d => Some(Instruction::DEC(DecrementTarget::C)),
        0x0e => Some(Instruction::LD(LoadTarget::C, LoadSource::N8)),
        0x11 => Some(Instruction::LDN16(LoadTypeN16::DE)),
        0x13 => Some(Instruction::INC(IncTarget::DE)),
        0x15 => Some(Instruction::DEC(DecrementTarget::D)),
        0x16 => Some(Instruction::LD(LoadTarget::D, LoadSource::N8)),
        0x17 => Some(Instruction::RLA),
        0x18 => Some(Instruction::JR(JumpCondition::Always)),
        0x1a => Some(Instruction::LD(LoadTarget::A, LoadSource::DE_)),
        0x1d => Some(Instruction::DEC(DecrementTarget::E)),
        0x1e => Some(Instruction::LD(LoadTarget::E, LoadSource::N8)),
        0x20 => Some(Instruction::JR(JumpCondition::NZ)),
        0x21 => Some(Instruction::LDN16(LoadTypeN16::HL)),
        0x22 => Some(Instruction::LD(LoadTarget::HLI, LoadSource::A)),
        0x23 => Some(Instruction::INC(IncTarget::HL)),
        0x24 => Some(Instruction::INC(IncTarget::H)),
        0x28 => Some(Instruction::JR(JumpCondition::Z)),
        0x2e => Some(Instruction::LD(LoadTarget::L, LoadSource::N8)),
        0x31 => Some(Instruction::LDN16(LoadTypeN16::SP)),
        0x32 => Some(Instruction::LD(LoadTarget::HLD, LoadSource::A)),
        0x3d => Some(Instruction::DEC(DecrementTarget::A)),
        0x3e => Some(Instruction::LD(LoadTarget::A, LoadSource::N8)),
        0x4f => Some(Instruction::LD(LoadTarget::C, LoadSource::A)),
        0x57 => Some(Instruction::LD(LoadTarget::D, LoadSource::A)),
        0x67 => Some(Instruction::LD(LoadTarget::H, LoadSource::A)),
        0x77 => Some(Instruction::LD(LoadTarget::HL_, LoadSource::A)),
        0x78 => Some(Instruction::LD(LoadTarget::A, LoadSource::B)),
        0x7b => Some(Instruction::LD(LoadTarget::A, LoadSource::E)),
        0x7c => Some(Instruction::LD(LoadTarget::A, LoadSource::H)),
        0x7d => Some(Instruction::LD(LoadTarget::A, LoadSource::L)),
        0x86 => Some(Instruction::ADD(ArithmeticSource::HL_)),
        0x90 => Some(Instruction::SUB(ArithmeticSource::B)),
        0xaf => Some(Instruction::XOR(ArithmeticTarget::A, ArithmeticSource::A)),
        0xbe => Some(Instruction::CP(CompareSource::HL_)),
        0xc1 => Some(Instruction::POP(PopTarget::BC)),
        0xc5 => Some(Instruction::PUSH(PushTarget::BC)),
        0xc9 => Some(Instruction::RET),
        0xcd => Some(Instruction::CALL),
        0xe0 => Some(Instruction::LDH(LoadHTarget::N8_, LoadHSource::A)),
        0xe2 => Some(Instruction::LDH(LoadHTarget::C_, LoadHSource::A)),
        0xea => Some(Instruction::LD(LoadTarget::N16_, LoadSource::A)),
        0xf0 => Some(Instruction::LDH(LoadHTarget::A, LoadHSource::N8_)),
        0xfe => Some(Instruction::CP(CompareSource::N8)),
        _ => None,
    }
}

/// The opcode table of the space reached through the prefix byte.
pub open spec fn prefixed_table(byte: u8) -> Option<Instruction> {
    match byte {
        0x11 => Some(Instruction::RL(RotateTarget::C)),
        0x7c => Some(Instruction::BIT(7, BitSource::H)),
        _ => None,
    }
}

/// The instruction that `byte` denotes in the space selected by `prefixed`.
pub open spec fn decode_spec(byte: u8, prefixed: bool) -> Option<Instruction> {
    if prefixed {
        prefixed_table(byte)
    } else {
        unprefixed_table(byte)
    }
}

/// How an instruction is written: whether it follows the prefix byte, and its opcode.
/// `None` for an operand combination that has no encoding.
pub open spec fn encoding(i: Instruction) -> Option<(bool, u8)> {
    match i {
        Instruction::NOP => Some((false, 0x00)),
        Instruction::INC(IncTarget::B) => Some((false, 0x04)),
        Instruction::DEC(DecrementTarget::B) => Some((false, 0x05)),
        Instruction::LD(LoadTarget::B, LoadSource::N8) => Some((false, 0x06)),
        Instruction::INC(IncTarget::C) => Some((false, 0x0c)),
        Instruction::DEC(DecrementTarget::C) => Some((false, 0x0d)),
        Instruction::LD(LoadTarget::C, LoadSource::N8) => Some((false, 0x0e)),
        Instruction::LDN16(LoadTypeN16::DE) => Some((false, 0x11)),
        Instruction::INC(IncTarget::DE) => Some((false, 0x13)),
        Instruction::DEC(DecrementTarget::D) => Some((false, 0x15)),
        Instruction::LD(LoadTarget::D, LoadSource::N8) => Some((false, 0x16)),
        Instruction::RLA => Some((false, 0x17)),
        Instruction::JR(JumpCondition::Always) => Some((false, 0x18)),
        Instruction::LD(LoadTarget::A, LoadSource::DE_) => Some((false, 0x1a)),
        Instruction::DEC(DecrementTarget::E) => Some((false, 0x1d)),
        Instruction::LD(LoadTarget::E, LoadSource::N8) => Some((false, 0x1e)),
        Instruction::JR(JumpCondition::NZ) => Some((false, 0x20)),
        Instruction::LDN16(LoadTypeN16::HL) => Some((false, 0x21)),
        Instruction::LD(LoadTarget::HLI, LoadSource::A) => Some((false, 0x22)),
        Instruction::INC(IncTarget::HL) => Some((false, 0x23)),
        Instruction::INC(IncTarget::H) => Some((false, 0x24)),
        Instruction::JR(JumpCondition::Z) => Some((false, 0x28)),
        Instruction::LD(LoadTarget::L, LoadSource::N8) => Some((false, 0x2e)),
        Instruction::LDN16(LoadTypeN16::SP) => Some((false, 0x31)),
        Instruction::LD(LoadTarget::HLD, LoadSource::A) => Some((false, 0x32)),
        Instruction::DEC(DecrementTarget::A) => Some((false, 0x3d)),
        Instruction::LD(LoadTarget::A, LoadSource::N8) => Some((false, 0x3e)),
        Instruction::LD(LoadTarget::C, LoadSource::A) => Some((false, 0x4f)),
        Instruction::LD(LoadTarget::D, LoadSource::A) => Some((false, 0x57)),
        Instruction::LD(LoadTarget::H, LoadSource::A) => Some((false, 0x67)),
        Instruction::LD(LoadTarget::HL_, LoadSource::A) => Some((false, 0x77)),
        Instruction::LD(LoadTarget::A, LoadSource::B) => Some((false, 0x78)),
        Instruction::LD(LoadTarget::A, LoadSource::E) => Some((false, 0x7b)),
        Instruction::LD(LoadTarget::A, LoadSource::H) => Some((false, 0x7c)),
        Instruction::LD(LoadTarget::A, LoadSource::L) => Some((false, 0x7d)),
        Instruction::ADD(ArithmeticSource::HL_) => Some((false, 0x86)),
        Instruction::SUB(ArithmeticSource::B) => Some((false, 0x90)),
        Instruction::XOR(ArithmeticTarget::A, ArithmeticSource::A) => Some((false, 0xaf)),
        Instruction::CP(CompareSource::HL_) => Some((false, 0xbe)),
        Instruction::POP(PopTarget::BC) => Some((false, 0xc1)),
        Instruction::PUSH(PushTarget::BC) => Some((false, 0xc5)),
        Instruction::RET => Some((false, 0xc9)),
        Instruction::CALL => Some((false, 0xcd)),
        Instruction::LDH(LoadHTarget::N8_, LoadHSource::A) => Some((false, 0xe0)),
        Instruction::LDH(LoadHTarget::C_, LoadHSource::A) => Some((false, 0xe2)),
        Instruction::LD(LoadTarget::N16_, LoadSource::A) => Some((false, 0xea)),
        Instruction::LDH(LoadHTarget::A, LoadHSource::N8_) => Some((false, 0xf0)),
        Instruction::CP(CompareSource::N8) => Some((false, 0xfe)),
        Instruction::RL(RotateTarget::C) => Some((true, 0x11)),
        Instruction::BIT(7, BitSource::H) => Some((true, 0x7c)),
        _ => None,
    }
}

/// A byte decodes to an instruction exactly when that instruction is written as
/// this byte; a byte that no instruction is written as decodes to nothing, never
/// to a default instruction.
pub proof fn lemma_decode_agrees_with_encoding(byte: u8, prefixed: bool)
    ensures
        forall|i: Instruction|
            #[trigger] encoding(i) == Some((prefixed, byte)) <==> decode_spec(byte, prefixed)
                == Some(i),
        decode_spec(byte, prefixed) is None <==> forall|i: Instruction|
            #[trigger] encoding(i) != Some((prefixed, byte)),
{
    assert forall|i: Instruction|
        #[trigger] encoding(i) == Some((prefixed, byte)) <==> decode_spec(byte, prefixed)
            == Some(i) by {
        match i {
            Instruction::BIT(n, _) => {},
            _ => {},
        }
    }
    if decode_spec(byte, prefixed) is Some {
        let i = decode_spec(byte, prefixed)->Some_0;
        assert(encoding(i) == Some((prefixed, byte)));
    }
}

impl Instruction {
    /// Decodes `byte` in the prefixed or the unprefixed opcode space.
    pub fn from_byte(byte: u8, prefixed: bool) -> (r: Option<Instruction>)
        ensures
            r == decode_spec(byte, prefixed),
    {
        if prefixed {
            Instruction::from_byte_prefixed(byte)
        } else {
            Instruction::from_byte_not_prefixed(byte)
        }
    }

    fn from_byte_prefixed(byte: u8) -> (r: Option<Instruction>)
        ensures
            r == prefixed_table(byte),
    {
        match byte {
            0x11 => Some(Instruction::RL(RotateTarget::C)),
            0x7c => Some(Instruction::BIT(7, BitSource::H)),
            _ => None,
        }
    }

    fn from_byte_not_prefixed(byte: u8) -> (r: Option<Instruction>)
        ensures
            r == unprefixed_table(byte),
    {
        match byte {
            0x00 => Some(Instruction::NOP),
            0x04 => Some(Instruction::INC(IncTarget::B)),
            0x05 => Some(Instruction::DEC(DecrementTarget::B)),
            0x06 => Some(Instruction::LD(LoadTarget::B, LoadSource::N8)),
            0x0c => Some(Instruction::INC(IncTarget::C)),
            0x0d => Some(Instruction::DEC(DecrementTarget::C)),
            0x0e => Some(Instruction::LD(LoadTarget::C, LoadSource::N8)),
            0x11 => Some(Instruction::LDN16(LoadTypeN16::DE)),
            0x13 => Some(Instruction::INC(IncTarget::DE)),
            0x15 => Some(Instruction::DEC(DecrementTarget::D)),
            0x16 => Some(Instruction::LD(LoadTarget::D, LoadSource::N8)),
            0x17 => Some(Instruction::RLA),
            0x18 => Some(Instruction::JR(JumpCondition::Always)),
            0x1a => Some(Instruction::LD(LoadTarget::A, LoadSource::DE_)),
            0x1d => Some(Instruction::DEC(DecrementTarget::E)),
            0x1e => Some(Instruction::LD(LoadTarget::E, LoadSource::N8)),
            0x20 => Some(Instruction::JR(JumpCondition::NZ)),
            0x21 => Some(Instruction::LDN16(LoadTypeN16::HL)),
            0x22 => Some(Instruction::LD(LoadTarget::HLI, LoadSource::A)),
            0x23 => Some(Instruction::INC(IncTarget::HL)),
            0x24 => Some(Instruction::INC(IncTarget::H)),
            0x28 => Some(Instruction::JR(JumpCondition::Z)),
            0x2e => Some(Instruction::LD(LoadTarget::L, LoadSource::N8)),
            0x31 => Some(Instruction::LDN16(LoadTypeN16::SP)),
            0x32 => Some(Instruction::LD(LoadTarget::HLD, LoadSource::A)),
            0x3d => Some(Instruction::DEC(DecrementTarget::A)),
            0x3e => Some(Instruction::LD(LoadTarget::A, LoadSource::N8)),
            0x4f => Some(Instruction::LD(LoadTarget::C, LoadSource::A)),
            0x57 => Some(Instruction::LD(LoadTarget::D, LoadSource::A)),
            0x67 => Some(Instruction::LD(LoadTarget::H, LoadSource::A)),
            0x77 => Some(Instruction::LD(LoadTarget::HL_, LoadSource::A)),
            0x78 => Some(Instruction::LD(LoadTarget::A, LoadSource::B)),
            0x7b => Some(Instruction::LD(LoadTarget::A, LoadSource::E)),
            0x7c => Some(Instruction::LD(LoadTarget::A, LoadSource::H)),
            0x7d => Some(Instruction::LD(LoadTarget::A, LoadSource::L)),
            0x86 => Some(Instruction::ADD(ArithmeticSource::HL_)),
            0x90 => Some(Instruction::SUB(ArithmeticSource::B)),
            0xaf => Some(Instruction::XOR(ArithmeticTarget::A, ArithmeticSource::A)),
            0xbe => Some(Instruction::CP(CompareSource::HL_)),
            0xc1 => Some(Instruction::POP(PopTarget::BC)),
            0xc5 => Some(Instruction::PUSH(PushTarget::BC)),
            0xc9 => Some(Instruction::RET),
            0xcd => Some(Instruction::CALL),
            0xe0 => Some(Instruction::LDH(LoadHTarget::N8_, LoadHSource::A)),
            0xe2 => Some(Instruction::LDH(LoadHTarget::C_, LoadHSource::A)),
            0xea => Some(Instruction::LD(LoadTarget::N16_, LoadSource::A)),
            0xf0 => Some(Instruction::LDH(LoadHTarget::A, LoadHSource::N8_)),
            0xfe => Some(Instruction::CP(CompareSource::N8)),
            _ => None,
        }
    }
}

} // verus!
