//! Opcode decoding: the pure mapping from a raw opcode byte to a tagged
//! instruction value.
//!
//! The encoding has three tiers, selected by the high two bits of the byte:
//! `00` picks an implicit operation (the low six bits name it), `01` picks a
//! compact operation (bits 2-7 name it, the low two bits carry an embedded
//! operand), and a high bit of `1` picks an operanded operation (bits 1-7 name
//! it, the low bit selects the addressing mode). Byte `0x81` is a deliberate
//! gap: it never decodes. Bytes outside the tables decode to `None`, which the
//! execution engine treats as fatal.

use vstd::prelude::*;

verus! {

/// An operation whose full semantics are fixed by the opcode byte alone; it
/// takes no operand.
#[derive(Clone, Copy, Debug, PartialEq, Eq, Structural)]
pub enum ImplicitOp {
    NoOp,
    TestCarry,
    TestOverflow,
    InvertTest,
    BitwiseNot,
    Negate,
    Halt,
}

/// An operation with a 2-bit operand embedded in the low bits of the opcode
/// byte; the engine interprets the embedded bits as `bits + 1` (range 1..=4).
#[derive(Clone, Copy, Debug, PartialEq, Eq, Structural)]
pub enum CompactOp {
    Increment,
    Decrement,
    Skip,
    CondSkip,
    LeftShift,
    LeftShiftC,
    RightShiftUnsigned,
    RightShiftUnsignedC,
    RightShiftSigned,
}

/// An operation followed in memory by a 16-bit operand word, interpreted
/// according to the addressing mode in the opcode's low bit.
#[derive(Clone, Copy, Debug, PartialEq, Eq, Structural)]
pub enum OperandedOp {
    SetAcc,
    Load,
    Store,
    Jump,
    CondJump,
    /// The flag selects the with-carry variant.
    Add(bool),
    /// The flag selects the with-carry variant.
    Subtract(bool),
    BitwiseAnd,
    BitwiseOr,
    BitwiseXor,
    TestGtUnsigned,
    TestGtSigned,
    TestLtUnsigned,
    TestLtSigned,
    TestEqual,
}

/// How the operand word of an operanded instruction is used: as the effective
/// value itself (`Immediate`), or as an address whose contents are read to
/// produce the effective value (`Direct`).
#[derive(Clone, Copy, Debug, PartialEq, Eq, Structural)]
pub enum OperandMode {
    Immediate,
    Direct,
}

/// A decoded opcode byte: the operation together with its category and, where
/// the category carries one, its embedded operand bits or addressing mode.
#[derive(Clone, Copy, Debug, PartialEq, Eq, Structural)]
pub enum Opcode {
    Implicit(ImplicitOp),
    Compact(CompactOp, u8),
    Operanded(OperandedOp, OperandMode),
}

/// The implicit-operation table: an exact match on the whole opcode byte.
pub open spec fn spec_implicit_op(opcode: u8) -> Option<ImplicitOp> {
    if opcode == 0x00 {
        Some(ImplicitOp::NoOp)
    } else if opcode == 0x01 {
        Some(ImplicitOp::TestCarry)
    } else if opcode == 0x02 {
        Some(ImplicitOp::TestOverflow)
    } else if opcode == 0x03 {
        Some(ImplicitOp::InvertTest)
    } else if opcode == 0x04 {
        Some(ImplicitOp::BitwiseNot)
    } else if opcode == 0x05 {
        Some(ImplicitOp::Negate)
    } else if opcode == 0x3F {
        Some(ImplicitOp::Halt)
    } else {
        None
    }
}

/// The compact-operation table: an exact match on the opcode byte with its
/// low two bits (the embedded operand) masked off.
pub open spec fn spec_compact_op(opcode: u8) -> Option<CompactOp> {
    let selector = opcode & 0b1111_1100;
    if selector == 0x40 {
        Some(CompactOp::Increment)
    } else if selector == 0x44 {
        Some(CompactOp::Decrement)
    } else if selector == 0x48 {
        Some(CompactOp::Skip)
    } else if selector == 0x4C {
        Some(CompactOp::CondSkip)
    } else if selector == 0x6C {
        Some(CompactOp::LeftShift)
    } else if selector == 0x70 {
        Some(CompactOp::LeftShiftC)
    } else if selector == 0x74 {
        Some(CompactOp::RightShiftUnsigned)
    } else if selector == 0x78 {
        Some(CompactOp::RightShiftUnsignedC)
    } else if selector == 0x7C {
        Some(CompactOp::RightShiftSigned)
    } else {
        None
    }
}

/// The operanded-operation table: an exact match on the opcode byte with its
/// low bit (the addressing mode) masked off, except that `0x81` is a
/// deliberate gap and never decodes.
pub open spec fn spec_operanded_op(opcode: u8) -> Option<OperandedOp> {
    if opcode == 0x81 {
        None
    } else {
        let selector = opcode & 0b1111_1110;
        if selector == 0x80 {
            Some(OperandedOp::SetAcc)
        } else if selector == 0x82 {
            Some(OperandedOp::Load)
        } else if selector == 0x84 {
            Some(OperandedOp::Store)
        } else if selector == 0x86 {
            Some(OperandedOp::Jump)
        } else if selector == 0x88 {
            Some(OperandedOp::CondJump)
        } else if selector == 0x90 {
            Some(OperandedOp::Add(false))
        } else if selector == 0x92 {
            Some(OperandedOp::Add(true))
        } else if selector == 0x94 {
            Some(OperandedOp::Subtract(false))
        } else if selector == 0x96 {
            Some(OperandedOp::Subtract(true))
        } else if selector == 0x98 {
            Some(OperandedOp::BitwiseAnd)
        } else if selector == 0x9A {
            Some(OperandedOp::BitwiseOr)
        } else if selector == 0x9C {
            Some(OperandedOp::BitwiseXor)
        } else if selector == 0xA0 {
            Some(OperandedOp::TestGtUnsigned)
        } else if selector == 0xA2 {
            Some(OperandedOp::TestGtSigned)
        } else if selector == 0xA4 {
            Some(OperandedOp::TestLtUnsigned)
        } else if selector == 0xA6 {
            Some(OperandedOp::TestLtSigned)
        } else if selector == 0xA8 {
            Some(OperandedOp::TestEqual)
        } else {
            None
        }
    }
}

/// The addressing mode held in the low bit of an operanded opcode byte:
/// `0` is Immediate, `1` is Direct.
pub open spec fn spec_operand_mode(opcode: u8) -> OperandMode {
    if opcode & 0b0000_0001 == 0 {
        OperandMode::Immediate
    } else {
        OperandMode::Direct
    }
}

/// The whole decode mapping: classify the byte by its high two bits, then
/// look the operation up in the table of its tier. Total and deterministic;
/// bytes outside the tables map to `None`.
pub open spec fn spec_decode(opcode: u8) -> Option<Opcode> {
    if opcode & 0b1100_0000 == 0b0000_0000 {
        match spec_implicit_op(opcode) {
            Some(op) => Some(Opcode::Implicit(op)),
            None => None,
        }
    } else if opcode & 0b1100_0000 == 0b0100_0000 {
        match spec_compact_op(opcode) {
            Some(op) => Some(Opcode::Compact(op, opcode & 0b0000_0011)),
            None => None,
        }
    } else {
        match spec_operanded_op(opcode) {
            Some(op) => Some(Opcode::Operanded(op, spec_operand_mode(opcode))),
            None => None,
        }
    }
}

impl ImplicitOp {
    /// Look an implicit operation up by its full opcode byte.
    pub fn from_opcode(opcode: u8) -> (r: Option<ImplicitOp>)
        ensures
            r == spec_implicit_op(opcode),
    {
        match opcode {
            0x00 => Some(ImplicitOp::NoOp),
            0x01 => Some(ImplicitOp::TestCarry),
            0x02 => Some(ImplicitOp::TestOverflow),
            0x03 => Some(ImplicitOp::InvertTest),
            0x04 => Some(ImplicitOp::BitwiseNot),
            0x05 => Some(ImplicitOp::Negate),
            0x3F => Some(ImplicitOp::Halt),
            _ => None,
        }
    }
}

impl CompactOp {
    /// Look a compact operation up by its opcode byte; the low two bits (the
    /// embedded operand) do not take part in the selection.
    pub fn from_opcode(opcode: u8) -> (r: Option<CompactOp>)
        ensures
            r == spec_compact_op(opcode),
    {
        match opcode & 0b1111_1100 {
            0x40 => Some(CompactOp::Increment),
            0x44 => Some(CompactOp::Decrement),
            0x48 => Some(CompactOp::Skip),
            0x4C => Some(CompactOp::CondSkip),
            0x6C => Some(CompactOp::LeftShift),
            0x70 => Some(CompactOp::LeftShiftC),
            0x74 => Some(CompactOp::RightShiftUnsigned),
            0x78 => Some(CompactOp::RightShiftUnsignedC),
            0x7C => Some(CompactOp::RightShiftSigned),
            _ => None,
        }
    }
}

impl OperandedOp {
    /// Look an operanded operation up by its opcode byte; the low bit (the
    /// addressing mode) does not take part in the selection, except that the
    /// full byte `0x81` is a deliberate gap and never decodes.
    pub fn from_opcode(opcode: u8) -> (r: Option<OperandedOp>)
        ensures
            r == spec_operanded_op(opcode),
    {
        if opcode == 0x81 {
            return None;
        }
        match opcode & 0b1111_1110 {
            0x80 => Some(OperandedOp::SetAcc),
            0x82 => Some(OperandedOp::Load),
            0x84 => Some(OperandedOp::Store),
            0x86 => Some(OperandedOp::Jump),
            0x88 => Some(OperandedOp::CondJump),
            0x90 => Some(OperandedOp::Add(false)),
            0x92 => Some(OperandedOp::Add(true)),
            0x94 => Some(OperandedOp::Subtract(false)),
            0x96 => Some(OperandedOp::Subtract(true)),
            0x98 => Some(OperandedOp::BitwiseAnd),
            0x9A => Some(OperandedOp::BitwiseOr),
            0x9C => Some(OperandedOp::BitwiseXor),
            0xA0 => Some(OperandedOp::TestGtUnsigned),
            0xA2 => Some(OperandedOp::TestGtSigned),
            0xA4 => Some(OperandedOp::TestLtUnsigned),
            0xA6 => Some(OperandedOp::TestLtSigned),
            0xA8 => Some(OperandedOp::TestEqual),
            _ => None,
        }
    }
}

impl Opcode {
    /// Decode one opcode byte into a tagged instruction, or `None` for a byte
    /// outside the documented opcode space.
    pub fn decode(opcode: u8) -> (r: Option<Opcode>)
        ensures
            r == spec_decode(opcode),
            r matches Some(Opcode::Compact(_, bits)) ==> bits < 4,
    {
        proof {
            assert(opcode & 0b0000_0011u8 < 4) by (bit_vector);
        }
        Some(
            if opcode & 0b1100_0000 == 0b0000_0000 {
                Opcode::Implicit(ImplicitOp::from_opcode(opcode)?)
            } else if opcode & 0b1100_0000 == 0b0100_0000 {
                Opcode::Compact(CompactOp::from_opcode(opcode)?, opcode & 0b0000_0011)
            } else {
                let mode = if opcode & 0b0000_0001 == 0 {
                    OperandMode::Immediate
                } else {
                    OperandMode::Direct
                };
                Opcode::Operanded(OperandedOp::from_opcode(opcode)?, mode)
            },
        )
    }
}

/// Law: decoding classifies every byte by its high bits, and a decoded value
/// always belongs to the tier those bits select. A compact instruction's
/// embedded operand is exactly the byte's low two bits, and an operanded
/// instruction's addressing mode is exactly its low bit.
pub proof fn lemma_decode_classification(opcode: u8)
    ensures
        match spec_decode(opcode) {
            Some(Opcode::Implicit(_)) => opcode & 0b1100_0000 == 0b0000_0000,
            Some(Opcode::Compact(_, bits)) => opcode & 0b1100_0000 == 0b0100_0000 && bits
                == (opcode & 0b0000_0011) && bits < 4,
            Some(Opcode::Operanded(_, mode)) => opcode & 0b1000_0000 == 0b1000_0000 && opcode
                != 0x81 && mode == spec_operand_mode(opcode),
            None => true,
        },
{
    assert(opcode & 0b0000_0011u8 < 4) by (bit_vector);
    assert((opcode & 0b1100_0000u8 != 0b0000_0000u8 && opcode & 0b1100_0000u8 != 0b0100_0000u8)
        ==> opcode & 0b1000_0000u8 == 0b1000_0000u8) by (bit_vector);
}

/// Law: the embedded operand of every compact instruction is the opcode
/// byte's low two bits, independent of which compact operation the byte
/// selects; the execution engine interprets it as `bits + 1` (range 1..=4).
pub proof fn lemma_compact_embedded_operand(opcode: u8)
    ensures
        spec_decode(opcode) matches Some(Opcode::Compact(_, bits)) ==> bits == (opcode
            & 0b0000_0011),
{
}

/// Law: byte `0x81` never decodes, though its masked form would otherwise
/// select `Set`: the encoding leaves it as a deliberate gap.
pub proof fn lemma_undefined_opcode_gap()
    ensures
        spec_decode(0x81) is None,
{
    assert(0x81u8 & 0b1100_0000u8 == 0b1000_0000u8) by (bit_vector);
}

} // verus!
