//! Decode of the `$CB` prefix page: `(op >> 6, (op >> 3) & 7, op & 7)`
//! selects the operation class, the bit number and the operand register.

use vstd::prelude::*;
use crate::instructions::RegType;

verus! {

/// Single-bit operations of the prefix page.
#[derive(Debug, Clone, Copy, PartialEq, Eq, Structural)]
pub enum CbBitOps {
    BIT,
    RST,
    SET,
}

/// Rotate, shift and swap operations of the prefix page.
#[derive(Debug, Clone, Copy, PartialEq, Eq, Structural)]
pub enum CbOps {
    RLC,
    RRC,
    RL,
    RR,
    SLA,
    SRA,
    SWAP,
    SRL,
}

/// A decoded prefix-page instruction.
#[derive(Debug, Clone, Copy)]
pub struct CbOperation {
    pub cb_bit_ops: Option<CbBitOps>,
    pub cb_ops: Option<CbOps>,
    pub bit: u8,
    pub reg: RegType,
}

/// The operand register encoded in the low three bits of a prefix opcode.
pub open spec fn spec_reg_from_cb(reg: u8) -> Option<RegType> {
    match reg {
        0u8 => Some(RegType::RtB),
        1u8 => Some(RegType::RtC),
        2u8 => Some(RegType::RtD),
        3u8 => Some(RegType::RtE),
        4u8 => Some(RegType::RtH),
        5u8 => Some(RegType::RtL),
        6u8 => Some(RegType::RtHl),
        7u8 => Some(RegType::RtA),
        _ => None,
    }
}

/// The single-bit operation class selected by the top two bits.
pub open spec fn spec_cb_bit_ops(sel: u8) -> Option<CbBitOps> {
    match sel {
        1u8 => Some(CbBitOps::BIT),
        2u8 => Some(CbBitOps::RST),
        3u8 => Some(CbBitOps::SET),
        _ => None,
    }
}

/// The rotate/shift operation selected by bits 3 to 5.
pub open spec fn spec_cb_ops(sel: u8) -> Option<CbOps> {
    match sel {
        0u8 => Some(CbOps::RLC),
        1u8 => Some(CbOps::RRC),
        2u8 => Some(CbOps::RL),
        3u8 => Some(CbOps::RR),
        4u8 => Some(CbOps::SLA),
        5u8 => Some(CbOps::SRA),
        6u8 => Some(CbOps::SWAP),
        7u8 => Some(CbOps::SRL),
        _ => None,
    }
}

impl RegType {
    pub fn from_cb_u8(reg: u8) -> (r: Option<RegType>)
        ensures
            r == spec_reg_from_cb(reg),
    {
        match reg {
            0u8 => Some(RegType::RtB),
            1u8 => Some(RegType::RtC),
            2u8 => Some(RegType::RtD),
            3u8 => Some(RegType::RtE),
            4u8 => Some(RegType::RtH),
            5u8 => Some(RegType::RtL),
            6u8 => Some(RegType::RtHl),
            7u8 => Some(RegType::RtA),
            _ => None,
        }
    }
}

impl CbOperation {
    /// Decodes a prefix-page opcode byte. Every byte decodes, since the low
    /// three bits always name a register.
    pub fn from_byte(byte: u8) -> (r: Option<CbOperation>)
        ensures
            r is Some,
            r matches Some(op) ==> {
                &&& op.cb_bit_ops == spec_cb_bit_ops((byte >> 6) & 0x3)
                &&& op.cb_ops == spec_cb_ops((byte >> 3) & 0x7)
                &&& op.bit == (byte >> 3) & 0x7
                &&& Some(op.reg) == spec_reg_from_cb(byte & 0x7)
            },
    {
        let cb_bit_ops = match (byte >> 6) & 0x3 {
            1u8 => Some(CbBitOps::BIT),
            2u8 => Some(CbBitOps::RST),
            3u8 => Some(CbBitOps::SET),
            _ => None,
        };

        let bit = (byte >> 3) & 0x7;
        let bit_ops = match bit {
            0u8 => Some(CbOps::RLC),
            1u8 => Some(CbOps::RRC),
            2u8 => Some(CbOps::RL),
            3u8 => Some(CbOps::RR),
            4u8 => Some(CbOps::SLA),
            5u8 => Some(CbOps::SRA),
            6u8 => Some(CbOps::SWAP),
            7u8 => Some(CbOps::SRL),
            _ => None,
        };

        proof {
            assert((byte & 0x7) < 8 && ((byte >> 3) & 0x7) < 8 && ((byte >> 6) & 0x3) < 4)
                by (bit_vector);
        }
        let reg = RegType::from_cb_u8(byte & 0x7);
        match reg {
            None => None,
            Some(reg) => Some(CbOperation { cb_bit_ops, cb_ops: bit_ops, bit, reg }),
        }
    }
}

} // verus!
