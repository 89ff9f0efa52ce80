//! Instruction metadata: kinds, addressing modes, operand registers and
//! branch conditions, plus lookup in the opcode table.

use vstd::prelude::*;
use crate::instruction_table;

verus! {

/// Addressing modes, named by the operand pattern of the instruction.
#[derive(Debug, Clone, Copy, PartialEq, Eq, Structural)]
pub enum AddrMode {
    AmImp,
    AmRD16,
    AmRR,
    AmMRR,
    AmR,
    AmRD8,
    AmRMR,
    AmRHli,
    AmRHld,
    AmHliR,
    AmHldR,
    AmRA8,
    AmA8R,
    AmHlSpr,
    AmD16,
    AmD8,
    AmD16R,
    AmMrD8,
    AmMr,
    AmA16R,
    AmRA16,
}

/// Processor registers, 8-bit and 16-bit pairs.
#[derive(Debug, Clone, Copy, PartialEq, Eq, Structural)]
pub enum RegType {
    RtA,
    RtF,
    RtB,
    RtC,
    RtD,
    RtE,
    RtH,
    RtL,
    RtAf,
    RtBc,
    RtDe,
    RtHl,
    RtSp,
    RtPc,
}

/// Whether an optional register names a 16-bit register or pair.
pub open spec fn spec_is_some_16_bit(reg: Option<RegType>) -> bool {
    match reg {
        Some(rt) => spec_is_16_bit(rt),
        None => false,
    }
}

/// Whether `reg` names a 16-bit register or pair.
pub open spec fn spec_is_16_bit(reg: RegType) -> bool {
    match reg {
        RegType::RtAf | RegType::RtBc | RegType::RtDe | RegType::RtHl | RegType::RtSp
        | RegType::RtPc => true,
        _ => false,
    }
}

impl RegType {
    pub fn is_16_bit(&self) -> (r: bool)
        ensures
            r == spec_is_16_bit(*self),
    {
        match self {
            RegType::RtAf
            | RegType::RtBc
            | RegType::RtDe
            | RegType::RtHl
            | RegType::RtSp
            | RegType::RtPc => true,
            _ => false,
        }
    }

    pub fn is_some_16_bit(reg: Option<RegType>) -> (r: bool)
        ensures
            r == spec_is_some_16_bit(reg),
    {
        match reg {
            Some(rt) => rt.is_16_bit(),
            None => false,
        }
    }
}

/// Instruction kinds of the base opcode page.
#[derive(Debug, Clone, Copy, PartialEq, Eq, Structural)]
pub enum InType {
    InNop,
    InLd,
    InInc,
    InDec,
    InRlca,
    InAdd,
    InRrca,
    InStop,
    InRla,
    InJr,
    InRra,
    InDaa,
    InCpl,
    InScf,
    InCcf,
    InHalt,
    InAdc,
    InSub,
    InSbc,
    InAnd,
    InXor,
    InOr,
    InCp,
    InPop,
    InJp,
    InPush,
    InRet,
    InCb,
    InCall,
    InReti,
    InLdh,
    InJphl,
    InDi,
    InEi,
    InRst,
    InErr,
}

/// Branch conditions gating `JR`, `JP`, `CALL` and `RET`.
#[derive(Debug, Clone, Copy, PartialEq, Eq, Structural)]
pub enum CondType {
    CtNz,
    CtZ,
    CtNc,
    CtC,
}

/// One decoded instruction: kind, addressing mode, operand registers,
/// condition and the restart-vector parameter of `RST`.
#[derive(Debug, Clone, Copy)]
pub struct Instruction {
    pub type_: InType,
    pub mode: AddrMode,
    pub reg_1: Option<RegType>,
    pub reg_2: Option<RegType>,
    pub cond: Option<CondType>,
    pub param: u8,
}

impl Instruction {
    /// The placeholder instruction a freshly powered processor holds: a `NOP`.
    pub fn new() -> (r: Instruction)
        ensures
            r.type_ == InType::InNop,
            r.mode == AddrMode::AmImp,
            r.reg_1 is None,
            r.reg_2 is None,
            r.cond is None,
            r.param == 0,
    {
        Instruction {
            type_: InType::InNop,
            mode: AddrMode::AmImp,
            reg_1: None,
            reg_2: None,
            cond: None,
            param: 0,
        }
    }

    /// Decodes an opcode byte; `None` for the holes of the opcode map.
    pub fn by_opcode(opcode: u8) -> (r: Option<Instruction>)
        ensures
            r == instruction_table::spec_decode(opcode),
    {
        instruction_table::decode(opcode)
    }
}

} // verus!
