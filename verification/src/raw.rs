//! The raw operand record, as the decoding oracle hands it over: a class tag
//! and the plain fields the classes share.  The oracle boundary converts the
//! decoder's C-layout record into this form; only the fields that a class
//! tag covers are meaningful, and the classifier reads no others.

use vstd::prelude::*;

use crate::arrspec::ArrKind;
use crate::operand::SliceIndicator;
use crate::reg::Reg;
use crate::reg::valid_reg_ord;
use crate::shift::Shift;

verus! {

/// The number of operand slots an instruction record carries.
pub const MAX_OPERANDS: usize = 5;

/// The number of register slots an operand record carries.
pub const MAX_REGISTERS: usize = 5;

/// The number of bytes in an operand's name field.
pub const MAX_NAME: usize = 16;

/// A raw operand class tag.  `Sentinel` ends the operand list; it is a
/// reserved tag of its own, never a zero-valued operand of another tag.
#[derive(Clone, Copy, Debug, PartialEq, Eq, Structural)]
pub enum RawClass {
    Sentinel,
    Imm32,
    Imm64,
    FImm32,
    StrImm,
    Reg,
    MultiReg,
    SysReg,
    MemReg,
    MemPreIdx,
    MemPostIdx,
    MemOffset,
    MemExtended,
    SmeTile,
    IndexedElement,
    AccumArray,
    Label,
    Condition,
    Name,
    ImplementationSpecific,
}

/// The class tag for a raw class code, as the decoder numbers the classes;
/// an unknown code names nothing, which callers treat as a contract
/// violation, never as the sentinel.
pub open spec fn spec_raw_class_of(code: u32) -> Option<RawClass> {
    if code == 0 {
        Some(RawClass::Sentinel)
    } else if code == 1 {
        Some(RawClass::Imm32)
    } else if code == 2 {
        Some(RawClass::Imm64)
    } else if code == 3 {
        Some(RawClass::FImm32)
    } else if code == 4 {
        Some(RawClass::StrImm)
    } else if code == 5 {
        Some(RawClass::Reg)
    } else if code == 6 {
        Some(RawClass::MultiReg)
    } else if code == 7 {
        Some(RawClass::SysReg)
    } else if code == 8 {
        Some(RawClass::MemReg)
    } else if code == 9 {
        Some(RawClass::MemPreIdx)
    } else if code == 10 {
        Some(RawClass::MemPostIdx)
    } else if code == 11 {
        Some(RawClass::MemOffset)
    } else if code == 12 {
        Some(RawClass::MemExtended)
    } else if code == 13 {
        Some(RawClass::SmeTile)
    } else if code == 14 {
        Some(RawClass::IndexedElement)
    } else if code == 15 {
        Some(RawClass::AccumArray)
    } else if code == 16 {
        Some(RawClass::Label)
    } else if code == 17 {
        Some(RawClass::Condition)
    } else if code == 18 {
        Some(RawClass::Name)
    } else if code == 19 {
        Some(RawClass::ImplementationSpecific)
    } else {
        None
    }
}

impl RawClass {
    /// The class tag for a raw class code.
    pub fn from_u32(code: u32) -> (r: Option<RawClass>)
        ensures
            r == spec_raw_class_of(code),
    {
        match code {
            0 => Some(RawClass::Sentinel),
            1 => Some(RawClass::Imm32),
            2 => Some(RawClass::Imm64),
            3 => Some(RawClass::FImm32),
            4 => Some(RawClass::StrImm),
            5 => Some(RawClass::Reg),
            6 => Some(RawClass::MultiReg),
            7 => Some(RawClass::SysReg),
            8 => Some(RawClass::MemReg),
            9 => Some(RawClass::MemPreIdx),
            10 => Some(RawClass::MemPostIdx),
            11 => Some(RawClass::MemOffset),
            12 => Some(RawClass::MemExtended),
            13 => Some(RawClass::SmeTile),
            14 => Some(RawClass::IndexedElement),
            15 => Some(RawClass::AccumArray),
            16 => Some(RawClass::Label),
            17 => Some(RawClass::Condition),
            18 => Some(RawClass::Name),
            19 => Some(RawClass::ImplementationSpecific),
            _ => None,
        }
    }
}

/// One raw operand slot.
///
/// `sysreg_name` is the name text that the external system-register table
/// gives `sysreg`; the oracle boundary looks it up and hands it over with
/// the record, so the core needs no table of its own.
#[derive(Clone, Copy, Debug)]
pub struct RawOperand {
    /// The class tag that decides which other fields are meaningful.
    pub class: RawClass,
    /// Up to five register ordinals; `0` means "no register".
    pub regs: [u32; 5],
    /// The 64-bit immediate payload.
    pub imm: u64,
    /// Whether the immediate is to be read as signed.
    pub signed: bool,
    /// The shift applied to the operand, if any.
    pub shift: Option<Shift>,
    /// The arrangement tag, if any.
    pub arr: Option<ArrKind>,
    /// Whether `lane` is meaningful.
    pub lane_used: bool,
    /// The lane index.
    pub lane: u32,
    /// Whether a memory offset is scaled by the vector length.
    pub mul_vl: bool,
    /// The predicate-qualifier character code; `0` means none.
    pub pred_qual: u8,
    /// The system-register ordinal.
    pub sysreg: u32,
    /// The system-register name for `sysreg`, NUL-terminated.
    pub sysreg_name: [u8; 32],
    /// The condition-code ordinal.
    pub cond: u32,
    /// The NUL-terminated name bytes.
    pub name: [u8; 16],
    /// The five implementation-specific bytes.
    pub implspec: [u8; 5],
    /// The SME tile number.
    pub tile: u16,
    /// The SME slice indicator, if any.
    pub slice: Option<SliceIndicator>,
}

impl RawOperand {
    /// The oracle's contract for one operand slot: the registers that the
    /// class tag directs the classifier to read name actual registers, a
    /// qualified predicate register is in the predicate range, and a
    /// condition ordinal is one of the sixteen codes.
    pub open spec fn wf(self) -> bool {
        match self.class {
            RawClass::Reg => valid_reg_ord(self.regs[0]) && ((self.shift is None
                && self.pred_qual != 0) ==> Reg { ord: self.regs[0] }.spec_is_pred()),
            RawClass::MemReg | RawClass::MemPreIdx | RawClass::MemPostIdx | RawClass::MemOffset
                | RawClass::AccumArray => valid_reg_ord(self.regs[0]),
            RawClass::MemExtended | RawClass::IndexedElement => valid_reg_ord(self.regs[0])
                && valid_reg_ord(self.regs[1]),
            RawClass::Condition => self.cond < 16,
            _ => true,
        }
    }

    /// Decides the oracle's per-slot contract.
    pub fn check_wf(&self) -> (b: bool)
        ensures
            b == self.wf(),
    {
        match self.class {
            RawClass::Reg => valid_ord_at(&self.regs, 0) && (!(self.shift.is_none()
                && self.pred_qual != 0) || Reg { ord: self.regs[0] }.is_pred()),
            RawClass::MemReg | RawClass::MemPreIdx | RawClass::MemPostIdx | RawClass::MemOffset
                | RawClass::AccumArray => valid_ord_at(&self.regs, 0),
            RawClass::MemExtended | RawClass::IndexedElement => valid_ord_at(&self.regs, 0)
                && valid_ord_at(&self.regs, 1),
            RawClass::Condition => self.cond < 16,
            _ => true,
        }
    }
}

fn valid_ord_at(regs: &[u32; 5], i: usize) -> (b: bool)
    requires
        i < 5,
    ensures
        b == valid_reg_ord(regs[i as int]),
{
    let ord = regs[i];
    1 <= ord && ord < crate::reg::ORD_END
}

/// One raw instruction record: the word, the operation ordinal and its
/// mnemonic text from the external operation table, the flag-field code,
/// and the five operand slots.
#[derive(Clone, Debug)]
pub struct RawInstruction {
    /// The instruction word that was decoded.
    pub insword: u32,
    /// The operation ordinal, a key into the external operation table.
    pub operation: u32,
    /// The mnemonic the external operation table gives `operation`.
    pub mnemonic: String,
    /// The raw flag-field code.
    pub setflags: u32,
    /// The five operand slots.
    pub operands: [RawOperand; 5],
}

impl RawInstruction {
    /// The oracle's contract for a whole record: every slot meets its
    /// class's contract.
    pub open spec fn wf(self) -> bool {
        forall|i: int| 0 <= i < 5 ==> (#[trigger] self.operands[i]).wf()
    }

    /// Decides the oracle's whole-record contract.
    pub fn check_wf(&self) -> (b: bool)
        ensures
            b == self.wf(),
    {
        let mut i: usize = 0;
        while i < 5
            invariant
                i <= 5,
                forall|j: int| 0 <= j < i ==> (#[trigger] self.operands[j]).wf(),
            decreases 5 - i,
        {
            if !self.operands[i].check_wf() {
                return false;
            }
            i = i + 1;
        }
        true
    }
}

} // verus!
