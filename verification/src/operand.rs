//! The operand model: a disjoint tagged value for every operand class, and
//! the classifier that maps a raw operand record to exactly one variant.

use vstd::prelude::*;

use vstd::string::StringExecFns;

use crate::arrspec::ArrSpec;
use crate::arrspec::spec_arrspec_of;
use crate::arrspec::spec_lane;
use crate::arrspec::spec_short_suffix;
use crate::arrspec::spec_suffix;
use crate::condition::Condition;
use crate::condition::spec_condition_text;
use crate::raw::RawClass;
use crate::raw::RawOperand;
use crate::reg::Reg;
use crate::reg::spec_reg_name;
use crate::reg::valid_reg_ord;
use crate::shift::Shift;
use crate::shift::spec_shift_text;
use crate::sysreg::SysReg;
use crate::text::bytes_eq;
use crate::text::cstr_string;
use crate::text::cstr_text;
use crate::text::dec_string;
use crate::text::hex_string;
use crate::text::push_char;
use crate::text::spec_dec;
use crate::text::spec_hex;

verus! {

/// An SME tile slice indicator.
#[derive(Clone, Copy, Debug, Eq, Hash, PartialEq, Structural)]
pub enum SliceIndicator {
    Horizontal,
    Vertical,
}

/// The one-letter text of a slice indicator.
pub open spec fn spec_slice_text(s: SliceIndicator) -> Seq<char> {
    match s {
        SliceIndicator::Horizontal => "H"@,
        SliceIndicator::Vertical => "V"@,
    }
}

/// The slice indicator for a raw slice code, as the decoder numbers them;
/// a negative code means none.
pub open spec fn spec_slice_of(code: i32) -> Option<SliceIndicator> {
    if code == 0 {
        Some(SliceIndicator::Horizontal)
    } else if code == 1 {
        Some(SliceIndicator::Vertical)
    } else {
        None
    }
}

impl SliceIndicator {
    /// The slice indicator for a raw slice code.
    pub fn from_i32(code: i32) -> (r: Option<SliceIndicator>)
        ensures
            r == spec_slice_of(code),
    {
        if code == 0 {
            Some(SliceIndicator::Horizontal)
        } else if code == 1 {
            Some(SliceIndicator::Vertical)
        } else {
            None
        }
    }

    /// Renders the one-letter slice indicator.
    pub fn render(&self) -> (s: &'static str)
        ensures
            s@ == spec_slice_text(*self),
    {
        match *self {
            SliceIndicator::Horizontal => "H",
            SliceIndicator::Vertical => "V",
        }
    }
}

/// An instruction immediate: a 64-bit magnitude with a sign.  The sign is
/// decided once, at construction from the raw record, and never changes.
#[derive(Clone, Copy, Debug, Eq, Hash, PartialEq, Structural)]
pub struct Imm {
    /// Whether the immediate is negative.
    pub neg: bool,
    /// The magnitude.
    pub val: u64,
}

/// The immediate built from the raw 64-bit pattern and the signedness flag:
/// negative exactly when the flag is set and the pattern's top bit is set,
/// and then the magnitude is the exact two's-complement negation of the
/// pattern.
pub open spec fn spec_imm_of(raw: u64, signed: bool) -> Imm {
    if signed && raw >= 0x8000000000000000 {
        Imm { neg: true, val: (0xffffffffffffffff - raw + 1) as u64 }
    } else {
        Imm { neg: false, val: raw }
    }
}

/// The text of an immediate: the magnitude in hexadecimal, sign first.
pub open spec fn spec_imm_text(i: Imm) -> Seq<char> {
    if i.neg {
        "-0x"@ + crate::text::spec_hex(i.val as nat)
    } else {
        "0x"@ + crate::text::spec_hex(i.val as nat)
    }
}

impl Imm {
    /// Builds the immediate from the raw pattern and signedness flag.
    pub fn from_raw(raw: u64, signed: bool) -> (r: Imm)
        ensures
            r == spec_imm_of(raw, signed),
    {
        if signed && raw >= 0x8000000000000000 {
            let m = !raw;
            proof {
                assert(!raw == 0xffffffffffffffffu64 - raw) by (bit_vector);
            }
            Imm { neg: true, val: m + 1 }
        } else {
            Imm { neg: false, val: raw }
        }
    }

    /// Renders the immediate, sign first, magnitude in hexadecimal.
    pub fn render(&self) -> (s: String)
        ensures
            s@ == spec_imm_text(*self),
    {
        let mut s = if self.neg {
            String::from_str("-0x")
        } else {
            String::from_str("0x")
        };
        let h = crate::text::hex_string(self.val);
        s.append(h.as_str());
        proof {
            assert(s@ =~= spec_imm_text(*self));
        }
        s
    }
}

/// An instruction operand: exactly one variant per raw operand class, with
/// the register-class sub-cases resolved.
#[derive(Clone, Copy, Debug, Hash)]
pub enum Operand {
    /// A 32-bit immediate, with an optional shift.
    Imm32 { imm: Imm, shift: Option<Shift> },
    /// A 64-bit immediate, with an optional shift.
    Imm64 { imm: Imm, shift: Option<Shift> },
    /// A raw 32-bit floating-point bit pattern.
    FImm32(u32),
    /// A register under a shift or extend.
    ShiftReg { reg: Reg, shift: Shift },
    /// A predicate register with a one-character qualifier.
    QualReg { reg: Reg, qual: char },
    /// A plain register, with an optional arrangement.
    Reg { reg: Reg, arrspec: Option<ArrSpec> },
    /// A register list, with a shared optional arrangement.
    MultiReg { regs: [Option<Reg>; 5], arrspec: Option<ArrSpec> },
    /// A system register.
    SysReg(SysReg),
    /// Register-indirect memory, no offset.
    MemReg(Reg),
    /// Memory at a register plus an immediate offset.
    MemOffset { reg: Reg, offset: Imm, mul_vl: bool, arrspec: Option<ArrSpec> },
    /// Pre-indexed memory.
    MemPreIdx { reg: Reg, imm: Imm },
    /// Post-indexed memory, register increment.
    MemPostIdxReg { reg0: Reg, reg1: Reg },
    /// Post-indexed memory, immediate increment.
    MemPostIdxImm { reg: Reg, imm: Imm },
    /// Memory at a base register extended by a second register.
    MemExt { reg0: Reg, reg1: Reg, shift: Option<Shift>, arrspec: Option<ArrSpec> },
    /// An SME tile, with an optional slice, arrangement, index register and
    /// immediate.
    SmeTile {
        tile: u16,
        slice: Option<SliceIndicator>,
        arrspec: Option<ArrSpec>,
        reg: Option<Reg>,
        imm: Imm,
    },
    /// The SME accumulator array, indexed by a register and an immediate.
    AccumArray { reg: Reg, imm: Imm },
    /// An element of a register selected by a register and an immediate.
    IndexedElement { reg0: Reg, reg1: Reg, arrspec: Option<ArrSpec>, imm: Imm },
    /// A code label, held as an immediate.
    Label(Imm),
    /// The five implementation-specific bytes.
    ImplSpec { o0: u8, o1: u8, cm: u8, cn: u8, o2: u8 },
    /// A condition code.
    Cond(Condition),
    /// Raw name text.
    Name([u8; 16]),
    /// Name text with an immediate.
    StrImm { str: [u8; 16], imm: u64 },
}

/// The register for an ordinal, or nothing for an ordinal outside the
/// register space.
pub open spec fn spec_opt_reg(ord: u32) -> Option<Reg> {
    if valid_reg_ord(ord) {
        Some(Reg { ord })
    } else {
        None
    }
}

/// The classification of one raw operand slot: nothing for the sentinel
/// class, and otherwise exactly one variant, decided by the class tag.
/// Within the register class: a shift makes a shifted register; otherwise a
/// non-zero qualifier makes a qualified predicate register; otherwise a
/// plain register with its optional arrangement.  Within post-indexed
/// memory: a second register ordinal that names a register makes the
/// register form, else the immediate form.
pub open spec fn spec_classify(r: RawOperand) -> Option<Operand> {
    match r.class {
        RawClass::Sentinel => None,
        RawClass::Imm32 => Some(
            Operand::Imm32 { imm: spec_imm_of(r.imm, r.signed), shift: r.shift },
        ),
        RawClass::Imm64 => Some(
            Operand::Imm64 { imm: spec_imm_of(r.imm, r.signed), shift: r.shift },
        ),
        RawClass::FImm32 => Some(Operand::FImm32(r.imm as u32)),
        RawClass::StrImm => Some(Operand::StrImm { str: r.name, imm: r.imm }),
        RawClass::Reg => Some(
            if r.shift is Some {
                Operand::ShiftReg { reg: Reg { ord: r.regs[0] }, shift: r.shift->0 }
            } else if r.pred_qual != 0 {
                Operand::QualReg { reg: Reg { ord: r.regs[0] }, qual: r.pred_qual as char }
            } else {
                Operand::Reg {
                    reg: Reg { ord: r.regs[0] },
                    arrspec: spec_arrspec_of(r.arr, r.lane_used, r.lane),
                }
            },
        ),
        RawClass::MultiReg => Some(
            Operand::MultiReg {
                regs: [
                    spec_opt_reg(r.regs[0]),
                    spec_opt_reg(r.regs[1]),
                    spec_opt_reg(r.regs[2]),
                    spec_opt_reg(r.regs[3]),
                    spec_opt_reg(r.regs[4]),
                ],
                arrspec: spec_arrspec_of(r.arr, r.lane_used, r.lane),
            },
        ),
        RawClass::SysReg => Some(Operand::SysReg(SysReg { ord: r.sysreg, name: r.sysreg_name })),
        RawClass::MemReg => Some(Operand::MemReg(Reg { ord: r.regs[0] })),
        RawClass::MemPreIdx => Some(
            Operand::MemPreIdx { reg: Reg { ord: r.regs[0] }, imm: spec_imm_of(r.imm, r.signed) },
        ),
        RawClass::MemPostIdx => Some(
            if valid_reg_ord(r.regs[1]) {
                Operand::MemPostIdxReg { reg0: Reg { ord: r.regs[0] }, reg1: Reg {
                    ord: r.regs[1],
                } }
            } else {
                Operand::MemPostIdxImm {
                    reg: Reg { ord: r.regs[0] },
                    imm: spec_imm_of(r.imm, r.signed),
                }
            },
        ),
        RawClass::MemOffset => Some(
            Operand::MemOffset {
                reg: Reg { ord: r.regs[0] },
                offset: spec_imm_of(r.imm, r.signed),
                mul_vl: r.mul_vl,
                arrspec: spec_arrspec_of(r.arr, r.lane_used, r.lane),
            },
        ),
        RawClass::MemExtended => Some(
            Operand::MemExt {
                reg0: Reg { ord: r.regs[0] },
                reg1: Reg { ord: r.regs[1] },
                shift: r.shift,
                arrspec: spec_arrspec_of(r.arr, r.lane_used, r.lane),
            },
        ),
        RawClass::SmeTile => Some(
            Operand::SmeTile {
                tile: r.tile,
                slice: r.slice,
                arrspec: spec_arrspec_of(r.arr, r.lane_used, r.lane),
                reg: spec_opt_reg(r.regs[0]),
                imm: spec_imm_of(r.imm, r.signed),
            },
        ),
        RawClass::IndexedElement => Some(
            Operand::IndexedElement {
                reg0: Reg { ord: r.regs[0] },
                reg1: Reg { ord: r.regs[1] },
                arrspec: spec_arrspec_of(r.arr, r.lane_used, r.lane),
                imm: spec_imm_of(r.imm, r.signed),
            },
        ),
        RawClass::AccumArray => Some(
            Operand::AccumArray { reg: Reg { ord: r.regs[0] }, imm: spec_imm_of(r.imm, r.signed) },
        ),
        RawClass::Label => Some(Operand::Label(spec_imm_of(r.imm, r.signed))),
        RawClass::Condition => Some(
            Operand::Cond(crate::condition::spec_condition_of(r.cond)->0),
        ),
        RawClass::Name => Some(Operand::Name(r.name)),
        RawClass::ImplementationSpecific => Some(
            Operand::ImplSpec {
                o0: r.implspec[0],
                o1: r.implspec[1],
                cm: r.implspec[2],
                cn: r.implspec[3],
                o2: r.implspec[4],
            },
        ),
    }
}

impl Operand {
    /// Classifies one raw operand slot, as `spec_classify` describes it.
    ///
    /// The sentinel class gives nothing; every other class gives exactly
    /// its one variant.  The record must meet the oracle's per-slot
    /// contract.
    pub fn classify(r: &RawOperand) -> (res: Option<Operand>)
        requires
            r.wf(),
        ensures
            res == spec_classify(*r),
    {
        match r.class {
            RawClass::Sentinel => None,
            RawClass::Imm32 => Some(
                Operand::Imm32 { imm: Imm::from_raw(r.imm, r.signed), shift: r.shift },
            ),
            RawClass::Imm64 => Some(
                Operand::Imm64 { imm: Imm::from_raw(r.imm, r.signed), shift: r.shift },
            ),
            RawClass::FImm32 => Some(Operand::FImm32(r.imm as u32)),
            RawClass::StrImm => Some(Operand::StrImm { str: r.name, imm: r.imm }),
            RawClass::Reg => {
                let reg = Reg { ord: r.regs[0] };
                if let Some(shift) = r.shift {
                    Some(Operand::ShiftReg { reg, shift })
                } else if r.pred_qual != 0 {
                    Some(Operand::QualReg { reg, qual: r.pred_qual as char })
                } else {
                    Some(
                        Operand::Reg {
                            reg,
                            arrspec: ArrSpec::from_raw(r.arr, r.lane_used, r.lane),
                        },
                    )
                }
            },
            RawClass::MultiReg => {
                let regs = [
                    Reg::from_u32(r.regs[0]),
                    Reg::from_u32(r.regs[1]),
                    Reg::from_u32(r.regs[2]),
                    Reg::from_u32(r.regs[3]),
                    Reg::from_u32(r.regs[4]),
                ];
                let res = Operand::MultiReg {
                    regs,
                    arrspec: ArrSpec::from_raw(r.arr, r.lane_used, r.lane),
                };
                proof {
                    assert(regs =~= [
                        spec_opt_reg(r.regs[0]),
                        spec_opt_reg(r.regs[1]),
                        spec_opt_reg(r.regs[2]),
                        spec_opt_reg(r.regs[3]),
                        spec_opt_reg(r.regs[4]),
                    ]);
                }
                Some(res)
            },
            RawClass::SysReg => Some(
                Operand::SysReg(SysReg { ord: r.sysreg, name: r.sysreg_name }),
            ),
            RawClass::MemReg => Some(Operand::MemReg(Reg { ord: r.regs[0] })),
            RawClass::MemPreIdx => Some(
                Operand::MemPreIdx { reg: Reg { ord: r.regs[0] }, imm: Imm::from_raw(
                    r.imm,
                    r.signed,
                ) },
            ),
            RawClass::MemPostIdx => {
                let reg0 = Reg { ord: r.regs[0] };
                match Reg::from_u32(r.regs[1]) {
                    Some(reg1) => Some(Operand::MemPostIdxReg { reg0, reg1 }),
                    None => Some(
                        Operand::MemPostIdxImm { reg: reg0, imm: Imm::from_raw(r.imm, r.signed) },
                    ),
                }
            },
            RawClass::MemOffset => Some(
                Operand::MemOffset {
                    reg: Reg { ord: r.regs[0] },
                    offset: Imm::from_raw(r.imm, r.signed),
                    mul_vl: r.mul_vl,
                    arrspec: ArrSpec::from_raw(r.arr, r.lane_used, r.lane),
                },
            ),
            RawClass::MemExtended => Some(
                Operand::MemExt {
                    reg0: Reg { ord: r.regs[0] },
                    reg1: Reg { ord: r.regs[1] },
                    shift: r.shift,
                    arrspec: ArrSpec::from_raw(r.arr, r.lane_used, r.lane),
                },
            ),
            RawClass::SmeTile => Some(
                Operand::SmeTile {
                    tile: r.tile,
                    slice: r.slice,
                    arrspec: ArrSpec::from_raw(r.arr, r.lane_used, r.lane),
                    reg: Reg::from_u32(r.regs[0]),
                    imm: Imm::from_raw(r.imm, r.signed),
                },
            ),
            RawClass::IndexedElement => Some(
                Operand::IndexedElement {
                    reg0: Reg { ord: r.regs[0] },
                    reg1: Reg { ord: r.regs[1] },
                    arrspec: ArrSpec::from_raw(r.arr, r.lane_used, r.lane),
                    imm: Imm::from_raw(r.imm, r.signed),
                },
            ),
            RawClass::AccumArray => Some(
                Operand::AccumArray { reg: Reg { ord: r.regs[0] }, imm: Imm::from_raw(
                    r.imm,
                    r.signed,
                ) },
            ),
            RawClass::Label => Some(Operand::Label(Imm::from_raw(r.imm, r.signed))),
            RawClass::Condition => {
                let c = Condition::from_u32(r.cond);
                Some(Operand::Cond(c.unwrap()))
            },
            RawClass::Name => Some(Operand::Name(r.name)),
            RawClass::ImplementationSpecific => Some(
                Operand::ImplSpec {
                    o0: r.implspec[0],
                    o1: r.implspec[1],
                    cm: r.implspec[2],
                    cn: r.implspec[3],
                    o2: r.implspec[4],
                },
            ),
        }
    }
}

/// Classification is total over the class tags: it yields nothing exactly
/// for the sentinel tag, and exactly one variant for every other tag.
pub proof fn lemma_classify_total(r: RawOperand)
    ensures
        spec_classify(r) is None <==> r.class == RawClass::Sentinel,
{
}

/// A register name followed by its arrangement suffix, if an arrangement is
/// present.
pub open spec fn spec_full_reg(reg: Reg, arrspec: Option<ArrSpec>) -> Seq<char> {
    match arrspec {
        Some(a) => spec_reg_name(reg.ord) + spec_suffix(a, reg),
        None => spec_reg_name(reg.ord),
    }
}

/// A register name with its arrangement suffix and, where the arrangement
/// carries a lane, the lane index in brackets.
pub open spec fn spec_full_reg_lane(reg: Reg, arrspec: Option<ArrSpec>) -> Seq<char> {
    match arrspec {
        Some(a) => match spec_lane(a) {
            Some(lane) => spec_reg_name(reg.ord) + spec_suffix(a, reg) + "["@ + spec_dec(
                lane as nat,
            ) + "]"@,
            None => spec_reg_name(reg.ord) + spec_suffix(a, reg),
        },
        None => spec_reg_name(reg.ord),
    }
}

/// The register-list text from slot `i` on: each present register with the
/// shared arrangement's suffix, separated by commas; `first` says whether no
/// register has been written yet.
pub open spec fn spec_multi_tail(
    regs: [Option<Reg>; 5],
    arrspec: Option<ArrSpec>,
    i: int,
    first: bool,
) -> Seq<char>
    decreases 5 - i,
{
    if i < 0 || i >= 5 {
        Seq::<char>::empty()
    } else {
        match regs[i] {
            None => spec_multi_tail(regs, arrspec, i + 1, first),
            Some(rg) => (if first {
                Seq::<char>::empty()
            } else {
                ", "@
            }) + spec_full_reg(rg, arrspec) + spec_multi_tail(regs, arrspec, i + 1, false),
        }
    }
}

/// The bracketed lane that a whole register list carries, if its shared
/// arrangement has one.
pub open spec fn spec_multi_lane(arrspec: Option<ArrSpec>) -> Seq<char> {
    match arrspec {
        Some(a) => match spec_lane(a) {
            Some(lane) => "["@ + spec_dec(lane as nat) + "]"@,
            None => Seq::<char>::empty(),
        },
        None => Seq::<char>::empty(),
    }
}

/// The assembler text of an operand, variant by variant; nothing for a
/// floating-point immediate, whose text the core does not produce.
pub open spec fn spec_operand_text(op: Operand) -> Option<Seq<char>> {
    match op {
        Operand::Imm32 { imm, shift } => Some(
            "#"@ + spec_imm_text(imm) + match shift {
                Some(sh) => ", "@ + spec_shift_text(sh),
                None => Seq::<char>::empty(),
            },
        ),
        Operand::Imm64 { imm, shift } => Some(
            "#"@ + spec_imm_text(imm) + match shift {
                Some(sh) => ", "@ + spec_shift_text(sh),
                None => Seq::<char>::empty(),
            },
        ),
        Operand::FImm32(_) => None,
        Operand::ShiftReg { reg, shift } => Some(
            spec_reg_name(reg.ord) + ", "@ + spec_shift_text(shift),
        ),
        Operand::QualReg { reg, qual } => Some(spec_reg_name(reg.ord) + "/"@ + seq![qual]),
        Operand::Reg { reg, arrspec } => Some(spec_full_reg_lane(reg, arrspec)),
        Operand::MultiReg { regs, arrspec } => Some(
            "{"@ + spec_multi_tail(regs, arrspec, 0, true) + "}"@ + spec_multi_lane(arrspec),
        ),
        Operand::SysReg(sr) => Some(cstr_text(sr.name@)),
        Operand::MemReg(reg) => Some("["@ + spec_reg_name(reg.ord) + "]"@),
        Operand::MemOffset { reg, offset, mul_vl, arrspec } => Some(
            "["@ + spec_full_reg(reg, arrspec) + (if offset.val != 0 {
                ", #"@ + spec_imm_text(offset) + (if mul_vl {
                    ", mul vl"@
                } else {
                    Seq::<char>::empty()
                })
            } else {
                Seq::<char>::empty()
            }) + "]"@,
        ),
        Operand::MemPreIdx { reg, imm } => Some(
            "["@ + spec_reg_name(reg.ord) + ", #"@ + spec_imm_text(imm) + "]!"@,
        ),
        Operand::MemPostIdxReg { reg0, reg1 } => Some(
            "["@ + spec_reg_name(reg0.ord) + "], "@ + spec_reg_name(reg1.ord),
        ),
        Operand::MemPostIdxImm { reg, imm } => Some(
            "["@ + spec_reg_name(reg.ord) + "], #"@ + spec_imm_text(imm),
        ),
        Operand::MemExt { reg0, reg1, shift, arrspec } => Some(
            "["@ + spec_full_reg(reg0, arrspec) + ", "@ + spec_full_reg(reg1, arrspec) + match shift {
                Some(sh) => ", "@ + spec_shift_text(sh) + "]"@,
                None => "]"@,
            },
        ),
        Operand::SmeTile { tile, slice, arrspec, reg, imm } => Some(
            "Z"@ + spec_dec(tile as nat) + (match slice {
                Some(sl) => spec_slice_text(sl),
                None => Seq::<char>::empty(),
            }) + (match arrspec {
                Some(a) => spec_short_suffix(a),
                None => Seq::<char>::empty(),
            }) + (match (reg, arrspec) {
                (Some(rg), Some(ArrSpec::Full(_))) => "["@ + spec_reg_name(rg.ord) + "]"@,
                (Some(rg), _) => "["@ + spec_reg_name(rg.ord) + ", "@ + spec_imm_text(imm) + "]"@,
                _ => Seq::<char>::empty(),
            }),
        ),
        Operand::AccumArray { reg, imm } => Some(
            "ZA["@ + spec_reg_name(reg.ord) + ", #"@ + spec_imm_text(imm) + "]"@,
        ),
        Operand::IndexedElement { reg0, reg1, arrspec, imm } => Some(
            spec_full_reg(reg0, arrspec) + "["@ + spec_reg_name(reg1.ord) + (if imm.val != 0 {
                ", #"@ + spec_imm_text(imm)
            } else {
                Seq::<char>::empty()
            }) + "]"@,
        ),
        Operand::Label(imm) => Some(spec_imm_text(imm)),
        Operand::ImplSpec { o0, o1, cm, cn, o2 } => Some(
            "s"@ + spec_dec(o0 as nat) + "_"@ + spec_dec(o1 as nat) + "_c"@ + spec_dec(cm as nat)
                + "_c"@ + spec_dec(cn as nat) + "_"@ + spec_dec(o2 as nat),
        ),
        Operand::Cond(c) => Some(spec_condition_text(c)),
        Operand::Name(name) => Some(cstr_text(name@)),
        Operand::StrImm { str, imm } => Some(
            cstr_text(str@) + " #0x"@ + spec_hex(imm as nat),
        ),
    }
}

/// The offset clause rule for memory-offset operands: a zero offset leaves
/// the clause out entirely, and a non-zero offset with the multiply-by-VL
/// flag set renders both the immediate and the `mul vl` marker.
pub proof fn lemma_memoffset_render(reg: Reg, offset: Imm, mul_vl: bool, arrspec: Option<ArrSpec>)
    ensures
        offset.val == 0 ==> spec_operand_text(Operand::MemOffset { reg, offset, mul_vl, arrspec })
            == Some("["@ + spec_full_reg(reg, arrspec) + "]"@),
        offset.val != 0 && mul_vl ==> spec_operand_text(
            Operand::MemOffset { reg, offset, mul_vl, arrspec },
        ) == Some(
            "["@ + spec_full_reg(reg, arrspec) + ", #"@ + spec_imm_text(offset) + ", mul vl"@
                + "]"@,
        ),
{
    if offset.val == 0 {
        assert(spec_operand_text(Operand::MemOffset { reg, offset, mul_vl, arrspec })->0 =~= "["@
            + spec_full_reg(reg, arrspec) + "]"@);
    } else if mul_vl {
        assert(spec_operand_text(Operand::MemOffset { reg, offset, mul_vl, arrspec })->0 =~= "["@
            + spec_full_reg(reg, arrspec) + ", #"@ + spec_imm_text(offset) + ", mul vl"@ + "]"@);
    }
}

fn full_reg_string(reg: Reg, arrspec: Option<ArrSpec>) -> (s: String)
    ensures
        s@ == spec_full_reg(reg, arrspec),
{
    let mut s = reg.name();
    if let Some(a) = arrspec {
        s.append(a.suffix(reg));
    }
    s
}

fn full_reg_lane_string(reg: Reg, arrspec: Option<ArrSpec>) -> (s: String)
    ensures
        s@ == spec_full_reg_lane(reg, arrspec),
{
    let mut s = reg.name();
    if let Some(a) = arrspec {
        s.append(a.suffix(reg));
        if let Some(lane) = a.lane() {
            s.append("[");
            let d = dec_string(lane as u64);
            s.append(d.as_str());
            s.append("]");
        }
    }
    proof {
        assert(s@ =~= spec_full_reg_lane(reg, arrspec));
    }
    s
}

impl Operand {
    /// Renders the operand as assembler text, exactly as
    /// `spec_operand_text` describes it.  Floating-point immediates carry
    /// only a bit pattern and are rendered outside the core.
    pub fn render(&self) -> (s: String)
        requires
            !(*self is FImm32),
        ensures
            Some(s@) == spec_operand_text(*self),
    {
        match *self {
            Operand::Imm32 { imm, shift } => render_imm_shift(imm, shift),
            Operand::Imm64 { imm, shift } => render_imm_shift(imm, shift),
            Operand::FImm32(_) => String::new(),
            Operand::ShiftReg { reg, shift } => {
                let mut s = reg.name();
                s.append(", ");
                let sh = shift.render();
                s.append(sh.as_str());
                proof {
                    assert(Some(s@) =~= spec_operand_text(*self));
                }
                s
            },
            Operand::QualReg { reg, qual } => {
                let mut s = reg.name();
                s.append("/");
                push_char(&mut s, qual);
                proof {
                    assert(Some(s@) =~= spec_operand_text(*self));
                }
                s
            },
            Operand::Reg { reg, arrspec } => full_reg_lane_string(reg, arrspec),
            Operand::MultiReg { regs, arrspec } => {
                let mut s = String::from_str("{");
                let mut first = true;
                let mut i: usize = 0;
                while i < 5
                    invariant
                        i <= 5,
                        "{"@ + spec_multi_tail(regs, arrspec, 0, true) == s@ + spec_multi_tail(
                            regs,
                            arrspec,
                            i as int,
                            first,
                        ),
                    decreases 5 - i,
                {
                    if let Some(rg) = regs[i] {
                        if !first {
                            s.append(", ");
                        }
                        let t = full_reg_string(rg, arrspec);
                        s.append(t.as_str());
                        first = false;
                    }
                    i = i + 1;
                }
                s.append("}");
                if let Some(a) = arrspec {
                    if let Some(lane) = a.lane() {
                        s.append("[");
                        let d = dec_string(lane as u64);
                        s.append(d.as_str());
                        s.append("]");
                    }
                }
                proof {
                    assert(Some(s@) =~= spec_operand_text(*self));
                }
                s
            },
            Operand::SysReg(sr) => sr.name_text(),
            Operand::MemReg(reg) => {
                let mut s = String::from_str("[");
                let n = reg.name();
                s.append(n.as_str());
                s.append("]");
                proof {
                    assert(Some(s@) =~= spec_operand_text(*self));
                }
                s
            },
            Operand::MemOffset { reg, offset, mul_vl, arrspec } => {
                let mut s = String::from_str("[");
                let t = full_reg_string(reg, arrspec);
                s.append(t.as_str());
                if offset.val != 0 {
                    s.append(", #");
                    let o = offset.render();
                    s.append(o.as_str());
                    if mul_vl {
                        s.append(", mul vl");
                    }
                }
                s.append("]");
                proof {
                    assert(Some(s@) =~= spec_operand_text(*self));
                }
                s
            },
            Operand::MemPreIdx { reg, imm } => {
                let mut s = String::from_str("[");
                let n = reg.name();
                s.append(n.as_str());
                s.append(", #");
                let o = imm.render();
                s.append(o.as_str());
                s.append("]!");
                proof {
                    assert(Some(s@) =~= spec_operand_text(*self));
                }
                s
            },
            Operand::MemPostIdxReg { reg0, reg1 } => {
                let mut s = String::from_str("[");
                let n0 = reg0.name();
                s.append(n0.as_str());
                s.append("], ");
                let n1 = reg1.name();
                s.append(n1.as_str());
                proof {
                    assert(Some(s@) =~= spec_operand_text(*self));
                }
                s
            },
            Operand::MemPostIdxImm { reg, imm } => {
                let mut s = String::from_str("[");
                let n = reg.name();
                s.append(n.as_str());
                s.append("], #");
                let o = imm.render();
                s.append(o.as_str());
                proof {
                    assert(Some(s@) =~= spec_operand_text(*self));
                }
                s
            },
            Operand::MemExt { reg0, reg1, shift, arrspec } => {
                let mut s = String::from_str("[");
                let t0 = full_reg_string(reg0, arrspec);
                s.append(t0.as_str());
                s.append(", ");
                let t1 = full_reg_string(reg1, arrspec);
                s.append(t1.as_str());
                if let Some(sh) = shift {
                    s.append(", ");
                    let st = sh.render();
                    s.append(st.as_str());
                }
                s.append("]");
                proof {
                    assert(Some(s@) =~= spec_operand_text(*self));
                }
                s
            },
            Operand::SmeTile { tile, slice, arrspec, reg, imm } => {
                let mut s = String::from_str("Z");
                let d = dec_string(tile as u64);
                s.append(d.as_str());
                if let Some(sl) = slice {
                    s.append(sl.render());
                }
                if let Some(a) = arrspec {
                    s.append(a.suffix_truncated());
                }
                match (reg, arrspec) {
                    (Some(rg), Some(ArrSpec::Full(_))) => {
                        s.append("[");
                        let n = rg.name();
                        s.append(n.as_str());
                        s.append("]");
                    },
                    (Some(rg), _) => {
                        s.append("[");
                        let n = rg.name();
                        s.append(n.as_str());
                        s.append(", ");
                        let o = imm.render();
                        s.append(o.as_str());
                        s.append("]");
                    },
                    _ => {},
                }
                proof {
                    assert(Some(s@) =~= spec_operand_text(*self));
                }
                s
            },
            Operand::AccumArray { reg, imm } => {
                let mut s = String::from_str("ZA[");
                let n = reg.name();
                s.append(n.as_str());
                s.append(", #");
                let o = imm.render();
                s.append(o.as_str());
                s.append("]");
                proof {
                    assert(Some(s@) =~= spec_operand_text(*self));
                }
                s
            },
            Operand::IndexedElement { reg0, reg1, arrspec, imm } => {
                let mut s = full_reg_string(reg0, arrspec);
                s.append("[");
                let n = reg1.name();
                s.append(n.as_str());
                if imm.val != 0 {
                    s.append(", #");
                    let o = imm.render();
                    s.append(o.as_str());
                }
                s.append("]");
                proof {
                    assert(Some(s@) =~= spec_operand_text(*self));
                }
                s
            },
            Operand::Label(imm) => imm.render(),
            Operand::ImplSpec { o0, o1, cm, cn, o2 } => {
                let mut s = String::from_str("s");
                let d0 = dec_string(o0 as u64);
                s.append(d0.as_str());
                s.append("_");
                let d1 = dec_string(o1 as u64);
                s.append(d1.as_str());
                s.append("_c");
                let d2 = dec_string(cm as u64);
                s.append(d2.as_str());
                s.append("_c");
                let d3 = dec_string(cn as u64);
                s.append(d3.as_str());
                s.append("_");
                let d4 = dec_string(o2 as u64);
                s.append(d4.as_str());
                proof {
                    assert(Some(s@) =~= spec_operand_text(*self));
                }
                s
            },
            Operand::Cond(c) => String::from_str(c.render()),
            Operand::Name(name) => cstr_string(&name),
            Operand::StrImm { str, imm } => {
                let mut s = cstr_string(&str);
                s.append(" #0x");
                let h = hex_string(imm);
                s.append(h.as_str());
                proof {
                    assert(Some(s@) =~= spec_operand_text(*self));
                }
                s
            },
        }
    }
}

fn render_imm_shift(imm: Imm, shift: Option<Shift>) -> (s: String)
    ensures
        s@ == "#"@ + spec_imm_text(imm) + match shift {
            Some(sh) => ", "@ + spec_shift_text(sh),
            None => Seq::<char>::empty(),
        },
{
    let mut s = String::from_str("#");
    let o = imm.render();
    s.append(o.as_str());
    if let Some(sh) = shift {
        s.append(", ");
        let st = sh.render();
        s.append(st.as_str());
    }
    proof {
        assert(s@ =~= "#"@ + spec_imm_text(imm) + match shift {
            Some(sh) => ", "@ + spec_shift_text(sh),
            None => Seq::<char>::empty(),
        });
    }
    s
}

fn opt_reg_eq(a: &Option<Reg>, b: &Option<Reg>) -> (r: bool)
    ensures
        r == (a == b),
{
    match (a, b) {
        (None, None) => true,
        (Some(x), Some(y)) => x.ord == y.ord,
        _ => false,
    }
}

impl PartialEq for Operand {
    fn eq(&self, other: &Operand) -> (r: bool) {
        match (self, other) {
            (
                Operand::Imm32 { imm: a0, shift: a1 },
                Operand::Imm32 { imm: b0, shift: b1 },
            ) => a0 == b0 && a1 == b1,
            (
                Operand::Imm64 { imm: a0, shift: a1 },
                Operand::Imm64 { imm: b0, shift: b1 },
            ) => a0 == b0 && a1 == b1,
            (Operand::FImm32(a0), Operand::FImm32(b0)) => a0 == b0,
            (
                Operand::ShiftReg { reg: a0, shift: a1 },
                Operand::ShiftReg { reg: b0, shift: b1 },
            ) => a0 == b0 && a1 == b1,
            (
                Operand::QualReg { reg: a0, qual: a1 },
                Operand::QualReg { reg: b0, qual: b1 },
            ) => a0 == b0 && a1 == b1,
            (
                Operand::Reg { reg: a0, arrspec: a1 },
                Operand::Reg { reg: b0, arrspec: b1 },
            ) => a0 == b0 && a1 == b1,
            (
                Operand::MultiReg { regs: a0, arrspec: a1 },
                Operand::MultiReg { regs: b0, arrspec: b1 },
            ) => {
                let rs = opt_reg_eq(&a0[0], &b0[0]) && opt_reg_eq(&a0[1], &b0[1]) && opt_reg_eq(
                    &a0[2],
                    &b0[2],
                ) && opt_reg_eq(&a0[3], &b0[3]) && opt_reg_eq(&a0[4], &b0[4]);
                proof {
                    if rs {
                        assert(a0@ =~= b0@);
                    }
                }
                rs && a1 == b1
            },
            (Operand::SysReg(a0), Operand::SysReg(b0)) => a0 == b0,
            (Operand::MemReg(a0), Operand::MemReg(b0)) => a0 == b0,
            (
                Operand::MemOffset { reg: a0, offset: a1, mul_vl: a2, arrspec: a3 },
                Operand::MemOffset { reg: b0, offset: b1, mul_vl: b2, arrspec: b3 },
            ) => a0 == b0 && a1 == b1 && a2 == b2 && a3 == b3,
            (
                Operand::MemPreIdx { reg: a0, imm: a1 },
                Operand::MemPreIdx { reg: b0, imm: b1 },
            ) => a0 == b0 && a1 == b1,
            (
                Operand::MemPostIdxReg { reg0: a0, reg1: a1 },
                Operand::MemPostIdxReg { reg0: b0, reg1: b1 },
            ) => a0 == b0 && a1 == b1,
            (
                Operand::MemPostIdxImm { reg: a0, imm: a1 },
                Operand::MemPostIdxImm { reg: b0, imm: b1 },
            ) => a0 == b0 && a1 == b1,
            (
                Operand::MemExt { reg0: a0, reg1: a1, shift: a2, arrspec: a3 },
                Operand::MemExt { reg0: b0, reg1: b1, shift: b2, arrspec: b3 },
            ) => a0 == b0 && a1 == b1 && a2 == b2 && a3 == b3,
            (
                Operand::SmeTile { tile: a0, slice: a1, arrspec: a2, reg: a3, imm: a4 },
                Operand::SmeTile { tile: b0, slice: b1, arrspec: b2, reg: b3, imm: b4 },
            ) => a0 == b0 && a1 == b1 && a2 == b2 && opt_reg_eq(a3, b3) && a4 == b4,
            (
                Operand::AccumArray { reg: a0, imm: a1 },
                Operand::AccumArray { reg: b0, imm: b1 },
            ) => a0 == b0 && a1 == b1,
            (
                Operand::IndexedElement { reg0: a0, reg1: a1, arrspec: a2, imm: a3 },
                Operand::IndexedElement { reg0: b0, reg1: b1, arrspec: b2, imm: b3 },
            ) => a0 == b0 && a1 == b1 && a2 == b2 && a3 == b3,
            (Operand::Label(a0), Operand::Label(b0)) => a0 == b0,
            (
                Operand::ImplSpec { o0: a0, o1: a1, cm: a2, cn: a3, o2: a4 },
                Operand::ImplSpec { o0: b0, o1: b1, cm: b2, cn: b3, o2: b4 },
            ) => a0 == b0 && a1 == b1 && a2 == b2 && a3 == b3 && a4 == b4,
            (Operand::Cond(a0), Operand::Cond(b0)) => a0 == b0,
            (Operand::Name(a0), Operand::Name(b0)) => bytes_eq(a0, b0),
            (
                Operand::StrImm { str: a0, imm: a1 },
                Operand::StrImm { str: b0, imm: b1 },
            ) => bytes_eq(a0, b0) && a1 == b1,
            _ => false,
        }
    }
}

impl vstd::std_specs::cmp::PartialEqSpecImpl for Operand {
    open spec fn obeys_eq_spec() -> bool {
        true
    }

    open spec fn eq_spec(&self, other: &Operand) -> bool {
        match (*self, *other) {
            (
                Operand::Imm32 { imm: a0, shift: a1 },
                Operand::Imm32 { imm: b0, shift: b1 },
            ) => a0 == b0 && a1 == b1,
            (
                Operand::Imm64 { imm: a0, shift: a1 },
                Operand::Imm64 { imm: b0, shift: b1 },
            ) => a0 == b0 && a1 == b1,
            (Operand::FImm32(a0), Operand::FImm32(b0)) => a0 == b0,
            (
                Operand::ShiftReg { reg: a0, shift: a1 },
                Operand::ShiftReg { reg: b0, shift: b1 },
            ) => a0 == b0 && a1 == b1,
            (
                Operand::QualReg { reg: a0, qual: a1 },
                Operand::QualReg { reg: b0, qual: b1 },
            ) => a0 == b0 && a1 == b1,
            (
                Operand::Reg { reg: a0, arrspec: a1 },
                Operand::Reg { reg: b0, arrspec: b1 },
            ) => a0 == b0 && a1 == b1,
            (
                Operand::MultiReg { regs: a0, arrspec: a1 },
                Operand::MultiReg { regs: b0, arrspec: b1 },
            ) => a0@ == b0@ && a1 == b1,
            (Operand::SysReg(a0), Operand::SysReg(b0)) => a0.ord == b0.ord,
            (Operand::MemReg(a0), Operand::MemReg(b0)) => a0 == b0,
            (
                Operand::MemOffset { reg: a0, offset: a1, mul_vl: a2, arrspec: a3 },
                Operand::MemOffset { reg: b0, offset: b1, mul_vl: b2, arrspec: b3 },
            ) => a0 == b0 && a1 == b1 && a2 == b2 && a3 == b3,
            (
                Operand::MemPreIdx { reg: a0, imm: a1 },
                Operand::MemPreIdx { reg: b0, imm: b1 },
            ) => a0 == b0 && a1 == b1,
            (
                Operand::MemPostIdxReg { reg0: a0, reg1: a1 },
                Operand::MemPostIdxReg { reg0: b0, reg1: b1 },
            ) => a0 == b0 && a1 == b1,
            (
                Operand::MemPostIdxImm { reg: a0, imm: a1 },
                Operand::MemPostIdxImm { reg: b0, imm: b1 },
            ) => a0 == b0 && a1 == b1,
            (
                Operand::MemExt { reg0: a0, reg1: a1, shift: a2, arrspec: a3 },
                Operand::MemExt { reg0: b0, reg1: b1, shift: b2, arrspec: b3 },
            ) => a0 == b0 && a1 == b1 && a2 == b2 && a3 == b3,
            (
                Operand::SmeTile { tile: a0, slice: a1, arrspec: a2, reg: a3, imm: a4 },
                Operand::SmeTile { tile: b0, slice: b1, arrspec: b2, reg: b3, imm: b4 },
            ) => a0 == b0 && a1 == b1 && a2 == b2 && a3 == b3 && a4 == b4,
            (
                Operand::AccumArray { reg: a0, imm: a1 },
                Operand::AccumArray { reg: b0, imm: b1 },
            ) => a0 == b0 && a1 == b1,
            (
                Operand::IndexedElement { reg0: a0, reg1: a1, arrspec: a2, imm: a3 },
                Operand::IndexedElement { reg0: b0, reg1: b1, arrspec: b2, imm: b3 },
            ) => a0 == b0 && a1 == b1 && a2 == b2 && a3 == b3,
            (Operand::Label(a0), Operand::Label(b0)) => a0 == b0,
            (
                Operand::ImplSpec { o0: a0, o1: a1, cm: a2, cn: a3, o2: a4 },
                Operand::ImplSpec { o0: b0, o1: b1, cm: b2, cn: b3, o2: b4 },
            ) => a0 == b0 && a1 == b1 && a2 == b2 && a3 == b3 && a4 == b4,
            (Operand::Cond(a0), Operand::Cond(b0)) => a0 == b0,
            (Operand::Name(a0), Operand::Name(b0)) => a0@ == b0@,
            (
                Operand::StrImm { str: a0, imm: a1 },
                Operand::StrImm { str: b0, imm: b1 },
            ) => a0@ == b0@ && a1 == b1,
            _ => false,
        }
    }
}

} // verus!
