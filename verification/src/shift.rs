//! A shift or extend applied to a register or immediate operand: one of
//! thirteen kinds, each carrying an unsigned amount.

use vstd::prelude::*;
use vstd::string::StringExecFns;

use crate::text::hex_string;
use crate::text::spec_hex;

verus! {

/// A shift applied to a register or immediate.
#[derive(Clone, Copy, Debug, Hash, PartialEq, Eq, Structural)]
pub enum Shift {
    LSL(u32),
    LSR(u32),
    ASR(u32),
    ROR(u32),
    UXTW(u32),
    SXTW(u32),
    SXTX(u32),
    UXTX(u32),
    SXTB(u32),
    SXTH(u32),
    UXTH(u32),
    UXTB(u32),
    MSL(u32),
}

/// The lowercase mnemonic of the shift kind.
pub open spec fn spec_shift_mnem(s: Shift) -> Seq<char> {
    match s {
        Shift::LSL(_) => "lsl"@,
        Shift::LSR(_) => "lsr"@,
        Shift::ASR(_) => "asr"@,
        Shift::ROR(_) => "ror"@,
        Shift::UXTW(_) => "uxtw"@,
        Shift::SXTW(_) => "sxtw"@,
        Shift::SXTX(_) => "sxtx"@,
        Shift::UXTX(_) => "uxtx"@,
        Shift::SXTB(_) => "sxtb"@,
        Shift::SXTH(_) => "sxth"@,
        Shift::UXTH(_) => "uxth"@,
        Shift::UXTB(_) => "uxtb"@,
        Shift::MSL(_) => "msl"@,
    }
}

/// The shift amount.
pub open spec fn spec_shift_amount(s: Shift) -> u32 {
    match s {
        Shift::LSL(a) => a,
        Shift::LSR(a) => a,
        Shift::ASR(a) => a,
        Shift::ROR(a) => a,
        Shift::UXTW(a) => a,
        Shift::SXTW(a) => a,
        Shift::SXTX(a) => a,
        Shift::UXTX(a) => a,
        Shift::SXTB(a) => a,
        Shift::SXTH(a) => a,
        Shift::UXTH(a) => a,
        Shift::UXTB(a) => a,
        Shift::MSL(a) => a,
    }
}

/// The assembler text of a shift: mnemonic, a space, then `#0x` and the
/// amount in hexadecimal.
pub open spec fn spec_shift_text(s: Shift) -> Seq<char> {
    spec_shift_mnem(s) + " #0x"@ + spec_hex(spec_shift_amount(s) as nat)
}

/// The shift for a raw shift-type code and amount, as the decoder numbers
/// the codes; the zero code means no shift, and the code one past the last
/// kind is the table's end marker.
pub open spec fn spec_shift_of(kind: u32, amount: u32) -> Option<Shift> {
    if kind == 1 {
        Some(Shift::LSL(amount))
    } else if kind == 2 {
        Some(Shift::LSR(amount))
    } else if kind == 3 {
        Some(Shift::ASR(amount))
    } else if kind == 4 {
        Some(Shift::ROR(amount))
    } else if kind == 5 {
        Some(Shift::UXTW(amount))
    } else if kind == 6 {
        Some(Shift::SXTW(amount))
    } else if kind == 7 {
        Some(Shift::SXTX(amount))
    } else if kind == 8 {
        Some(Shift::UXTX(amount))
    } else if kind == 9 {
        Some(Shift::SXTB(amount))
    } else if kind == 10 {
        Some(Shift::SXTH(amount))
    } else if kind == 11 {
        Some(Shift::UXTH(amount))
    } else if kind == 12 {
        Some(Shift::UXTB(amount))
    } else if kind == 13 {
        Some(Shift::MSL(amount))
    } else {
        None
    }
}

impl Shift {
    /// The shift for a raw shift-type code and amount.
    pub fn from_raw(kind: u32, amount: u32) -> (r: Option<Shift>)
        ensures
            r == spec_shift_of(kind, amount),
    {
        match kind {
            1 => Some(Shift::LSL(amount)),
            2 => Some(Shift::LSR(amount)),
            3 => Some(Shift::ASR(amount)),
            4 => Some(Shift::ROR(amount)),
            5 => Some(Shift::UXTW(amount)),
            6 => Some(Shift::SXTW(amount)),
            7 => Some(Shift::SXTX(amount)),
            8 => Some(Shift::UXTX(amount)),
            9 => Some(Shift::SXTB(amount)),
            10 => Some(Shift::SXTH(amount)),
            11 => Some(Shift::UXTH(amount)),
            12 => Some(Shift::UXTB(amount)),
            13 => Some(Shift::MSL(amount)),
            _ => None,
        }
    }

    /// Renders the shift as assembler text.
    pub fn render(&self) -> (s: String)
        ensures
            s@ == spec_shift_text(*self),
    {
        let mut s = match *self {
            Shift::LSL(_) => String::from_str("lsl"),
            Shift::LSR(_) => String::from_str("lsr"),
            Shift::ASR(_) => String::from_str("asr"),
            Shift::ROR(_) => String::from_str("ror"),
            Shift::UXTW(_) => String::from_str("uxtw"),
            Shift::SXTW(_) => String::from_str("sxtw"),
            Shift::SXTX(_) => String::from_str("sxtx"),
            Shift::UXTX(_) => String::from_str("uxtx"),
            Shift::SXTB(_) => String::from_str("sxtb"),
            Shift::SXTH(_) => String::from_str("sxth"),
            Shift::UXTH(_) => String::from_str("uxth"),
            Shift::UXTB(_) => String::from_str("uxtb"),
            Shift::MSL(_) => String::from_str("msl"),
        };
        s.append(" #0x");
        let amount = match *self {
            Shift::LSL(a) => a,
            Shift::LSR(a) => a,
            Shift::ASR(a) => a,
            Shift::ROR(a) => a,
            Shift::UXTW(a) => a,
            Shift::SXTW(a) => a,
            Shift::SXTX(a) => a,
            Shift::UXTX(a) => a,
            Shift::SXTB(a) => a,
            Shift::SXTH(a) => a,
            Shift::UXTH(a) => a,
            Shift::UXTB(a) => a,
            Shift::MSL(a) => a,
        };
        let h = hex_string(amount as u64);
        s.append(h.as_str());
        proof {
            assert(s@ =~= spec_shift_text(*self));
        }
        s
    }
}

} // verus!
