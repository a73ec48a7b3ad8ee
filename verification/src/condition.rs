//! Condition codes: sixteen two-letter comparison predicates, numbered as
//! the decoder numbers them.

use vstd::prelude::*;

verus! {

/// A condition code.
#[derive(Clone, Copy, Debug, Hash, PartialEq, Eq, Structural)]
pub enum Condition {
    EQ,
    NE,
    CS,
    CC,
    MI,
    PL,
    VS,
    VC,
    HI,
    LS,
    GE,
    LT,
    GT,
    LE,
    AL,
    NV,
}

/// The condition for a raw code, if the code is below sixteen.
pub open spec fn spec_condition_of(code: u32) -> Option<Condition> {
    if code == 0 {
        Some(Condition::EQ)
    } else if code == 1 {
        Some(Condition::NE)
    } else if code == 2 {
        Some(Condition::CS)
    } else if code == 3 {
        Some(Condition::CC)
    } else if code == 4 {
        Some(Condition::MI)
    } else if code == 5 {
        Some(Condition::PL)
    } else if code == 6 {
        Some(Condition::VS)
    } else if code == 7 {
        Some(Condition::VC)
    } else if code == 8 {
        Some(Condition::HI)
    } else if code == 9 {
        Some(Condition::LS)
    } else if code == 10 {
        Some(Condition::GE)
    } else if code == 11 {
        Some(Condition::LT)
    } else if code == 12 {
        Some(Condition::GT)
    } else if code == 13 {
        Some(Condition::LE)
    } else if code == 14 {
        Some(Condition::AL)
    } else if code == 15 {
        Some(Condition::NV)
    } else {
        None
    }
}

/// The two-letter mnemonic of a condition.
pub open spec fn spec_condition_text(c: Condition) -> Seq<char> {
    match c {
        Condition::EQ => "eq"@,
        Condition::NE => "ne"@,
        Condition::CS => "cs"@,
        Condition::CC => "cc"@,
        Condition::MI => "mi"@,
        Condition::PL => "pl"@,
        Condition::VS => "vs"@,
        Condition::VC => "vc"@,
        Condition::HI => "hi"@,
        Condition::LS => "ls"@,
        Condition::GE => "ge"@,
        Condition::LT => "lt"@,
        Condition::GT => "gt"@,
        Condition::LE => "le"@,
        Condition::AL => "al"@,
        Condition::NV => "nv"@,
    }
}

impl Condition {
    /// The condition for a raw code, as the decoder numbers them.
    pub fn from_u32(code: u32) -> (r: Option<Condition>)
        ensures
            r == spec_condition_of(code),
    {
        match code {
            0 => Some(Condition::EQ),
            1 => Some(Condition::NE),
            2 => Some(Condition::CS),
            3 => Some(Condition::CC),
            4 => Some(Condition::MI),
            5 => Some(Condition::PL),
            6 => Some(Condition::VS),
            7 => Some(Condition::VC),
            8 => Some(Condition::HI),
            9 => Some(Condition::LS),
            10 => Some(Condition::GE),
            11 => Some(Condition::LT),
            12 => Some(Condition::GT),
            13 => Some(Condition::LE),
            14 => Some(Condition::AL),
            15 => Some(Condition::NV),
            _ => None,
        }
    }

    /// Renders the two-letter mnemonic.
    pub fn render(&self) -> (s: &'static str)
        ensures
            s@ == spec_condition_text(*self),
    {
        match *self {
            Condition::EQ => "eq",
            Condition::NE => "ne",
            Condition::CS => "cs",
            Condition::CC => "cc",
            Condition::MI => "mi",
            Condition::PL => "pl",
            Condition::VS => "vs",
            Condition::VC => "vc",
            Condition::HI => "hi",
            Condition::LS => "ls",
            Condition::GE => "ge",
            Condition::LT => "lt",
            Condition::GT => "gt",
            Condition::LE => "le",
            Condition::AL => "al",
            Condition::NV => "nv",
        }
    }
}

} // verus!
