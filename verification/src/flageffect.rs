//! The effect a decoded instruction has on the condition flags, as the
//! decoder's flag field reports it.

use vstd::prelude::*;

verus! {

/// Raw flag-field code: the instruction leaves the flags alone.
pub const FLAG_CODE_NONE: u32 = 0;

/// Raw flag-field code: the instruction sets flags of an unknown kind.
pub const FLAG_CODE_SETS: u32 = 1;

/// Raw flag-field code: the instruction sets flags after an integer
/// comparison.
pub const FLAG_CODE_SETS_NORMAL: u32 = 2;

/// Raw flag-field code: the instruction sets flags after a floating-point
/// comparison.
pub const FLAG_CODE_SETS_FLOAT: u32 = 3;

/// The semantic meaning of the flag setting.
#[derive(Clone, Copy, Debug, Eq, Hash, PartialEq, Structural)]
pub enum FlagEffect {
    Sets,
    Integer,
    Float,
}

/// The flag effect for a raw flag-field code; the zero code means the flags
/// are untouched, and an out-of-range code names nothing.
pub open spec fn spec_flag_effect_of(code: u32) -> Option<FlagEffect> {
    if code == FLAG_CODE_SETS {
        Some(FlagEffect::Sets)
    } else if code == FLAG_CODE_SETS_NORMAL {
        Some(FlagEffect::Integer)
    } else if code == FLAG_CODE_SETS_FLOAT {
        Some(FlagEffect::Float)
    } else {
        None
    }
}

impl FlagEffect {
    /// The flag effect for a raw flag-field code.
    pub fn from_code(code: u32) -> (r: Option<FlagEffect>)
        ensures
            r == spec_flag_effect_of(code),
    {
        if code == FLAG_CODE_SETS {
            Some(FlagEffect::Sets)
        } else if code == FLAG_CODE_SETS_NORMAL {
            Some(FlagEffect::Integer)
        } else if code == FLAG_CODE_SETS_FLOAT {
            Some(FlagEffect::Float)
        } else {
            None
        }
    }
}

} // verus!
