//! Vector arrangement specifiers: fourteen element shape/count tags, each
//! optionally carrying a lane index, and the suffix rules that attach them to
//! register names.

use vstd::prelude::*;

use crate::reg::Reg;

verus! {

/// A raw arrangement tag, as the decoder reports it (without the lane).
#[derive(Clone, Copy, Debug, PartialEq, Eq, Structural)]
pub enum ArrKind {
    Full,
    TwoDoubles,
    FourSingles,
    EightHalves,
    SixteenBytes,
    OneDouble,
    TwoSingles,
    FourHalves,
    EightBytes,
    OneSingle,
    TwoHalves,
    FourBytes,
    OneHalf,
    OneByte,
}

/// The arrangement tag for a raw arrangement code, as the decoder numbers
/// the codes; the zero code means no arrangement.
pub open spec fn spec_arr_kind_of(code: u32) -> Option<ArrKind> {
    if code == 1 {
        Some(ArrKind::Full)
    } else if code == 2 {
        Some(ArrKind::TwoDoubles)
    } else if code == 3 {
        Some(ArrKind::FourSingles)
    } else if code == 4 {
        Some(ArrKind::EightHalves)
    } else if code == 5 {
        Some(ArrKind::SixteenBytes)
    } else if code == 6 {
        Some(ArrKind::OneDouble)
    } else if code == 7 {
        Some(ArrKind::TwoSingles)
    } else if code == 8 {
        Some(ArrKind::FourHalves)
    } else if code == 9 {
        Some(ArrKind::EightBytes)
    } else if code == 10 {
        Some(ArrKind::OneSingle)
    } else if code == 11 {
        Some(ArrKind::TwoHalves)
    } else if code == 12 {
        Some(ArrKind::FourBytes)
    } else if code == 13 {
        Some(ArrKind::OneHalf)
    } else if code == 14 {
        Some(ArrKind::OneByte)
    } else {
        None
    }
}

impl ArrKind {
    /// The arrangement tag for a raw arrangement code.
    pub fn from_u32(code: u32) -> (r: Option<ArrKind>)
        ensures
            r == spec_arr_kind_of(code),
    {
        match code {
            1 => Some(ArrKind::Full),
            2 => Some(ArrKind::TwoDoubles),
            3 => Some(ArrKind::FourSingles),
            4 => Some(ArrKind::EightHalves),
            5 => Some(ArrKind::SixteenBytes),
            6 => Some(ArrKind::OneDouble),
            7 => Some(ArrKind::TwoSingles),
            8 => Some(ArrKind::FourHalves),
            9 => Some(ArrKind::EightBytes),
            10 => Some(ArrKind::OneSingle),
            11 => Some(ArrKind::TwoHalves),
            12 => Some(ArrKind::FourBytes),
            13 => Some(ArrKind::OneHalf),
            14 => Some(ArrKind::OneByte),
            _ => None,
        }
    }
}

/// An arrangement specifier: an element shape/count tag with an optional
/// lane index.
#[derive(Clone, Copy, Debug, Hash, PartialEq, Eq, Structural)]
pub enum ArrSpec {
    Full(Option<u32>),
    TwoDoubles(Option<u32>),
    FourSingles(Option<u32>),
    EightHalves(Option<u32>),
    SixteenBytes(Option<u32>),
    OneDouble(Option<u32>),
    TwoSingles(Option<u32>),
    FourHalves(Option<u32>),
    EightBytes(Option<u32>),
    OneSingle(Option<u32>),
    TwoHalves(Option<u32>),
    FourBytes(Option<u32>),
    OneHalf(Option<u32>),
    OneByte(Option<u32>),
}

/// The arrangement built from a raw tag and the raw lane fields: the tag
/// picks the variant, and the lane is attached only where the lane-used flag
/// is set.
pub open spec fn spec_arrspec_of(kind: Option<ArrKind>, lane_used: bool, lane: u32) -> Option<
    ArrSpec,
> {
    let l = if lane_used {
        Some(lane)
    } else {
        None
    };
    match kind {
        None => None,
        Some(ArrKind::Full) => Some(ArrSpec::Full(l)),
        Some(ArrKind::TwoDoubles) => Some(ArrSpec::TwoDoubles(l)),
        Some(ArrKind::FourSingles) => Some(ArrSpec::FourSingles(l)),
        Some(ArrKind::EightHalves) => Some(ArrSpec::EightHalves(l)),
        Some(ArrKind::SixteenBytes) => Some(ArrSpec::SixteenBytes(l)),
        Some(ArrKind::OneDouble) => Some(ArrSpec::OneDouble(l)),
        Some(ArrKind::TwoSingles) => Some(ArrSpec::TwoSingles(l)),
        Some(ArrKind::FourHalves) => Some(ArrSpec::FourHalves(l)),
        Some(ArrKind::EightBytes) => Some(ArrSpec::EightBytes(l)),
        Some(ArrKind::OneSingle) => Some(ArrSpec::OneSingle(l)),
        Some(ArrKind::TwoHalves) => Some(ArrSpec::TwoHalves(l)),
        Some(ArrKind::FourBytes) => Some(ArrSpec::FourBytes(l)),
        Some(ArrKind::OneHalf) => Some(ArrSpec::OneHalf(l)),
        Some(ArrKind::OneByte) => Some(ArrSpec::OneByte(l)),
    }
}

/// The lane carried by an arrangement, uniformly over all fourteen tags.
pub open spec fn spec_lane(a: ArrSpec) -> Option<u32> {
    match a {
        ArrSpec::Full(l) => l,
        ArrSpec::TwoDoubles(l) => l,
        ArrSpec::FourSingles(l) => l,
        ArrSpec::EightHalves(l) => l,
        ArrSpec::SixteenBytes(l) => l,
        ArrSpec::OneDouble(l) => l,
        ArrSpec::TwoSingles(l) => l,
        ArrSpec::FourHalves(l) => l,
        ArrSpec::EightBytes(l) => l,
        ArrSpec::OneSingle(l) => l,
        ArrSpec::TwoHalves(l) => l,
        ArrSpec::FourBytes(l) => l,
        ArrSpec::OneHalf(l) => l,
        ArrSpec::OneByte(l) => l,
    }
}

/// The element-size-only suffix: just the element width letter.
pub open spec fn spec_short_suffix(a: ArrSpec) -> Seq<char> {
    match a {
        ArrSpec::Full(_) => ".q"@,
        ArrSpec::TwoDoubles(_) => ".d"@,
        ArrSpec::OneDouble(_) => ".d"@,
        ArrSpec::FourSingles(_) => ".s"@,
        ArrSpec::TwoSingles(_) => ".s"@,
        ArrSpec::OneSingle(_) => ".s"@,
        ArrSpec::EightHalves(_) => ".h"@,
        ArrSpec::FourHalves(_) => ".h"@,
        ArrSpec::TwoHalves(_) => ".h"@,
        ArrSpec::OneHalf(_) => ".h"@,
        ArrSpec::SixteenBytes(_) => ".b"@,
        ArrSpec::EightBytes(_) => ".b"@,
        ArrSpec::FourBytes(_) => ".b"@,
        ArrSpec::OneByte(_) => ".b"@,
    }
}

/// The count-and-size suffix: element count then element width letter.
pub open spec fn spec_long_suffix(a: ArrSpec) -> Seq<char> {
    match a {
        ArrSpec::Full(_) => ".1q"@,
        ArrSpec::TwoDoubles(_) => ".2d"@,
        ArrSpec::OneDouble(_) => ".1d"@,
        ArrSpec::FourSingles(_) => ".4s"@,
        ArrSpec::TwoSingles(_) => ".2s"@,
        ArrSpec::OneSingle(_) => ".1s"@,
        ArrSpec::EightHalves(_) => ".8h"@,
        ArrSpec::FourHalves(_) => ".4h"@,
        ArrSpec::TwoHalves(_) => ".2h"@,
        ArrSpec::OneHalf(_) => ".1h"@,
        ArrSpec::SixteenBytes(_) => ".16b"@,
        ArrSpec::EightBytes(_) => ".8b"@,
        ArrSpec::FourBytes(_) => ".4b"@,
        ArrSpec::OneByte(_) => ".1b"@,
    }
}

/// The suffix an arrangement attaches to a register name: empty unless the
/// register is SIMD, scalable vector, or predicate; the element-size-only
/// form where a lane is present or the register is scalable or predicate;
/// the count-and-size form otherwise.
pub open spec fn spec_suffix(a: ArrSpec, reg: Reg) -> Seq<char> {
    if !reg.spec_is_simd() && !reg.spec_is_sve() && !reg.spec_is_pred() {
        Seq::<char>::empty()
    } else if spec_lane(a) is Some || reg.spec_is_sve() || reg.spec_is_pred() {
        spec_short_suffix(a)
    } else {
        spec_long_suffix(a)
    }
}

/// The suffix rule, case by case: on a SIMD register a lane-bearing
/// arrangement takes the element-size-only suffix and a lane-free one the
/// count-and-size suffix; on a register in none of the vector classes every
/// arrangement takes the empty suffix.
pub proof fn lemma_suffix_forms(a: ArrSpec, reg: Reg)
    ensures
        reg.spec_is_simd() && spec_lane(a) is Some ==> spec_suffix(a, reg) == spec_short_suffix(a),
        reg.spec_is_simd() && spec_lane(a) is None ==> spec_suffix(a, reg) == spec_long_suffix(a),
        !reg.spec_is_simd() && !reg.spec_is_sve() && !reg.spec_is_pred() ==> spec_suffix(a, reg)
            == Seq::<char>::empty(),
{
}

impl ArrSpec {
    /// Builds the arrangement from the raw tag and lane fields.
    pub fn from_raw(kind: Option<ArrKind>, lane_used: bool, lane: u32) -> (r: Option<ArrSpec>)
        ensures
            r == spec_arrspec_of(kind, lane_used, lane),
    {
        let l = if lane_used {
            Some(lane)
        } else {
            None
        };
        match kind {
            None => None,
            Some(ArrKind::Full) => Some(ArrSpec::Full(l)),
            Some(ArrKind::TwoDoubles) => Some(ArrSpec::TwoDoubles(l)),
            Some(ArrKind::FourSingles) => Some(ArrSpec::FourSingles(l)),
            Some(ArrKind::EightHalves) => Some(ArrSpec::EightHalves(l)),
            Some(ArrKind::SixteenBytes) => Some(ArrSpec::SixteenBytes(l)),
            Some(ArrKind::OneDouble) => Some(ArrSpec::OneDouble(l)),
            Some(ArrKind::TwoSingles) => Some(ArrSpec::TwoSingles(l)),
            Some(ArrKind::FourHalves) => Some(ArrSpec::FourHalves(l)),
            Some(ArrKind::EightBytes) => Some(ArrSpec::EightBytes(l)),
            Some(ArrKind::OneSingle) => Some(ArrSpec::OneSingle(l)),
            Some(ArrKind::TwoHalves) => Some(ArrSpec::TwoHalves(l)),
            Some(ArrKind::FourBytes) => Some(ArrSpec::FourBytes(l)),
            Some(ArrKind::OneHalf) => Some(ArrSpec::OneHalf(l)),
            Some(ArrKind::OneByte) => Some(ArrSpec::OneByte(l)),
        }
    }

    /// Returns the lane index, if one is carried.
    pub fn lane(&self) -> (r: Option<u32>)
        ensures
            r == spec_lane(*self),
    {
        match *self {
            ArrSpec::Full(l) => l,
            ArrSpec::TwoDoubles(l) => l,
            ArrSpec::FourSingles(l) => l,
            ArrSpec::EightHalves(l) => l,
            ArrSpec::SixteenBytes(l) => l,
            ArrSpec::OneDouble(l) => l,
            ArrSpec::TwoSingles(l) => l,
            ArrSpec::FourHalves(l) => l,
            ArrSpec::EightBytes(l) => l,
            ArrSpec::OneSingle(l) => l,
            ArrSpec::TwoHalves(l) => l,
            ArrSpec::FourBytes(l) => l,
            ArrSpec::OneHalf(l) => l,
            ArrSpec::OneByte(l) => l,
        }
    }

    /// Returns the suffix this arrangement attaches to the given register.
    pub fn suffix(&self, reg: Reg) -> (s: &'static str)
        ensures
            s@ == spec_suffix(*self, reg),
    {
        let is_sve = reg.is_sve();
        let is_pred = reg.is_pred();
        if !reg.is_simd() && !is_sve && !is_pred {
            proof {
                reveal_strlit("");
                assert(""@ =~= Seq::<char>::empty());
            }
            return "";
        }
        if self.lane().is_some() || is_sve || is_pred {
            return self.suffix_truncated();
        }
        match *self {
            ArrSpec::Full(_) => ".1q",
            ArrSpec::TwoDoubles(_) => ".2d",
            ArrSpec::OneDouble(_) => ".1d",
            ArrSpec::FourSingles(_) => ".4s",
            ArrSpec::TwoSingles(_) => ".2s",
            ArrSpec::OneSingle(_) => ".1s",
            ArrSpec::EightHalves(_) => ".8h",
            ArrSpec::FourHalves(_) => ".4h",
            ArrSpec::TwoHalves(_) => ".2h",
            ArrSpec::OneHalf(_) => ".1h",
            ArrSpec::SixteenBytes(_) => ".16b",
            ArrSpec::EightBytes(_) => ".8b",
            ArrSpec::FourBytes(_) => ".4b",
            ArrSpec::OneByte(_) => ".1b",
        }
    }

    /// Returns the element-size-only suffix, whatever the register.
    pub fn suffix_truncated(&self) -> (s: &'static str)
        ensures
            s@ == spec_short_suffix(*self),
    {
        match *self {
            ArrSpec::Full(_) => ".q",
            ArrSpec::TwoDoubles(_) => ".d",
            ArrSpec::OneDouble(_) => ".d",
            ArrSpec::FourSingles(_) => ".s",
            ArrSpec::TwoSingles(_) => ".s",
            ArrSpec::OneSingle(_) => ".s",
            ArrSpec::EightHalves(_) => ".h",
            ArrSpec::FourHalves(_) => ".h",
            ArrSpec::TwoHalves(_) => ".h",
            ArrSpec::OneHalf(_) => ".h",
            ArrSpec::SixteenBytes(_) => ".b",
            ArrSpec::EightBytes(_) => ".b",
            ArrSpec::FourBytes(_) => ".b",
            ArrSpec::OneByte(_) => ".b",
        }
    }
}

} // verus!
