//! The register catalog: identities are ordinals drawn from disjoint,
//! contiguous ranges, one range per register class.  Class predicates are pure
//! range checks; the name and width tables follow the decoder's numbering.

use vstd::prelude::*;
use vstd::string::StringExecFns;

use crate::text::dec_string;
use crate::text::hex_string;
use crate::text::spec_dec;
use crate::text::spec_hex;

verus! {

/// First 32-bit general-purpose ordinal (`w0`).
pub const ORD_W0: u32 = 1;

/// The 32-bit zero register (`wzr`).
pub const ORD_WZR: u32 = 32;

/// The 32-bit stack pointer view (`wsp`).
pub const ORD_WSP: u32 = 33;

/// First 64-bit general-purpose ordinal (`x0`).
pub const ORD_X0: u32 = 34;

/// The frame pointer (`fp`, in place of `x29`).
pub const ORD_FP: u32 = 63;

/// The link register (`lr`, in place of `x30`).
pub const ORD_LR: u32 = 64;

/// The 64-bit zero register (`xzr`).
pub const ORD_XZR: u32 = 65;

/// The stack pointer (`sp`).
pub const ORD_SP: u32 = 66;

/// First full SIMD vector ordinal (`v0`).
pub const ORD_V0: u32 = 67;

/// First 8-bit scalar SIMD view (`b0`).
pub const ORD_B0: u32 = 99;

/// First 16-bit scalar SIMD view (`h0`).
pub const ORD_H0: u32 = 131;

/// First 32-bit scalar SIMD view (`s0`).
pub const ORD_S0: u32 = 163;

/// First 64-bit scalar SIMD view (`d0`).
pub const ORD_D0: u32 = 195;

/// First 128-bit scalar SIMD view (`q0`).
pub const ORD_Q0: u32 = 227;

/// First byte-element ordinal (`v0.b[0]`); sixteen per vector.
pub const ORD_VB0: u32 = 259;

/// First half-element ordinal (`v0.h[0]`); eight per vector.
pub const ORD_VH0: u32 = 771;

/// First single-element ordinal (`v0.s[0]`); four per vector.
pub const ORD_VS0: u32 = 1027;

/// First double-element ordinal (`v0.d[0]`); two per vector.
pub const ORD_VD0: u32 = 1155;

/// First scalable vector ordinal (`z0`).
pub const ORD_Z0: u32 = 1219;

/// First scalable predicate ordinal (`p0`).
pub const ORD_P0: u32 = 1251;

/// First prefetch-operation ordinal (`pldl1keep`).
pub const ORD_PF0: u32 = 1283;

/// The lookup-table register (`zt0`).
pub const ORD_ZT0: u32 = 1315;

/// One past the last register ordinal.
pub const ORD_END: u32 = 1316;

/// A register identity.
///
/// The ordinal space is the decoder's: disjoint contiguous ranges per class,
/// with `0` reserved for "no register".
#[derive(Clone, Copy, Debug, PartialEq, Eq, Hash, Structural)]
pub struct Reg {
    pub ord: u32,
}

/// An ordinal that names an actual register.
pub open spec fn valid_reg_ord(ord: u32) -> bool {
    1 <= ord < ORD_END
}

/// The register name, exactly as the decoder's name table spells it; empty
/// for an ordinal outside the register space.
pub open spec fn spec_reg_name(ord: u32) -> Seq<char> {
    if ORD_W0 <= ord < ORD_WZR {
        "w"@ + spec_dec((ord - ORD_W0) as nat)
    } else if ord == ORD_WZR {
        "wzr"@
    } else if ord == ORD_WSP {
        "wsp"@
    } else if ORD_X0 <= ord < ORD_FP {
        "x"@ + spec_dec((ord - ORD_X0) as nat)
    } else if ord == ORD_FP {
        "fp"@
    } else if ord == ORD_LR {
        "lr"@
    } else if ord == ORD_XZR {
        "xzr"@
    } else if ord == ORD_SP {
        "sp"@
    } else if ORD_V0 <= ord < ORD_B0 {
        "v"@ + spec_dec((ord - ORD_V0) as nat)
    } else if ORD_B0 <= ord < ORD_H0 {
        "b"@ + spec_dec((ord - ORD_B0) as nat)
    } else if ORD_H0 <= ord < ORD_S0 {
        "h"@ + spec_dec((ord - ORD_H0) as nat)
    } else if ORD_S0 <= ord < ORD_D0 {
        "s"@ + spec_dec((ord - ORD_S0) as nat)
    } else if ORD_D0 <= ord < ORD_Q0 {
        "d"@ + spec_dec((ord - ORD_D0) as nat)
    } else if ORD_Q0 <= ord < ORD_VB0 {
        "q"@ + spec_dec((ord - ORD_Q0) as nat)
    } else if ORD_VB0 <= ord < ORD_VH0 {
        "v"@ + spec_dec((ord - ORD_VB0) as nat / 16) + ".b["@ + spec_dec(
            (ord - ORD_VB0) as nat % 16,
        ) + "]"@
    } else if ORD_VH0 <= ord < ORD_VS0 {
        "v"@ + spec_dec((ord - ORD_VH0) as nat / 8) + ".h["@ + spec_dec(
            (ord - ORD_VH0) as nat % 8,
        ) + "]"@
    } else if ORD_VS0 <= ord < ORD_VD0 {
        "v"@ + spec_dec((ord - ORD_VS0) as nat / 4) + ".s["@ + spec_dec(
            (ord - ORD_VS0) as nat % 4,
        ) + "]"@
    } else if ORD_VD0 <= ord < ORD_Z0 {
        "v"@ + spec_dec((ord - ORD_VD0) as nat / 2) + ".d["@ + spec_dec(
            (ord - ORD_VD0) as nat % 2,
        ) + "]"@
    } else if ORD_Z0 <= ord < ORD_P0 {
        "z"@ + spec_dec((ord - ORD_Z0) as nat)
    } else if ORD_P0 <= ord < ORD_PF0 {
        "p"@ + spec_dec((ord - ORD_P0) as nat)
    } else if ORD_PF0 <= ord < ORD_ZT0 {
        spec_prefetch_name((ord - ORD_PF0) as nat)
    } else if ord == ORD_ZT0 {
        "zt0"@
    } else {
        Seq::<char>::empty()
    }
}

/// The name of prefetch operation `k` (the decoder lists these among the
/// registers): a mnemonic for the named ones, `#0x..` for the rest.
pub open spec fn spec_prefetch_name(k: nat) -> Seq<char> {
    if k % 8 <= 5 && k / 8 <= 2 {
        (if k / 8 == 0 {
            "pldl"@
        } else if k / 8 == 1 {
            "plil"@
        } else {
            "pstl"@
        }) + spec_dec(1 + (k % 8) / 2) + (if k % 2 == 0 {
            "keep"@
        } else {
            "strm"@
        })
    } else {
        "#0x"@ + spec_hex(k)
    }
}

/// The register width in bytes, as the decoder's width table gives it; zero
/// for the classes it leaves unsized and for ordinals outside the space.
pub open spec fn spec_reg_size(ord: u32) -> nat {
    if ORD_X0 <= ord <= ORD_SP || ORD_D0 <= ord < ORD_Q0 || ORD_VD0 <= ord < ORD_Z0 {
        8
    } else if ORD_W0 <= ord <= ORD_WSP || ORD_S0 <= ord < ORD_D0 || ORD_VS0 <= ord < ORD_VD0 {
        4
    } else if ORD_B0 <= ord < ORD_H0 || ORD_VB0 <= ord < ORD_VH0 {
        1
    } else if ORD_H0 <= ord < ORD_S0 || ORD_VH0 <= ord < ORD_VS0 {
        2
    } else if ORD_Q0 <= ord < ORD_VB0 || ORD_V0 <= ord < ORD_B0 {
        16
    } else if ord == ORD_ZT0 {
        64
    } else {
        0
    }
}

/// The vector register classes sit in disjoint ordinal ranges: no identity
/// is SIMD and scalable, SIMD and predicate, or scalable and predicate at
/// once.
pub proof fn lemma_reg_classes_disjoint(r: Reg)
    ensures
        !(r.spec_is_simd() && r.spec_is_sve()),
        !(r.spec_is_simd() && r.spec_is_pred()),
        !(r.spec_is_sve() && r.spec_is_pred()),
{
}

impl Reg {
    /// Whether the ordinal names an actual register.
    pub open spec fn is_valid(self) -> bool {
        valid_reg_ord(self.ord)
    }

    /// The register for a raw ordinal, if the ordinal is in the register
    /// space; the zero ordinal means "no register" and is refused.
    pub fn from_u32(ord: u32) -> (r: Option<Reg>)
        ensures
            r == if valid_reg_ord(ord) {
                Some(Reg { ord })
            } else {
                None::<Reg>
            },
    {
        if 1 <= ord && ord < ORD_END {
            Some(Reg { ord })
        } else {
            None
        }
    }

    /// Whether this is a full SIMD vector register (`v0` through `v31`).
    pub open spec fn spec_is_simd(self) -> bool {
        ORD_V0 <= self.ord < ORD_B0
    }

    /// Whether this is a scalable vector register (`z0` through `z31`).
    pub open spec fn spec_is_sve(self) -> bool {
        ORD_Z0 <= self.ord < ORD_P0
    }

    /// Whether this is a scalable predicate register (`p0` through `p31`).
    pub open spec fn spec_is_pred(self) -> bool {
        ORD_P0 <= self.ord < ORD_PF0
    }

    /// Returns the register's SIMD status.
    pub fn is_simd(&self) -> (r: bool)
        ensures
            r == self.spec_is_simd(),
    {
        ORD_V0 <= self.ord && self.ord < ORD_B0
    }

    /// Returns the register's scalable-vector status.
    pub fn is_sve(&self) -> (r: bool)
        ensures
            r == self.spec_is_sve(),
    {
        ORD_Z0 <= self.ord && self.ord < ORD_P0
    }

    /// Returns the register's predicate status.
    pub fn is_pred(&self) -> (r: bool)
        ensures
            r == self.spec_is_pred(),
    {
        ORD_P0 <= self.ord && self.ord < ORD_PF0
    }

    /// Returns the register name.
    pub fn name(&self) -> (s: String)
        ensures
            s@ == spec_reg_name(self.ord),
    {
        let o = self.ord;
        if ORD_W0 <= o && o < ORD_WZR {
            prefixed_dec("w", (o - ORD_W0) as u64)
        } else if o == ORD_WZR {
            String::from_str("wzr")
        } else if o == ORD_WSP {
            String::from_str("wsp")
        } else if ORD_X0 <= o && o < ORD_FP {
            prefixed_dec("x", (o - ORD_X0) as u64)
        } else if o == ORD_FP {
            String::from_str("fp")
        } else if o == ORD_LR {
            String::from_str("lr")
        } else if o == ORD_XZR {
            String::from_str("xzr")
        } else if o == ORD_SP {
            String::from_str("sp")
        } else if ORD_V0 <= o && o < ORD_B0 {
            prefixed_dec("v", (o - ORD_V0) as u64)
        } else if ORD_B0 <= o && o < ORD_H0 {
            prefixed_dec("b", (o - ORD_B0) as u64)
        } else if ORD_H0 <= o && o < ORD_S0 {
            prefixed_dec("h", (o - ORD_H0) as u64)
        } else if ORD_S0 <= o && o < ORD_D0 {
            prefixed_dec("s", (o - ORD_S0) as u64)
        } else if ORD_D0 <= o && o < ORD_Q0 {
            prefixed_dec("d", (o - ORD_D0) as u64)
        } else if ORD_Q0 <= o && o < ORD_VB0 {
            prefixed_dec("q", (o - ORD_Q0) as u64)
        } else if ORD_VB0 <= o && o < ORD_VH0 {
            element_name(".b[", ((o - ORD_VB0) / 16) as u64, ((o - ORD_VB0) % 16) as u64)
        } else if ORD_VH0 <= o && o < ORD_VS0 {
            element_name(".h[", ((o - ORD_VH0) / 8) as u64, ((o - ORD_VH0) % 8) as u64)
        } else if ORD_VS0 <= o && o < ORD_VD0 {
            element_name(".s[", ((o - ORD_VS0) / 4) as u64, ((o - ORD_VS0) % 4) as u64)
        } else if ORD_VD0 <= o && o < ORD_Z0 {
            element_name(".d[", ((o - ORD_VD0) / 2) as u64, ((o - ORD_VD0) % 2) as u64)
        } else if ORD_Z0 <= o && o < ORD_P0 {
            prefixed_dec("z", (o - ORD_Z0) as u64)
        } else if ORD_P0 <= o && o < ORD_PF0 {
            prefixed_dec("p", (o - ORD_P0) as u64)
        } else if ORD_PF0 <= o && o < ORD_ZT0 {
            prefetch_name((o - ORD_PF0) as u64)
        } else if o == ORD_ZT0 {
            String::from_str("zt0")
        } else {
            String::new()
        }
    }

    /// Returns the register size in bytes.
    pub fn size(&self) -> (n: usize)
        ensures
            n == spec_reg_size(self.ord),
    {
        let o = self.ord;
        if (ORD_X0 <= o && o <= ORD_SP) || (ORD_D0 <= o && o < ORD_Q0) || (ORD_VD0 <= o && o
            < ORD_Z0) {
            8
        } else if (ORD_W0 <= o && o <= ORD_WSP) || (ORD_S0 <= o && o < ORD_D0) || (ORD_VS0 <= o && o
            < ORD_VD0) {
            4
        } else if (ORD_B0 <= o && o < ORD_H0) || (ORD_VB0 <= o && o < ORD_VH0) {
            1
        } else if (ORD_H0 <= o && o < ORD_S0) || (ORD_VH0 <= o && o < ORD_VS0) {
            2
        } else if (ORD_Q0 <= o && o < ORD_VB0) || (ORD_V0 <= o && o < ORD_B0) {
            16
        } else if o == ORD_ZT0 {
            64
        } else {
            0
        }
    }
}

fn prefixed_dec(prefix: &str, n: u64) -> (s: String)
    ensures
        s@ == prefix@ + spec_dec(n as nat),
{
    let mut s = String::from_str(prefix);
    let d = dec_string(n);
    s.append(d.as_str());
    s
}

fn element_name(infix: &str, n: u64, k: u64) -> (s: String)
    ensures
        s@ == "v"@ + spec_dec(n as nat) + infix@ + spec_dec(k as nat) + "]"@,
{
    let mut s = String::from_str("v");
    let d = dec_string(n);
    s.append(d.as_str());
    s.append(infix);
    let e = dec_string(k);
    s.append(e.as_str());
    s.append("]");
    proof {
        assert(s@ =~= "v"@ + spec_dec(n as nat) + infix@ + spec_dec(k as nat) + "]"@);
    }
    s
}

fn prefetch_name(k: u64) -> (s: String)
    requires
        k < 32,
    ensures
        s@ == spec_prefetch_name(k as nat),
{
    if k % 8 <= 5 && k / 8 <= 2 {
        let mut s = if k / 8 == 0 {
            String::from_str("pldl")
        } else if k / 8 == 1 {
            String::from_str("plil")
        } else {
            String::from_str("pstl")
        };
        let d = dec_string(1 + (k % 8) / 2);
        s.append(d.as_str());
        if k % 2 == 0 {
            s.append("keep");
        } else {
            s.append("strm");
        }
        proof {
            assert(s@ =~= spec_prefetch_name(k as nat));
        }
        s
    } else {
        let mut s = String::from_str("#0x");
        let d = hex_string(k);
        s.append(d.as_str());
        proof {
            assert(s@ =~= spec_prefetch_name(k as nat));
        }
        s
    }
}

} // verus!
