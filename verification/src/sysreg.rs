//! System register handles: a raw ordinal together with the name text that
//! the external name table gives that ordinal.  The ordinal alone is the
//! identity; the name travels with it so that rendering needs no table.

use vstd::prelude::*;

use crate::text::cstr_string;
use crate::text::cstr_text;

verus! {

/// A system register: the decoder's ordinal, plus its NUL-terminated name
/// as the external name table spells it.
///
/// The ordinal alone is the identity — the name is the table's text for
/// that ordinal and carries no identity of its own — so equality and
/// hashing go by the ordinal only.
#[derive(Clone, Copy, Debug)]
pub struct SysReg {
    pub ord: u32,
    pub name: [u8; 32],
}

impl SysReg {
    /// Returns the system register's name text.
    pub fn name_text(&self) -> (s: String)
        ensures
            s@ == cstr_text(self.name@),
    {
        cstr_string(&self.name)
    }
}

impl PartialEq for SysReg {
    fn eq(&self, other: &SysReg) -> (r: bool) {
        self.ord == other.ord
    }
}

impl vstd::std_specs::cmp::PartialEqSpecImpl for SysReg {
    open spec fn obeys_eq_spec() -> bool {
        true
    }

    open spec fn eq_spec(&self, other: &SysReg) -> bool {
        self.ord == other.ord
    }
}

impl core::hash::Hash for SysReg {
    fn hash<H: core::hash::Hasher>(&self, state: &mut H) {
        self.ord.hash(state)
    }
}

} // verus!
