//! A strongly-typed operand model for a fixed-width 32-bit instruction set,
//! with a verified classifier from the decoder's raw operand records to
//! disjoint tagged operands, and a verified renderer that produces the
//! canonical assembler text.
//!
//! The bit-level decoding itself, the name tables for operations and system
//! registers, and the byte-buffer walking live at the oracle boundary
//! outside this crate; the core consumes plain-value records and is total
//! over them.

use vstd::prelude::*;

mod arrspec;
mod condition;
mod flageffect;
mod operand;
mod raw;
mod reg;
mod shift;
mod sysreg;
mod text;

pub use arrspec::ArrKind;
pub use arrspec::ArrSpec;
pub use condition::Condition;
pub use flageffect::FlagEffect;
pub use operand::Imm;
pub use operand::Operand;
pub use operand::SliceIndicator;
pub use raw::RawClass;
pub use raw::RawInstruction;
pub use raw::RawOperand;
pub use reg::Reg;
pub use shift::Shift;
pub use sysreg::SysReg;
pub use text::dec_string;
pub use text::hex_string;

use vstd::std_specs::cmp::PartialEqSpec;
use vstd::string::StringExecFns;

use operand::spec_classify;
use operand::spec_operand_text;

verus! {

/// Decoder status code: the word lies in space the specification reserves.
pub const STATUS_RESERVED: i32 = -1;

/// Decoder status code: decoding fell through the specification's checks.
pub const STATUS_UNMATCHED: i32 = -2;

/// Decoder status code: the word lies in unallocated encoding space.
pub const STATUS_UNALLOCATED: i32 = -3;

/// Decoder status code: the specification declares the word undefined.
pub const STATUS_UNDEFINED: i32 = -4;

/// Decoder status code: the specification ends the instruction early.
pub const STATUS_END_OF_INSTRUCTION: i32 = -5;

/// Decoder status code: decoding descended past its checks.
pub const STATUS_LOST: i32 = -6;

/// Decoder status code: decoding reached a point marked unreachable.
pub const STATUS_UNREACHABLE: i32 = -7;

/// Decoder status code: the operands could not be produced.
pub const STATUS_ERROR_OPERANDS: i32 = -9;

/// An operation identity: a key into the external operation table.
#[derive(Clone, Copy, Debug, PartialEq, Eq, Hash, Structural)]
pub struct Op(pub u32);

/// Decoding error kinds, each carrying the address of the failing word.
#[derive(Clone, Copy, Debug, Hash, Eq, PartialEq, Structural)]
pub enum DecodeError {
    Reserved(u64),
    Unmatched(u64),
    Unallocated(u64),
    Undefined(u64),
    EndOfInstruction(u64),
    Lost(u64),
    Unreachable(u64),
    Short(u64),
    ErrorOperands(u64),
}

/// Whether a nonzero decoder status is one of the documented failure codes.
pub open spec fn spec_status_known(code: i32) -> bool {
    code == STATUS_RESERVED || code == STATUS_UNMATCHED || code == STATUS_UNALLOCATED || code
        == STATUS_UNDEFINED || code == STATUS_END_OF_INSTRUCTION || code == STATUS_LOST || code
        == STATUS_UNREACHABLE || code == STATUS_ERROR_OPERANDS
}

/// The error for a documented failure code at an address.
pub open spec fn spec_error_of(code: i32, address: u64) -> DecodeError {
    if code == STATUS_RESERVED {
        DecodeError::Reserved(address)
    } else if code == STATUS_UNMATCHED {
        DecodeError::Unmatched(address)
    } else if code == STATUS_UNALLOCATED {
        DecodeError::Unallocated(address)
    } else if code == STATUS_UNDEFINED {
        DecodeError::Undefined(address)
    } else if code == STATUS_END_OF_INSTRUCTION {
        DecodeError::EndOfInstruction(address)
    } else if code == STATUS_LOST {
        DecodeError::Lost(address)
    } else if code == STATUS_UNREACHABLE {
        DecodeError::Unreachable(address)
    } else {
        DecodeError::ErrorOperands(address)
    }
}

/// The address a decoding error carries.
pub open spec fn spec_error_address(e: DecodeError) -> u64 {
    match e {
        DecodeError::Reserved(a) => a,
        DecodeError::Unmatched(a) => a,
        DecodeError::Unallocated(a) => a,
        DecodeError::Undefined(a) => a,
        DecodeError::EndOfInstruction(a) => a,
        DecodeError::Lost(a) => a,
        DecodeError::Unreachable(a) => a,
        DecodeError::Short(a) => a,
        DecodeError::ErrorOperands(a) => a,
    }
}

/// Decides whether a nonzero decoder status is a documented failure code.
pub fn status_known(code: i32) -> (b: bool)
    ensures
        b == spec_status_known(code),
{
    code == STATUS_RESERVED || code == STATUS_UNMATCHED || code == STATUS_UNALLOCATED || code
        == STATUS_UNDEFINED || code == STATUS_END_OF_INSTRUCTION || code == STATUS_LOST || code
        == STATUS_UNREACHABLE || code == STATUS_ERROR_OPERANDS
}

impl DecodeError {
    /// The error for a documented failure code at an address.
    pub fn new(code: i32, address: u64) -> (e: DecodeError)
        requires
            spec_status_known(code),
        ensures
            e == spec_error_of(code, address),
    {
        if code == STATUS_RESERVED {
            DecodeError::Reserved(address)
        } else if code == STATUS_UNMATCHED {
            DecodeError::Unmatched(address)
        } else if code == STATUS_UNALLOCATED {
            DecodeError::Unallocated(address)
        } else if code == STATUS_UNDEFINED {
            DecodeError::Undefined(address)
        } else if code == STATUS_END_OF_INSTRUCTION {
            DecodeError::EndOfInstruction(address)
        } else if code == STATUS_LOST {
            DecodeError::Lost(address)
        } else if code == STATUS_UNREACHABLE {
            DecodeError::Unreachable(address)
        } else {
            DecodeError::ErrorOperands(address)
        }
    }

    /// Returns the address the error carries.
    pub fn address(&self) -> (a: u64)
        ensures
            a == spec_error_address(*self),
    {
        match *self {
            DecodeError::Reserved(a) => a,
            DecodeError::Unmatched(a) => a,
            DecodeError::Unallocated(a) => a,
            DecodeError::Undefined(a) => a,
            DecodeError::EndOfInstruction(a) => a,
            DecodeError::Lost(a) => a,
            DecodeError::Unreachable(a) => a,
            DecodeError::Short(a) => a,
            DecodeError::ErrorOperands(a) => a,
        }
    }
}

/// The display text of a decoding error: the kind's name, a colon, and the
/// failing address in hexadecimal.
pub open spec fn spec_error_text(e: DecodeError) -> Seq<char> {
    (match e {
        DecodeError::Reserved(_) => "Reserved"@,
        DecodeError::Unmatched(_) => "Unmatched"@,
        DecodeError::Unallocated(_) => "Unallocated"@,
        DecodeError::Undefined(_) => "Undefined"@,
        DecodeError::EndOfInstruction(_) => "EndOfInstruction"@,
        DecodeError::Lost(_) => "Lost"@,
        DecodeError::Unreachable(_) => "Unreachable"@,
        DecodeError::Short(_) => "Short"@,
        DecodeError::ErrorOperands(_) => "ErrorOperands"@,
    }) + ": 0x"@ + text::spec_hex(spec_error_address(e) as nat)
}

impl DecodeError {
    /// Renders the error kind and its address.
    pub fn render(&self) -> (s: String)
        ensures
            s@ == spec_error_text(*self),
    {
        let mut s = match *self {
            DecodeError::Reserved(_) => String::from_str("Reserved"),
            DecodeError::Unmatched(_) => String::from_str("Unmatched"),
            DecodeError::Unallocated(_) => String::from_str("Unallocated"),
            DecodeError::Undefined(_) => String::from_str("Undefined"),
            DecodeError::EndOfInstruction(_) => String::from_str("EndOfInstruction"),
            DecodeError::Lost(_) => String::from_str("Lost"),
            DecodeError::Unreachable(_) => String::from_str("Unreachable"),
            DecodeError::Short(_) => String::from_str("Short"),
            DecodeError::ErrorOperands(_) => String::from_str("ErrorOperands"),
        };
        s.append(": 0x");
        let h = hex_string(self.address());
        s.append(h.as_str());
        proof {
            assert(s@ =~= spec_error_text(*self));
        }
        s
    }
}

/// The number of operand slots before the first sentinel-classified slot,
/// looking from slot `i` on.
pub open spec fn spec_count_from(ops: [RawOperand; 5], i: int) -> int
    decreases 5 - i,
{
    if 0 <= i < 5 {
        if spec_classify(ops[i]) is None {
            i
        } else {
            spec_count_from(ops, i + 1)
        }
    } else {
        5
    }
}

/// The operand list a raw record yields: the classifications of the slots
/// before the first sentinel, in slot order.
pub open spec fn spec_operand_list(ops: [RawOperand; 5]) -> Seq<Operand> {
    Seq::new(spec_count_from(ops, 0) as nat, |i: int| spec_classify(ops[i])->0)
}

/// The operand list of any raw record holds at most the five slots: slot
/// iteration stops at the first sentinel and never passes the last slot.
pub proof fn lemma_operand_count(ops: [RawOperand; 5])
    ensures
        spec_operand_list(ops).len() <= 5,
{
    lemma_count_bounds(ops, 0);
}

proof fn lemma_count_bounds(ops: [RawOperand; 5], i: int)
    requires
        0 <= i <= 5,
    ensures
        i <= spec_count_from(ops, i) <= 5,
    decreases 5 - i,
{
    if i < 5 && !(spec_classify(ops[i]) is None) {
        lemma_count_bounds(ops, i + 1);
    }
}

/// A sentinel (or the end of the slots) at `i`, with every earlier slot
/// classified, pins the operand count at `i`.
proof fn lemma_count_at(ops: [RawOperand; 5], i: int)
    requires
        0 <= i <= 5,
        forall|j: int| 0 <= j < i ==> spec_classify(ops[j]) is Some,
        i == 5 || spec_classify(ops[i]) is None,
    ensures
        spec_count_from(ops, 0) == i,
{
    lemma_count_step(ops, 0, i);
}

proof fn lemma_count_step(ops: [RawOperand; 5], k: int, i: int)
    requires
        0 <= k <= i <= 5,
        forall|j: int| k <= j < i ==> spec_classify(ops[j]) is Some,
        i == 5 || spec_classify(ops[i]) is None,
    ensures
        spec_count_from(ops, k) == i,
    decreases i - k,
{
    if k < i {
        lemma_count_step(ops, k + 1, i);
    }
}

/// A decoded instruction: its address, the raw word, the operation identity
/// with its mnemonic, and the ordered operand list.
#[derive(Clone, Debug)]
pub struct Instruction {
    address: u64,
    opcode: u32,
    op: Op,
    mnem: String,
    operands: Vec<Operand>,
}

impl Instruction {
    /// The instruction address.
    pub closed spec fn spec_address(self) -> u64 {
        self.address
    }

    /// The raw instruction word.
    pub closed spec fn spec_opcode(self) -> u32 {
        self.opcode
    }

    /// The operation identity.
    pub closed spec fn spec_op(self) -> Op {
        self.op
    }

    /// The mnemonic text.
    pub closed spec fn spec_mnem(self) -> Seq<char> {
        self.mnem@
    }

    /// The operand list.
    pub closed spec fn spec_operands(self) -> Seq<Operand> {
        self.operands@
    }

    /// The operand list never exceeds the five slots.
    pub open spec fn wf(self) -> bool {
        self.spec_operands().len() <= 5
    }

    /// Returns the instruction address.
    pub fn address(&self) -> (a: u64)
        ensures
            a == self.spec_address(),
    {
        self.address
    }

    /// Returns the instruction opcode.
    pub fn opcode(&self) -> (o: u32)
        ensures
            o == self.spec_opcode(),
    {
        self.opcode
    }

    /// Returns the instruction operation.
    pub fn op(&self) -> (o: Op)
        ensures
            o == self.spec_op(),
    {
        self.op
    }

    /// Returns the operation mnemonic.
    pub fn mnem(&self) -> (s: &str)
        ensures
            s@ == self.spec_mnem(),
    {
        self.mnem.as_str()
    }

    /// Returns the operands.
    pub fn operands(&self) -> (v: &Vec<Operand>)
        ensures
            v@ == self.spec_operands(),
    {
        &self.operands
    }

    /// Returns the operand in slot `n`: present exactly for `n` below the
    /// operand count.
    pub fn operand(&self, n: usize) -> (r: Option<&Operand>)
        ensures
            n < self.spec_operands().len() ==> r == Some(&self.spec_operands()[n as int]),
            n >= self.spec_operands().len() ==> r is None,
    {
        if n < self.operands.len() {
            Some(&self.operands[n])
        } else {
            None
        }
    }
}

/// The text of the operand list from slot `i` on: each operand's text, the
/// first preceded by a space, the rest by a comma and a space.
pub open spec fn spec_ops_tail(ops: Seq<Operand>, i: int) -> Seq<char>
    decreases ops.len() - i,
{
    if 0 <= i < ops.len() {
        (if i == 0 {
            " "@
        } else {
            ", "@
        }) + (spec_operand_text(ops[i])->0) + spec_ops_tail(ops, i + 1)
    } else {
        Seq::<char>::empty()
    }
}

/// The text of a whole instruction: the mnemonic, then the operands
/// separated by commas; a bare mnemonic when there are none.
pub open spec fn spec_instruction_text(i: Instruction) -> Seq<char> {
    i.spec_mnem() + spec_ops_tail(i.spec_operands(), 0)
}

impl Instruction {
    /// Renders the instruction as one line of assembler text.  Operands
    /// must be renderable, so no floating-point immediate may be among
    /// them: their text is produced outside the core.
    pub fn render(&self) -> (s: String)
        requires
            forall|i: int|
                0 <= i < self.spec_operands().len() ==> !((#[trigger] self.spec_operands()[i])
                    is FImm32),
        ensures
            s@ == spec_instruction_text(*self),
    {
        proof {
            assert forall|j: int|
                0 <= j < self.operands@.len() implies !((#[trigger] self.operands@[j])
                is FImm32) by {
                assert(!(self.spec_operands()[j] is FImm32));
            }
        }
        let mut s = String::from_str(self.mnem.as_str());
        let mut i: usize = 0;
        while i < self.operands.len()
            invariant
                i <= self.operands@.len(),
                forall|j: int|
                    0 <= j < self.operands@.len() ==> !((#[trigger] self.operands@[j]) is FImm32),
                spec_instruction_text(*self) == s@ + spec_ops_tail(self.operands@, i as int),
            decreases self.operands@.len() - i,
        {
            if i == 0 {
                s.append(" ");
            } else {
                s.append(", ");
            }
            let t = self.operands[i].render();
            s.append(t.as_str());
            i = i + 1;
        }
        s
    }
}

/// Equality is over the logical content alone: address, word, operation
/// identity, operand count and the operands pairwise.  The mnemonic is the
/// external table's text for the operation and carries no identity, so it
/// takes no part; hashing goes by the same components.
impl PartialEq for Instruction {
    fn eq(&self, other: &Instruction) -> (r: bool) {
        if !(self.address == other.address && self.opcode == other.opcode && self.op == other.op
            && self.operands.len() == other.operands.len()) {
            return false;
        }
        let mut i: usize = 0;
        while i < self.operands.len()
            invariant
                i <= self.operands@.len(),
                self.operands@.len() == other.operands@.len(),
                forall|j: int|
                    0 <= j < i ==> PartialEqSpec::eq_spec(
                        &(#[trigger] self.operands@[j]),
                        &other.operands@[j],
                    ),
            decreases self.operands@.len() - i,
        {
            if !(self.operands[i] == other.operands[i]) {
                return false;
            }
            i = i + 1;
        }
        true
    }
}

impl vstd::std_specs::cmp::PartialEqSpecImpl for Instruction {
    open spec fn obeys_eq_spec() -> bool {
        true
    }

    open spec fn eq_spec(&self, other: &Instruction) -> bool {
        self.spec_address() == other.spec_address() && self.spec_opcode() == other.spec_opcode()
            && self.spec_op() == other.spec_op() && self.spec_operands().len()
            == other.spec_operands().len() && forall|j: int|
            0 <= j < self.spec_operands().len() ==> PartialEqSpec::eq_spec(
                &(#[trigger] self.spec_operands()[j]),
                &other.spec_operands()[j],
            )
    }
}

impl core::hash::Hash for Instruction {
    fn hash<H: core::hash::Hasher>(&self, state: &mut H) {
        self.address.hash(state);
        self.opcode.hash(state);
        self.op.0.hash(state);
    }
}

/// Builds the instruction value for one oracle answer: the record's
/// classification on success, the tagged error on a documented failure.
///
/// On success the operand list is the classification of the slots before
/// the first sentinel, in order; the address, word, operation and mnemonic
/// are carried over unchanged.
pub fn decode_record(status: i32, raw: &RawInstruction, address: u64) -> (r: Result<
    Instruction,
    DecodeError,
>)
    requires
        status == 0 ==> raw.wf(),
        status != 0 ==> spec_status_known(status),
    ensures
        match r {
            Ok(inst) => status == 0 && inst.spec_address() == address && inst.spec_opcode()
                == raw.insword && inst.spec_op() == Op(raw.operation) && inst.spec_mnem()
                == raw.mnemonic@ && inst.spec_operands() == spec_operand_list(raw.operands)
                && inst.wf(),
            Err(e) => status != 0 && e == spec_error_of(status, address),
        },
{
    if status != 0 {
        return Err(DecodeError::new(status, address));
    }
    let mut operands: Vec<Operand> = Vec::new();
    let mut i: usize = 0;
    let mut done = false;
    while i < 5 && !done
        invariant
            i <= 5,
            raw.wf(),
            forall|j: int| 0 <= j < i ==> spec_classify(raw.operands[j]) is Some,
            operands@ == Seq::new(i as nat, |j: int| spec_classify(raw.operands[j])->0),
            done ==> i < 5 && spec_classify(raw.operands[i as int]) is None,
        decreases 5 - i, (if done {
            0int
        } else {
            1int
        }),
    {
        assert(raw.operands[i as int].wf());
        match Operand::classify(&raw.operands[i]) {
            Some(o) => {
                operands.push(o);
                i = i + 1;
                proof {
                    assert(operands@ =~= Seq::new(
                        i as nat,
                        |j: int| spec_classify(raw.operands[j])->0,
                    ));
                }
            },
            None => {
                done = true;
            },
        }
    }
    proof {
        if done {
            lemma_count_at(raw.operands, i as int);
        } else {
            lemma_count_at(raw.operands, 5);
        }
        assert(operands@ =~= spec_operand_list(raw.operands));
    }
    Ok(
        Instruction {
            address,
            opcode: raw.insword,
            op: Op(raw.operation),
            mnem: raw.mnemonic.clone(),
            operands,
        },
    )
}

/// The 32-bit word read little-endian from four bytes at `i`.
pub open spec fn spec_le_word(bytes: Seq<u8>, i: int) -> u32 {
    (bytes[i] + 256 * bytes[i + 1] + 65536 * bytes[i + 2] + 16777216 * bytes[i + 3]) as u32
}

/// Splits a byte buffer into 4-byte windows: one element per window, each
/// with its address; a full window carries its little-endian word, and a
/// trailing fragment shorter than four bytes carries nothing.
pub fn frame_buffer(code: &[u8], address: u64) -> (v: Vec<(u64, Option<u32>)>)
    requires
        address + 4 * ((code@.len() + 3) / 4) <= 0x10000000000000000,
    ensures
        v@.len() == (code@.len() + 3) / 4,
        forall|i: int| 0 <= i < v@.len() ==> (#[trigger] v@[i]).0 == address + 4 * i,
        forall|i: int|
            0 <= i < code@.len() / 4 ==> (#[trigger] v@[i]).1 == Some(spec_le_word(code@, 4 * i)),
        code@.len() % 4 != 0 ==> v@[v@.len() - 1].1 is None,
{
    let n = code.len();
    let total = n / 4 + if n % 4 != 0 {
        1
    } else {
        0
    };
    let mut v: Vec<(u64, Option<u32>)> = Vec::new();
    let mut i: usize = 0;
    while i < total
        invariant
            i <= total,
            total == (code@.len() + 3) / 4,
            n == code@.len(),
            address + 4 * total <= 0x10000000000000000,
            v@.len() == i,
            forall|k: int| 0 <= k < i ==> (#[trigger] v@[k]).0 == address + 4 * k,
            forall|k: int|
                0 <= k < i && k < code@.len() / 4 ==> (#[trigger] v@[k]).1 == Some(
                    spec_le_word(code@, 4 * k),
                ),
            forall|k: int| 0 <= k < i && k >= code@.len() / 4 ==> (#[trigger] v@[k]).1 is None,
        decreases total - i,
    {
        proof {
            assert(4 * (i as int) < 4 * total);
            assert(4 * ((code@.len() + 3) / 4) <= code@.len() + 3);
        }
        let addr = address + 4 * (i as u64);
        if n - 4 * i >= 4 {
            let j = 4 * i;
            let w = (code[j] as u32) + 256 * (code[j + 1] as u32) + 65536 * (code[j + 2] as u32)
                + 16777216 * (code[j + 3] as u32);
            v.push((addr, Some(w)));
        } else {
            v.push((addr, None));
        }
        i = i + 1;
    }
    v
}

} // verus!
