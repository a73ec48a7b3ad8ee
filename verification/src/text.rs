//! Verified construction of the digit strings used by the assembler syntax:
//! decimal and lowercase-hexadecimal renderings of unsigned values, and the
//! text carried by NUL-terminated name fields.

use vstd::prelude::*;
use vstd::string::StringExecFns;

verus! {

/// The decimal digit character for a value below ten.
pub open spec fn dec_digit(d: nat) -> char {
    if d == 0 {
        '0'
    } else if d == 1 {
        '1'
    } else if d == 2 {
        '2'
    } else if d == 3 {
        '3'
    } else if d == 4 {
        '4'
    } else if d == 5 {
        '5'
    } else if d == 6 {
        '6'
    } else if d == 7 {
        '7'
    } else if d == 8 {
        '8'
    } else {
        '9'
    }
}

/// The lowercase hexadecimal digit character for a value below sixteen.
pub open spec fn hex_digit(d: nat) -> char {
    if d < 10 {
        dec_digit(d)
    } else if d == 10 {
        'a'
    } else if d == 11 {
        'b'
    } else if d == 12 {
        'c'
    } else if d == 13 {
        'd'
    } else if d == 14 {
        'e'
    } else {
        'f'
    }
}

/// The decimal rendering of `n`, most significant digit first, no sign and no
/// leading zeros (zero itself renders as one digit).
pub open spec fn spec_dec(n: nat) -> Seq<char>
    decreases n,
{
    if n < 10 {
        seq![dec_digit(n)]
    } else {
        spec_dec(n / 10) + seq![dec_digit(n % 10)]
    }
}

/// The lowercase hexadecimal rendering of `n`, most significant digit first,
/// without a `0x` prefix and without leading zeros.
pub open spec fn spec_hex(n: nat) -> Seq<char>
    decreases n,
{
    if n < 16 {
        seq![hex_digit(n)]
    } else {
        spec_hex(n / 16) + seq![hex_digit(n % 16)]
    }
}

fn dec_digit_str(d: u64) -> (s: &'static str)
    requires
        d < 10,
    ensures
        s@ == seq![dec_digit(d as nat)],
{
    proof {
        reveal_strlit("0");
        reveal_strlit("1");
        reveal_strlit("2");
        reveal_strlit("3");
        reveal_strlit("4");
        reveal_strlit("5");
        reveal_strlit("6");
        reveal_strlit("7");
        reveal_strlit("8");
        reveal_strlit("9");
    }
    let s = match d {
        0 => "0",
        1 => "1",
        2 => "2",
        3 => "3",
        4 => "4",
        5 => "5",
        6 => "6",
        7 => "7",
        8 => "8",
        _ => "9",
    };
    proof {
        assert(s@ =~= seq![dec_digit(d as nat)]);
    }
    s
}

fn hex_digit_str(d: u64) -> (s: &'static str)
    requires
        d < 16,
    ensures
        s@ == seq![hex_digit(d as nat)],
{
    if d < 10 {
        let s = dec_digit_str(d);
        s
    } else {
        proof {
            reveal_strlit("a");
            reveal_strlit("b");
            reveal_strlit("c");
            reveal_strlit("d");
            reveal_strlit("e");
            reveal_strlit("f");
        }
        let s = match d {
            10 => "a",
            11 => "b",
            12 => "c",
            13 => "d",
            14 => "e",
            _ => "f",
        };
        proof {
            assert(s@ =~= seq![hex_digit(d as nat)]);
        }
        s
    }
}

/// The decimal text of `n`, as `spec_dec` describes it.
pub fn dec_string(n: u64) -> (s: String)
    ensures
        s@ == spec_dec(n as nat),
    decreases n,
{
    if n < 10 {
        String::from_str(dec_digit_str(n))
    } else {
        let mut s = dec_string(n / 10);
        s.append(dec_digit_str(n % 10));
        proof {
            assert(s@ =~= spec_dec(n as nat));
        }
        s
    }
}

/// The lowercase hexadecimal text of `n`, as `spec_hex` describes it.
pub fn hex_string(n: u64) -> (s: String)
    ensures
        s@ == spec_hex(n as nat),
    decreases n,
{
    if n < 16 {
        String::from_str(hex_digit_str(n))
    } else {
        let mut s = hex_string(n / 16);
        s.append(hex_digit_str(n % 16));
        proof {
            assert(s@ =~= spec_hex(n as nat));
        }
        s
    }
}

/// Relies on `String::push`: it appends exactly the one given character.
#[verifier::external_body]
pub fn push_char(s: &mut String, c: char)
    ensures
        final(s)@ == old(s)@ + seq![c],
{
    s.push(c)
}

/// Relies on `u32::hash`: it feeds the value to the hasher; nothing is
/// claimed of the outcome.
pub assume_specification<H: core::hash::Hasher>[ <u32 as core::hash::Hash>::hash ](
    v: &u32,
    state: &mut H,
);

/// Relies on `u64::hash`: it feeds the value to the hasher; nothing is
/// claimed of the outcome.
pub assume_specification<H: core::hash::Hasher>[ <u64 as core::hash::Hash>::hash ](
    v: &u64,
    state: &mut H,
);

/// The number of bytes before the first NUL, or the whole length when no
/// byte is NUL.
pub open spec fn cstr_len(s: Seq<u8>) -> nat
    decreases s.len(),
{
    if s.len() == 0 {
        0
    } else if s[0] == 0 {
        0
    } else {
        1 + cstr_len(s.skip(1))
    }
}

/// The text held by a NUL-terminated byte field: the bytes before the first
/// NUL, each read as a character.
pub open spec fn cstr_text(s: Seq<u8>) -> Seq<char> {
    Seq::new(cstr_len(s), |i: int| s[i] as char)
}

/// The first NUL in a byte sequence stops `cstr_len` exactly there.
proof fn lemma_cstr_len_at(s: Seq<u8>, i: nat)
    requires
        i <= s.len(),
        forall|j: int| 0 <= j < i ==> s[j] != 0,
        i == s.len() || s[i as int] == 0,
    ensures
        cstr_len(s) == i,
    decreases i,
{
    if i == 0 {
    } else {
        assert(s[0] != 0);
        lemma_cstr_len_at(s.skip(1), (i - 1) as nat);
    }
}

/// The text of a NUL-terminated byte field, as `cstr_text` describes it.
pub fn cstr_string<const N: usize>(bytes: &[u8; N]) -> (s: String)
    ensures
        s@ == cstr_text(bytes@),
{
    let mut s = String::new();
    let mut i: usize = 0;
    while i < N && bytes[i] != 0
        invariant
            i <= N,
            forall|j: int| 0 <= j < i ==> bytes@[j] != 0,
            s@ == Seq::new(i as nat, |j: int| bytes@[j] as char),
        decreases N - i,
    {
        push_char(&mut s, bytes[i] as char);
        i = i + 1;
        proof {
            assert(s@ =~= Seq::new(i as nat, |j: int| bytes@[j] as char));
        }
    }
    proof {
        lemma_cstr_len_at(bytes@, i as nat);
        assert(s@ =~= cstr_text(bytes@));
    }
    s
}

/// Whether two byte fields hold the same bytes.
pub fn bytes_eq<const N: usize>(a: &[u8; N], b: &[u8; N]) -> (r: bool)
    ensures
        r == (a@ == b@),
{
    let mut i: usize = 0;
    while i < N
        invariant
            i <= N,
            forall|j: int| 0 <= j < i ==> a@[j] == b@[j],
        decreases N - i,
    {
        if a[i] != b[i] {
            return false;
        }
        i = i + 1;
    }
    proof {
        assert(a@ =~= b@);
    }
    true
}

} // verus!
