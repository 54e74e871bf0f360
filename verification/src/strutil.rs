//! Small verified string helpers: equality of string slices and
//! byte-level ASCII case folding.

use vstd::prelude::*;

use vstd::string::StrSliceExecFns;
use vstd::string::StringSliceAdditionalSpecFns;
use vstd::utf8::encode_utf8_decode_utf8;

verus! {

/// Whether two string slices spell the same characters.
pub fn str_eq(a: &str, b: &str) -> (r: bool)
    ensures
        r == (a@ == b@),
{
    let av = a.as_bytes_vec();
    let bv = b.as_bytes_vec();
    let r = av == bv;
    proof {
        if av@ =~= bv@ {
            encode_utf8_decode_utf8(a@);
            encode_utf8_decode_utf8(b@);
            assert(a@ == b@);
        }
        if a@ == b@ {
            assert(av@ =~= bv@);
        }
    }
    r
}

/// Whether an optional code equals the given literal.
pub fn code_is(code: &Option<String>, lit: &str) -> (r: bool)
    ensures
        r == (code matches Some(c) && c@ == lit@),
{
    match code {
        Some(c) => str_eq(c.as_str(), lit),
        None => false,
    }
}

/// ASCII lowercase of one byte: letters fold, everything else is kept.
pub open spec fn lower_byte(b: u8) -> u8 {
    if 0x41 <= b && b <= 0x5a {
        (b + 0x20) as u8
    } else {
        b
    }
}

/// Bytewise ASCII lowercase.
pub open spec fn lower_bytes(s: Seq<u8>) -> Seq<u8> {
    s.map(|_i: int, b: u8| lower_byte(b))
}

/// Whether two byte slices are equal up to ASCII case.
pub fn eq_ignore_ascii_case(a: &[u8], b: &[u8]) -> (r: bool)
    ensures
        r == (lower_bytes(a@) == lower_bytes(b@)),
{
    if a.len() != b.len() {
        proof {
            assert(lower_bytes(a@).len() != lower_bytes(b@).len());
        }
        return false;
    }
    let n = a.len();
    for i in 0..n
        invariant
            n == a@.len() == b@.len(),
            forall|j: int| 0 <= j < i ==> lower_byte(a@[j]) == lower_byte(b@[j]),
    {
        let x = a[i];
        let y = b[i];
        let lx = if 0x41 <= x && x <= 0x5a {
            x + 0x20
        } else {
            x
        };
        let ly = if 0x41 <= y && y <= 0x5a {
            y + 0x20
        } else {
            y
        };
        if lx != ly {
            proof {
                assert(lower_bytes(a@)[i as int] != lower_bytes(b@)[i as int]);
            }
            return false;
        }
    }
    proof {
        assert(lower_bytes(a@) =~= lower_bytes(b@));
    }
    true
}

/// Copy `v[from..to]` into a fresh vector.
pub fn sub_bytes(v: &Vec<u8>, from: usize, to: usize) -> (r: Vec<u8>)
    requires
        from <= to <= v@.len(),
    ensures
        r@ == v@.subrange(from as int, to as int),
{
    let mut out: Vec<u8> = Vec::new();
    let mut i = from;
    while i < to
        invariant
            from <= i <= to <= v@.len(),
            out@ == v@.subrange(from as int, i as int),
        decreases to - i,
    {
        out.push(v[i]);
        proof {
            assert(v@.subrange(from as int, i + 1) =~= v@.subrange(from as int, i as int).push(
                v@[i as int],
            ));
        }
        i = i + 1;
    }
    out
}

/// The decimal spelling of a number, as ASCII bytes.
pub open spec fn dec_bytes(n: nat) -> Seq<u8>
    decreases n,
{
    if n < 10 {
        seq![(0x30 + n) as u8]
    } else {
        dec_bytes(n / 10) + seq![(0x30 + n % 10) as u8]
    }
}

pub proof fn lemma_dec_bytes_ascii(n: nat)
    ensures
        forall|i: int| 0 <= i < dec_bytes(n).len() ==> dec_bytes(n)[i] < 128,
    decreases n,
{
    if n >= 10 {
        lemma_dec_bytes_ascii(n / 10);
        let head = dec_bytes(n / 10);
        let tail = seq![(0x30 + n % 10) as u8];
        assert(dec_bytes(n) == head + tail);
        assert forall|i: int| 0 <= i < dec_bytes(n).len() implies dec_bytes(n)[i] < 128 by {
            if i < head.len() {
                assert(dec_bytes(n)[i] == head[i]);
            } else {
                assert(dec_bytes(n)[i] == tail[i - head.len()]);
            }
        }
    }
}

/// Append the decimal spelling of `n`.
pub fn push_dec(out: &mut Vec<u8>, n: u64)
    ensures
        final(out)@ == old(out)@ + dec_bytes(n as nat),
    decreases n,
{
    if n < 10 {
        out.push(0x30 + n as u8);
    } else {
        push_dec(out, n / 10);
        out.push(0x30 + (n % 10) as u8);
    }
}

/// The decimal spelling of a number, as a string.
pub fn u64_to_dec(n: u64) -> (r: String)
    ensures
        r@ == crate::primitives::chars_of_bytes(dec_bytes(n as nat)),
{
    let mut out: Vec<u8> = Vec::new();
    push_dec(&mut out, n);
    proof {
        lemma_dec_bytes_ascii(n as nat);
    }
    crate::primitives::ascii_to_string(out)
}

} // verus!
