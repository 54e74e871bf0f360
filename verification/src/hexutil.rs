//! Lowercase hex encoding and decoding, specified exactly: the encoding of
//! each byte is its two hex digits, and decoding inverts it.

use vstd::prelude::*;

use crate::primitives::chars_of_bytes;

verus! {

/// The ASCII byte of the lowercase hex digit for a nibble value below 16.
pub open spec fn hex_digit_of(n: u8) -> u8 {
    if n < 10 {
        (0x30 + n) as u8
    } else {
        (0x57 + n) as u8
    }
}

/// The lowercase hex spelling of a byte sequence, as ASCII bytes: two
/// digits per byte, high nibble first.
pub open spec fn hex_bytes_of(data: Seq<u8>) -> Seq<u8>
    decreases data.len(),
{
    if data.len() == 0 {
        Seq::empty()
    } else {
        hex_bytes_of(data.drop_last()) + seq![
            hex_digit_of(data.last() / 16),
            hex_digit_of(data.last() % 16),
        ]
    }
}

/// The lowercase hex spelling as characters.
pub open spec fn hex_chars_of(data: Seq<u8>) -> Seq<char> {
    chars_of_bytes(hex_bytes_of(data))
}

pub proof fn lemma_hex_bytes_len(data: Seq<u8>)
    ensures
        hex_bytes_of(data).len() == 2 * data.len(),
    decreases data.len(),
{
    if data.len() > 0 {
        lemma_hex_bytes_len(data.drop_last());
    }
}

pub proof fn lemma_hex_bytes_ascii(data: Seq<u8>)
    ensures
        forall|i: int| 0 <= i < hex_bytes_of(data).len() ==> hex_bytes_of(data)[i] < 128,
    decreases data.len(),
{
    if data.len() > 0 {
        lemma_hex_bytes_ascii(data.drop_last());
        let head = hex_bytes_of(data.drop_last());
        let tail = seq![hex_digit_of(data.last() / 16), hex_digit_of(data.last() % 16)];
        assert(hex_bytes_of(data) == head + tail);
        assert(tail[0] < 128 && tail[1] < 128);
        assert forall|i: int| 0 <= i < hex_bytes_of(data).len() implies hex_bytes_of(
            data,
        )[i] < 128 by {
            if i < head.len() {
                assert(hex_bytes_of(data)[i] == head[i]);
            } else {
                assert(hex_bytes_of(data)[i] == tail[i - head.len()]);
            }
        }
    }
}

pub proof fn lemma_hex_bytes_index(data: Seq<u8>)
    ensures
        forall|i: int|
            0 <= i < data.len() ==> hex_bytes_of(data)[2 * i] == hex_digit_of(data[i] / 16)
                && hex_bytes_of(data)[2 * i + 1] == hex_digit_of(data[i] % 16),
    decreases data.len(),
{
    lemma_hex_bytes_len(data);
    if data.len() > 0 {
        let head = data.drop_last();
        lemma_hex_bytes_index(head);
        lemma_hex_bytes_len(head);
        let tail = seq![hex_digit_of(data.last() / 16), hex_digit_of(data.last() % 16)];
        assert(hex_bytes_of(data) == hex_bytes_of(head) + tail);
        assert forall|i: int|
            0 <= i < data.len() implies hex_bytes_of(data)[2 * i] == hex_digit_of(data[i] / 16)
            && hex_bytes_of(data)[2 * i + 1] == hex_digit_of(data[i] % 16) by {
            if i < head.len() {
                assert(data[i] == head[i]);
                assert(hex_bytes_of(data)[2 * i] == hex_bytes_of(head)[2 * i]);
                assert(hex_bytes_of(data)[2 * i + 1] == hex_bytes_of(head)[2 * i + 1]);
            } else {
                assert(i == head.len());
                assert(hex_bytes_of(data)[2 * i] == tail[0]);
                assert(hex_bytes_of(data)[2 * i + 1] == tail[1]);
            }
        }
    }
}

/// Decoding undoes encoding: the hex spelling of any byte sequence decodes
/// back to that sequence.
pub proof fn lemma_hex_round_trip(data: Seq<u8>)
    ensures
        hex_decoded(hex_chars_of(data)) == Some(data),
{
    let chars = hex_chars_of(data);
    lemma_hex_bytes_len(data);
    lemma_hex_bytes_index(data);
    assert(chars.len() == 2 * data.len());
    assert forall|i: int| 0 <= i < chars.len() implies is_hex_digit_char(chars[i]) by {
        let b = hex_bytes_of(data)[i];
        assert(chars[i] == b as char);
        if i % 2 == 0 {
            assert(b == hex_digit_of(data[i / 2] / 16));
        } else {
            assert(b == hex_digit_of(data[i / 2] % 16));
        }
    }
    let decoded = hex_decoded(chars)->Some_0;
    assert forall|i: int| 0 <= i < data.len() implies decoded[i] == data[i] by {
        let hi = hex_bytes_of(data)[2 * i];
        let lo = hex_bytes_of(data)[2 * i + 1];
        assert(chars[2 * i] == hi as char);
        assert(chars[2 * i + 1] == lo as char);
        assert(hex_char_val(hi as char) == data[i] / 16);
        assert(hex_char_val(lo as char) == data[i] % 16);
    }
    assert(decoded =~= data);
}

/// Hex-encode a byte slice to ASCII bytes, two lowercase digits per byte.
pub fn hex_encode_bytes(data: &[u8]) -> (r: Vec<u8>)
    ensures
        r@ == hex_bytes_of(data@),
{
    let mut out: Vec<u8> = Vec::new();
    let n = data.len();
    for i in 0..n
        invariant
            n == data@.len(),
            out@ == hex_bytes_of(data@.take(i as int)),
    {
        let b = data[i];
        let hi = b / 16;
        let lo = b % 16;
        out.push(if hi < 10 { 0x30 + hi } else { 0x57 + hi });
        out.push(if lo < 10 { 0x30 + lo } else { 0x57 + lo });
        proof {
            let t = data@.take(i + 1);
            assert(t.drop_last() =~= data@.take(i as int));
            assert(t.last() == data@[i as int]);
        }
    }
    proof {
        assert(data@.take(n as int) =~= data@);
    }
    out
}

/// Hex-encode a byte slice to a lowercase hex string.
pub fn hex_string(data: &[u8]) -> (r: String)
    ensures
        r@ == hex_chars_of(data@),
{
    let bytes = hex_encode_bytes(data);
    proof {
        lemma_hex_bytes_ascii(data@);
    }
    crate::primitives::ascii_to_string(bytes)
}

/// True when the character is a hex digit, upper or lower case.
pub open spec fn is_hex_digit_char(c: char) -> bool {
    (0x30 <= c as u32 && c as u32 <= 0x39) || (0x61 <= c as u32 && c as u32 <= 0x66) || (0x41
        <= c as u32 && c as u32 <= 0x46)
}

/// The value of a hex digit character.
pub open spec fn hex_char_val(c: char) -> u8 {
    if 0x30 <= c as u32 && c as u32 <= 0x39 {
        (c as u32 - 0x30) as u8
    } else if 0x61 <= c as u32 && c as u32 <= 0x66 {
        (c as u32 - 0x57) as u8
    } else {
        (c as u32 - 0x37) as u8
    }
}

/// What hex decoding yields: defined exactly when the text has even length
/// and holds hex digits only; each digit pair spells one byte.
pub open spec fn hex_decoded(s: Seq<char>) -> Option<Seq<u8>> {
    if s.len() % 2 == 0 && (forall|i: int| 0 <= i < s.len() ==> is_hex_digit_char(s[i])) {
        Some(
            Seq::new(
                (s.len() / 2) as nat,
                |i: int| (16 * hex_char_val(s[2 * i]) + hex_char_val(s[2 * i + 1])) as u8,
            ),
        )
    } else {
        None
    }
}

/// Decode a hex string, accepting upper- and lowercase digits.
pub fn hex_decode(s: &str) -> (r: Result<Vec<u8>, ()>)
    ensures
        (r is Ok) == (hex_decoded(s@) is Some),
        r matches Ok(v) ==> hex_decoded(s@) == Some(v@),
{
    let n = s.unicode_len();
    if n % 2 != 0 {
        return Err(());
    }
    let mut out: Vec<u8> = Vec::new();
    let mut i: usize = 0;
    while i < n
        invariant
            n == s@.len(),
            n % 2 == 0,
            i % 2 == 0,
            i <= n,
            forall|j: int| 0 <= j < i ==> is_hex_digit_char(s@[j]),
            out@.len() == i / 2,
            forall|k: int|
                0 <= k < out@.len() ==> out@[k] == (16 * hex_char_val(s@[2 * k]) + hex_char_val(
                    s@[2 * k + 1],
                )) as u8,
        decreases n - i,
    {
        let c1 = s.get_char(i);
        let c2 = s.get_char(i + 1);
        let v1 = match hex_val_exec(c1) {
            Some(v) => v,
            None => {
                return Err(());
            },
        };
        let v2 = match hex_val_exec(c2) {
            Some(v) => v,
            None => {
                return Err(());
            },
        };
        out.push(16 * v1 + v2);
        i = i + 2;
    }
    proof {
        let decoded = hex_decoded(s@);
        assert(decoded matches Some(d) ==> d =~= out@);
    }
    Ok(out)
}

/// The value of one hex digit character, or `None` for any other character.
fn hex_val_exec(c: char) -> (r: Option<u8>)
    ensures
        (r is Some) == is_hex_digit_char(c),
        r matches Some(v) ==> v == hex_char_val(c) && v < 16,
{
    let u = c as u32;
    if 0x30 <= u && u <= 0x39 {
        Some((u - 0x30) as u8)
    } else if 0x61 <= u && u <= 0x66 {
        Some((u - 0x57) as u8)
    } else if 0x41 <= u && u <= 0x46 {
        Some((u - 0x37) as u8)
    } else {
        None
    }
}

} // verus!
