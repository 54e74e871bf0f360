//! HMAC-SHA256, built from the SHA-256 digest exactly as RFC 2104 lays it
//! out: keys longer than one block are hashed, the block-padded key is
//! xored with the inner and outer pads, and two digests are chained.

use vstd::prelude::*;

use crate::primitives::{sha256, sha256_of};

verus! {

/// The key padded (or hashed, then padded) to the 64-byte SHA-256 block.
pub open spec fn hmac_block_key(key: Seq<u8>) -> Seq<u8> {
    let k = if key.len() > 64 {
        sha256_of(key)
    } else {
        key
    };
    k + Seq::new((64 - k.len()) as nat, |_i: int| 0u8)
}

/// The HMAC-SHA256 tag of a message under a key.
pub open spec fn hmac_sha256_of(key: Seq<u8>, msg: Seq<u8>) -> Seq<u8> {
    let bk = hmac_block_key(key);
    sha256_of(
        bk.map(|_i: int, b: u8| (b ^ 0x5c) as u8) + sha256_of(
            bk.map(|_i: int, b: u8| (b ^ 0x36) as u8) + msg,
        ),
    )
}

/// Xor every byte of the block key with a pad byte.
fn xor_pad(bk: &Vec<u8>, pad: u8) -> (r: Vec<u8>)
    ensures
        r@ == bk@.map(|_i: int, b: u8| (b ^ pad) as u8),
{
    let mut out: Vec<u8> = Vec::new();
    let n = bk.len();
    for i in 0..n
        invariant
            n == bk@.len(),
            out@.len() == i,
            forall|j: int| 0 <= j < i ==> out@[j] == (bk@[j] ^ pad) as u8,
    {
        out.push(bk[i] ^ pad);
    }
    proof {
        assert(out@ =~= bk@.map(|_i: int, b: u8| (b ^ pad) as u8));
    }
    out
}

/// Compute the HMAC-SHA256 tag of a message under a key.
pub fn hmac_sha256(key: &[u8], msg: &[u8]) -> (r: Vec<u8>)
    ensures
        r@ == hmac_sha256_of(key@, msg@),
        r@.len() == 32,
{
    let mut bk: Vec<u8> = if key.len() > 64 {
        sha256(key)
    } else {
        let mut v: Vec<u8> = Vec::new();
        v.extend_from_slice(key);
        v
    };
    while bk.len() < 64
        invariant
            bk@.len() <= 64,
            bk@ == {
                let k = if key@.len() > 64 {
                    sha256_of(key@)
                } else {
                    key@
                };
                k + Seq::new((bk@.len() - k.len()) as nat, |_i: int| 0u8)
            },
        decreases 64 - bk.len(),
    {
        bk.push(0u8);
        proof {
            let k = if key@.len() > 64 {
                sha256_of(key@)
            } else {
                key@
            };
            assert(bk@ =~= k + Seq::new((bk@.len() - k.len()) as nat, |_i: int| 0u8));
        }
    }
    proof {
        assert(bk@ =~= hmac_block_key(key@));
    }
    let mut inner_input = xor_pad(&bk, 0x36);
    inner_input.extend_from_slice(msg);
    proof {
        assert(inner_input@ =~= hmac_block_key(key@).map(|_i: int, b: u8| (b ^ 0x36) as u8)
            + msg@);
    }
    let inner = sha256(inner_input.as_slice());
    let mut outer_input = xor_pad(&bk, 0x5c);
    outer_input.extend_from_slice(inner.as_slice());
    proof {
        assert(outer_input@ =~= hmac_block_key(key@).map(|_i: int, b: u8| (b ^ 0x5c) as u8)
            + sha256_of(hmac_block_key(key@).map(|_i: int, b: u8| (b ^ 0x36) as u8) + msg@));
    }
    sha256(outer_input.as_slice())
}

} // verus!
