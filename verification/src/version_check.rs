//! Release version comparison: parse dotted numeric versions (with an
//! optional leading `v`) and decide whether a remote version is newer.
//! Components that are not plain decimal numbers are skipped, and missing
//! components count as zero, exactly as spelled out by the spec functions.

use vstd::prelude::*;

use vstd::string::StrSliceExecFns;
use vstd::string::StringSliceAdditionalSpecFns;
use vstd::utf8::encode_utf8;

verus! {

/// The bytes with every leading `v` removed.
pub open spec fn strip_v(s: Seq<u8>) -> Seq<u8>
    decreases s.len(),
{
    if s.len() > 0 && s[0] == 0x76 {
        strip_v(s.drop_first())
    } else {
        s
    }
}

/// The index of the first dot at or after `i`, or the length.
pub open spec fn seg_end(s: Seq<u8>, i: int) -> int
    decreases s.len() - i,
{
    if i >= s.len() || s[i] == 0x2e {
        i
    } else {
        seg_end(s, i + 1)
    }
}

proof fn lemma_seg_end_bounds(s: Seq<u8>, i: int)
    requires
        0 <= i <= s.len(),
    ensures
        i <= seg_end(s, i) <= s.len(),
    decreases s.len() - i,
{
    if !(i >= s.len() || s[i] == 0x2e) {
        lemma_seg_end_bounds(s, i + 1);
    }
}

/// The dot-separated segments of `s` from position `i` on.
pub open spec fn segments_from(s: Seq<u8>, i: int) -> Seq<Seq<u8>>
    decreases s.len() - i + 1,
{
    if i > s.len() || i < 0 {
        Seq::empty()
    } else {
        let e = seg_end(s, i);
        if i <= e <= s.len() {
            seq![s.subrange(i, e)] + segments_from(s, e + 1)
        } else {
            Seq::empty()
        }
    }
}

/// True when the segment is a nonempty run of decimal digits.
pub open spec fn is_digits(s: Seq<u8>) -> bool {
    s.len() > 0 && forall|i: int| 0 <= i < s.len() ==> 0x30 <= #[trigger] s[i] <= 0x39
}

/// The unbounded value of a digit run.
pub open spec fn digits_val(s: Seq<u8>) -> int
    decreases s.len(),
{
    if s.len() == 0 {
        0
    } else {
        digits_val(s.drop_last()) * 10 + (s.last() - 0x30)
    }
}

/// The parsed value of one segment, when it is numeric and fits.
pub open spec fn parse_component(s: Seq<u8>) -> Option<u32> {
    if is_digits(s) && digits_val(s) <= u32::MAX {
        Some(digits_val(s) as u32)
    } else {
        None
    }
}

/// The numeric components of a segment list; unparsable segments are
/// skipped.
pub open spec fn numeric_components(segs: Seq<Seq<u8>>) -> Seq<u32>
    decreases segs.len(),
{
    if segs.len() == 0 {
        Seq::empty()
    } else {
        (match parse_component(segs[0]) {
            Some(v) => seq![v],
            None => Seq::empty(),
        }) + numeric_components(segs.drop_first())
    }
}

/// The numeric components of a version string.
pub open spec fn version_components(s: Seq<char>) -> Seq<u32> {
    numeric_components(segments_from(strip_v(encode_utf8(s)), 0))
}

/// Componentwise comparison from position `i`, missing components counting
/// as zero: true when the remote version is strictly newer.
pub open spec fn components_newer(cur: Seq<u32>, rem: Seq<u32>, i: int) -> bool
    decreases (if cur.len() > rem.len() {
        cur.len()
    } else {
        rem.len()
    }) - i + 1,
{
    let n = if cur.len() > rem.len() {
        cur.len() as int
    } else {
        rem.len() as int
    };
    if i >= n || i < 0 {
        false
    } else {
        let c: u32 = if i < cur.len() {
            cur[i]
        } else {
            0
        };
        let r: u32 = if i < rem.len() {
            rem[i]
        } else {
            0
        };
        if r > c {
            true
        } else if r < c {
            false
        } else {
            components_newer(cur, rem, i + 1)
        }
    }
}

/// Whether `remote` names a strictly newer release than `current`.
pub open spec fn spec_is_newer_version(current: Seq<char>, remote: Seq<char>) -> bool {
    components_newer(version_components(current), version_components(remote), 0)
}

/// The numeric components of the segments from position `i` on.
pub open spec fn numeric_components_upto(s: Seq<u8>, i: int) -> Seq<u32> {
    numeric_components(segments_from(s, i))
}

/// Parse the numeric components of a version string.
pub fn parse_version(s: &str) -> (r: Vec<u32>)
    ensures
        r@ == version_components(s@),
{
    let bytes = s.as_bytes_vec();
    let n = bytes.len();
    let mut start: usize = 0;
    proof {
        assert(bytes@.skip(0) =~= bytes@);
    }
    while start < n && bytes[start] == 0x76
        invariant
            n == bytes@.len(),
            start <= n,
            strip_v(bytes@) == strip_v(bytes@.skip(start as int)),
        decreases n - start,
    {
        proof {
            assert(bytes@.skip(start as int).drop_first() =~= bytes@.skip(start + 1));
        }
        start = start + 1;
    }
    let stripped = crate::strutil::sub_bytes(&bytes, start, n);
    proof {
        assert(bytes@.skip(start as int) =~= bytes@.subrange(start as int, n as int));
        if start < n {
            assert(strip_v(bytes@.skip(start as int)) == bytes@.skip(start as int));
        } else {
            assert(bytes@.skip(start as int).len() == 0);
        }
        assert(strip_v(bytes@) == stripped@);
    }
    let m = stripped.len();
    let mut out: Vec<u32> = Vec::new();
    let mut i: usize = 0;
    loop
        invariant_except_break
            numeric_components_upto(stripped@, 0) == out@ + numeric_components_upto(
                stripped@,
                i as int,
            ),
        invariant
            m == stripped@.len(),
            i <= m,
        ensures
            numeric_components_upto(stripped@, 0) == out@,
        decreases m - i,
    {
        let mut j = i;
        let mut value: u64 = 0;
        let mut numeric = false;
        while j < m && stripped[j] != 0x2e
            invariant
                m == stripped@.len(),
                i <= j <= m,
                seg_end(stripped@, i as int) == seg_end(stripped@, j as int),
                forall|k: int| i <= k < j ==> stripped@[k] != 0x2e,
                numeric == (j > i && (forall|k: int|
                    i <= k < j ==> 0x30 <= #[trigger] stripped@[k] <= 0x39) && digits_val(
                    stripped@.subrange(i as int, j as int),
                ) <= u32::MAX),
                numeric ==> value == digits_val(stripped@.subrange(i as int, j as int)),
            decreases m - j,
        {
            let b = stripped[j];
            proof {
                assert(stripped@.subrange(i as int, j + 1).drop_last() =~= stripped@.subrange(
                    i as int,
                    j as int,
                ));
            }
            if 0x30 <= b && b <= 0x39 {
                if j == i {
                    numeric = true;
                    value = (b - 0x30) as u64;
                    proof {
                        let one = stripped@.subrange(i as int, i + 1);
                        assert(one.len() == 1);
                        assert(one[0] == b);
                        assert(one.drop_last().len() == 0);
                        assert(one.last() == b);
                        assert(digits_val(one.drop_last()) == 0);
                        assert(digits_val(one) == b - 0x30);
                        assert(forall|k: int|
                            i <= k < i + 1 ==> 0x30 <= #[trigger] stripped@[k] <= 0x39);
                    }
                } else if numeric {
                    let next = value * 10 + (b - 0x30) as u64;
                    proof {
                        assert(digits_val(stripped@.subrange(i as int, j + 1)) == digits_val(
                            stripped@.subrange(i as int, j as int),
                        ) * 10 + (b - 0x30));
                    }
                    if next > 0xffff_ffff {
                        numeric = false;
                        proof {
                            assert(digits_val(stripped@.subrange(i as int, j + 1)) > u32::MAX);
                        }
                    } else {
                        value = next;
                        proof {
                            assert(value == digits_val(stripped@.subrange(i as int, j + 1)));
                            assert(forall|k: int|
                                i <= k < j + 1 ==> 0x30 <= #[trigger] stripped@[k] <= 0x39);
                        }
                    }
                } else {
                    proof {
                        let prev = stripped@.subrange(i as int, j as int);
                        let cur = stripped@.subrange(i as int, j + 1);
                        if (forall|k: int| i <= k < j + 1 ==> 0x30 <= #[trigger] stripped@[k]
                            <= 0x39) {
                            assert(digits_val(prev) > u32::MAX);
                            assert(digits_val(cur) == digits_val(prev) * 10 + (stripped@[j as int]
                                - 0x30));
                            assert(digits_val(cur) > u32::MAX);
                        }
                    }
                }
            } else {
                numeric = false;
            }
            j = j + 1;
        }
        proof {
            assert(seg_end(stripped@, j as int) == j as int);
            lemma_seg_end_bounds(stripped@, i as int);
        }
        let ghost seg = stripped@.subrange(i as int, j as int);
        proof {
            assert(forall|k: int| 0 <= k < seg.len() ==> #[trigger] seg[k] == stripped@[i + k]);
            if numeric {
                assert forall|k: int| 0 <= k < seg.len() implies 0x30 <= #[trigger] seg[k]
                    <= 0x39 by {
                    assert(seg[k] == stripped@[i + k]);
                }
                assert(is_digits(seg));
                assert(parse_component(seg) == Some(value as u32));
            } else {
                if j == i {
                    assert(seg.len() == 0);
                    assert(parse_component(seg) is None);
                } else {
                    if is_digits(seg) {
                        assert forall|k: int| i <= k < j implies 0x30 <= #[trigger] stripped@[k]
                            <= 0x39 by {
                            assert(seg[k - i] == stripped@[k]);
                        }
                        assert(digits_val(seg) > u32::MAX);
                    }
                    assert(parse_component(seg) is None);
                }
            }
        }
        if numeric {
            out.push(value as u32);
        }
        proof {
            assert(segments_from(stripped@, i as int) =~~= seq![seg] + segments_from(
                stripped@,
                j + 1,
            ));
            assert((seq![seg] + segments_from(stripped@, j + 1)).drop_first() =~~= segments_from(
                stripped@,
                j + 1,
            ));
            assert(numeric_components_upto(stripped@, i as int) =~= (match parse_component(seg) {
                Some(v) => seq![v],
                None => Seq::<u32>::empty(),
            }) + numeric_components_upto(stripped@, j + 1));
            assert(numeric_components_upto(stripped@, 0) =~= out@ + numeric_components_upto(
                stripped@,
                j + 1,
            ));
        }
        if j == m {
            proof {
                assert(segments_from(stripped@, j + 1).len() == 0);
                assert(numeric_components_upto(stripped@, j + 1).len() == 0);
                assert(numeric_components_upto(stripped@, 0) =~= out@);
            }
            break ;
        }
        i = j + 1;
    }
    proof {
        assert(out@ =~= version_components(s@));
    }
    out
}

/// Whether `remote` names a strictly newer release than `current`.
pub fn is_newer_version(current: &str, remote: &str) -> (r: bool)
    ensures
        r == spec_is_newer_version(current@, remote@),
{
    let cur = parse_version(current);
    let rem = parse_version(remote);
    let n = if cur.len() > rem.len() {
        cur.len()
    } else {
        rem.len()
    };
    let mut i: usize = 0;
    while i < n
        invariant
            n == (if cur@.len() > rem@.len() {
                cur@.len()
            } else {
                rem@.len()
            }),
            i <= n,
            cur@ == version_components(current@),
            rem@ == version_components(remote@),
            components_newer(cur@, rem@, 0) == components_newer(cur@, rem@, i as int),
        decreases n - i,
    {
        let cv: u32 = if i < cur.len() {
            cur[i]
        } else {
            0
        };
        let rv: u32 = if i < rem.len() {
            rem[i]
        } else {
            0
        };
        if rv > cv {
            proof {
                assert(components_newer(cur@, rem@, i as int) == true);
            }
            return true;
        }
        if rv < cv {
            proof {
                assert(components_newer(cur@, rem@, i as int) == false);
            }
            return false;
        }
        proof {
            assert(components_newer(cur@, rem@, i as int) == components_newer(
                cur@,
                rem@,
                i + 1,
            ));
        }
        i = i + 1;
    }
    proof {
        assert(components_newer(cur@, rem@, i as int) == false);
    }
    false
}

} // verus!
