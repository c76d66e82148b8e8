//! Big-endian integer readers and byte-sequence searching, the primitives
//! every box parser in this crate is built on.
use vstd::prelude::*;
use vstd::slice::slice_subrange;
use vstd::slice::slice_to_vec;

verus! {

/// The big-endian 16-bit value stored at offset `i` of `s`.
pub open spec fn be16(s: Seq<u8>, i: int) -> int {
    s[i] * 0x100 + s[i + 1]
}

/// The big-endian 32-bit value stored at offset `i` of `s`.
pub open spec fn be32(s: Seq<u8>, i: int) -> int {
    s[i] * 0x100_0000 + s[i + 1] * 0x1_0000 + s[i + 2] * 0x100 + s[i + 3]
}

/// The big-endian 64-bit value stored at offset `i` of `s`.
pub open spec fn be64(s: Seq<u8>, i: int) -> int {
    be32(s, i) * 0x1_0000_0000 + be32(s, i + 4)
}

pub fn read_be16(s: &[u8], i: usize) -> (r: u16)
    requires
        i + 2 <= s@.len(),
    ensures
        r == be16(s@, i as int),
{
    (s[i] as u16) * 0x100 + (s[i + 1] as u16)
}

pub fn read_be32(s: &[u8], i: usize) -> (r: u32)
    requires
        i + 4 <= s@.len(),
    ensures
        r == be32(s@, i as int),
{
    (s[i] as u32) * 0x100_0000 + (s[i + 1] as u32) * 0x1_0000 + (s[i + 2] as u32) * 0x100 + (s[
        i + 3
    ] as u32)
}

pub fn read_be64(s: &[u8], i: usize) -> (r: u64)
    requires
        i + 8 <= s@.len(),
    ensures
        r == be64(s@, i as int),
{
    let _n = s.len();
    (read_be32(s, i) as u64) * 0x1_0000_0000 + (read_be32(s, i + 4) as u64)
}

/// A size-parameterised big-endian read: 0, 4 or 8 bytes at offset `i`.
pub open spec fn read_sized_spec(s: Seq<u8>, i: int, sz: int) -> int {
    if sz == 0 {
        0
    } else if sz == 4 {
        be32(s, i)
    } else {
        be64(s, i)
    }
}

/// Position of the first zero byte in `s[i..end)`, if any.
pub open spec fn nul_pos(s: Seq<u8>, i: int, end: int) -> Option<int>
    decreases end - i,
{
    if i < 0 || i >= end || end > s.len() {
        None
    } else if s[i] == 0 {
        Some(i)
    } else {
        nul_pos(s, i + 1, end)
    }
}

pub fn find_nul(s: &[u8], start: usize, end: usize) -> (r: Option<usize>)
    requires
        start <= end <= s@.len(),
    ensures
        match r {
            Some(p) => nul_pos(s@, start as int, end as int) == Some(p as int) && start <= p < end,
            None => nul_pos(s@, start as int, end as int) is None,
        },
{
    let mut i: usize = start;
    while i < end
        invariant
            start <= i <= end,
            nul_pos(s@, start as int, end as int) == nul_pos(s@, i as int, end as int),
        decreases end - i,
    {
        if s[i] == 0 {
            return Some(i);
        }
        i = i + 1;
    }
    None
}

/// Copy `s[i..j)` into a fresh vector.
pub fn copy_range(s: &[u8], i: usize, j: usize) -> (r: Vec<u8>)
    requires
        i <= j <= s@.len(),
    ensures
        r@ == s@.subrange(i as int, j as int),
{
    let part = slice_subrange(s, i, j);
    slice_to_vec(part)
}

/// `pat` occurs in `s` starting at offset `i`.
pub open spec fn match_at(s: Seq<u8>, i: int, pat: Seq<u8>) -> bool {
    forall|k: int| 0 <= k < pat.len() ==> s[i + k] == pat[k]
}

/// `pat` occurs somewhere in `s` (every sequence contains the empty one).
pub open spec fn contains_seq(s: Seq<u8>, pat: Seq<u8>) -> bool {
    exists|i: int| 0 <= i && i + pat.len() <= s.len() && match_at(s, i, pat)
}

fn check_match_at(s: &[u8], i: usize, pat: &[u8]) -> (r: bool)
    requires
        i + pat@.len() <= s@.len(),
    ensures
        r == match_at(s@, i as int, pat@),
{
    let _sn = s.len();
    let n = pat.len();
    let mut k: usize = 0;
    while k < n
        invariant
            0 <= k <= n,
            forall|k2: int| 0 <= k2 < k ==> s@[i + k2] == pat@[k2],
        decreases n - k,
    {
        if s[i + k] != pat[k] {
            assert(!match_at(s@, i as int, pat@)) by {
                assert(s@[i + k] != pat@[k as int]);
            }
            return false;
        }
        k = k + 1;
    }
    true
}

/// Whether the byte pattern `pat` occurs anywhere in `s`.
pub fn contains_bytes(s: &[u8], pat: &[u8]) -> (r: bool)
    ensures
        r == contains_seq(s@, pat@),
{
    let n = s.len();
    let m = pat.len();
    if m > n {
        assert(!contains_seq(s@, pat@));
        return false;
    }
    let mut i: usize = 0;
    while i <= n - m
        invariant
            0 <= i <= n - m + 1,
            m <= n,
            forall|i2: int| 0 <= i2 < i ==> !match_at(s@, i2, pat@),
        decreases n - m + 1 - i,
    {
        if check_match_at(s, i, pat) {
            assert(contains_seq(s@, pat@)) by {
                assert(0 <= i as int && i as int + pat@.len() <= s@.len() && match_at(
                    s@,
                    i as int,
                    pat@,
                ));
            }
            return true;
        }
        i = i + 1;
    }
    assert(!contains_seq(s@, pat@)) by {
        assert forall|i2: int| 0 <= i2 && i2 + pat@.len() <= s@.len() implies !match_at(
            s@,
            i2,
            pat@,
        ) by {
            assert(i2 < i);
        }
    }
    false
}

} // verus!
