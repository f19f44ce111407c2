//! Read primitives over a finite, in-memory byte source.
//!
//! All multi-byte integers in the format are big-endian. Reads are made at
//! absolute positions, so dereferencing a pointer field never disturbs the
//! position at which the referencing record continues to be read.

use vstd::prelude::*;

verus! {

/// The big-endian 16-bit value formed from the two bytes of `s` at `i`.
pub open spec fn be16(s: Seq<u8>, i: int) -> u16 {
    ((s[i] as u16) << 8) | (s[i + 1] as u16)
}

/// The big-endian 32-bit value formed from the four bytes of `s` at `i`.
pub open spec fn be32(s: Seq<u8>, i: int) -> u32 {
    (((s[i] as u32) << 24) | ((s[i + 1] as u32) << 16)) | (((s[i + 2] as u32) << 8) | (s[i + 3]
        as u32))
}

/// Reads the byte at absolute position `i`.
pub fn get_u8(s: &Vec<u8>, i: u64) -> (r: u8)
    requires
        i < s@.len(),
    ensures
        r == s@[i as int],
{
    let _n: usize = s.len(); // lets the verifier bound the view's length
    s[i as usize]
}

/// Reads the big-endian 16-bit integer at absolute position `i`.
pub fn get_u16(s: &Vec<u8>, i: u64) -> (r: u16)
    requires
        i + 2 <= s@.len(),
    ensures
        r == be16(s@, i as int),
{
    let _n: usize = s.len(); // lets the verifier bound the view's length
    let b0 = get_u8(s, i);
    let b1 = get_u8(s, i + 1);
    ((b0 as u16) << 8) | (b1 as u16)
}

/// Reads the big-endian 32-bit integer at absolute position `i`.
pub fn get_u32(s: &Vec<u8>, i: u64) -> (r: u32)
    requires
        i + 4 <= s@.len(),
    ensures
        r == be32(s@, i as int),
{
    let _n: usize = s.len(); // lets the verifier bound the view's length
    let b0 = get_u8(s, i);
    let b1 = get_u8(s, i + 1);
    let b2 = get_u8(s, i + 2);
    let b3 = get_u8(s, i + 3);
    (((b0 as u32) << 24) | ((b1 as u32) << 16)) | (((b2 as u32) << 8) | (b3 as u32))
}

/// The position of the first 0 byte of `s` at or after `i`, or -1 if no 0
/// byte follows.
pub open spec fn nul_from(s: Seq<u8>, i: int) -> int
    decreases s.len() - i,
{
    if i < 0 || i >= s.len() {
        -1
    } else if s[i] == 0 {
        i
    } else {
        nul_from(s, i + 1)
    }
}

/// A scan result is either -1 or a position, at or after the start, of a
/// 0 byte.
pub proof fn lemma_nul_from_range(s: Seq<u8>, i: int)
    requires
        0 <= i,
    ensures
        nul_from(s, i) == -1 || (i <= nul_from(s, i) < s.len() && s[nul_from(s, i)] == 0),
    decreases s.len() - i,
{
    if i < s.len() && s[i] != 0 {
        lemma_nul_from_range(s, i + 1);
    }
}

/// Scans forward from `start` for the first 0 byte.
pub fn find_nul(s: &Vec<u8>, start: u64) -> (r: Option<u64>)
    requires
        start <= s@.len(),
    ensures
        match r {
            Some(e) => start <= e < s@.len() && nul_from(s@, start as int) == e,
            None => nul_from(s@, start as int) == -1,
        },
{
    let n: usize = s.len();
    let mut j: u64 = start;
    while j < n as u64
        invariant
            start <= j <= s@.len(),
            n == s@.len(),
            nul_from(s@, start as int) == nul_from(s@, j as int),
        decreases s@.len() - j,
    {
        if get_u8(s, j) == 0 {
            return Some(j);
        }
        j = j + 1;
    }
    None
}

/// Copies the bytes of `s` in the half-open range `start..end`.
pub fn copy_range(s: &Vec<u8>, start: u64, end: u64) -> (r: Vec<u8>)
    requires
        start <= end <= s@.len(),
    ensures
        r@ == s@.subrange(start as int, end as int),
{
    let mut out: Vec<u8> = Vec::new();
    let mut j: u64 = start;
    while j < end
        invariant
            start <= j <= end <= s@.len(),
            out@ == s@.subrange(start as int, j as int),
        decreases end - j,
    {
        let b = get_u8(s, j);
        out.push(b);
        proof {
            assert(s@.subrange(start as int, (j + 1) as int) =~= s@.subrange(
                start as int,
                j as int,
            ).push(s@[j as int]));
        }
        j = j + 1;
    }
    out
}

/// The characters that the byte sequence decodes to as UTF-8, or `None`
/// where the bytes are not valid UTF-8.
pub uninterp spec fn utf8_decoded(bytes: Seq<u8>) -> Option<Seq<char>>;

/// Relies on `String::from_utf8`: it succeeds exactly when the input is
/// valid UTF-8, the resulting characters are a function of the input bytes
/// alone, and bytes below 0x80 decode one-for-one to the characters with
/// the same code points.
#[verifier::external_body]
pub(crate) fn string_from_utf8(bytes: Vec<u8>) -> (r: Option<String>)
    ensures
        match r {
            Some(s) => utf8_decoded(bytes@) == Some(s@) && ((forall|k: int|
                0 <= k < bytes@.len() ==> bytes@[k] < 0x80) ==> (s@.len() == bytes@.len()
                && (forall|k: int| 0 <= k < bytes@.len() ==> s@[k] == bytes@[k] as char))),
            None => utf8_decoded(bytes@) is None && !(forall|k: int|
                0 <= k < bytes@.len() ==> bytes@[k] < 0x80),
        },
{
    match String::from_utf8(bytes) {
        Ok(s) => Some(s),
        Err(_) => None,
    }
}

} // verus!
