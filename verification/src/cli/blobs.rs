//! The `#Blob` and `#US` heaps: length-prefixed records whose length
//! is 7, 14, or 29 bits, selected by the top bits of the first byte.

use vstd::prelude::*;

use crate::buf::{u16_at, Error};
use crate::error::ApsError;

verus! {

/// Whether `b0` opens a well-formed length prefix: `0xxxxxxx`,
/// `10xxxxxx`, or `110xxxxx`.
pub open spec fn blob_prefix_valid(b0: u8) -> bool {
    ||| b0 & 0x80 == 0
    ||| b0 & 0xc0 == 0x80
    ||| b0 & 0xe0 == 0xc0
}

/// Width in bytes of the length prefix opened by `b0`: 1, 2, or 4.
pub open spec fn blob_prefix_size(b0: u8) -> int {
    if b0 & 0x80 == 0 {
        1
    } else if b0 & 0xc0 == 0x80 {
        2
    } else {
        4
    }
}

/// The record length encoded by the prefix at `o` in `s`.
pub open spec fn spec_blob_val(s: Seq<u8>, o: int) -> int {
    let b0 = s[o];
    if b0 & 0x80 == 0 {
        (b0 & 0x7f) as int
    } else if b0 & 0xc0 == 0x80 {
        ((b0 & 0x3f) as int) * 0x100 + s[o + 1]
    } else {
        ((b0 & 0x1f) as int) * 0x100_0000 + (s[o + 1] as int) * 0x1_0000 + (s[o + 2] as int) * 0x100
            + s[o + 3]
    }
}

/// Whether a whole record (prefix and payload) lies at the front of `s`.
pub open spec fn blob_ok(s: Seq<u8>) -> bool {
    &&& s.len() >= 1
    &&& blob_prefix_valid(s[0])
    &&& blob_prefix_size(s[0]) <= s.len()
    &&& blob_prefix_size(s[0]) + spec_blob_val(s, 0) <= s.len()
}

/// Bytes consumed by the record at the front of `s`: prefix plus payload.
pub open spec fn spec_blob_total(s: Seq<u8>) -> int {
    blob_prefix_size(s[0]) + spec_blob_val(s, 0)
}

/// The payload bytes of the record at the front of `s`.
pub open spec fn spec_blob_payload(s: Seq<u8>) -> Seq<u8> {
    s.subrange(blob_prefix_size(s[0]), spec_blob_total(s))
}

/// Decode one length-prefixed record at the front of `data`.
///
/// Returns the payload and the total bytes consumed. Fails with the
/// blob-length error on a malformed prefix (`111xxxxx`), and with
/// `NotEnoughData` when the prefix or payload runs past the end.
pub fn parse_blob(data: &[u8]) -> (r: Result<(Vec<u8>, usize), ApsError>)
    ensures
        match r {
            Ok((payload, consumed)) => {
                &&& blob_ok(data@)
                &&& consumed == spec_blob_total(data@)
                &&& payload@ == spec_blob_payload(data@)
            },
            Err(e) => {
                &&& !blob_ok(data@)
                &&& if data@.len() >= 1 && !blob_prefix_valid(data@[0]) {
                    e matches ApsError::General(_)
                } else {
                    e == ApsError::Parse(Error::NotEnoughData)
                }
            },
        },
{
    if data.len() < 1 {
        return Err(ApsError::Parse(Error::NotEnoughData));
    }
    let b0 = data[0];

    let n: usize;
    let prefix: usize;
    if b0 & 0x80 == 0 {
        n = (b0 & 0x7f) as usize;
        prefix = 1;
    } else if b0 & 0xc0 == 0x80 {
        if data.len() < 2 {
            return Err(ApsError::Parse(Error::NotEnoughData));
        }
        n = ((b0 & 0x3f) as usize) * 0x100 + data[1] as usize;
        prefix = 2;
    } else if b0 & 0xe0 == 0xc0 {
        if data.len() < 4 {
            return Err(ApsError::Parse(Error::NotEnoughData));
        }
        n = ((b0 & 0x1f) as usize) * 0x100_0000 + (data[1] as usize) * 0x1_0000 + (data[2] as usize)
            * 0x100 + data[3] as usize;
        prefix = 4;
    } else {
        return Err(ApsError::General("Incorrect blob length."));
    }

    if n > data.len() - prefix {
        return Err(ApsError::Parse(Error::NotEnoughData));
    }
    let payload = vstd::slice::slice_to_vec(vstd::slice::slice_subrange(data, prefix, prefix + n));
    Ok((payload, prefix + n))
}

#[via_fn]
proof fn spec_blobs_decreases(s: Seq<u8>) {
}

/// The payloads of the records that fill `s`, front to back; `None`
/// when some record is malformed or truncated. A final lone byte is
/// not a record: the scan stops when at most one byte is left.
pub open spec fn spec_blobs(s: Seq<u8>) -> Option<Seq<Seq<u8>>>
    decreases s.len(),
    via spec_blobs_decreases
{
    if s.len() <= 1 {
        Some(seq![])
    } else if !blob_ok(s) {
        None
    } else {
        match spec_blobs(s.skip(spec_blob_total(s))) {
            Some(rest) => Some(seq![spec_blob_payload(s)] + rest),
            None => None,
        }
    }
}

/// Decode the `#Blob` heap into the payloads of its records, in heap
/// order. Succeeds exactly when every record scanned is well-formed.
#[verifier::loop_isolation(false)]
pub fn parse_blobs(data: &[u8]) -> (r: Result<Vec<Vec<u8>>, ApsError>)
    ensures
        match r {
            Ok(v) => {
                &&& spec_blobs(data@) matches Some(bs)
                &&& v@.len() == spec_blobs(data@)->Some_0.len()
                &&& forall|j: int|
                    0 <= j < v@.len() ==> (#[trigger] v@[j])@ == spec_blobs(data@)->Some_0[j]
            },
            Err(_) => spec_blobs(data@) is None,
        },
{
    let ghost s = data@;
    let mut blobs: Vec<Vec<u8>> = Vec::new();
    let ghost mut done: Seq<Seq<u8>> = Seq::empty();
    let mut i: usize = 0;

    proof {
        assert(s.skip(0) =~= s);
    }
    while data.len() - i > 1
        invariant
            i <= s.len(),
            blobs@.len() == done.len(),
            forall|j: int| 0 <= j < done.len() ==> (#[trigger] blobs@[j])@ == done[j],
            match spec_blobs(s.skip(i as int)) {
                Some(rest) => spec_blobs(s) == Some(done + rest),
                None => spec_blobs(s) is None,
            },
        decreases s.len() - i,
    {
        let tail = vstd::slice::slice_subrange(data, i, data.len());
        proof {
            assert(tail@ =~= s.skip(i as int));
        }
        let (payload, consumed) = parse_blob(tail)?;
        proof {
            assert(s.skip(i as int).skip(consumed as int) =~= s.skip(i + consumed));
            done = done + seq![payload@];
        }
        blobs.push(payload);
        i = i + consumed;
    }
    proof {
        assert(spec_blobs(s.skip(i as int)) == Some(Seq::<Seq<u8>>::empty()));
        assert(done + Seq::<Seq<u8>>::empty() =~= done);
    }
    Ok(blobs)
}

/// The bytes of the shortest prefix that encodes a record length of
/// `len`: one byte below `2^7`, two below `2^14`, else four.
pub open spec fn spec_emit_blob_len(len: u32) -> Seq<u8> {
    if len < 0x80 {
        seq![len as u8]
    } else if len < 0x4000 {
        seq![(0x80 | (len >> 8)) as u8, (len & 0xff) as u8]
    } else {
        seq![
            (0xc0 | (len >> 24)) as u8,
            ((len >> 16) & 0xff) as u8,
            ((len >> 8) & 0xff) as u8,
            (len & 0xff) as u8,
        ]
    }
}

/// Encode `len` with the three-case prefix encoder.
pub fn emit_blob_len(len: u32) -> (r: Vec<u8>)
    requires
        len < 0x2000_0000,
    ensures
        r@ == spec_emit_blob_len(len),
{
    let mut out: Vec<u8> = Vec::new();
    if len < 0x80 {
        out.push(len as u8);
    } else if len < 0x4000 {
        out.push(0x80 | (len >> 8) as u8);
        out.push((len & 0xff) as u8);
        proof {
            assert(0x80 | ((len >> 8) as u8) == ((0x80 | (len >> 8)) as u8)) by (bit_vector)
                requires
                    len < 0x4000u32,
            ;
        }
    } else {
        out.push(0xc0 | (len >> 24) as u8);
        out.push(((len >> 16) & 0xff) as u8);
        out.push(((len >> 8) & 0xff) as u8);
        out.push((len & 0xff) as u8);
        proof {
            assert(0xc0 | ((len >> 24) as u8) == ((0xc0 | (len >> 24)) as u8)) by (bit_vector)
                requires
                    len < 0x2000_0000u32,
            ;
        }
    }
    proof {
        assert(out@ =~= spec_emit_blob_len(len));
    }
    out
}

/// Round trip of the length prefix: a buffer that begins with the
/// emitted prefix for `len` reads back as a well-formed prefix of the
/// emitted width whose decoded length is `len` again.
pub proof fn lemma_blob_len_round_trip(len: u32, rest: Seq<u8>)
    requires
        len < 0x2000_0000,
    ensures
        ({
            let s = spec_emit_blob_len(len) + rest;
            &&& s.len() >= 1
            &&& blob_prefix_valid(s[0])
            &&& blob_prefix_size(s[0]) == spec_emit_blob_len(len).len()
            &&& spec_blob_val(s, 0) == len
        }),
{
    let e = spec_emit_blob_len(len);
    let s = e + rest;
    if len < 0x80 {
        assert(s[0] == len as u8);
        assert((len as u8) & 0x80 == 0 && ((len as u8) & 0x7f) == len as u8) by (bit_vector)
            requires
                len < 0x80u32,
        ;
    } else if len < 0x4000 {
        let b0 = (0x80 | (len >> 8)) as u8;
        let b1 = (len & 0xff) as u8;
        assert(s[0] == b0 && s[1] == b1);
        assert(b0 & 0x80 != 0 && b0 & 0xc0 == 0x80) by (bit_vector)
            requires
                b0 == ((0x80 | (len >> 8)) as u8) && len < 0x4000u32,
        ;
        assert(((b0 & 0x3f) as u32) * 0x100 + (b1 as u32) == len) by (bit_vector)
            requires
                b0 == ((0x80 | (len >> 8)) as u8) && b1 == ((len & 0xff) as u8) && len
                    < 0x4000u32,
        ;
    } else {
        let b0 = (0xc0 | (len >> 24)) as u8;
        let b1 = ((len >> 16) & 0xff) as u8;
        let b2 = ((len >> 8) & 0xff) as u8;
        let b3 = (len & 0xff) as u8;
        assert(s[0] == b0 && s[1] == b1 && s[2] == b2 && s[3] == b3);
        assert(b0 & 0x80 != 0 && b0 & 0xc0 != 0x80 && b0 & 0xe0 == 0xc0) by (bit_vector)
            requires
                b0 == ((0xc0 | (len >> 24)) as u8) && 0x4000u32 <= len < 0x2000_0000u32,
        ;
        assert(((b0 & 0x1f) as u32) * 0x100_0000 + (b1 as u32) * 0x1_0000 + (b2 as u32) * 0x100 + (
        b3 as u32) == len) by (bit_vector)
            requires
                b0 == ((0xc0 | (len >> 24)) as u8) && b1 == (((len >> 16) & 0xff) as u8) && b2 == ((
                (len >> 8) & 0xff) as u8) && b3 == ((len & 0xff) as u8) && 0x4000u32 <= len
                    < 0x2000_0000u32,
        ;
    }
}

/// The UTF-16 code units of a user-string payload: every leading pair
/// of bytes, little-endian; the trailing flag byte is not part of it.
pub open spec fn spec_wide(payload: Seq<u8>) -> Seq<u16> {
    Seq::new((((payload.len() - 1) / 2)) as nat, |k: int| u16_at(payload, 2 * k))
}

/// What `String::from_utf16` decodes a unit sequence to, when it
/// succeeds; the result depends on the units alone.
pub uninterp spec fn utf16_decoded(units: Seq<u16>) -> Option<Seq<char>>;

/// Relies on `String::from_utf16`: it either decodes the units to a
/// string or rejects them, and does so as a function of the units.
#[verifier::external_body]
fn utf16_to_string(units: &Vec<u16>) -> (r: Option<String>)
    ensures
        match r {
            Some(t) => utf16_decoded(units@) == Some(t@),
            None => utf16_decoded(units@) is None,
        },
{
    String::from_utf16(units.as_slice()).ok()
}

#[via_fn]
proof fn spec_us_heap_decreases(s: Seq<u8>) {
}

/// The decoded strings of the `#US` heap bytes `s`, front to back,
/// empty records skipped; `None` when a record is malformed or its
/// payload is not UTF-16.
pub open spec fn spec_us_heap(s: Seq<u8>) -> Option<Seq<Seq<char>>>
    decreases s.len(),
    via spec_us_heap_decreases
{
    if s.len() <= 1 {
        Some(seq![])
    } else if !blob_ok(s) {
        None
    } else {
        let payload = spec_blob_payload(s);
        let rest = spec_us_heap(s.skip(spec_blob_total(s)));
        if payload.len() == 0 {
            rest
        } else {
            match utf16_decoded(spec_wide(payload)) {
                Some(cs) => match rest {
                    Some(r) => Some(seq![cs] + r),
                    None => None,
                },
                None => None,
            }
        }
    }
}

/// Decode the `#US` heap: length-prefixed UTF-16LE records, each with
/// a trailing flag byte that is kept out of the text. Empty records
/// are skipped; an empty string always leads the result, as the heap
/// has no record for it.
#[verifier::loop_isolation(false)]
pub fn parse_user_strings(data: &[u8]) -> (r: Result<Vec<String>, ApsError>)
    ensures
        match r {
            Ok(v) => {
                &&& spec_us_heap(data@) matches Some(us)
                &&& v@.len() == 1 + spec_us_heap(data@)->Some_0.len()
                &&& v@[0]@ == Seq::<char>::empty()
                &&& forall|j: int|
                    1 <= j < v@.len() ==> (#[trigger] v@[j])@ == spec_us_heap(data@)->Some_0[j - 1]
            },
            Err(_) => spec_us_heap(data@) is None,
        },
{
    let ghost s = data@;
    let mut strings: Vec<String> = Vec::new();
    strings.push(String::new());
    let ghost mut done: Seq<Seq<char>> = Seq::empty();
    let mut i: usize = 0;

    proof {
        assert(s.skip(0) =~= s);
    }
    while data.len() - i > 1
        invariant
            i <= s.len(),
            strings@.len() == 1 + done.len(),
            strings@[0]@ == Seq::<char>::empty(),
            forall|j: int| 1 <= j < strings@.len() ==> (#[trigger] strings@[j])@ == done[j - 1],
            match spec_us_heap(s.skip(i as int)) {
                Some(rest) => spec_us_heap(s) == Some(done + rest),
                None => spec_us_heap(s) is None,
            },
        decreases s.len() - i,
    {
        let tail = vstd::slice::slice_subrange(data, i, data.len());
        proof {
            assert(tail@ =~= s.skip(i as int));
        }
        let (payload, consumed) = parse_blob(tail)?;
        proof {
            assert(s.skip(i as int).skip(consumed as int) =~= s.skip(i + consumed));
        }
        if payload.len() > 0 {
            let m = payload.len() - 1;
            let mut units: Vec<u16> = Vec::new();
            let mut k: usize = 0;
            while k < m / 2
                invariant
                    0 <= k <= m / 2,
                    m < payload@.len(),
                    units@.len() == k,
                    forall|t: int| 0 <= t < k ==> units@[t] == u16_at(payload@, 2 * t),
                decreases m / 2 - k,
            {
                proof {
                    vstd::arithmetic::div_mod::lemma_fundamental_div_mod(m as int, 2);
                    vstd::arithmetic::div_mod::lemma_mod_bound(m as int, 2);
                }
                let lo = payload[2 * k];
                let hi = payload[2 * k + 1];
                units.push(lo as u16 + 0x100 * (hi as u16));
                k = k + 1;
            }
            proof {
                assert(units@ =~= spec_wide(payload@));
            }
            let decoded = match utf16_to_string(&units) {
                Some(t) => t,
                None => {
                    return Err(
                        ApsError::General("User string is not a valid utf-16 string."),
                    );
                },
            };
            proof {
                done = done + seq![decoded@];
            }
            strings.push(decoded);
        }
        i = i + consumed;
    }
    proof {
        assert(spec_us_heap(s.skip(i as int)) == Some(Seq::<Seq<char>>::empty()));
        assert(done + Seq::<Seq<char>>::empty() =~= done);
    }
    Ok(strings)
}

} // verus!
