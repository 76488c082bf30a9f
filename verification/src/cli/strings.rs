//! The `#Strings` heap: NUL-separated UTF-8 strings, led by a
//! mandatory NUL byte, so the first string is always empty.

use vstd::prelude::*;
use vstd::utf8::{decode_utf8, valid_utf8};

use crate::error::ApsError;

verus! {

/// Position of the first NUL byte of `s`, or `-1` when there is none.
pub open spec fn nul_pos(s: Seq<u8>) -> int
    decreases s.len(),
{
    if s.len() == 0 {
        -1
    } else if s[0] == 0 {
        0
    } else {
        let p = nul_pos(s.skip(1));
        if p < 0 {
            -1
        } else {
            p + 1
        }
    }
}

/// A NUL position is always inside the sequence.
pub proof fn lemma_nul_pos_range(s: Seq<u8>)
    ensures
        -1 <= nul_pos(s) < s.len(),
    decreases s.len(),
{
    if s.len() > 0 && s[0] != 0 {
        lemma_nul_pos_range(s.skip(1));
    }
}

#[via_fn]
proof fn spec_split_nul_decreases(s: Seq<u8>) {
    lemma_nul_pos_range(s);
}

/// `s` split at its NUL bytes, which are dropped; one part more than
/// there are NULs, so trailing and adjacent NULs yield empty parts.
pub open spec fn spec_split_nul(s: Seq<u8>) -> Seq<Seq<u8>>
    decreases s.len(),
    via spec_split_nul_decreases
{
    let p = nul_pos(s);
    if p < 0 {
        seq![s]
    } else {
        seq![s.take(p)] + spec_split_nul(s.skip(p + 1))
    }
}

/// The first NUL of `s` is at `i`; or `s` has none and `i` is its length.
pub proof fn lemma_nul_pos(s: Seq<u8>, i: int)
    requires
        0 <= i <= s.len(),
        forall|k: int| 0 <= k < i ==> s[k] != 0,
        i < s.len() ==> s[i] == 0,
    ensures
        i < s.len() ==> nul_pos(s) == i,
        i == s.len() ==> nul_pos(s) == -1,
    decreases i,
{
    if i == 0 {
        if s.len() > 0 {
        }
    } else {
        assert(s[0] != 0);
        lemma_nul_pos(s.skip(1), i - 1);
    }
}

/// Relies on `str::from_utf8` (with the `&str` turned into an owned
/// `String`): it succeeds exactly on valid UTF-8 input and yields the
/// characters that vstd's UTF-8 model assigns to the bytes.
#[verifier::external_body]
pub(crate) fn utf8_to_string(bytes: &[u8]) -> (r: Option<String>)
    ensures
        match r {
            Some(t) => valid_utf8(bytes@) && t@ == decode_utf8(bytes@),
            None => !valid_utf8(bytes@),
        },
{
    match core::str::from_utf8(bytes) {
        Ok(t) => Some(t.to_owned()),
        Err(_) => None,
    }
}

/// Whether every NUL-separated part of the heap is valid UTF-8;
/// exactly when this holds, `parse_strings` succeeds on a heap led by
/// its mandatory NUL byte.
pub open spec fn strings_heap_decodable(s: Seq<u8>) -> bool {
    forall|j: int| 0 <= j < spec_split_nul(s).len() ==> valid_utf8(#[trigger] spec_split_nul(s)[j])
}

/// Decode the `#Strings` heap: NUL-separated UTF-8 strings, led by a
/// mandatory NUL byte. Returns one string per part of the whole heap,
/// in heap order; the leading NUL makes the first part, and with it
/// the first returned string, the empty one.
#[verifier::loop_isolation(false)]
pub fn parse_strings(data: &[u8]) -> (r: Result<Vec<String>, ApsError>)
    ensures
        match r {
            Ok(v) => {
                let segs = spec_split_nul(data@);
                &&& data@.len() >= 1
                &&& data@[0] == 0
                &&& strings_heap_decodable(data@)
                &&& v@.len() == segs.len()
                &&& v@[0]@ == Seq::<char>::empty()
                &&& forall|j: int| 0 <= j < segs.len() ==> (#[trigger] v@[j])@ == decode_utf8(segs[j])
            },
            Err(_) => !(data@.len() >= 1 && data@[0] == 0 && strings_heap_decodable(data@)),
        },
{
    if data.len() < 1 || data[0] != 0 {
        return Err(ApsError::General("Strings heap is invalid."));
    }

    let body = vstd::slice::slice_subrange(data, 1, data.len());
    let n = body.len();
    let ghost bs = body@;
    let ghost segs = spec_split_nul(data@);
    let ghost body_segs = spec_split_nul(bs);
    proof {
        assert(bs =~= data@.skip(1));
        // The leading NUL puts an empty part in front of the parts of
        // the body.
        assert(data@.take(0) =~= Seq::<u8>::empty());
        assert(segs =~= seq![Seq::<u8>::empty()] + body_segs);
        assert(valid_utf8(Seq::<u8>::empty()));
        assert(decode_utf8(Seq::<u8>::empty()) =~= Seq::<char>::empty());
    }

    let mut strings: Vec<String> = Vec::new();
    strings.push(String::new());
    let ghost mut done: Seq<Seq<u8>> = Seq::empty();
    let mut start: usize = 0;

    proof {
        assert(bs.skip(0) =~= bs);
    }
    while start <= n
        invariant
            start <= n + 1,
            start <= n ==> body_segs == done + spec_split_nul(bs.skip(start as int)),
            start == n + 1 ==> body_segs == done,
            strings@.len() == 1 + done.len(),
            strings@[0]@ == Seq::<char>::empty(),
            forall|j: int|
                0 <= j < done.len() ==> valid_utf8(#[trigger] done[j]) && strings@[j + 1]@
                    == decode_utf8(done[j]),
        decreases n + 1 - start,
    {
        let mut i: usize = start;
        while i < n && body[i] != 0
            invariant
                start <= i <= n,
                forall|k: int| start <= k < i ==> bs[k] != 0,
            decreases n - i,
        {
            i = i + 1;
        }

        let ghost rest = bs.skip(start as int);
        proof {
            assert forall|k: int| 0 <= k < i - start implies rest[k] != 0 by {
                assert(rest[k] == bs[k + start]);
            }
            if i < n {
                assert(rest[i - start] == bs[i as int]);
            }
            lemma_nul_pos(rest, i - start);
        }

        let seg = vstd::slice::slice_subrange(body, start, i);
        proof {
            assert(seg@ =~= rest.take(i - start));
        }
        let decoded = match utf8_to_string(seg) {
            Some(t) => t,
            None => {
                proof {
                    if i < n {
                        assert(spec_split_nul(rest)[0] == seg@);
                    } else {
                        assert(rest =~= rest.take(i - start));
                        assert(spec_split_nul(rest)[0] == seg@);
                    }
                    assert(body_segs[done.len() as int] == seg@);
                    assert(segs[done.len() as int + 1] == seg@);
                    assert(!valid_utf8(segs[done.len() as int + 1]));
                }
                return Err(ApsError::General("Found a string that is not a valid utf-8 string."));
            },
        };
        strings.push(decoded);
        proof {
            if i < n {
                assert(spec_split_nul(rest) == seq![rest.take(i - start)] + spec_split_nul(
                    rest.skip(i - start + 1),
                ));
                assert(rest.skip(i - start + 1) =~= bs.skip(i + 1));
                done = done + seq![seg@];
                assert(body_segs =~= done + spec_split_nul(bs.skip(i + 1)));
            } else {
                assert(rest =~= rest.take(i - start));
                assert(spec_split_nul(rest) =~= seq![seg@]);
                done = done + seq![seg@];
                assert(body_segs =~= done);
            }
        }
        start = i + 1;
    }

    proof {
        assert forall|j: int|
            0 <= j < segs.len() implies valid_utf8(#[trigger] segs[j]) && strings@[j]@
            == decode_utf8(segs[j]) by {
            if j == 0 {
                assert(segs[0] =~= Seq::<u8>::empty());
            } else {
                assert(segs[j] == done[j - 1]);
            }
        }
    }
    Ok(strings)
}

} // verus!
