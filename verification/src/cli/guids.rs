//! The `#GUID` heap: fixed 16-byte records, so the heap size must be
//! an exact multiple of 16.

use vstd::prelude::*;

use crate::buf::{u16_at, u32_at};
use crate::error::ApsError;
use crate::utils::{read_u16, read_u32, read_u8};

verus! {

/// One 16-byte GUID record.
#[derive(Debug, PartialEq, Eq, Copy, Clone)]
pub struct Guid {
    pub data0: u32,
    pub data1: u16,
    pub data2: u16,
    pub data3: [u8; 8],
}

/// Whether `g` holds the GUID record encoded at `o` in `s`.
pub open spec fn guid_matches(g: Guid, s: Seq<u8>, o: int) -> bool {
    &&& g.data0 == u32_at(s, o)
    &&& g.data1 == u16_at(s, o + 4)
    &&& g.data2 == u16_at(s, o + 6)
    &&& g.data3@ == s.subrange(o + 8, o + 16)
}

impl Guid {
    /// Decode the 16-byte record at `*offset`, advancing the cursor.
    pub fn parse(data: &[u8], offset: &mut usize) -> (r: Result<Guid, ApsError>)
        ensures
            old(offset) + 16 <= data@.len() ==> match r {
                Ok(g) => guid_matches(g, data@, *old(offset) as int) && *final(offset) == *old(
                    offset,
                ) + 16,
                Err(_) => false,
            },
            old(offset) + 16 > data@.len() ==> r is Err,
    {
        let data0 = read_u32(data, offset)?;
        let data1 = read_u16(data, offset)?;
        let data2 = read_u16(data, offset)?;

        let b0 = read_u8(data, offset)?;
        let b1 = read_u8(data, offset)?;
        let b2 = read_u8(data, offset)?;
        let b3 = read_u8(data, offset)?;
        let b4 = read_u8(data, offset)?;
        let b5 = read_u8(data, offset)?;
        let b6 = read_u8(data, offset)?;
        let b7 = read_u8(data, offset)?;
        let data3: [u8; 8] = [b0, b1, b2, b3, b4, b5, b6, b7];

        let g = Guid { data0, data1, data2, data3 };
        proof {
            assert(g.data3@ =~= data@.subrange(*old(offset) + 8, *old(offset) + 16));
        }
        Ok(g)
    }
}

/// Decode the `#GUID` heap into its records.
///
/// Succeeds exactly when the heap size is a multiple of 16, and then
/// returns one record per 16-byte chunk, in heap order.
#[verifier::loop_isolation(false)]
pub fn parse_guids(data: &[u8]) -> (r: Result<Vec<Guid>, ApsError>)
    ensures
        match r {
            Ok(v) => data@.len() % 16 == 0 && 16 * v@.len() == data@.len() && (forall|i: int|
                0 <= i < v@.len() ==> guid_matches(#[trigger] v@[i], data@, 16 * i)),
            Err(_) => data@.len() % 16 != 0,
        },
{
    if data.len() % 16 != 0 {
        return Err(ApsError::General("Invalid #GUID heap size."));
    }

    let n = data.len();
    let mut guids: Vec<Guid> = Vec::new();
    let mut offset: usize = 0;
    while offset < n
        invariant
            offset <= n,
            offset % 16 == 0,
            16 * guids@.len() == offset,
            forall|i: int| 0 <= i < guids@.len() ==> guid_matches(#[trigger] guids@[i], data@, 16 * i),
        decreases n - offset,
    {
        proof {
            vstd::arithmetic::div_mod::lemma_fundamental_div_mod(n as int, 16);
            vstd::arithmetic::div_mod::lemma_fundamental_div_mod(offset as int, 16);
        }
        let g = Guid::parse(data, &mut offset)?;
        guids.push(g);
    }
    Ok(guids)
}

} // verus!
