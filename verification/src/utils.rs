//! Small helpers shared by the decoders.

use vstd::prelude::*;

use crate::buf::{le16, le32, le64, Error, Reading};
use crate::error::ApsError;

verus! {

/// `x` rounded up to the next multiple of `n`.
pub open spec fn spec_align_up(x: int, n: int) -> int {
    ((x + n - 1) / n) * n
}

/// Round `x` up to the next multiple of `n` (in this crate, a power
/// of two).
pub fn align_up(x: usize, n: usize) -> (r: usize)
    requires
        n > 0,
        x + n - 1 <= usize::MAX,
    ensures
        r == spec_align_up(x as int, n as int),
        r % n == 0,
        x <= r < x + n,
{
    let q = (x + (n - 1)) / n;
    proof {
        let s: int = x as int + n as int - 1;
        let ni: int = n as int;
        let qi: int = q as int;
        vstd::arithmetic::div_mod::lemma_fundamental_div_mod(s, ni);
        vstd::arithmetic::div_mod::lemma_mod_bound(s, ni);
        vstd::arithmetic::div_mod::lemma_mod_multiples_basic(qi, ni);
        assert(qi == s / ni);
        assert(qi * ni == ni * qi) by (nonlinear_arith);
        assert(x as int <= qi * ni <= s);
    }
    q * n
}

/// Whether the host has 64-bit pointers.
pub fn os_is_64() -> (r: bool)
    ensures
        r == (vstd::layout::size_of::<usize>() == 8),
{
    core::mem::size_of::<usize>() == 8
}

/// Read a byte at `*offset`, advancing the cursor.
pub(crate) fn read_u8(data: &[u8], offset: &mut usize) -> (r: Result<u8, ApsError>)
    ensures
        old(offset) + 1 <= data@.len() ==> r == Ok::<u8, ApsError>(data@[*old(offset) as int])
            && *final(offset) == *old(offset) + 1,
        old(offset) + 1 > data@.len() ==> r == Err::<u8, ApsError>(
            ApsError::Parse(Error::NotEnoughData),
        ) && *final(offset) == *old(offset),
{
    match data.read::<u8>(offset) {
        Ok(v) => Ok(v),
        Err(e) => Err(ApsError::Parse(e)),
    }
}

/// Read a little-endian `u16` at `*offset`, advancing the cursor.
pub(crate) fn read_u16(data: &[u8], offset: &mut usize) -> (r: Result<u16, ApsError>)
    ensures
        old(offset) + 2 <= data@.len() ==> r == Ok::<u16, ApsError>(
            le16(data@, *old(offset) as int) as u16,
        ) && *final(offset) == *old(offset) + 2,
        old(offset) + 2 > data@.len() ==> r == Err::<u16, ApsError>(
            ApsError::Parse(Error::NotEnoughData),
        ) && *final(offset) == *old(offset),
{
    match data.read::<u16>(offset) {
        Ok(v) => Ok(v),
        Err(e) => Err(ApsError::Parse(e)),
    }
}

/// Read a little-endian `u32` at `*offset`, advancing the cursor.
pub(crate) fn read_u32(data: &[u8], offset: &mut usize) -> (r: Result<u32, ApsError>)
    ensures
        old(offset) + 4 <= data@.len() ==> r == Ok::<u32, ApsError>(
            le32(data@, *old(offset) as int) as u32,
        ) && *final(offset) == *old(offset) + 4,
        old(offset) + 4 > data@.len() ==> r == Err::<u32, ApsError>(
            ApsError::Parse(Error::NotEnoughData),
        ) && *final(offset) == *old(offset),
{
    match data.read::<u32>(offset) {
        Ok(v) => Ok(v),
        Err(e) => Err(ApsError::Parse(e)),
    }
}

/// Read a little-endian `u64` at `*offset`, advancing the cursor.
pub(crate) fn read_u64(data: &[u8], offset: &mut usize) -> (r: Result<u64, ApsError>)
    ensures
        old(offset) + 8 <= data@.len() ==> r == Ok::<u64, ApsError>(
            le64(data@, *old(offset) as int) as u64,
        ) && *final(offset) == *old(offset) + 8,
        old(offset) + 8 > data@.len() ==> r == Err::<u64, ApsError>(
            ApsError::Parse(Error::NotEnoughData),
        ) && *final(offset) == *old(offset),
{
    match data.read::<u64>(offset) {
        Ok(v) => Ok(v),
        Err(e) => Err(ApsError::Parse(e)),
    }
}

/// Advance the cursor by `k` bytes that the caller does not inspect.
pub(crate) fn skip(data: &[u8], offset: &mut usize, k: usize) -> (r: Result<(), ApsError>)
    ensures
        old(offset) + k <= data@.len() ==> r == Ok::<(), ApsError>(()) && *final(offset) == *old(
            offset,
        ) + k,
        old(offset) + k > data@.len() ==> r == Err::<(), ApsError>(
            ApsError::Parse(Error::NotEnoughData),
        ) && *final(offset) == *old(offset),
{
    let n = data.len();
    if *offset <= n && k <= n - *offset {
        *offset = *offset + k;
        Ok(())
    } else {
        Err(ApsError::Parse(Error::NotEnoughData))
    }
}

} // verus!
