//! Typed little-endian reads from a byte slice.
//!
//! Fixed-width primitives can be read either at an explicit offset
//! (non-advancing) or at a cursor position that advances by the
//! primitive's width. The only failure is `NotEnoughData`, raised when
//! the bytes remaining at the offset are fewer than the width.

use vstd::prelude::*;

verus! {

/// Failure of a raw read: the slice holds fewer bytes than requested.
#[derive(Debug, Clone, Copy, PartialEq, Eq, Structural)]
pub enum Error {
    NotEnoughData,
}

/// Little-endian value of the two bytes of `s` at `off`.
pub open spec fn le16(s: Seq<u8>, off: int) -> int {
    s[off] + 0x100 * s[off + 1]
}

/// Little-endian value of the four bytes of `s` at `off`.
pub open spec fn le32(s: Seq<u8>, off: int) -> int {
    le16(s, off) + 0x1_0000 * le16(s, off + 2)
}

/// Little-endian value of the eight bytes of `s` at `off`.
pub open spec fn le64(s: Seq<u8>, off: int) -> int {
    le32(s, off) + 0x1_0000_0000 * le32(s, off + 4)
}

/// Little-endian value of the sixteen bytes of `s` at `off`.
pub open spec fn le128(s: Seq<u8>, off: int) -> int {
    le64(s, off) + 0x1_0000_0000_0000_0000 * le64(s, off + 8)
}

/// The `u16` encoded little-endian at `off`.
pub open spec fn u16_at(s: Seq<u8>, off: int) -> u16 {
    le16(s, off) as u16
}

/// The `u32` encoded little-endian at `off`.
pub open spec fn u32_at(s: Seq<u8>, off: int) -> u32 {
    le32(s, off) as u32
}

/// The `u64` encoded little-endian at `off`.
pub open spec fn u64_at(s: Seq<u8>, off: int) -> u64 {
    le64(s, off) as u64
}

/// A primitive with a fixed encoded width.
pub trait PartSize {
    /// Width of the encoding in bytes.
    spec fn spec_size() -> int;

    /// The width is a small positive constant.
    proof fn lemma_size_bounds()
        ensures
            1 <= Self::spec_size() <= 16,
    ;

    /// Executable mirror of [`Self::spec_size`].
    fn size() -> (r: usize)
        ensures
            r as int == Self::spec_size(),
    ;
}

/// A primitive readable from the front of a slice that is long enough.
pub trait Part: PartSize + Sized {
    /// The value encoded little-endian at `off` in `s`.
    spec fn spec_read(s: Seq<u8>, off: int) -> Self;

    /// Reading the front of the subrange at `off` equals reading at `off`.
    proof fn lemma_read_subrange(s: Seq<u8>, off: int)
        requires
            0 <= off,
            off + Self::spec_size() <= s.len(),
        ensures
            Self::spec_read(s.subrange(off, s.len() as int), 0) == Self::spec_read(s, off),
    ;

    fn read(src: &[u8]) -> (r: Self)
        requires
            Self::spec_size() <= src@.len(),
        ensures
            r == Self::spec_read(src@, 0),
    ;
}

/// A primitive readable from a slice of any length, with failure.
pub trait TryPart: Part {
    fn try_read(src: &[u8]) -> (r: Result<Self, Error>)
        ensures
            Self::spec_size() <= src@.len() ==> r == Ok::<Self, Error>(
                Self::spec_read(src@, 0),
            ),
            Self::spec_size() > src@.len() ==> r == Err::<Self, Error>(Error::NotEnoughData),
    ;
}

impl PartSize for u8 {
    open spec fn spec_size() -> int {
        1
    }

    proof fn lemma_size_bounds() {
    }

    fn size() -> usize {
        1
    }
}

impl Part for u8 {
    open spec fn spec_read(s: Seq<u8>, off: int) -> u8 {
        s[off]
    }

    proof fn lemma_read_subrange(s: Seq<u8>, off: int) {
    }

    fn read(src: &[u8]) -> u8 {
        src[0]
    }
}

impl TryPart for u8 {
    fn try_read(src: &[u8]) -> Result<u8, Error> {
        if src.len() < 1 {
            Err(Error::NotEnoughData)
        } else {
            Ok(Self::read(src))
        }
    }
}

impl PartSize for u16 {
    open spec fn spec_size() -> int {
        2
    }

    proof fn lemma_size_bounds() {
    }

    fn size() -> usize {
        2
    }
}

impl Part for u16 {
    open spec fn spec_read(s: Seq<u8>, off: int) -> u16 {
        le16(s, off) as u16
    }

    proof fn lemma_read_subrange(s: Seq<u8>, off: int) {
    }

    fn read(src: &[u8]) -> u16 {
        (src[0] as u16) + 0x100 * (src[1] as u16)
    }
}

impl TryPart for u16 {
    fn try_read(src: &[u8]) -> Result<u16, Error> {
        if src.len() < 2 {
            Err(Error::NotEnoughData)
        } else {
            Ok(Self::read(src))
        }
    }
}

impl PartSize for u32 {
    open spec fn spec_size() -> int {
        4
    }

    proof fn lemma_size_bounds() {
    }

    fn size() -> usize {
        4
    }
}

impl Part for u32 {
    open spec fn spec_read(s: Seq<u8>, off: int) -> u32 {
        le32(s, off) as u32
    }

    proof fn lemma_read_subrange(s: Seq<u8>, off: int) {
    }

    fn read(src: &[u8]) -> u32 {
        (src[0] as u32) + 0x100 * (src[1] as u32) + 0x1_0000 * (src[2] as u32) + 0x100_0000 * (
        src[3] as u32)
    }
}

impl TryPart for u32 {
    fn try_read(src: &[u8]) -> Result<u32, Error> {
        if src.len() < 4 {
            Err(Error::NotEnoughData)
        } else {
            Ok(Self::read(src))
        }
    }
}

impl PartSize for u64 {
    open spec fn spec_size() -> int {
        8
    }

    proof fn lemma_size_bounds() {
    }

    fn size() -> usize {
        8
    }
}

impl Part for u64 {
    open spec fn spec_read(s: Seq<u8>, off: int) -> u64 {
        le64(s, off) as u64
    }

    proof fn lemma_read_subrange(s: Seq<u8>, off: int) {
    }

    fn read(src: &[u8]) -> u64 {
        let lo = u32::read(src) as u64;
        let hi = u32::read(slice_tail(src, 4)) as u64;
        proof {
            u32::lemma_read_subrange(src@, 4);
        }
        lo + 0x1_0000_0000 * hi
    }
}

impl TryPart for u64 {
    fn try_read(src: &[u8]) -> Result<u64, Error> {
        if src.len() < 8 {
            Err(Error::NotEnoughData)
        } else {
            Ok(Self::read(src))
        }
    }
}

impl PartSize for u128 {
    open spec fn spec_size() -> int {
        16
    }

    proof fn lemma_size_bounds() {
    }

    fn size() -> usize {
        16
    }
}

impl Part for u128 {
    open spec fn spec_read(s: Seq<u8>, off: int) -> u128 {
        le128(s, off) as u128
    }

    proof fn lemma_read_subrange(s: Seq<u8>, off: int) {
    }

    fn read(src: &[u8]) -> u128 {
        let lo = u64::read(src) as u128;
        let hi = u64::read(slice_tail(src, 8)) as u128;
        proof {
            u64::lemma_read_subrange(src@, 8);
        }
        lo + 0x1_0000_0000_0000_0000 * hi
    }
}

impl TryPart for u128 {
    fn try_read(src: &[u8]) -> Result<u128, Error> {
        if src.len() < 16 {
            Err(Error::NotEnoughData)
        } else {
            Ok(Self::read(src))
        }
    }
}

impl PartSize for i8 {
    open spec fn spec_size() -> int {
        1
    }

    proof fn lemma_size_bounds() {
    }

    fn size() -> usize {
        1
    }
}

impl Part for i8 {
    open spec fn spec_read(s: Seq<u8>, off: int) -> i8 {
        s[off] as i8
    }

    proof fn lemma_read_subrange(s: Seq<u8>, off: int) {
    }

    fn read(src: &[u8]) -> i8 {
        src[0] as i8
    }
}

impl TryPart for i8 {
    fn try_read(src: &[u8]) -> Result<i8, Error> {
        if src.len() < 1 {
            Err(Error::NotEnoughData)
        } else {
            Ok(Self::read(src))
        }
    }
}

impl PartSize for i16 {
    open spec fn spec_size() -> int {
        2
    }

    proof fn lemma_size_bounds() {
    }

    fn size() -> usize {
        2
    }
}

impl Part for i16 {
    open spec fn spec_read(s: Seq<u8>, off: int) -> i16 {
        (le16(s, off) as u16) as i16
    }

    proof fn lemma_read_subrange(s: Seq<u8>, off: int) {
    }

    fn read(src: &[u8]) -> i16 {
        u16::read(src) as i16
    }
}

impl TryPart for i16 {
    fn try_read(src: &[u8]) -> Result<i16, Error> {
        if src.len() < 2 {
            Err(Error::NotEnoughData)
        } else {
            Ok(Self::read(src))
        }
    }
}

impl PartSize for i32 {
    open spec fn spec_size() -> int {
        4
    }

    proof fn lemma_size_bounds() {
    }

    fn size() -> usize {
        4
    }
}

impl Part for i32 {
    open spec fn spec_read(s: Seq<u8>, off: int) -> i32 {
        (le32(s, off) as u32) as i32
    }

    proof fn lemma_read_subrange(s: Seq<u8>, off: int) {
    }

    fn read(src: &[u8]) -> i32 {
        u32::read(src) as i32
    }
}

impl TryPart for i32 {
    fn try_read(src: &[u8]) -> Result<i32, Error> {
        if src.len() < 4 {
            Err(Error::NotEnoughData)
        } else {
            Ok(Self::read(src))
        }
    }
}

impl PartSize for i64 {
    open spec fn spec_size() -> int {
        8
    }

    proof fn lemma_size_bounds() {
    }

    fn size() -> usize {
        8
    }
}

impl Part for i64 {
    open spec fn spec_read(s: Seq<u8>, off: int) -> i64 {
        (le64(s, off) as u64) as i64
    }

    proof fn lemma_read_subrange(s: Seq<u8>, off: int) {
    }

    fn read(src: &[u8]) -> i64 {
        u64::read(src) as i64
    }
}

impl TryPart for i64 {
    fn try_read(src: &[u8]) -> Result<i64, Error> {
        if src.len() < 8 {
            Err(Error::NotEnoughData)
        } else {
            Ok(Self::read(src))
        }
    }
}

impl PartSize for i128 {
    open spec fn spec_size() -> int {
        16
    }

    proof fn lemma_size_bounds() {
    }

    fn size() -> usize {
        16
    }
}

impl Part for i128 {
    open spec fn spec_read(s: Seq<u8>, off: int) -> i128 {
        (le128(s, off) as u128) as i128
    }

    proof fn lemma_read_subrange(s: Seq<u8>, off: int) {
    }

    fn read(src: &[u8]) -> i128 {
        u128::read(src) as i128
    }
}

impl TryPart for i128 {
    fn try_read(src: &[u8]) -> Result<i128, Error> {
        if src.len() < 16 {
            Err(Error::NotEnoughData)
        } else {
            Ok(Self::read(src))
        }
    }
}

/// The bytes of `src` from `from` to the end.
fn slice_tail<'a>(src: &'a [u8], from: usize) -> (r: &'a [u8])
    requires
        from <= src@.len(),
    ensures
        r@ == src@.subrange(from as int, src@.len() as int),
{
    vstd::slice::slice_subrange(src, from, src.len())
}

/// Reads of typed parts out of a byte slice, at explicit or advancing offsets.
pub trait Reading {
    spec fn bytes(&self) -> Seq<u8>;

    /// Read a `T` at `offset` without consuming it.
    fn read_at<T: TryPart>(&self, offset: usize) -> (r: Result<T, Error>)
        ensures
            offset + T::spec_size() <= self.bytes().len() ==> r == Ok::<T, Error>(
                T::spec_read(self.bytes(), offset as int),
            ),
            offset + T::spec_size() > self.bytes().len() ==> r == Err::<T, Error>(
                Error::NotEnoughData,
            ),
    ;

    /// Read a `T` at `*offset` and advance the cursor by its width.
    fn read<T: TryPart>(&self, offset: &mut usize) -> (r: Result<T, Error>)
        ensures
            old(offset) + T::spec_size() <= self.bytes().len() ==> r == Ok::<T, Error>(
                T::spec_read(self.bytes(), *old(offset) as int),
            ) && *final(offset) == *old(offset) + T::spec_size(),
            old(offset) + T::spec_size() > self.bytes().len() ==> r == Err::<T, Error>(
                Error::NotEnoughData,
            ) && *final(offset) == *old(offset),
    ;
}

impl Reading for [u8] {
    open spec fn bytes(&self) -> Seq<u8> {
        self@
    }

    fn read_at<T: TryPart>(&self, offset: usize) -> (r: Result<T, Error>) {
        proof {
            T::lemma_size_bounds();
        }
        if offset > self.len() {
            proof {
                assert(offset + T::spec_size() > self.bytes().len());
            }
            return Err(Error::NotEnoughData);
        }
        let tail = slice_tail(self, offset);
        proof {
            assert(tail@.len() == self@.len() - offset);
            if offset + T::spec_size() <= self@.len() {
                T::lemma_read_subrange(self@, offset as int);
                assert(T::spec_read(tail@, 0) == T::spec_read(self@, offset as int));
            }
        }
        T::try_read(tail)
    }

    fn read<T: TryPart>(&self, offset: &mut usize) -> (r: Result<T, Error>) {
        let n = self.len();
        proof {
            T::lemma_size_bounds();
            assert(n == self.bytes().len());
        }
        match self.read_at::<T>(*offset) {
            Ok(x) => {
                proof {
                    assert(*offset + T::spec_size() <= n);
                }
                *offset = *offset + T::size();
                Ok(x)
            },
            Err(e) => Err(e),
        }
    }
}

} // verus!
