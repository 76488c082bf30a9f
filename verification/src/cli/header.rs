//! The CLI runtime header (ECMA-335 II.25.3.3) and the `BSJB`
//! metadata root with its stream directory (II.24.2.1).

use vstd::prelude::*;
use vstd::utf8::valid_utf8;

use crate::buf::{u16_at, u32_at, u64_at};
use crate::cli::strings::{nul_pos, utf8_to_string};
use crate::error::ApsError;
use crate::pe;
use crate::utils::{align_up, os_is_64, read_u16, read_u32, read_u64, skip, spec_align_up};

verus! {

// Taken from ECMA II.25.3.3.1

// Shall be one.
pub const COMIMAGE_FLAGS_ILONLY: u32 = 0x00000001;

// Set if the image can only be loaded into a 32-bit process; a host
// with 64-bit native integers shall refuse such an image.
pub const COMIMAGE_FLAGS_32BITREQUIRED: u32 = 0x00000002;

// Shall be zero.
pub const COMIMAGE_FLAGS_NATIVE_ENTRYPOINT: u32 = 0x00000010;

// Should be zero.
pub const COMIMAGE_FLAGS_TRACKDEBUGDATA: u32 = 0x00010000;

/// Magic signature of physical metadata: `BSJB`, little-endian.
pub const METADATA_MAGIC: u32 = 0x424A5342;

/// A stream name, NUL included, occupies at most this many bytes.
pub const METADATA_STREAM_NAME_MAX_LEN: usize = 32;

/// The runtime flags that this host accepts: IL-only, no native
/// entry point, no debug-data tracking, and not 32-bit-required when
/// the host is 64-bit.
pub open spec fn flags_ok(flags: u32) -> bool {
    &&& flags & COMIMAGE_FLAGS_ILONLY != 0
    &&& !(flags & COMIMAGE_FLAGS_32BITREQUIRED != 0 && vstd::layout::size_of::<usize>() == 8)
    &&& flags & COMIMAGE_FLAGS_NATIVE_ENTRYPOINT == 0
    &&& flags & COMIMAGE_FLAGS_TRACKDEBUGDATA == 0
}

/// The four 8-byte fields at `o` (code-manager table, vtable fixups,
/// EAT jumps, managed-native header) are all zero.
pub open spec fn fields_zero(s: Seq<u8>, o: int) -> bool {
    &&& u64_at(s, o) == 0
    &&& u64_at(s, o + 8) == 0
    &&& u64_at(s, o + 16) == 0
    &&& u64_at(s, o + 24) == 0
}

/// Whether `s` opens with a CLI runtime header that this decoder
/// accepts, against the size the PE data directory declared.
pub open spec fn cli_ok(s: Seq<u8>, pe_cli_size: u32) -> bool {
    &&& 56 <= s.len()
    &&& u32_at(s, 0) == pe_cli_size
    &&& flags_ok(u32_at(s, 16))
    &&& fields_zero(s, 24)
}

/// The decoded CLI runtime header: the entry-point token and the
/// location of the physical metadata.
#[derive(Debug, PartialEq, Eq, Structural, Copy, Clone)]
pub struct Header {
    pub ep_token: u32,
    pub metadata_rva: u32,
    pub metadata_size: u32,
}

impl Header {
    /// Decode the CLI runtime header at the front of `data`, which the
    /// PE header's CLI data directory located.
    ///
    /// Succeeds exactly when the declared size matches the directory,
    /// the runtime flags pass `flags_ok`, and the four reserved 8-byte
    /// fields are zero.
    pub fn parse(data: &[u8], pe: &pe::Header) -> (r: Result<Header, ApsError>)
        ensures
            match r {
                Ok(h) => {
                    &&& cli_ok(data@, pe.cli_size)
                    &&& h.metadata_rva == u32_at(data@, 8)
                    &&& h.metadata_size == u32_at(data@, 12)
                    &&& h.ep_token == u32_at(data@, 20)
                },
                Err(_) => !cli_ok(data@, pe.cli_size),
            },
    {
        let mut offset: usize = 0;

        let size = read_u32(data, &mut offset)?;
        if size != pe.cli_size {
            return Err(ApsError::General("CLI header specifies wrong size."));
        }

        // Runtime version, major and minor; values carry no constraint.
        let _rt_major = read_u16(data, &mut offset)?;
        let _rt_minor = read_u16(data, &mut offset)?;

        let metadata_rva = read_u32(data, &mut offset)?;
        let metadata_size = read_u32(data, &mut offset)?;

        Header::check_flags(data, &mut offset)?;

        let ep_token = read_u32(data, &mut offset)?;

        Header::check_fields(data, &mut offset)?;

        Ok(Header { ep_token, metadata_rva, metadata_size })
    }

    /// Read the runtime flags at `*offset` and hold them to `flags_ok`.
    pub fn check_flags(data: &[u8], offset: &mut usize) -> (r: Result<(), ApsError>)
        ensures
            match r {
                Ok(_) => old(offset) + 4 <= data@.len() && flags_ok(
                    u32_at(data@, *old(offset) as int),
                ) && *final(offset) == *old(offset) + 4,
                Err(_) => !(old(offset) + 4 <= data@.len() && flags_ok(
                    u32_at(data@, *old(offset) as int),
                )),
            },
    {
        let flags = read_u32(data, offset)?;
        if flags & COMIMAGE_FLAGS_ILONLY == 0 {
            return Err(ApsError::General("Assembly contains not only IL."));
        }
        if (flags & COMIMAGE_FLAGS_32BITREQUIRED != 0) && os_is_64() {
            return Err(ApsError::General("Assembly can be loaded only in 32-bit process."));
        }
        if flags & COMIMAGE_FLAGS_NATIVE_ENTRYPOINT != 0 {
            return Err(ApsError::General("Assembly has native entry-point."));
        }
        if flags & COMIMAGE_FLAGS_TRACKDEBUGDATA != 0 {
            return Err(ApsError::General("Assembly requires debug data tracking."));
        }
        Ok(())
    }

    /// Read the four reserved 8-byte fields at `*offset` and demand
    /// that each is zero.
    pub fn check_fields(data: &[u8], offset: &mut usize) -> (r: Result<(), ApsError>)
        ensures
            match r {
                Ok(_) => old(offset) + 32 <= data@.len() && fields_zero(
                    data@,
                    *old(offset) as int,
                ) && *final(offset) == *old(offset) + 32,
                Err(_) => !(old(offset) + 32 <= data@.len() && fields_zero(
                    data@,
                    *old(offset) as int,
                )),
            },
    {
        let cm_table = read_u64(data, offset)?;
        if cm_table != 0 {
            return Err(ApsError::General("Assembly has code manager table."));
        }

        let vtable_fixups = read_u64(data, offset)?;
        if vtable_fixups != 0 {
            return Err(ApsError::General("Assembly has VTable fixups."));
        }

        let eat_jumps = read_u64(data, offset)?;
        if eat_jumps != 0 {
            return Err(ApsError::General("Assembly has export address table jumps."));
        }

        let managed_native_header = read_u64(data, offset)?;
        if managed_native_header != 0 {
            return Err(ApsError::General("Assembly has managed native header."));
        }

        Ok(())
    }
}

/// The streams of the metadata root, each an extracted copy of its
/// byte range; a stream that the directory does not name is `None`.
#[derive(Debug)]
pub struct Metadata {
    pub logical_tables: Option<Vec<u8>>,
    pub strings: Option<Vec<u8>>,
    pub user_strings: Option<Vec<u8>>,
    pub blobs: Option<Vec<u8>>,
    pub guids: Option<Vec<u8>>,
}

/// Mathematical image of [`Metadata`]: the same five slots over byte
/// sequences.
pub ghost struct MetadataView {
    pub logical_tables: Option<Seq<u8>>,
    pub strings: Option<Seq<u8>>,
    pub user_strings: Option<Seq<u8>>,
    pub blobs: Option<Seq<u8>>,
    pub guids: Option<Seq<u8>>,
}

impl View for Metadata {
    type V = MetadataView;

    open spec fn view(&self) -> MetadataView {
        MetadataView {
            logical_tables: match self.logical_tables {
                Some(v) => Some(v@),
                None => None,
            },
            strings: match self.strings {
                Some(v) => Some(v@),
                None => None,
            },
            user_strings: match self.user_strings {
                Some(v) => Some(v@),
                None => None,
            },
            blobs: match self.blobs {
                Some(v) => Some(v@),
                None => None,
            },
            guids: match self.guids {
                Some(v) => Some(v@),
                None => None,
            },
        }
    }
}

/// The empty stream directory: all five slots unfilled.
pub open spec fn no_streams() -> MetadataView {
    MetadataView {
        logical_tables: None,
        strings: None,
        user_strings: None,
        blobs: None,
        guids: None,
    }
}

/// The canonical stream names, as byte sequences.
pub open spec fn name_tables() -> Seq<u8> {
    seq![0x23u8, 0x7eu8]
}

pub open spec fn name_strings() -> Seq<u8> {
    seq![0x23u8, 0x53u8, 0x74u8, 0x72u8, 0x69u8, 0x6eu8, 0x67u8, 0x73u8]
}

pub open spec fn name_user_strings() -> Seq<u8> {
    seq![0x23u8, 0x55u8, 0x53u8]
}

pub open spec fn name_guids() -> Seq<u8> {
    seq![0x23u8, 0x47u8, 0x55u8, 0x49u8, 0x44u8]
}

pub open spec fn name_blobs() -> Seq<u8> {
    seq![0x23u8, 0x42u8, 0x6cu8, 0x6fu8, 0x62u8]
}

/// `acc` with the stream named `name` holding `content`; `None` for a
/// name outside the five known ones.
pub open spec fn fill_stream(acc: MetadataView, name: Seq<u8>, content: Seq<u8>) -> Option<
    MetadataView,
> {
    if name == name_tables() {
        Some(MetadataView { logical_tables: Some(content), ..acc })
    } else if name == name_strings() {
        Some(MetadataView { strings: Some(content), ..acc })
    } else if name == name_user_strings() {
        Some(MetadataView { user_strings: Some(content), ..acc })
    } else if name == name_guids() {
        Some(MetadataView { guids: Some(content), ..acc })
    } else if name == name_blobs() {
        Some(MetadataView { blobs: Some(content), ..acc })
    } else {
        None
    }
}

/// The end of the window in which a stream name starting at `no` may
/// lie: 32 bytes, or less at the end of the root.
pub open spec fn name_window_end(s: Seq<u8>, no: int) -> int {
    if no + METADATA_STREAM_NAME_MAX_LEN <= s.len() {
        no + METADATA_STREAM_NAME_MAX_LEN
    } else {
        s.len() as int
    }
}

/// Fold of `k` stream-directory entries of `s` starting at `o` over
/// the slots `acc`: each entry is an offset, a size, and an aligned
/// NUL-terminated name. `None` when an entry is truncated, a name has
/// no NUL within its window, a stream range escapes the root, or a
/// name is unknown.
pub open spec fn spec_streams(s: Seq<u8>, o: int, k: int, acc: MetadataView) -> Option<MetadataView>
    decreases k,
{
    if k <= 0 {
        Some(acc)
    } else if o + 8 > s.len() {
        None
    } else {
        let so = u32_at(s, o) as int;
        let sz = u32_at(s, o + 4) as int;
        let no = o + 8;
        let p = nul_pos(s.subrange(no, name_window_end(s, no)));
        if p < 0 {
            None
        } else if so + sz > s.len() {
            None
        } else if no + spec_align_up(p + 1, 4) > s.len() {
            None
        } else {
            match fill_stream(acc, s.subrange(no, no + p), s.subrange(so, so + sz)) {
                Some(acc2) => spec_streams(s, no + spec_align_up(p + 1, 4), k - 1, acc2),
                None => None,
            }
        }
    }
}

/// Whether the metadata root prologue of `s` passes: `BSJB` magic, a
/// version string of at most 255 bytes of valid UTF-8.
pub open spec fn md_root_ok(s: Seq<u8>) -> bool {
    &&& 16 <= s.len()
    &&& u32_at(s, 0) == METADATA_MAGIC
    &&& u32_at(s, 12) <= 255
    &&& 16 + u32_at(s, 12) <= s.len()
    &&& valid_utf8(s.subrange(16, 16 + u32_at(s, 12) as int))
    &&& 16 + spec_align_up(u32_at(s, 12) as int, 4) + 4 <= s.len()
}

/// The streams of the metadata root `s`; `None` exactly when `parse`
/// rejects it.
pub open spec fn spec_metadata(s: Seq<u8>) -> Option<MetadataView> {
    if !md_root_ok(s) {
        None
    } else {
        let dir = 16 + spec_align_up(u32_at(s, 12) as int, 4) + 4;
        spec_streams(s, dir, u16_at(s, dir - 2) as int, no_streams())
    }
}

impl Metadata {
    /// Decode the metadata root: magic, version string, then the
    /// stream directory, mapping each named stream to its bytes.
    #[verifier::loop_isolation(false)]
    #[verifier::rlimit(100)]
    pub fn parse(data: &[u8]) -> (r: Result<Metadata, ApsError>)
        ensures
            match r {
                Ok(m) => spec_metadata(data@) == Some(m@),
                Err(_) => spec_metadata(data@) is None,
            },
    {
        let ghost s = data@;
        let mut offset: usize = 0;

        let magic = read_u32(data, &mut offset)?;
        if magic != METADATA_MAGIC {
            return Err(ApsError::General("Metadata signature is wrong."));
        }

        skip(data, &mut offset, 8)?;

        let len_version = read_u32(data, &mut offset)?;
        if len_version > 255 {
            return Err(ApsError::General("Metadata version length is incorrect."));
        }

        if (len_version as usize) > data.len() - 16 {
            return Err(ApsError::Parse(crate::buf::Error::NotEnoughData));
        }
        let version_bytes = vstd::slice::slice_subrange(data, 16, 16 + len_version as usize);
        if utf8_to_string(version_bytes).is_none() {
            proof {
                assert(version_bytes@ =~= s.subrange(16, 16 + u32_at(s, 12) as int));
            }
            return Err(ApsError::General("Version string is not a valid utf-8 string."));
        }
        proof {
            assert(version_bytes@ =~= s.subrange(16, 16 + u32_at(s, 12) as int));
        }

        offset = 16 + align_up(len_version as usize, 4);
        skip(data, &mut offset, 2)?;
        let n_streams = read_u16(data, &mut offset)?;

        let ghost dir = offset as int;
        let mut md = Metadata {
            logical_tables: None,
            strings: None,
            user_strings: None,
            blobs: None,
            guids: None,
        };

        let n = n_streams as usize;
        let mut i: usize = 0;
        while i < n
            invariant
                offset <= s.len(),
                0 <= i <= n,
                spec_streams(s, dir, n as int, no_streams()) == spec_streams(
                    s,
                    offset as int,
                    n - i,
                    md@,
                ),
            decreases n - i,
        {
            let s_offset = read_u32(data, &mut offset)?;
            let s_size = read_u32(data, &mut offset)?;

            // Scan the NUL-terminated name, at most 32 bytes with the
            // terminator.
            let name_start = offset;
            let ghost window = s.subrange(
                name_start as int,
                name_window_end(s, name_start as int),
            );
            let mut name: Vec<u8> = Vec::new();
            let mut j: usize = 0;
            let mut found = false;
            while j < METADATA_STREAM_NAME_MAX_LEN && !found
                invariant
                    0 <= j <= METADATA_STREAM_NAME_MAX_LEN,
                    name_start <= s.len(),
                    !found ==> name@.len() == j,
                    found ==> name@.len() == j - 1,
                    forall|t: int| 0 <= t < name@.len() ==> name@[t] == window[t] && window[t] != 0,
                    found ==> j - 1 < window.len() && window[j - 1] == 0,
                    !found ==> j <= window.len(),
                decreases METADATA_STREAM_NAME_MAX_LEN - j,
            {
                if j >= data.len() - name_start {
                    proof {
                        crate::cli::strings::lemma_nul_pos(window, j as int);
                    }
                    return Err(ApsError::Parse(crate::buf::Error::NotEnoughData));
                }
                let b = data[name_start + j];
                if b == 0 {
                    found = true;
                } else {
                    name.push(b);
                }
                j = j + 1;
            }
            if !found {
                proof {
                    crate::cli::strings::lemma_nul_pos_range(window);
                    crate::cli::strings::lemma_nul_pos(window, window.len() as int);
                }
                return Err(ApsError::General("Metadata stream name length is invalid."));
            }
            proof {
                crate::cli::strings::lemma_nul_pos(window, j - 1);
                assert(name@ =~= s.subrange(name_start as int, name_start + j - 1));
            }

            // The stream's range must lie within the metadata root.
            if (s_offset as u64) + (s_size as u64) > (data.len() as u64) {
                return Err(ApsError::General("Metadata stream range escapes the root."));
            }
            let content = vstd::slice::slice_to_vec(
                vstd::slice::slice_subrange(
                    data,
                    s_offset as usize,
                    s_offset as usize + s_size as usize,
                ),
            );
            proof {
                assert(content@ =~= s.subrange(
                    s_offset as int,
                    s_offset as int + s_size as int,
                ));
            }

            let adv = align_up(j, 4);
            if adv > data.len() - name_start {
                return Err(ApsError::Parse(crate::buf::Error::NotEnoughData));
            }

            let ghost acc_before = md@;
            if name.len() == 2 && name[0] == 0x23 && name[1] == 0x7e {
                proof {
                    assert(name@ =~= name_tables());
                }
                md.logical_tables = Some(content);
            } else if name.len() == 8 && name[0] == 0x23 && name[1] == 0x53 && name[2] == 0x74
                && name[3] == 0x72 && name[4] == 0x69 && name[5] == 0x6e && name[6] == 0x67
                && name[7] == 0x73 {
                proof {
                    assert(name@ =~= name_strings());
                }
                md.strings = Some(content);
            } else if name.len() == 3 && name[0] == 0x23 && name[1] == 0x55 && name[2] == 0x53 {
                proof {
                    assert(name@ =~= name_user_strings());
                }
                md.user_strings = Some(content);
            } else if name.len() == 5 && name[0] == 0x23 && name[1] == 0x47 && name[2] == 0x55
                && name[3] == 0x49 && name[4] == 0x44 {
                proof {
                    assert(name@ =~= name_guids());
                }
                md.guids = Some(content);
            } else if name.len() == 5 && name[0] == 0x23 && name[1] == 0x42 && name[2] == 0x6c
                && name[3] == 0x6f && name[4] == 0x62 {
                proof {
                    assert(name@ =~= name_blobs());
                }
                md.blobs = Some(content);
            } else {
                proof {
                    assert(name@ != name_tables());
                    assert(name@ != name_strings());
                    assert(name@ != name_user_strings());
                    assert(name@ != name_guids());
                    assert(name@ != name_blobs());
                }
                return Err(ApsError::General("Unknown section name."));
            }
            proof {
                assert(fill_stream(acc_before, name@, content@) == Some(md@));
            }

            offset = name_start + adv;
            i = i + 1;
        }

        Ok(md)
    }
}

} // verus!
