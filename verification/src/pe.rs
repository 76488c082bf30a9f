//! PE/COFF container decoder.
//!
//! Walks the DOS stub, PE signature, COFF header, PE32 optional header
//! and data directories, and the section table. The parsed header
//! carries the CLI data directory and the section table, and resolves
//! relative virtual addresses (RVAs) to file offsets.

use vstd::prelude::*;

use crate::buf::{u16_at, u32_at};
use crate::error::ApsError;
use crate::utils::{read_u16, read_u32, skip};

verus! {

/// DOS header magic: `MZ`, little-endian.
pub const DOS_MAGIC: u16 = 0x5a4d;

/// File offset of the 4-byte PE-header offset.
pub const PE_OFFSET: usize = 0x3c;

/// PE signature: `PE\0\0`, little-endian.
pub const PE_MAGIC: u32 = 0x0000_4550;

pub const IMAGE_FILE_MACHINE_I386: u16 = 0x14c;

// Shall be zero.
pub const IMAGE_FILE_RELOCS_STRIPPED: u16 = 0x0001;

// Shall be one.
pub const IMAGE_FILE_EXECUTABLE_IMAGE: u16 = 0x0002;

// A CIL-only DLL sets the flag to one, while a CIL-only .exe has it zero.
pub const IMAGE_FILE_DLL: u16 = 0x2000;

/// Optional header magic for PE32.
pub const OPT_MAGIC_PE32: u16 = 0x10b;

pub const DATA_DIRS_COUNT: u32 = 16;

/// One row of the section table: a mapping of file bytes into the
/// virtual address space.
#[derive(Debug, PartialEq, Eq, Structural, Copy, Clone)]
pub struct Section {
    pub virtual_size: u32,
    pub virtual_address: u32,
    pub raw_address: u32,
}

/// The parts of the PE header that the CLI decoder needs: the CLI data
/// directory and the section table.
#[derive(Debug, Clone)]
pub struct Header {
    pub cli_rva: u32,
    pub cli_size: u32,
    pub sections: Vec<Section>,
}

/// File offset of `rva` under the first section whose virtual range
/// holds it; `None` when no section maps it.
pub open spec fn spec_rva2offset(ss: Seq<Section>, rva: int) -> Option<int>
    decreases ss.len(),
{
    if ss.len() == 0 {
        None
    } else if ss[0].virtual_address <= rva < ss[0].virtual_address + ss[0].virtual_size {
        Some(rva - ss[0].virtual_address + ss[0].raw_address)
    } else {
        spec_rva2offset(ss.skip(1), rva)
    }
}

/// The section record whose 40 bytes begin at `b`: virtual size,
/// virtual address, and raw data pointer.
pub open spec fn spec_section_at(s: Seq<u8>, b: int) -> Section {
    Section {
        virtual_size: u32_at(s, b + 8),
        virtual_address: u32_at(s, b + 12),
        raw_address: u32_at(s, b + 20),
    }
}

/// The `n` section records of an image whose PE header begins at `p`.
/// The section table starts right after the 16 data directories.
pub open spec fn spec_sections(s: Seq<u8>, p: int, n: int) -> Seq<Section> {
    Seq::new(n as nat, |i: int| spec_section_at(s, p + 248 + 40 * i))
}

/// Whether the checks of the PE walk from the header at `p` on pass:
/// signature, machine, characteristics, optional-header magic, data
/// directory count, and room for the section table.
pub open spec fn pe_ok_at(s: Seq<u8>, p: int) -> bool {
    &&& p + 26 <= s.len()
    &&& u32_at(s, p) == PE_MAGIC
    &&& u16_at(s, p + 4) == IMAGE_FILE_MACHINE_I386
    &&& u16_at(s, p + 22) & IMAGE_FILE_RELOCS_STRIPPED == 0
    &&& u16_at(s, p + 22) & IMAGE_FILE_EXECUTABLE_IMAGE != 0
    &&& u16_at(s, p + 22) & IMAGE_FILE_DLL == 0
    &&& u16_at(s, p + 24) == OPT_MAGIC_PE32
    &&& p + 120 <= s.len()
    &&& u32_at(s, p + 116) == DATA_DIRS_COUNT
    &&& p + 248 + 40 * (u16_at(s, p + 6) as int) <= s.len()
    &&& (forall|i: int|
        0 <= i < u16_at(s, p + 6) as int ==> (#[trigger] spec_section_at(
            s,
            p + 248 + 40 * i,
        )).raw_address + spec_section_at(s, p + 248 + 40 * i).virtual_size <= s.len())
    &&& match spec_rva2offset(
        spec_sections(s, p, u16_at(s, p + 6) as int),
        u32_at(s, p + 232) as int,
    ) {
        Some(o) => o + u32_at(s, p + 236) <= s.len(),
        None => false,
    }
}

/// A resolved offset lands strictly inside any bound that holds of
/// every section's file range: resolution never escapes the image.
pub proof fn lemma_rva2offset_in_image(ss: Seq<Section>, rva: int, img_len: int)
    requires
        spec_rva2offset(ss, rva) is Some,
        forall|i: int|
            0 <= i < ss.len() ==> (#[trigger] ss[i]).raw_address + ss[i].virtual_size <= img_len,
    ensures
        0 <= spec_rva2offset(ss, rva)->Some_0 < img_len,
    decreases ss.len(),
{
    if ss.len() > 0 {
        if ss[0].virtual_address <= rva < ss[0].virtual_address + ss[0].virtual_size {
        } else {
            assert forall|i: int| 0 <= i < ss.skip(1).len() implies (#[trigger] ss.skip(
                1,
            )[i]).raw_address + ss.skip(1)[i].virtual_size <= img_len by {
                assert(ss.skip(1)[i] == ss[i + 1]);
            }
            lemma_rva2offset_in_image(ss.skip(1), rva, img_len);
        }
    }
}

/// Whether `s` parses as a PE image that this decoder accepts.
pub open spec fn pe_ok(s: Seq<u8>) -> bool {
    &&& 0x40 <= s.len()
    &&& u16_at(s, 0) == DOS_MAGIC
    &&& pe_ok_at(s, u32_at(s, 0x3c) as int)
}

/// Whether `e` is the rejection of the DOS signature itself.
pub open spec fn is_dos_magic_error(e: ApsError) -> bool {
    e matches ApsError::General(m) && m@ == "Signature is wrong!"@
}

impl Header {
    /// Every section's raw range fits below `usize::MAX`; the machine
    /// bound under which offsets can be computed without overflow.
    pub open spec fn sections_fit(self) -> bool {
        forall|i: int|
            0 <= i < self.sections@.len() ==> (#[trigger] self.sections@[i]).raw_address
                + self.sections@[i].virtual_size <= usize::MAX
    }

    /// Every section's file range lies within an image of `img_len` bytes.
    pub open spec fn sections_in_image(self, img_len: int) -> bool {
        forall|i: int|
            0 <= i < self.sections@.len() ==> (#[trigger] self.sections@[i]).raw_address
                + self.sections@[i].virtual_size <= img_len
    }

    /// The CLI data directory is mapped by a section and lies within
    /// an image of `img_len` bytes.
    pub open spec fn cli_dir_in_image(self, img_len: int) -> bool {
        match spec_rva2offset(self.sections@, self.cli_rva as int) {
            Some(o) => o + self.cli_size <= img_len,
            None => false,
        }
    }

    /// What `parse` establishes about its result, against the image length.
    pub open spec fn wf(self, img_len: int) -> bool {
        self.sections_in_image(img_len) && self.cli_dir_in_image(img_len)
    }

    /// File offset of `rva`: linear scan of the section table, first
    /// match wins; `None` for an unmapped RVA.
    pub fn rva2offset(self: &Self, rva: usize) -> (r: Option<usize>)
        requires
            self.sections_fit(),
        ensures
            match r {
                Some(o) => spec_rva2offset(self.sections@, rva as int) == Some(o as int),
                None => spec_rva2offset(self.sections@, rva as int) is None,
            },
    {
        let n = self.sections.len();
        let mut i: usize = 0;
        proof {
            assert(self.sections@.skip(0) =~= self.sections@);
        }
        while i < n
            invariant
                n == self.sections@.len(),
                0 <= i <= n,
                self.sections_fit(),
                spec_rva2offset(self.sections@, rva as int) == spec_rva2offset(
                    self.sections@.skip(i as int),
                    rva as int,
                ),
            decreases n - i,
        {
            let s = self.sections[i];
            let s_rva = s.virtual_address as usize;
            let s_size = s.virtual_size as usize;
            let s_raw = s.raw_address as usize;

            proof {
                assert(self.sections@.skip(i as int)[0] == self.sections@[i as int]);
                assert(self.sections@.skip(i as int).skip(1) =~= self.sections@.skip(i as int + 1));
            }
            if s_rva <= rva && rva - s_rva < s_size {
                return Some(rva - s_rva + s_raw);
            }
            i = i + 1;
        }
        None
    }

    /// Decode the PE container of `data`.
    ///
    /// Succeeds exactly on images accepted by `pe_ok`: DOS and PE
    /// signatures in place, i386 machine, an executable non-DLL image
    /// with relocations present, a PE32 optional header with 16 data
    /// directories, a complete section table whose raw ranges lie
    /// within the image, and a CLI data directory mapped by a section.
    /// The DOS-signature rejection comes exactly when the DOS magic is
    /// readable and wrong: an image that passes the DOS check can fail
    /// only for a later reason.
    #[verifier::loop_isolation(false)]
    #[verifier::rlimit(60)]
    pub fn parse(data: &[u8]) -> (r: Result<Header, ApsError>)
        ensures
            match r {
                Ok(h) => {
                    let p = u32_at(data@, 0x3c) as int;
                    let n = u16_at(data@, p + 6) as int;
                    &&& pe_ok(data@)
                    &&& h.cli_rva == u32_at(data@, p + 232)
                    &&& h.cli_size == u32_at(data@, p + 236)
                    &&& h.sections@ == spec_sections(data@, p, n)
                    &&& h.wf(data@.len() as int)
                },
                Err(_) => !pe_ok(data@),
            },
            2 <= data@.len() && u16_at(data@, 0) != DOS_MAGIC ==> (r matches Err(e)
                && is_dos_magic_error(e)),
            !(2 <= data@.len() && u16_at(data@, 0) != DOS_MAGIC) ==> !(r matches Err(e)
                && is_dos_magic_error(e)),
    {
        proof {
            reveal_strlit("Signature is wrong!");
            reveal_strlit("PE signature is wrong!");
            reveal_strlit("Unexpected target machine specified.");
            reveal_strlit("Relocations are not stripped.");
            reveal_strlit("File is not marked as an executable image.");
            reveal_strlit("File is not a CIL executable, but a class library.");
            reveal_strlit("Optional header magic is not PE32.");
            reveal_strlit("Number of data directories is invalid.");
            reveal_strlit("Section data does not fit in the image.");
            reveal_strlit("CLI header does not fit in the image.");
            reveal_strlit("CLI header RVA is unmapped.");
            // Every later rejection differs from the DOS one already
            // in length.
            assert("Signature is wrong!"@.len() == 19);
            assert("PE signature is wrong!"@.len() == 22);
            assert("Unexpected target machine specified."@.len() == 36);
            assert("Relocations are not stripped."@.len() == 29);
            assert("File is not marked as an executable image."@.len() == 42);
            assert("File is not a CIL executable, but a class library."@.len() == 50);
            assert("Optional header magic is not PE32."@.len() == 34);
            assert("Number of data directories is invalid."@.len() == 38);
            assert("Section data does not fit in the image."@.len() == 39);
            assert("CLI header does not fit in the image."@.len() == 37);
            assert("CLI header RVA is unmapped."@.len() == 27);
        }
        let ghost s = data@;
        let mut offset: usize = 0;
        let magic = read_u16(data, &mut offset)?;
        if magic != DOS_MAGIC {
            return Err(ApsError::General("Signature is wrong!"));
        }

        offset = PE_OFFSET;
        let pe_pos = read_u32(data, &mut offset)?;
        let p = pe_pos as usize;
        let ghost pi = p as int;
        offset = p;

        let magic = read_u32(data, &mut offset)?;
        if magic != PE_MAGIC {
            return Err(ApsError::General("PE signature is wrong!"));
        }

        let machine = read_u16(data, &mut offset)?;
        if machine != IMAGE_FILE_MACHINE_I386 {
            return Err(ApsError::General("Unexpected target machine specified."));
        }

        let n_sections = read_u16(data, &mut offset)?;

        skip(data, &mut offset, 12)?;

        let _opt_header_size = read_u16(data, &mut offset)?;

        let characteristics = read_u16(data, &mut offset)?;
        if characteristics & IMAGE_FILE_RELOCS_STRIPPED != 0 {
            return Err(ApsError::General("Relocations are not stripped."));
        }
        if characteristics & IMAGE_FILE_EXECUTABLE_IMAGE == 0 {
            return Err(ApsError::General("File is not marked as an executable image."));
        }
        if characteristics & IMAGE_FILE_DLL != 0 {
            return Err(ApsError::General("File is not a CIL executable, but a class library."));
        }

        let magic = read_u16(data, &mut offset)?;
        if magic != OPT_MAGIC_PE32 {
            return Err(ApsError::General("Optional header magic is not PE32."));
        }

        skip(data, &mut offset, 90)?;

        let n_data_dirs = read_u32(data, &mut offset)?;
        if n_data_dirs != DATA_DIRS_COUNT {
            return Err(ApsError::General("Number of data directories is invalid."));
        }

        // 14 directories precede the CLI header entry.
        skip(data, &mut offset, 112)?;
        let cli_rva = read_u32(data, &mut offset)?;
        let cli_size = read_u32(data, &mut offset)?;

        // The last data directory sits between the CLI entry and the
        // section table.
        skip(data, &mut offset, 8)?;

        let n = n_sections as usize;
        let ghost ni = n as int;
        let mut sections: Vec<Section> = Vec::new();
        let mut i: usize = 0;
        while i < n
            invariant
                s == data@,
                0 <= i <= n,
                offset == pi + 248 + 40 * i,
                offset <= s.len(),
                sections@ =~= spec_sections(s, pi, ni).subrange(0, i as int),
            decreases n - i,
        {
            skip(data, &mut offset, 8)?;
            let virtual_size = read_u32(data, &mut offset)?;
            let virtual_address = read_u32(data, &mut offset)?;
            skip(data, &mut offset, 4)?;
            let raw_address = read_u32(data, &mut offset)?;
            skip(data, &mut offset, 16)?;

            sections.push(Section { virtual_size, virtual_address, raw_address });
            i = i + 1;
        }
        proof {
            assert(sections@ =~= spec_sections(s, pi, ni));
        }

        // The section table partitions file space: every raw range
        // must lie within the image.
        let img_len = data.len();
        let mut j: usize = 0;
        while j < n
            invariant
                s == data@,
                img_len == s.len(),
                n == sections@.len(),
                0 <= j <= n,
                forall|k: int|
                    0 <= k < j ==> (#[trigger] sections@[k]).raw_address
                        + sections@[k].virtual_size <= img_len,
            decreases n - j,
        {
            let sec = sections[j];
            if (sec.raw_address as u64) + (sec.virtual_size as u64) > (img_len as u64) {
                return Err(ApsError::General("Section data does not fit in the image."));
            }
            j = j + 1;
        }

        let header = Header { cli_rva, cli_size, sections };

        // The CLI header must be mapped and lie within the image.
        match header.rva2offset(cli_rva as usize) {
            Some(o) => {
                proof {
                    lemma_rva2offset_in_image(header.sections@, cli_rva as int, img_len as int);
                }
                if (cli_size as u64) > (img_len as u64) - (o as u64) {
                    return Err(ApsError::General("CLI header does not fit in the image."));
                }
            },
            None => {
                return Err(ApsError::General("CLI header RVA is unmapped."));
            },
        }

        proof {
            assert(header.sections@ =~= spec_sections(s, pi, ni));
            assert forall|k: int| 0 <= k < ni implies (#[trigger] spec_section_at(
                s,
                pi + 248 + 40 * k,
            )).raw_address + spec_section_at(s, pi + 248 + 40 * k).virtual_size <= s.len() by {
                assert(spec_section_at(s, pi + 248 + 40 * k) == header.sections@[k]);
            }
            assert(pi + 26 <= s.len());
            assert(u32_at(s, pi) == PE_MAGIC);
            assert(u16_at(s, pi + 4) == IMAGE_FILE_MACHINE_I386);
            assert(u16_at(s, pi + 24) == OPT_MAGIC_PE32);
            assert(pi + 120 <= s.len());
            assert(u32_at(s, pi + 116) == DATA_DIRS_COUNT);
            assert(pi + 248 + 40 * ni <= s.len());
            assert(match spec_rva2offset(spec_sections(s, pi, ni), u32_at(s, pi + 232) as int) {
                Some(o) => o + u32_at(s, pi + 236) <= s.len(),
                None => false,
            });
            assert(pe_ok_at(s, pi));
            assert(pe_ok(s));
            assert(header.sections_in_image(s.len() as int));
            assert(header.cli_dir_in_image(s.len() as int));
        }
        Ok(header)
    }
}

} // verus!
