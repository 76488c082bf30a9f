//! The `#~` stream: its prologue (heap-index widths, table bitmask,
//! row counts) and every logical table row, decoded with the width
//! rules of ECMA-335 II.24.2.6.
//!
//! A row cell is read as: a fixed-width scalar; a heap index of 2 or 4
//! bytes per the heap-sizes bits; a simple index into one table, 2
//! bytes unless that table has more than `0xFFFF` rows; or a coded
//! index over a table family, whose low bits hold a tag and whose
//! width grows to 4 bytes when some member table's row count reaches
//! `2^(16 - tag bits)`.

use vstd::prelude::*;

use crate::buf::{u16_at, u32_at, u64_at};
use crate::error::ApsError;
use crate::utils::{read_u16, read_u32, read_u64, read_u8, skip};

verus! {

// Table identifiers, from ECMA II.22.
pub const METADATA_MODULE: usize = 0x00;

pub const METADATA_TYPE_REF: usize = 0x01;

pub const METADATA_TYPE_DEF: usize = 0x02;

pub const METADATA_FIELD: usize = 0x04;

pub const METADATA_METHOD_DEF: usize = 0x06;

pub const METADATA_PARAM: usize = 0x08;

pub const METADATA_INTERFACE_IMPL: usize = 0x09;

pub const METADATA_MEMBER_REF: usize = 0x0A;

pub const METADATA_CONSTANT: usize = 0x0B;

pub const METADATA_CUSTOM_ATTRIBUTE: usize = 0x0C;

pub const METADATA_FIELD_MARSHAL: usize = 0x0D;

pub const METADATA_DECL_SECURITY: usize = 0x0E;

pub const METADATA_CLASS_LAYOUT: usize = 0x0F;

pub const METADATA_FIELD_LAYOUT: usize = 0x10;

pub const METADATA_STANDALONE_SIG: usize = 0x11;

pub const METADATA_EVENT_MAP: usize = 0x12;

pub const METADATA_EVENT: usize = 0x14;

pub const METADATA_PROPERTY_MAP: usize = 0x15;

pub const METADATA_PROPERTY: usize = 0x17;

pub const METADATA_METHOD_SEMANTICS: usize = 0x18;

pub const METADATA_METHOD_IMPL: usize = 0x19;

pub const METADATA_MODULE_REF: usize = 0x1A;

pub const METADATA_TYPE_SPEC: usize = 0x1B;

pub const METADATA_IMPL_MAP: usize = 0x1C;

pub const METADATA_FIELD_RVA: usize = 0x1D;

pub const METADATA_ASSEMBLY: usize = 0x20;

pub const METADATA_ASSEMBLY_PROCESSOR: usize = 0x21;

pub const METADATA_ASSEMBLY_OS: usize = 0x22;

pub const METADATA_ASSEMBLY_REF: usize = 0x23;

pub const METADATA_ASSEMBLY_REF_PROCESSOR: usize = 0x24;

pub const METADATA_ASSEMBLY_REF_OS: usize = 0x25;

pub const METADATA_FILE: usize = 0x26;

pub const METADATA_EXPORTED_TYPE: usize = 0x27;

pub const METADATA_MANIFEST_RESOURCE: usize = 0x28;

pub const METADATA_NESTED_CLASS: usize = 0x29;

pub const METADATA_GENERIC_PARAM: usize = 0x2A;

pub const METADATA_METHOD_SPEC: usize = 0x2B;

pub const METADATA_GENERIC_PARAM_CONSTRAINT: usize = 0x2C;

/// Width of an index into a heap.
#[derive(Debug, PartialEq, Eq, Structural, Copy, Clone)]
pub enum IndexSize {
    /// 2-byte index.
    U16,
    /// 4-byte index.
    U32,
}

/// Width in bytes of a heap index of size class `z`.
pub open spec fn idx_width(z: IndexSize) -> int {
    if z == IndexSize::U16 {
        2
    } else {
        4
    }
}

/// The heap index of size class `z` at `o` in `s`, widened to `u32`.
pub open spec fn spec_heap_idx(s: Seq<u8>, o: int, z: IndexSize) -> u32 {
    if z == IndexSize::U16 {
        u16_at(s, o) as u32
    } else {
        u32_at(s, o)
    }
}

/// Whether bit `i` of the table bitmask `m` is set.
pub open spec fn mask_bit(m: u64, i: int) -> bool {
    (m >> (i as u64)) & 1 == 1
}

/// How many bits of `m` below position `i` are set.
pub open spec fn ones_below(m: u64, i: int) -> int
    decreases i,
{
    if i <= 0 {
        0
    } else {
        ones_below(m, i - 1) + if mask_bit(m, i - 1) {
            1int
        } else {
            0
        }
    }
}

/// Set bits never get lost as the scan bound grows.
proof fn lemma_ones_below_step(m: u64, i: int, j: int)
    requires
        0 <= i < j,
    ensures
        ones_below(m, i) + (if mask_bit(m, i) {
            1int
        } else {
            0
        }) <= ones_below(m, j),
    decreases j - i,
{
    if j > i + 1 {
        lemma_ones_below_step(m, i, j - 1);
    }
}

/// Row count that the prologue of `s` declares for table `i`: the next
/// 4-byte count for a table whose mask bit is set, zero otherwise.
pub open spec fn spec_table_len(s: Seq<u8>, i: int) -> u32 {
    if mask_bit(u64_at(s, 8), i) {
        u32_at(s, 24 + 4 * ones_below(u64_at(s, 8), i))
    } else {
        0u32
    }
}

/// Whether `s` opens with a complete `#~` prologue: 24 fixed bytes
/// and one 4-byte row count per set mask bit.
pub open spec fn tables_ok(s: Seq<u8>) -> bool {
    &&& 24 <= s.len()
    &&& 24 + 4 * ones_below(u64_at(s, 8), 64) <= s.len()
}

/// The decoded `#~` prologue: heap-index widths, per-table row
/// counts, the valid-table bitmask, and the prologue's byte size.
#[derive(Copy, Clone)]
pub struct Tables {
    pub string_index_size: IndexSize,
    pub guid_index_size: IndexSize,
    pub blob_index_size: IndexSize,
    pub lens: [u32; 64],
    pub size: usize,
    pub valid_mask: u64,
}

impl Tables {
    /// What `parse` establishes: widths and counts agree with the
    /// prologue bytes of `s`.
    pub open spec fn matches(self, s: Seq<u8>) -> bool {
        &&& self.valid_mask == u64_at(s, 8)
        &&& self.string_index_size == (if s[6] & 0x01 == 0 {
            IndexSize::U16
        } else {
            IndexSize::U32
        })
        &&& self.guid_index_size == (if s[6] & 0x02 == 0 {
            IndexSize::U16
        } else {
            IndexSize::U32
        })
        &&& self.blob_index_size == (if s[6] & 0x04 == 0 {
            IndexSize::U16
        } else {
            IndexSize::U32
        })
        &&& self.size == 24 + 4 * ones_below(u64_at(s, 8), 64)
        &&& forall|i: int| 0 <= i < 64 ==> self.lens@[i] == spec_table_len(s, i)
    }

    /// Decode the `#~` prologue: 6 reserved/version bytes, the
    /// heap-sizes byte, a reserved byte, the valid and sorted
    /// bitmasks, then one 4-byte row count per set valid bit, in
    /// ascending table order.
    #[verifier::loop_isolation(false)]
    pub fn parse(data: &[u8]) -> (r: Result<Tables, ApsError>)
        ensures
            match r {
                Ok(t) => tables_ok(data@) && t.matches(data@),
                Err(_) => !tables_ok(data@),
            },
    {
        let ghost s = data@;
        let mut offset: usize = 0;

        // Reserved, major version, minor version.
        skip(data, &mut offset, 6)?;

        // Bits 0, 1 and 2 of the heap-sizes byte widen the string,
        // GUID and blob heap indexes from 2 to 4 bytes.
        let heap_sizes = read_u8(data, &mut offset)?;

        let string_index_size = if heap_sizes & 0x01 == 0 {
            IndexSize::U16
        } else {
            IndexSize::U32
        };
        let guid_index_size = if heap_sizes & 0x02 == 0 {
            IndexSize::U16
        } else {
            IndexSize::U32
        };
        let blob_index_size = if heap_sizes & 0x04 == 0 {
            IndexSize::U16
        } else {
            IndexSize::U32
        };

        // Reserved.
        skip(data, &mut offset, 1)?;

        // One bit per table stored in the stream.
        let valid_mask = read_u64(data, &mut offset)?;

        // The sorted bitmask is consumed but not enforced.
        skip(data, &mut offset, 8)?;

        let mut lens: [u32; 64] = vstd::array::array_fill_for_copy_types(0u32);
        let mut i: usize = 0;
        while i < 64
            invariant
                0 <= i <= 64,
                offset == 24 + 4 * ones_below(valid_mask, i as int),
                offset <= s.len(),
                valid_mask == u64_at(s, 8),
                lens@.len() == 64,
                forall|j: int| 0 <= j < i ==> lens@[j] == spec_table_len(s, j),
                forall|j: int| i <= j < 64 ==> lens@[j] == 0,
            decreases 64 - i,
        {
            if (valid_mask >> (i as u64)) & 1 == 1 {
                let ghost off0 = offset;
                let n = match read_u32(data, &mut offset) {
                    Ok(v) => v,
                    Err(e) => {
                        proof {
                            lemma_ones_below_step(valid_mask, i as int, 64);
                        }
                        return Err(e);
                    },
                };
                vstd::array::ArrayAdditionalExecFns::set(&mut lens, i, n);
            }
            i = i + 1;
        }

        let size = offset;

        Ok(
            Tables {
                string_index_size,
                guid_index_size,
                blob_index_size,
                lens,
                size,
                valid_mask,
            },
        )
    }

    /// Whether table `id` is stored in the stream.
    pub fn has_table(&self, id: usize) -> (r: bool)
        requires
            id < 64,
        ensures
            r == mask_bit(self.valid_mask, id as int),
    {
        (self.valid_mask >> (id as u64)) & 1 == 1
    }
}

/// Width in bytes of a simple index into a table of `n` rows.
pub open spec fn simple_width(n: u32) -> int {
    if n <= 0xFFFF {
        2
    } else {
        4
    }
}

/// The simple index at `o` into a table of `n` rows: its value, when
/// that value lies below the row count, else nothing.
pub open spec fn spec_simple(s: Seq<u8>, o: int, n: u32) -> Option<u32> {
    let v = if n <= 0xFFFF {
        u16_at(s, o) as u32
    } else {
        u32_at(s, o)
    };
    if v < n {
        Some(v)
    } else {
        None
    }
}

/// Read a heap index of size class `z` at `*offset`.
pub(crate) fn read_heap_idx(data: &[u8], offset: &mut usize, z: IndexSize) -> (r: Result<
    u32,
    ApsError,
>)
    ensures
        old(offset) + idx_width(z) <= data@.len() ==> r == Ok::<u32, ApsError>(
            spec_heap_idx(data@, *old(offset) as int, z),
        ) && *final(offset) == *old(offset) + idx_width(z),
        old(offset) + idx_width(z) > data@.len() ==> r is Err && *final(offset) == *old(offset),
{
    match z {
        IndexSize::U16 => {
            let v = read_u16(data, offset)?;
            Ok(v as u32)
        },
        IndexSize::U32 => read_u32(data, offset),
    }
}

/// Read a simple index at `*offset` into a table of `n` rows, and
/// hold its value below the row count.
pub(crate) fn read_simple_idx(data: &[u8], offset: &mut usize, n: u32) -> (r: Result<
    u32,
    ApsError,
>)
    ensures
        match r {
            Ok(v) => old(offset) + simple_width(n) <= data@.len() && spec_simple(
                data@,
                *old(offset) as int,
                n,
            ) == Some(v) && *final(offset) == *old(offset) + simple_width(n),
            Err(_) => !(old(offset) + simple_width(n) <= data@.len() && spec_simple(
                data@,
                *old(offset) as int,
                n,
            ) is Some),
        },
{
    let v: u32 = if n <= 0xFFFF {
        read_u16(data, offset)? as u32
    } else {
        read_u32(data, offset)?
    };
    if v >= n {
        return Err(ApsError::General("Row index is out of range."));
    }
    Ok(v)
}

/// An index into the `#Strings` heap, as read from a row.
#[derive(Debug, PartialEq, Eq, Structural, Copy, Clone)]
pub struct StringIndex(pub u32);

impl StringIndex {
    /// Read a string-heap index at `*offset`, at the width the
    /// prologue selected.
    pub fn parse(header: &Tables, data: &[u8], offset: &mut usize) -> (r: Result<
        StringIndex,
        ApsError,
    >)
        ensures
            old(offset) + idx_width(header.string_index_size) <= data@.len() ==> r == Ok::<
                StringIndex,
                ApsError,
            >(
                StringIndex(spec_heap_idx(data@, *old(offset) as int, header.string_index_size)),
            ) && *final(offset) == *old(offset) + idx_width(header.string_index_size),
            old(offset) + idx_width(header.string_index_size) > data@.len() ==> r is Err,
    {
        let v = read_heap_idx(data, offset, header.string_index_size)?;
        Ok(StringIndex(v))
    }
}

/// An index into the `#GUID` heap, as read from a row.
#[derive(Debug, PartialEq, Eq, Structural, Copy, Clone)]
pub struct GuidIndex(pub u32);

impl GuidIndex {
    /// Read a GUID-heap index at `*offset`, at the width the prologue
    /// selected.
    pub fn parse(header: &Tables, data: &[u8], offset: &mut usize) -> (r: Result<
        GuidIndex,
        ApsError,
    >)
        ensures
            old(offset) + idx_width(header.guid_index_size) <= data@.len() ==> r == Ok::<
                GuidIndex,
                ApsError,
            >(GuidIndex(spec_heap_idx(data@, *old(offset) as int, header.guid_index_size)))
                && *final(offset) == *old(offset) + idx_width(header.guid_index_size),
            old(offset) + idx_width(header.guid_index_size) > data@.len() ==> r is Err,
    {
        let v = read_heap_idx(data, offset, header.guid_index_size)?;
        Ok(GuidIndex(v))
    }
}

/// An index into the `#Blob` heap, as read from a row.
#[derive(Debug, PartialEq, Eq, Structural, Copy, Clone)]
pub struct BlobIndex(pub u32);

impl BlobIndex {
    /// Read a blob-heap index at `*offset`, at the width the prologue
    /// selected.
    pub fn parse(header: &Tables, data: &[u8], offset: &mut usize) -> (r: Result<
        BlobIndex,
        ApsError,
    >)
        ensures
            old(offset) + idx_width(header.blob_index_size) <= data@.len() ==> r == Ok::<
                BlobIndex,
                ApsError,
            >(BlobIndex(spec_heap_idx(data@, *old(offset) as int, header.blob_index_size)))
                && *final(offset) == *old(offset) + idx_width(header.blob_index_size),
            old(offset) + idx_width(header.blob_index_size) > data@.len() ==> r is Err,
    {
        let v = read_heap_idx(data, offset, header.blob_index_size)?;
        Ok(BlobIndex(v))
    }
}


/// The `TypeDefOrRef` coded-index family, tag width 2 (ECMA II.24.2.6).
#[derive(Debug, PartialEq, Eq, Structural, Copy, Clone)]
pub enum TypeDefOrRef {
    TypeDef(u32),
    TypeRef(u32),
    TypeSpec(u32),
}

/// Whether a `TypeDefOrRef` cell is stored 4 bytes wide: some member table
/// has `2^14` rows or more.
pub open spec fn type_def_or_ref_wide(h: Tables) -> bool {
    ||| h.lens@[METADATA_TYPE_DEF as int] >= 16384
    ||| h.lens@[METADATA_TYPE_REF as int] >= 16384
    ||| h.lens@[METADATA_TYPE_SPEC as int] >= 16384
}

/// Width in bytes of a `TypeDefOrRef` cell.
pub open spec fn type_def_or_ref_width(h: Tables) -> int {
    if type_def_or_ref_wide(h) {
        4
    } else {
        2
    }
}

/// The `TypeDefOrRef` cell at `o`: the low 2 bit(s) name the member
/// table, the rest is the row value; `None` on a tag outside the
/// family.
pub open spec fn spec_type_def_or_ref(h: Tables, s: Seq<u8>, o: int) -> Option<TypeDefOrRef> {
    let v = if type_def_or_ref_wide(h) {
        u32_at(s, o)
    } else {
        u16_at(s, o) as u32
    };
    let tag = v & 3;
    let idx = v >> 2u32;
    if tag == 0 {
        Some(TypeDefOrRef::TypeDef(idx))
    } else if tag == 1 {
        Some(TypeDefOrRef::TypeRef(idx))
    } else if tag == 2 {
        Some(TypeDefOrRef::TypeSpec(idx))
    } else {
        None
    }
}

impl TypeDefOrRef {
    /// Read a `TypeDefOrRef` cell at `*offset`; an unknown tag is fatal.
    pub fn parse(header: &Tables, data: &[u8], offset: &mut usize) -> (r: Result<
        TypeDefOrRef,
        ApsError,
    >)
        ensures
            match r {
                Ok(c) => old(offset) + type_def_or_ref_width(*header) <= data@.len() && spec_type_def_or_ref(
                    *header,
                    data@,
                    *old(offset) as int,
                ) == Some(c) && *final(offset) == *old(offset) + type_def_or_ref_width(*header),
                Err(_) => !(old(offset) + type_def_or_ref_width(*header) <= data@.len() && spec_type_def_or_ref(
                    *header,
                    data@,
                    *old(offset) as int,
                ) is Some),
            },
    {
        let wide = header.lens[METADATA_TYPE_DEF] >= 16384 || header.lens[METADATA_TYPE_REF] >= 16384 || header.lens[METADATA_TYPE_SPEC] >= 16384;
        let value: u32 = if wide {
            read_u32(data, offset)?
        } else {
            read_u16(data, offset)? as u32
        };
        let tag = value & 3;
        let idx = value >> 2u32;
        if tag == 0 {
            Ok(TypeDefOrRef::TypeDef(idx))
        } else if tag == 1 {
            Ok(TypeDefOrRef::TypeRef(idx))
        } else if tag == 2 {
            Ok(TypeDefOrRef::TypeSpec(idx))
        } else {
            Err(ApsError::General("Unknown coded index tag."))
        }
    }
}

/// The `HasConstant` coded-index family, tag width 2 (ECMA II.24.2.6).
#[derive(Debug, PartialEq, Eq, Structural, Copy, Clone)]
pub enum HasConstant {
    Field(u32),
    Param(u32),
    Property(u32),
}

/// Whether a `HasConstant` cell is stored 4 bytes wide: some member table
/// has `2^14` rows or more.
pub open spec fn has_constant_wide(h: Tables) -> bool {
    ||| h.lens@[METADATA_FIELD as int] >= 16384
    ||| h.lens@[METADATA_PARAM as int] >= 16384
    ||| h.lens@[METADATA_PROPERTY as int] >= 16384
}

/// Width in bytes of a `HasConstant` cell.
pub open spec fn has_constant_width(h: Tables) -> int {
    if has_constant_wide(h) {
        4
    } else {
        2
    }
}

/// The `HasConstant` cell at `o`: the low 2 bit(s) name the member
/// table, the rest is the row value; `None` on a tag outside the
/// family.
pub open spec fn spec_has_constant(h: Tables, s: Seq<u8>, o: int) -> Option<HasConstant> {
    let v = if has_constant_wide(h) {
        u32_at(s, o)
    } else {
        u16_at(s, o) as u32
    };
    let tag = v & 3;
    let idx = v >> 2u32;
    if tag == 0 {
        Some(HasConstant::Field(idx))
    } else if tag == 1 {
        Some(HasConstant::Param(idx))
    } else if tag == 2 {
        Some(HasConstant::Property(idx))
    } else {
        None
    }
}

impl HasConstant {
    /// Read a `HasConstant` cell at `*offset`; an unknown tag is fatal.
    pub fn parse(header: &Tables, data: &[u8], offset: &mut usize) -> (r: Result<
        HasConstant,
        ApsError,
    >)
        ensures
            match r {
                Ok(c) => old(offset) + has_constant_width(*header) <= data@.len() && spec_has_constant(
                    *header,
                    data@,
                    *old(offset) as int,
                ) == Some(c) && *final(offset) == *old(offset) + has_constant_width(*header),
                Err(_) => !(old(offset) + has_constant_width(*header) <= data@.len() && spec_has_constant(
                    *header,
                    data@,
                    *old(offset) as int,
                ) is Some),
            },
    {
        let wide = header.lens[METADATA_FIELD] >= 16384 || header.lens[METADATA_PARAM] >= 16384 || header.lens[METADATA_PROPERTY] >= 16384;
        let value: u32 = if wide {
            read_u32(data, offset)?
        } else {
            read_u16(data, offset)? as u32
        };
        let tag = value & 3;
        let idx = value >> 2u32;
        if tag == 0 {
            Ok(HasConstant::Field(idx))
        } else if tag == 1 {
            Ok(HasConstant::Param(idx))
        } else if tag == 2 {
            Ok(HasConstant::Property(idx))
        } else {
            Err(ApsError::General("Unknown coded index tag."))
        }
    }
}

/// The `HasCustomAttribute` coded-index family, tag width 5 (ECMA II.24.2.6).
#[derive(Debug, PartialEq, Eq, Structural, Copy, Clone)]
pub enum HasCustomAttribute {
    MethodDef(u32),
    Field(u32),
    TypeRef(u32),
    TypeDef(u32),
    Param(u32),
    InterfaceImpl(u32),
    MemberRef(u32),
    Module(u32),
    Permission(u32),
    Property(u32),
    Event(u32),
    StandAloneSig(u32),
    ModuleRef(u32),
    TypeSpec(u32),
    Assembly(u32),
    AssemblyRef(u32),
    File(u32),
    ExportedType(u32),
    ManifestResource(u32),
    GenericParam(u32),
    GenericParamConstraint(u32),
    MethodSpec(u32),
}

/// Whether a `HasCustomAttribute` cell is stored 4 bytes wide: some member table
/// has `2^11` rows or more.
pub open spec fn has_custom_attribute_wide(h: Tables) -> bool {
    ||| h.lens@[METADATA_METHOD_DEF as int] >= 2048
    ||| h.lens@[METADATA_FIELD as int] >= 2048
    ||| h.lens@[METADATA_TYPE_REF as int] >= 2048
    ||| h.lens@[METADATA_TYPE_DEF as int] >= 2048
    ||| h.lens@[METADATA_PARAM as int] >= 2048
    ||| h.lens@[METADATA_INTERFACE_IMPL as int] >= 2048
    ||| h.lens@[METADATA_MEMBER_REF as int] >= 2048
    ||| h.lens@[METADATA_MODULE as int] >= 2048
    ||| h.lens@[METADATA_DECL_SECURITY as int] >= 2048
    ||| h.lens@[METADATA_PROPERTY as int] >= 2048
    ||| h.lens@[METADATA_EVENT as int] >= 2048
    ||| h.lens@[METADATA_STANDALONE_SIG as int] >= 2048
    ||| h.lens@[METADATA_MODULE_REF as int] >= 2048
    ||| h.lens@[METADATA_TYPE_SPEC as int] >= 2048
    ||| h.lens@[METADATA_ASSEMBLY as int] >= 2048
    ||| h.lens@[METADATA_ASSEMBLY_REF as int] >= 2048
    ||| h.lens@[METADATA_FILE as int] >= 2048
    ||| h.lens@[METADATA_EXPORTED_TYPE as int] >= 2048
    ||| h.lens@[METADATA_MANIFEST_RESOURCE as int] >= 2048
    ||| h.lens@[METADATA_GENERIC_PARAM as int] >= 2048
    ||| h.lens@[METADATA_GENERIC_PARAM_CONSTRAINT as int] >= 2048
    ||| h.lens@[METADATA_METHOD_SPEC as int] >= 2048
}

/// Width in bytes of a `HasCustomAttribute` cell.
pub open spec fn has_custom_attribute_width(h: Tables) -> int {
    if has_custom_attribute_wide(h) {
        4
    } else {
        2
    }
}

/// The `HasCustomAttribute` cell at `o`: the low 5 bit(s) name the member
/// table, the rest is the row value; `None` on a tag outside the
/// family.
pub open spec fn spec_has_custom_attribute(h: Tables, s: Seq<u8>, o: int) -> Option<HasCustomAttribute> {
    let v = if has_custom_attribute_wide(h) {
        u32_at(s, o)
    } else {
        u16_at(s, o) as u32
    };
    let tag = v & 31;
    let idx = v >> 5u32;
    if tag == 0 {
        Some(HasCustomAttribute::MethodDef(idx))
    } else if tag == 1 {
        Some(HasCustomAttribute::Field(idx))
    } else if tag == 2 {
        Some(HasCustomAttribute::TypeRef(idx))
    } else if tag == 3 {
        Some(HasCustomAttribute::TypeDef(idx))
    } else if tag == 4 {
        Some(HasCustomAttribute::Param(idx))
    } else if tag == 5 {
        Some(HasCustomAttribute::InterfaceImpl(idx))
    } else if tag == 6 {
        Some(HasCustomAttribute::MemberRef(idx))
    } else if tag == 7 {
        Some(HasCustomAttribute::Module(idx))
    } else if tag == 8 {
        Some(HasCustomAttribute::Permission(idx))
    } else if tag == 9 {
        Some(HasCustomAttribute::Property(idx))
    } else if tag == 10 {
        Some(HasCustomAttribute::Event(idx))
    } else if tag == 11 {
        Some(HasCustomAttribute::StandAloneSig(idx))
    } else if tag == 12 {
        Some(HasCustomAttribute::ModuleRef(idx))
    } else if tag == 13 {
        Some(HasCustomAttribute::TypeSpec(idx))
    } else if tag == 14 {
        Some(HasCustomAttribute::Assembly(idx))
    } else if tag == 15 {
        Some(HasCustomAttribute::AssemblyRef(idx))
    } else if tag == 16 {
        Some(HasCustomAttribute::File(idx))
    } else if tag == 17 {
        Some(HasCustomAttribute::ExportedType(idx))
    } else if tag == 18 {
        Some(HasCustomAttribute::ManifestResource(idx))
    } else if tag == 19 {
        Some(HasCustomAttribute::GenericParam(idx))
    } else if tag == 20 {
        Some(HasCustomAttribute::GenericParamConstraint(idx))
    } else if tag == 21 {
        Some(HasCustomAttribute::MethodSpec(idx))
    } else {
        None
    }
}

impl HasCustomAttribute {
    /// Read a `HasCustomAttribute` cell at `*offset`; an unknown tag is fatal.
    pub fn parse(header: &Tables, data: &[u8], offset: &mut usize) -> (r: Result<
        HasCustomAttribute,
        ApsError,
    >)
        ensures
            match r {
                Ok(c) => old(offset) + has_custom_attribute_width(*header) <= data@.len() && spec_has_custom_attribute(
                    *header,
                    data@,
                    *old(offset) as int,
                ) == Some(c) && *final(offset) == *old(offset) + has_custom_attribute_width(*header),
                Err(_) => !(old(offset) + has_custom_attribute_width(*header) <= data@.len() && spec_has_custom_attribute(
                    *header,
                    data@,
                    *old(offset) as int,
                ) is Some),
            },
    {
        let wide = header.lens[METADATA_METHOD_DEF] >= 2048 || header.lens[METADATA_FIELD] >= 2048 || header.lens[METADATA_TYPE_REF] >= 2048 || header.lens[METADATA_TYPE_DEF] >= 2048 || header.lens[METADATA_PARAM] >= 2048 || header.lens[METADATA_INTERFACE_IMPL] >= 2048 || header.lens[METADATA_MEMBER_REF] >= 2048 || header.lens[METADATA_MODULE] >= 2048 || header.lens[METADATA_DECL_SECURITY] >= 2048 || header.lens[METADATA_PROPERTY] >= 2048 || header.lens[METADATA_EVENT] >= 2048 || header.lens[METADATA_STANDALONE_SIG] >= 2048 || header.lens[METADATA_MODULE_REF] >= 2048 || header.lens[METADATA_TYPE_SPEC] >= 2048 || header.lens[METADATA_ASSEMBLY] >= 2048 || header.lens[METADATA_ASSEMBLY_REF] >= 2048 || header.lens[METADATA_FILE] >= 2048 || header.lens[METADATA_EXPORTED_TYPE] >= 2048 || header.lens[METADATA_MANIFEST_RESOURCE] >= 2048 || header.lens[METADATA_GENERIC_PARAM] >= 2048 || header.lens[METADATA_GENERIC_PARAM_CONSTRAINT] >= 2048 || header.lens[METADATA_METHOD_SPEC] >= 2048;
        let value: u32 = if wide {
            read_u32(data, offset)?
        } else {
            read_u16(data, offset)? as u32
        };
        let tag = value & 31;
        let idx = value >> 5u32;
        if tag == 0 {
            Ok(HasCustomAttribute::MethodDef(idx))
        } else if tag == 1 {
            Ok(HasCustomAttribute::Field(idx))
        } else if tag == 2 {
            Ok(HasCustomAttribute::TypeRef(idx))
        } else if tag == 3 {
            Ok(HasCustomAttribute::TypeDef(idx))
        } else if tag == 4 {
            Ok(HasCustomAttribute::Param(idx))
        } else if tag == 5 {
            Ok(HasCustomAttribute::InterfaceImpl(idx))
        } else if tag == 6 {
            Ok(HasCustomAttribute::MemberRef(idx))
        } else if tag == 7 {
            Ok(HasCustomAttribute::Module(idx))
        } else if tag == 8 {
            Ok(HasCustomAttribute::Permission(idx))
        } else if tag == 9 {
            Ok(HasCustomAttribute::Property(idx))
        } else if tag == 10 {
            Ok(HasCustomAttribute::Event(idx))
        } else if tag == 11 {
            Ok(HasCustomAttribute::StandAloneSig(idx))
        } else if tag == 12 {
            Ok(HasCustomAttribute::ModuleRef(idx))
        } else if tag == 13 {
            Ok(HasCustomAttribute::TypeSpec(idx))
        } else if tag == 14 {
            Ok(HasCustomAttribute::Assembly(idx))
        } else if tag == 15 {
            Ok(HasCustomAttribute::AssemblyRef(idx))
        } else if tag == 16 {
            Ok(HasCustomAttribute::File(idx))
        } else if tag == 17 {
            Ok(HasCustomAttribute::ExportedType(idx))
        } else if tag == 18 {
            Ok(HasCustomAttribute::ManifestResource(idx))
        } else if tag == 19 {
            Ok(HasCustomAttribute::GenericParam(idx))
        } else if tag == 20 {
            Ok(HasCustomAttribute::GenericParamConstraint(idx))
        } else if tag == 21 {
            Ok(HasCustomAttribute::MethodSpec(idx))
        } else {
            Err(ApsError::General("Unknown coded index tag."))
        }
    }
}

/// The `HasFieldMarshall` coded-index family, tag width 1 (ECMA II.24.2.6).
#[derive(Debug, PartialEq, Eq, Structural, Copy, Clone)]
pub enum HasFieldMarshall {
    Field(u32),
    Param(u32),
}

/// Whether a `HasFieldMarshall` cell is stored 4 bytes wide: some member table
/// has `2^15` rows or more.
pub open spec fn has_field_marshall_wide(h: Tables) -> bool {
    ||| h.lens@[METADATA_FIELD as int] >= 32768
    ||| h.lens@[METADATA_PARAM as int] >= 32768
}

/// Width in bytes of a `HasFieldMarshall` cell.
pub open spec fn has_field_marshall_width(h: Tables) -> int {
    if has_field_marshall_wide(h) {
        4
    } else {
        2
    }
}

/// The `HasFieldMarshall` cell at `o`: the low 1 bit(s) name the member
/// table, the rest is the row value; `None` on a tag outside the
/// family.
pub open spec fn spec_has_field_marshall(h: Tables, s: Seq<u8>, o: int) -> Option<HasFieldMarshall> {
    let v = if has_field_marshall_wide(h) {
        u32_at(s, o)
    } else {
        u16_at(s, o) as u32
    };
    let tag = v & 1;
    let idx = v >> 1u32;
    if tag == 0 {
        Some(HasFieldMarshall::Field(idx))
    } else if tag == 1 {
        Some(HasFieldMarshall::Param(idx))
    } else {
        None
    }
}

impl HasFieldMarshall {
    /// Read a `HasFieldMarshall` cell at `*offset`; an unknown tag is fatal.
    pub fn parse(header: &Tables, data: &[u8], offset: &mut usize) -> (r: Result<
        HasFieldMarshall,
        ApsError,
    >)
        ensures
            match r {
                Ok(c) => old(offset) + has_field_marshall_width(*header) <= data@.len() && spec_has_field_marshall(
                    *header,
                    data@,
                    *old(offset) as int,
                ) == Some(c) && *final(offset) == *old(offset) + has_field_marshall_width(*header),
                Err(_) => !(old(offset) + has_field_marshall_width(*header) <= data@.len() && spec_has_field_marshall(
                    *header,
                    data@,
                    *old(offset) as int,
                ) is Some),
            },
    {
        let wide = header.lens[METADATA_FIELD] >= 32768 || header.lens[METADATA_PARAM] >= 32768;
        let value: u32 = if wide {
            read_u32(data, offset)?
        } else {
            read_u16(data, offset)? as u32
        };
        let tag = value & 1;
        let idx = value >> 1u32;
        if tag == 0 {
            Ok(HasFieldMarshall::Field(idx))
        } else if tag == 1 {
            Ok(HasFieldMarshall::Param(idx))
        } else {
            Err(ApsError::General("Unknown coded index tag."))
        }
    }
}

/// The `HasDeclSecurity` coded-index family, tag width 2 (ECMA II.24.2.6).
#[derive(Debug, PartialEq, Eq, Structural, Copy, Clone)]
pub enum HasDeclSecurity {
    TypeDef(u32),
    MethodDef(u32),
    Assembly(u32),
}

/// Whether a `HasDeclSecurity` cell is stored 4 bytes wide: some member table
/// has `2^14` rows or more.
pub open spec fn has_decl_security_wide(h: Tables) -> bool {
    ||| h.lens@[METADATA_TYPE_DEF as int] >= 16384
    ||| h.lens@[METADATA_METHOD_DEF as int] >= 16384
    ||| h.lens@[METADATA_ASSEMBLY as int] >= 16384
}

/// Width in bytes of a `HasDeclSecurity` cell.
pub open spec fn has_decl_security_width(h: Tables) -> int {
    if has_decl_security_wide(h) {
        4
    } else {
        2
    }
}

/// The `HasDeclSecurity` cell at `o`: the low 2 bit(s) name the member
/// table, the rest is the row value; `None` on a tag outside the
/// family.
pub open spec fn spec_has_decl_security(h: Tables, s: Seq<u8>, o: int) -> Option<HasDeclSecurity> {
    let v = if has_decl_security_wide(h) {
        u32_at(s, o)
    } else {
        u16_at(s, o) as u32
    };
    let tag = v & 3;
    let idx = v >> 2u32;
    if tag == 0 {
        Some(HasDeclSecurity::TypeDef(idx))
    } else if tag == 1 {
        Some(HasDeclSecurity::MethodDef(idx))
    } else if tag == 2 {
        Some(HasDeclSecurity::Assembly(idx))
    } else {
        None
    }
}

impl HasDeclSecurity {
    /// Read a `HasDeclSecurity` cell at `*offset`; an unknown tag is fatal.
    pub fn parse(header: &Tables, data: &[u8], offset: &mut usize) -> (r: Result<
        HasDeclSecurity,
        ApsError,
    >)
        ensures
            match r {
                Ok(c) => old(offset) + has_decl_security_width(*header) <= data@.len() && spec_has_decl_security(
                    *header,
                    data@,
                    *old(offset) as int,
                ) == Some(c) && *final(offset) == *old(offset) + has_decl_security_width(*header),
                Err(_) => !(old(offset) + has_decl_security_width(*header) <= data@.len() && spec_has_decl_security(
                    *header,
                    data@,
                    *old(offset) as int,
                ) is Some),
            },
    {
        let wide = header.lens[METADATA_TYPE_DEF] >= 16384 || header.lens[METADATA_METHOD_DEF] >= 16384 || header.lens[METADATA_ASSEMBLY] >= 16384;
        let value: u32 = if wide {
            read_u32(data, offset)?
        } else {
            read_u16(data, offset)? as u32
        };
        let tag = value & 3;
        let idx = value >> 2u32;
        if tag == 0 {
            Ok(HasDeclSecurity::TypeDef(idx))
        } else if tag == 1 {
            Ok(HasDeclSecurity::MethodDef(idx))
        } else if tag == 2 {
            Ok(HasDeclSecurity::Assembly(idx))
        } else {
            Err(ApsError::General("Unknown coded index tag."))
        }
    }
}

/// The `MemberRefParent` coded-index family, tag width 3 (ECMA II.24.2.6).
#[derive(Debug, PartialEq, Eq, Structural, Copy, Clone)]
pub enum MemberRefParent {
    TypeDef(u32),
    TypeRef(u32),
    ModuleRef(u32),
    MethodDef(u32),
    TypeSpec(u32),
}

/// Whether a `MemberRefParent` cell is stored 4 bytes wide: some member table
/// has `2^13` rows or more.
pub open spec fn member_ref_parent_wide(h: Tables) -> bool {
    ||| h.lens@[METADATA_TYPE_DEF as int] >= 8192
    ||| h.lens@[METADATA_TYPE_REF as int] >= 8192
    ||| h.lens@[METADATA_MODULE_REF as int] >= 8192
    ||| h.lens@[METADATA_METHOD_DEF as int] >= 8192
    ||| h.lens@[METADATA_TYPE_SPEC as int] >= 8192
}

/// Width in bytes of a `MemberRefParent` cell.
pub open spec fn member_ref_parent_width(h: Tables) -> int {
    if member_ref_parent_wide(h) {
        4
    } else {
        2
    }
}

/// The `MemberRefParent` cell at `o`: the low 3 bit(s) name the member
/// table, the rest is the row value; `None` on a tag outside the
/// family.
pub open spec fn spec_member_ref_parent(h: Tables, s: Seq<u8>, o: int) -> Option<MemberRefParent> {
    let v = if member_ref_parent_wide(h) {
        u32_at(s, o)
    } else {
        u16_at(s, o) as u32
    };
    let tag = v & 7;
    let idx = v >> 3u32;
    if tag == 0 {
        Some(MemberRefParent::TypeDef(idx))
    } else if tag == 1 {
        Some(MemberRefParent::TypeRef(idx))
    } else if tag == 2 {
        Some(MemberRefParent::ModuleRef(idx))
    } else if tag == 3 {
        Some(MemberRefParent::MethodDef(idx))
    } else if tag == 4 {
        Some(MemberRefParent::TypeSpec(idx))
    } else {
        None
    }
}

impl MemberRefParent {
    /// Read a `MemberRefParent` cell at `*offset`; an unknown tag is fatal.
    pub fn parse(header: &Tables, data: &[u8], offset: &mut usize) -> (r: Result<
        MemberRefParent,
        ApsError,
    >)
        ensures
            match r {
                Ok(c) => old(offset) + member_ref_parent_width(*header) <= data@.len() && spec_member_ref_parent(
                    *header,
                    data@,
                    *old(offset) as int,
                ) == Some(c) && *final(offset) == *old(offset) + member_ref_parent_width(*header),
                Err(_) => !(old(offset) + member_ref_parent_width(*header) <= data@.len() && spec_member_ref_parent(
                    *header,
                    data@,
                    *old(offset) as int,
                ) is Some),
            },
    {
        let wide = header.lens[METADATA_TYPE_DEF] >= 8192 || header.lens[METADATA_TYPE_REF] >= 8192 || header.lens[METADATA_MODULE_REF] >= 8192 || header.lens[METADATA_METHOD_DEF] >= 8192 || header.lens[METADATA_TYPE_SPEC] >= 8192;
        let value: u32 = if wide {
            read_u32(data, offset)?
        } else {
            read_u16(data, offset)? as u32
        };
        let tag = value & 7;
        let idx = value >> 3u32;
        if tag == 0 {
            Ok(MemberRefParent::TypeDef(idx))
        } else if tag == 1 {
            Ok(MemberRefParent::TypeRef(idx))
        } else if tag == 2 {
            Ok(MemberRefParent::ModuleRef(idx))
        } else if tag == 3 {
            Ok(MemberRefParent::MethodDef(idx))
        } else if tag == 4 {
            Ok(MemberRefParent::TypeSpec(idx))
        } else {
            Err(ApsError::General("Unknown coded index tag."))
        }
    }
}

/// The `HasSemantics` coded-index family, tag width 1 (ECMA II.24.2.6).
#[derive(Debug, PartialEq, Eq, Structural, Copy, Clone)]
pub enum HasSemantics {
    Event(u32),
    Property(u32),
}

/// Whether a `HasSemantics` cell is stored 4 bytes wide: some member table
/// has `2^15` rows or more.
pub open spec fn has_semantics_wide(h: Tables) -> bool {
    ||| h.lens@[METADATA_EVENT as int] >= 32768
    ||| h.lens@[METADATA_PROPERTY as int] >= 32768
}

/// Width in bytes of a `HasSemantics` cell.
pub open spec fn has_semantics_width(h: Tables) -> int {
    if has_semantics_wide(h) {
        4
    } else {
        2
    }
}

/// The `HasSemantics` cell at `o`: the low 1 bit(s) name the member
/// table, the rest is the row value; `None` on a tag outside the
/// family.
pub open spec fn spec_has_semantics(h: Tables, s: Seq<u8>, o: int) -> Option<HasSemantics> {
    let v = if has_semantics_wide(h) {
        u32_at(s, o)
    } else {
        u16_at(s, o) as u32
    };
    let tag = v & 1;
    let idx = v >> 1u32;
    if tag == 0 {
        Some(HasSemantics::Event(idx))
    } else if tag == 1 {
        Some(HasSemantics::Property(idx))
    } else {
        None
    }
}

impl HasSemantics {
    /// Read a `HasSemantics` cell at `*offset`; an unknown tag is fatal.
    pub fn parse(header: &Tables, data: &[u8], offset: &mut usize) -> (r: Result<
        HasSemantics,
        ApsError,
    >)
        ensures
            match r {
                Ok(c) => old(offset) + has_semantics_width(*header) <= data@.len() && spec_has_semantics(
                    *header,
                    data@,
                    *old(offset) as int,
                ) == Some(c) && *final(offset) == *old(offset) + has_semantics_width(*header),
                Err(_) => !(old(offset) + has_semantics_width(*header) <= data@.len() && spec_has_semantics(
                    *header,
                    data@,
                    *old(offset) as int,
                ) is Some),
            },
    {
        let wide = header.lens[METADATA_EVENT] >= 32768 || header.lens[METADATA_PROPERTY] >= 32768;
        let value: u32 = if wide {
            read_u32(data, offset)?
        } else {
            read_u16(data, offset)? as u32
        };
        let tag = value & 1;
        let idx = value >> 1u32;
        if tag == 0 {
            Ok(HasSemantics::Event(idx))
        } else if tag == 1 {
            Ok(HasSemantics::Property(idx))
        } else {
            Err(ApsError::General("Unknown coded index tag."))
        }
    }
}

/// The `MethodDefOrRef` coded-index family, tag width 1 (ECMA II.24.2.6).
#[derive(Debug, PartialEq, Eq, Structural, Copy, Clone)]
pub enum MethodDefOrRef {
    MethodDef(u32),
    MemberRef(u32),
}

/// Whether a `MethodDefOrRef` cell is stored 4 bytes wide: some member table
/// has `2^15` rows or more.
pub open spec fn method_def_or_ref_wide(h: Tables) -> bool {
    ||| h.lens@[METADATA_METHOD_DEF as int] >= 32768
    ||| h.lens@[METADATA_MEMBER_REF as int] >= 32768
}

/// Width in bytes of a `MethodDefOrRef` cell.
pub open spec fn method_def_or_ref_width(h: Tables) -> int {
    if method_def_or_ref_wide(h) {
        4
    } else {
        2
    }
}

/// The `MethodDefOrRef` cell at `o`: the low 1 bit(s) name the member
/// table, the rest is the row value; `None` on a tag outside the
/// family.
pub open spec fn spec_method_def_or_ref(h: Tables, s: Seq<u8>, o: int) -> Option<MethodDefOrRef> {
    let v = if method_def_or_ref_wide(h) {
        u32_at(s, o)
    } else {
        u16_at(s, o) as u32
    };
    let tag = v & 1;
    let idx = v >> 1u32;
    if tag == 0 {
        Some(MethodDefOrRef::MethodDef(idx))
    } else if tag == 1 {
        Some(MethodDefOrRef::MemberRef(idx))
    } else {
        None
    }
}

impl MethodDefOrRef {
    /// Read a `MethodDefOrRef` cell at `*offset`; an unknown tag is fatal.
    pub fn parse(header: &Tables, data: &[u8], offset: &mut usize) -> (r: Result<
        MethodDefOrRef,
        ApsError,
    >)
        ensures
            match r {
                Ok(c) => old(offset) + method_def_or_ref_width(*header) <= data@.len() && spec_method_def_or_ref(
                    *header,
                    data@,
                    *old(offset) as int,
                ) == Some(c) && *final(offset) == *old(offset) + method_def_or_ref_width(*header),
                Err(_) => !(old(offset) + method_def_or_ref_width(*header) <= data@.len() && spec_method_def_or_ref(
                    *header,
                    data@,
                    *old(offset) as int,
                ) is Some),
            },
    {
        let wide = header.lens[METADATA_METHOD_DEF] >= 32768 || header.lens[METADATA_MEMBER_REF] >= 32768;
        let value: u32 = if wide {
            read_u32(data, offset)?
        } else {
            read_u16(data, offset)? as u32
        };
        let tag = value & 1;
        let idx = value >> 1u32;
        if tag == 0 {
            Ok(MethodDefOrRef::MethodDef(idx))
        } else if tag == 1 {
            Ok(MethodDefOrRef::MemberRef(idx))
        } else {
            Err(ApsError::General("Unknown coded index tag."))
        }
    }
}

/// The `MemberForwarded` coded-index family, tag width 1 (ECMA II.24.2.6).
#[derive(Debug, PartialEq, Eq, Structural, Copy, Clone)]
pub enum MemberForwarded {
    Field(u32),
    MethodDef(u32),
}

/// Whether a `MemberForwarded` cell is stored 4 bytes wide: some member table
/// has `2^15` rows or more.
pub open spec fn member_forwarded_wide(h: Tables) -> bool {
    ||| h.lens@[METADATA_FIELD as int] >= 32768
    ||| h.lens@[METADATA_METHOD_DEF as int] >= 32768
}

/// Width in bytes of a `MemberForwarded` cell.
pub open spec fn member_forwarded_width(h: Tables) -> int {
    if member_forwarded_wide(h) {
        4
    } else {
        2
    }
}

/// The `MemberForwarded` cell at `o`: the low 1 bit(s) name the member
/// table, the rest is the row value; `None` on a tag outside the
/// family.
pub open spec fn spec_member_forwarded(h: Tables, s: Seq<u8>, o: int) -> Option<MemberForwarded> {
    let v = if member_forwarded_wide(h) {
        u32_at(s, o)
    } else {
        u16_at(s, o) as u32
    };
    let tag = v & 1;
    let idx = v >> 1u32;
    if tag == 0 {
        Some(MemberForwarded::Field(idx))
    } else if tag == 1 {
        Some(MemberForwarded::MethodDef(idx))
    } else {
        None
    }
}

impl MemberForwarded {
    /// Read a `MemberForwarded` cell at `*offset`; an unknown tag is fatal.
    pub fn parse(header: &Tables, data: &[u8], offset: &mut usize) -> (r: Result<
        MemberForwarded,
        ApsError,
    >)
        ensures
            match r {
                Ok(c) => old(offset) + member_forwarded_width(*header) <= data@.len() && spec_member_forwarded(
                    *header,
                    data@,
                    *old(offset) as int,
                ) == Some(c) && *final(offset) == *old(offset) + member_forwarded_width(*header),
                Err(_) => !(old(offset) + member_forwarded_width(*header) <= data@.len() && spec_member_forwarded(
                    *header,
                    data@,
                    *old(offset) as int,
                ) is Some),
            },
    {
        let wide = header.lens[METADATA_FIELD] >= 32768 || header.lens[METADATA_METHOD_DEF] >= 32768;
        let value: u32 = if wide {
            read_u32(data, offset)?
        } else {
            read_u16(data, offset)? as u32
        };
        let tag = value & 1;
        let idx = value >> 1u32;
        if tag == 0 {
            Ok(MemberForwarded::Field(idx))
        } else if tag == 1 {
            Ok(MemberForwarded::MethodDef(idx))
        } else {
            Err(ApsError::General("Unknown coded index tag."))
        }
    }
}

/// The `Implementation` coded-index family, tag width 2 (ECMA II.24.2.6).
#[derive(Debug, PartialEq, Eq, Structural, Copy, Clone)]
pub enum Implementation {
    File(u32),
    AssemblyRef(u32),
    ExportedType(u32),
}

/// Whether a `Implementation` cell is stored 4 bytes wide: some member table
/// has `2^14` rows or more.
pub open spec fn implementation_wide(h: Tables) -> bool {
    ||| h.lens@[METADATA_FILE as int] >= 16384
    ||| h.lens@[METADATA_ASSEMBLY_REF as int] >= 16384
    ||| h.lens@[METADATA_EXPORTED_TYPE as int] >= 16384
}

/// Width in bytes of a `Implementation` cell.
pub open spec fn implementation_width(h: Tables) -> int {
    if implementation_wide(h) {
        4
    } else {
        2
    }
}

/// The `Implementation` cell at `o`: the low 2 bit(s) name the member
/// table, the rest is the row value; `None` on a tag outside the
/// family.
pub open spec fn spec_implementation(h: Tables, s: Seq<u8>, o: int) -> Option<Implementation> {
    let v = if implementation_wide(h) {
        u32_at(s, o)
    } else {
        u16_at(s, o) as u32
    };
    let tag = v & 3;
    let idx = v >> 2u32;
    if tag == 0 {
        Some(Implementation::File(idx))
    } else if tag == 1 {
        Some(Implementation::AssemblyRef(idx))
    } else if tag == 2 {
        Some(Implementation::ExportedType(idx))
    } else {
        None
    }
}

impl Implementation {
    /// Read a `Implementation` cell at `*offset`; an unknown tag is fatal.
    pub fn parse(header: &Tables, data: &[u8], offset: &mut usize) -> (r: Result<
        Implementation,
        ApsError,
    >)
        ensures
            match r {
                Ok(c) => old(offset) + implementation_width(*header) <= data@.len() && spec_implementation(
                    *header,
                    data@,
                    *old(offset) as int,
                ) == Some(c) && *final(offset) == *old(offset) + implementation_width(*header),
                Err(_) => !(old(offset) + implementation_width(*header) <= data@.len() && spec_implementation(
                    *header,
                    data@,
                    *old(offset) as int,
                ) is Some),
            },
    {
        let wide = header.lens[METADATA_FILE] >= 16384 || header.lens[METADATA_ASSEMBLY_REF] >= 16384 || header.lens[METADATA_EXPORTED_TYPE] >= 16384;
        let value: u32 = if wide {
            read_u32(data, offset)?
        } else {
            read_u16(data, offset)? as u32
        };
        let tag = value & 3;
        let idx = value >> 2u32;
        if tag == 0 {
            Ok(Implementation::File(idx))
        } else if tag == 1 {
            Ok(Implementation::AssemblyRef(idx))
        } else if tag == 2 {
            Ok(Implementation::ExportedType(idx))
        } else {
            Err(ApsError::General("Unknown coded index tag."))
        }
    }
}

/// The `CustomAttributeType` coded-index family, tag width 3 (ECMA II.24.2.6).
#[derive(Debug, PartialEq, Eq, Structural, Copy, Clone)]
pub enum CustomAttributeType {
    MethodDef(u32),
    MemberRef(u32),
}

/// Whether a `CustomAttributeType` cell is stored 4 bytes wide: some member table
/// has `2^13` rows or more.
pub open spec fn custom_attribute_type_wide(h: Tables) -> bool {
    ||| h.lens@[METADATA_METHOD_DEF as int] >= 8192
    ||| h.lens@[METADATA_MEMBER_REF as int] >= 8192
}

/// Width in bytes of a `CustomAttributeType` cell.
pub open spec fn custom_attribute_type_width(h: Tables) -> int {
    if custom_attribute_type_wide(h) {
        4
    } else {
        2
    }
}

/// The `CustomAttributeType` cell at `o`: the low 3 bit(s) name the member
/// table, the rest is the row value; `None` on a tag outside the
/// family.
pub open spec fn spec_custom_attribute_type(h: Tables, s: Seq<u8>, o: int) -> Option<CustomAttributeType> {
    let v = if custom_attribute_type_wide(h) {
        u32_at(s, o)
    } else {
        u16_at(s, o) as u32
    };
    let tag = v & 7;
    let idx = v >> 3u32;
    if tag == 2 {
        Some(CustomAttributeType::MethodDef(idx))
    } else if tag == 3 {
        Some(CustomAttributeType::MemberRef(idx))
    } else {
        None
    }
}

impl CustomAttributeType {
    /// Read a `CustomAttributeType` cell at `*offset`; an unknown tag is fatal.
    pub fn parse(header: &Tables, data: &[u8], offset: &mut usize) -> (r: Result<
        CustomAttributeType,
        ApsError,
    >)
        ensures
            match r {
                Ok(c) => old(offset) + custom_attribute_type_width(*header) <= data@.len() && spec_custom_attribute_type(
                    *header,
                    data@,
                    *old(offset) as int,
                ) == Some(c) && *final(offset) == *old(offset) + custom_attribute_type_width(*header),
                Err(_) => !(old(offset) + custom_attribute_type_width(*header) <= data@.len() && spec_custom_attribute_type(
                    *header,
                    data@,
                    *old(offset) as int,
                ) is Some),
            },
    {
        let wide = header.lens[METADATA_METHOD_DEF] >= 8192 || header.lens[METADATA_MEMBER_REF] >= 8192;
        let value: u32 = if wide {
            read_u32(data, offset)?
        } else {
            read_u16(data, offset)? as u32
        };
        let tag = value & 7;
        let idx = value >> 3u32;
        if tag == 2 {
            Ok(CustomAttributeType::MethodDef(idx))
        } else if tag == 3 {
            Ok(CustomAttributeType::MemberRef(idx))
        } else {
            Err(ApsError::General("Unknown coded index tag."))
        }
    }
}

/// The `ResolutionScope` coded-index family, tag width 2 (ECMA II.24.2.6).
#[derive(Debug, PartialEq, Eq, Structural, Copy, Clone)]
pub enum ResolutionScope {
    Module(u32),
    ModuleRef(u32),
    AssemblyRef(u32),
    TypeRef(u32),
}

/// Whether a `ResolutionScope` cell is stored 4 bytes wide: some member table
/// has `2^14` rows or more.
pub open spec fn resolution_scope_wide(h: Tables) -> bool {
    ||| h.lens@[METADATA_MODULE as int] >= 16384
    ||| h.lens@[METADATA_MODULE_REF as int] >= 16384
    ||| h.lens@[METADATA_ASSEMBLY_REF as int] >= 16384
    ||| h.lens@[METADATA_TYPE_REF as int] >= 16384
}

/// Width in bytes of a `ResolutionScope` cell.
pub open spec fn resolution_scope_width(h: Tables) -> int {
    if resolution_scope_wide(h) {
        4
    } else {
        2
    }
}

/// The `ResolutionScope` cell at `o`: the low 2 bit(s) name the member
/// table, the rest is the row value; `None` on a tag outside the
/// family.
pub open spec fn spec_resolution_scope(h: Tables, s: Seq<u8>, o: int) -> Option<ResolutionScope> {
    let v = if resolution_scope_wide(h) {
        u32_at(s, o)
    } else {
        u16_at(s, o) as u32
    };
    let tag = v & 3;
    let idx = v >> 2u32;
    if tag == 0 {
        Some(ResolutionScope::Module(idx))
    } else if tag == 1 {
        Some(ResolutionScope::ModuleRef(idx))
    } else if tag == 2 {
        Some(ResolutionScope::AssemblyRef(idx))
    } else if tag == 3 {
        Some(ResolutionScope::TypeRef(idx))
    } else {
        None
    }
}

impl ResolutionScope {
    /// Read a `ResolutionScope` cell at `*offset`; an unknown tag is fatal.
    pub fn parse(header: &Tables, data: &[u8], offset: &mut usize) -> (r: Result<
        ResolutionScope,
        ApsError,
    >)
        ensures
            match r {
                Ok(c) => old(offset) + resolution_scope_width(*header) <= data@.len() && spec_resolution_scope(
                    *header,
                    data@,
                    *old(offset) as int,
                ) == Some(c) && *final(offset) == *old(offset) + resolution_scope_width(*header),
                Err(_) => !(old(offset) + resolution_scope_width(*header) <= data@.len() && spec_resolution_scope(
                    *header,
                    data@,
                    *old(offset) as int,
                ) is Some),
            },
    {
        let wide = header.lens[METADATA_MODULE] >= 16384 || header.lens[METADATA_MODULE_REF] >= 16384 || header.lens[METADATA_ASSEMBLY_REF] >= 16384 || header.lens[METADATA_TYPE_REF] >= 16384;
        let value: u32 = if wide {
            read_u32(data, offset)?
        } else {
            read_u16(data, offset)? as u32
        };
        let tag = value & 3;
        let idx = value >> 2u32;
        if tag == 0 {
            Ok(ResolutionScope::Module(idx))
        } else if tag == 1 {
            Ok(ResolutionScope::ModuleRef(idx))
        } else if tag == 2 {
            Ok(ResolutionScope::AssemblyRef(idx))
        } else if tag == 3 {
            Ok(ResolutionScope::TypeRef(idx))
        } else {
            Err(ApsError::General("Unknown coded index tag."))
        }
    }
}


/// The assembly hash algorithm of ECMA II.22.2: MD5 or SHA1.
#[derive(Debug, PartialEq, Eq, Structural, Copy, Clone)]
pub enum HashAlgo {
    MD5,
    SHA1,
}

/// The hash-algorithm cell at `o`: `0x8003` is MD5 and `0x8004` is
/// SHA1; any other value is outside the catalog.
pub open spec fn spec_hash_algo(s: Seq<u8>, o: int) -> Option<HashAlgo> {
    if u32_at(s, o) == 0x8003 {
        Some(HashAlgo::MD5)
    } else if u32_at(s, o) == 0x8004 {
        Some(HashAlgo::SHA1)
    } else {
        None
    }
}

impl HashAlgo {
    /// Read a hash-algorithm cell at `*offset`; an unknown algorithm
    /// is fatal.
    pub fn parse(data: &[u8], offset: &mut usize) -> (r: Result<HashAlgo, ApsError>)
        ensures
            match r {
                Ok(a) => old(offset) + 4 <= data@.len() && spec_hash_algo(
                    data@,
                    *old(offset) as int,
                ) == Some(a) && *final(offset) == *old(offset) + 4,
                Err(_) => !(old(offset) + 4 <= data@.len() && spec_hash_algo(
                    data@,
                    *old(offset) as int,
                ) is Some),
            },
    {
        let algo = read_u32(data, offset)?;
        match algo {
            0x8003 => Ok(HashAlgo::MD5),
            0x8004 => Ok(HashAlgo::SHA1),
            _ => Err(ApsError::General("Unknown hash algorithm.")),
        }
    }
}

/// One logical-table row shape: its width under the prologue's
/// widths, its decoding, and a verified reader.
pub trait Row: Sized {
    /// Width in bytes of one row of this table under `h`.
    spec fn row_size(h: Tables) -> int;

    /// The row decoded at `o` of `s`: `Some` exactly when the whole
    /// row lies within `s` and every cell of it is valid.
    spec fn spec_row(h: Tables, s: Seq<u8>, o: int) -> Option<Self>;

    /// A row spans at least one byte and boundedly many.
    proof fn lemma_row_size(h: Tables)
        ensures
            1 <= Self::row_size(h) <= 64,
    ;

    /// Decode the row at `*offset`, advancing by the row width;
    /// errors exactly where `spec_row` has nothing.
    fn parse(header: &Tables, data: &[u8], offset: &mut usize) -> (r: Result<Self, ApsError>)
        ensures
            match r {
                Ok(row) => Self::spec_row(*header, data@, *old(offset) as int) == Some(row)
                    && *final(offset) == *old(offset) + Self::row_size(*header),
                Err(_) => Self::spec_row(*header, data@, *old(offset) as int) is None,
            },
    ;
}

/// A simple index into the `Field` table, as read from a row.
#[derive(Debug, PartialEq, Eq, Structural, Copy, Clone)]
pub struct FieldIndex(pub u32);

impl FieldIndex {
    /// Read a `Field` row index at `*offset`, held below that
    /// table's row count.
    pub fn parse(header: &Tables, data: &[u8], offset: &mut usize) -> (r: Result<
        FieldIndex,
        ApsError,
    >)
        ensures
            match r {
                Ok(v) => old(offset) + simple_width(header.lens@[METADATA_FIELD as int])
                    <= data@.len() && spec_simple(
                    data@,
                    *old(offset) as int,
                    header.lens@[METADATA_FIELD as int],
                ) == Some(v.0) && *final(offset) == *old(offset) + simple_width(
                    header.lens@[METADATA_FIELD as int],
                ),
                Err(_) => !(old(offset) + simple_width(header.lens@[METADATA_FIELD as int])
                    <= data@.len() && spec_simple(
                    data@,
                    *old(offset) as int,
                    header.lens@[METADATA_FIELD as int],
                ) is Some),
            },
    {
        let v = read_simple_idx(data, offset, header.lens[METADATA_FIELD])?;
        Ok(FieldIndex(v))
    }
}

/// A simple index into the `MethodDef` table, as read from a row.
#[derive(Debug, PartialEq, Eq, Structural, Copy, Clone)]
pub struct MethodDefIndex(pub u32);

impl MethodDefIndex {
    /// Read a `MethodDef` row index at `*offset`, held below that
    /// table's row count.
    pub fn parse(header: &Tables, data: &[u8], offset: &mut usize) -> (r: Result<
        MethodDefIndex,
        ApsError,
    >)
        ensures
            match r {
                Ok(v) => old(offset) + simple_width(header.lens@[METADATA_METHOD_DEF as int])
                    <= data@.len() && spec_simple(
                    data@,
                    *old(offset) as int,
                    header.lens@[METADATA_METHOD_DEF as int],
                ) == Some(v.0) && *final(offset) == *old(offset) + simple_width(
                    header.lens@[METADATA_METHOD_DEF as int],
                ),
                Err(_) => !(old(offset) + simple_width(header.lens@[METADATA_METHOD_DEF as int])
                    <= data@.len() && spec_simple(
                    data@,
                    *old(offset) as int,
                    header.lens@[METADATA_METHOD_DEF as int],
                ) is Some),
            },
    {
        let v = read_simple_idx(data, offset, header.lens[METADATA_METHOD_DEF])?;
        Ok(MethodDefIndex(v))
    }
}

/// A simple index into the `Param` table, as read from a row.
#[derive(Debug, PartialEq, Eq, Structural, Copy, Clone)]
pub struct ParamIndex(pub u32);

impl ParamIndex {
    /// Read a `Param` row index at `*offset`, held below that
    /// table's row count.
    pub fn parse(header: &Tables, data: &[u8], offset: &mut usize) -> (r: Result<
        ParamIndex,
        ApsError,
    >)
        ensures
            match r {
                Ok(v) => old(offset) + simple_width(header.lens@[METADATA_PARAM as int])
                    <= data@.len() && spec_simple(
                    data@,
                    *old(offset) as int,
                    header.lens@[METADATA_PARAM as int],
                ) == Some(v.0) && *final(offset) == *old(offset) + simple_width(
                    header.lens@[METADATA_PARAM as int],
                ),
                Err(_) => !(old(offset) + simple_width(header.lens@[METADATA_PARAM as int])
                    <= data@.len() && spec_simple(
                    data@,
                    *old(offset) as int,
                    header.lens@[METADATA_PARAM as int],
                ) is Some),
            },
    {
        let v = read_simple_idx(data, offset, header.lens[METADATA_PARAM])?;
        Ok(ParamIndex(v))
    }
}

/// A simple index into the `TypeDef` table, as read from a row.
#[derive(Debug, PartialEq, Eq, Structural, Copy, Clone)]
pub struct TypeDefIndex(pub u32);

impl TypeDefIndex {
    /// Read a `TypeDef` row index at `*offset`, held below that
    /// table's row count.
    pub fn parse(header: &Tables, data: &[u8], offset: &mut usize) -> (r: Result<
        TypeDefIndex,
        ApsError,
    >)
        ensures
            match r {
                Ok(v) => old(offset) + simple_width(header.lens@[METADATA_TYPE_DEF as int])
                    <= data@.len() && spec_simple(
                    data@,
                    *old(offset) as int,
                    header.lens@[METADATA_TYPE_DEF as int],
                ) == Some(v.0) && *final(offset) == *old(offset) + simple_width(
                    header.lens@[METADATA_TYPE_DEF as int],
                ),
                Err(_) => !(old(offset) + simple_width(header.lens@[METADATA_TYPE_DEF as int])
                    <= data@.len() && spec_simple(
                    data@,
                    *old(offset) as int,
                    header.lens@[METADATA_TYPE_DEF as int],
                ) is Some),
            },
    {
        let v = read_simple_idx(data, offset, header.lens[METADATA_TYPE_DEF])?;
        Ok(TypeDefIndex(v))
    }
}

/// A simple index into the `Event` table, as read from a row.
#[derive(Debug, PartialEq, Eq, Structural, Copy, Clone)]
pub struct EventIndex(pub u32);

impl EventIndex {
    /// Read a `Event` row index at `*offset`, held below that
    /// table's row count.
    pub fn parse(header: &Tables, data: &[u8], offset: &mut usize) -> (r: Result<
        EventIndex,
        ApsError,
    >)
        ensures
            match r {
                Ok(v) => old(offset) + simple_width(header.lens@[METADATA_EVENT as int])
                    <= data@.len() && spec_simple(
                    data@,
                    *old(offset) as int,
                    header.lens@[METADATA_EVENT as int],
                ) == Some(v.0) && *final(offset) == *old(offset) + simple_width(
                    header.lens@[METADATA_EVENT as int],
                ),
                Err(_) => !(old(offset) + simple_width(header.lens@[METADATA_EVENT as int])
                    <= data@.len() && spec_simple(
                    data@,
                    *old(offset) as int,
                    header.lens@[METADATA_EVENT as int],
                ) is Some),
            },
    {
        let v = read_simple_idx(data, offset, header.lens[METADATA_EVENT])?;
        Ok(EventIndex(v))
    }
}

/// A simple index into the `Property` table, as read from a row.
#[derive(Debug, PartialEq, Eq, Structural, Copy, Clone)]
pub struct PropertyIndex(pub u32);

impl PropertyIndex {
    /// Read a `Property` row index at `*offset`, held below that
    /// table's row count.
    pub fn parse(header: &Tables, data: &[u8], offset: &mut usize) -> (r: Result<
        PropertyIndex,
        ApsError,
    >)
        ensures
            match r {
                Ok(v) => old(offset) + simple_width(header.lens@[METADATA_PROPERTY as int])
                    <= data@.len() && spec_simple(
                    data@,
                    *old(offset) as int,
                    header.lens@[METADATA_PROPERTY as int],
                ) == Some(v.0) && *final(offset) == *old(offset) + simple_width(
                    header.lens@[METADATA_PROPERTY as int],
                ),
                Err(_) => !(old(offset) + simple_width(header.lens@[METADATA_PROPERTY as int])
                    <= data@.len() && spec_simple(
                    data@,
                    *old(offset) as int,
                    header.lens@[METADATA_PROPERTY as int],
                ) is Some),
            },
    {
        let v = read_simple_idx(data, offset, header.lens[METADATA_PROPERTY])?;
        Ok(PropertyIndex(v))
    }
}

/// A simple index into the `ModuleRef` table, as read from a row.
#[derive(Debug, PartialEq, Eq, Structural, Copy, Clone)]
pub struct ModuleRefIndex(pub u32);

impl ModuleRefIndex {
    /// Read a `ModuleRef` row index at `*offset`, held below that
    /// table's row count.
    pub fn parse(header: &Tables, data: &[u8], offset: &mut usize) -> (r: Result<
        ModuleRefIndex,
        ApsError,
    >)
        ensures
            match r {
                Ok(v) => old(offset) + simple_width(header.lens@[METADATA_MODULE_REF as int])
                    <= data@.len() && spec_simple(
                    data@,
                    *old(offset) as int,
                    header.lens@[METADATA_MODULE_REF as int],
                ) == Some(v.0) && *final(offset) == *old(offset) + simple_width(
                    header.lens@[METADATA_MODULE_REF as int],
                ),
                Err(_) => !(old(offset) + simple_width(header.lens@[METADATA_MODULE_REF as int])
                    <= data@.len() && spec_simple(
                    data@,
                    *old(offset) as int,
                    header.lens@[METADATA_MODULE_REF as int],
                ) is Some),
            },
    {
        let v = read_simple_idx(data, offset, header.lens[METADATA_MODULE_REF])?;
        Ok(ModuleRefIndex(v))
    }
}

/// A `Module` table row (II.22.30).
#[derive(Debug, PartialEq, Eq, Structural, Copy, Clone)]
pub struct Module {
    pub name: StringIndex,
    pub mvid: GuidIndex,
}

impl Row for Module {
    open spec fn row_size(h: Tables) -> int {
        2 + idx_width(h.string_index_size) + idx_width(h.guid_index_size) + 2 + 2
    }

    open spec fn spec_row(h: Tables, s: Seq<u8>, o: int) -> Option<Module> {
        let o_name = o + 2;
        let o_mvid = o_name + idx_width(h.string_index_size);
        let o_r1 = o_mvid + idx_width(h.guid_index_size);
        let o_r2 = o_r1 + 2;
        if o + Self::row_size(h) <= s.len()
            && u16_at(s, o) == 0
            && u16_at(s, o_r1) == 0
            && u16_at(s, o_r2) == 0 {
            Some(
                Module {
                    name: StringIndex(spec_heap_idx(s, o_name, h.string_index_size)),
                    mvid: GuidIndex(spec_heap_idx(s, o_mvid, h.guid_index_size)),
                },
            )
        } else {
            None
        }
    }

    proof fn lemma_row_size(h: Tables) {
    }

    fn parse(header: &Tables, data: &[u8], offset: &mut usize) -> (r: Result<Module, ApsError>) {
        let reserved0 = read_u16(data, offset)?;
        if reserved0 != 0 {
            return Err(ApsError::General("Module has invalid generation."));
        }
        let name = StringIndex::parse(header, data, offset)?;
        let mvid = GuidIndex::parse(header, data, offset)?;
        let reserved4 = read_u16(data, offset)?;
        if reserved4 != 0 {
            return Err(ApsError::General("Module.EncId is not zero."));
        }
        let reserved6 = read_u16(data, offset)?;
        if reserved6 != 0 {
            return Err(ApsError::General("Module.EncBaseId is not zero."));
        }
        Ok(Module { name, mvid })
    }
}

/// A `TypeRef` table row (II.22.38).
#[derive(Debug, PartialEq, Eq, Structural, Copy, Clone)]
pub struct TypeRef {
    pub scope: ResolutionScope,
    pub name: StringIndex,
    pub namespace: StringIndex,
}

impl Row for TypeRef {
    open spec fn row_size(h: Tables) -> int {
        resolution_scope_width(h) + idx_width(h.string_index_size) + idx_width(h.string_index_size)
    }

    open spec fn spec_row(h: Tables, s: Seq<u8>, o: int) -> Option<TypeRef> {
        let o_name = o + resolution_scope_width(h);
        let o_namespace = o_name + idx_width(h.string_index_size);
        if o + Self::row_size(h) <= s.len()
            && spec_resolution_scope(h, s, o) is Some {
            Some(
                TypeRef {
                    scope: spec_resolution_scope(h, s, o)->Some_0,
                    name: StringIndex(spec_heap_idx(s, o_name, h.string_index_size)),
                    namespace: StringIndex(spec_heap_idx(s, o_namespace, h.string_index_size)),
                },
            )
        } else {
            None
        }
    }

    proof fn lemma_row_size(h: Tables) {
    }

    fn parse(header: &Tables, data: &[u8], offset: &mut usize) -> (r: Result<TypeRef, ApsError>) {
        let scope = ResolutionScope::parse(header, data, offset)?;
        let name = StringIndex::parse(header, data, offset)?;
        let namespace = StringIndex::parse(header, data, offset)?;
        Ok(TypeRef { scope, name, namespace })
    }
}

/// A `TypeDef` table row (II.22.37).
#[derive(Debug, PartialEq, Eq, Structural, Copy, Clone)]
pub struct TypeDef {
    pub flags: u32,
    pub name: StringIndex,
    pub namespace: StringIndex,
    pub extends: TypeDefOrRef,
    pub field_list: FieldIndex,
    pub method_list: MethodDefIndex,
}

impl Row for TypeDef {
    open spec fn row_size(h: Tables) -> int {
        4 + idx_width(h.string_index_size) + idx_width(h.string_index_size) + type_def_or_ref_width(h) + simple_width(h.lens@[METADATA_FIELD as int]) + simple_width(h.lens@[METADATA_METHOD_DEF as int])
    }

    open spec fn spec_row(h: Tables, s: Seq<u8>, o: int) -> Option<TypeDef> {
        let o_name = o + 4;
        let o_namespace = o_name + idx_width(h.string_index_size);
        let o_extends = o_namespace + idx_width(h.string_index_size);
        let o_field_list = o_extends + type_def_or_ref_width(h);
        let o_method_list = o_field_list + simple_width(h.lens@[METADATA_FIELD as int]);
        if o + Self::row_size(h) <= s.len()
            && spec_type_def_or_ref(h, s, o_extends) is Some
            && spec_simple(s, o_field_list, h.lens@[METADATA_FIELD as int]) is Some
            && spec_simple(s, o_method_list, h.lens@[METADATA_METHOD_DEF as int]) is Some {
            Some(
                TypeDef {
                    flags: u32_at(s, o),
                    name: StringIndex(spec_heap_idx(s, o_name, h.string_index_size)),
                    namespace: StringIndex(spec_heap_idx(s, o_namespace, h.string_index_size)),
                    extends: spec_type_def_or_ref(h, s, o_extends)->Some_0,
                    field_list: FieldIndex(spec_simple(s, o_field_list, h.lens@[METADATA_FIELD as int])->Some_0),
                    method_list: MethodDefIndex(spec_simple(s, o_method_list, h.lens@[METADATA_METHOD_DEF as int])->Some_0),
                },
            )
        } else {
            None
        }
    }

    proof fn lemma_row_size(h: Tables) {
    }

    fn parse(header: &Tables, data: &[u8], offset: &mut usize) -> (r: Result<TypeDef, ApsError>) {
        let flags = read_u32(data, offset)?;
        let name = StringIndex::parse(header, data, offset)?;
        let namespace = StringIndex::parse(header, data, offset)?;
        let extends = TypeDefOrRef::parse(header, data, offset)?;
        let field_list = FieldIndex::parse(header, data, offset)?;
        let method_list = MethodDefIndex::parse(header, data, offset)?;
        Ok(TypeDef { flags, name, namespace, extends, field_list, method_list })
    }
}

/// A `Field` table row (II.22.15).
#[derive(Debug, PartialEq, Eq, Structural, Copy, Clone)]
pub struct Field {
    pub flags: u16,
    pub name: StringIndex,
    pub sig: BlobIndex,
}

impl Row for Field {
    open spec fn row_size(h: Tables) -> int {
        2 + idx_width(h.string_index_size) + idx_width(h.blob_index_size)
    }

    open spec fn spec_row(h: Tables, s: Seq<u8>, o: int) -> Option<Field> {
        let o_name = o + 2;
        let o_sig = o_name + idx_width(h.string_index_size);
        if o + Self::row_size(h) <= s.len() {
            Some(
                Field {
                    flags: u16_at(s, o),
                    name: StringIndex(spec_heap_idx(s, o_name, h.string_index_size)),
                    sig: BlobIndex(spec_heap_idx(s, o_sig, h.blob_index_size)),
                },
            )
        } else {
            None
        }
    }

    proof fn lemma_row_size(h: Tables) {
    }

    fn parse(header: &Tables, data: &[u8], offset: &mut usize) -> (r: Result<Field, ApsError>) {
        let flags = read_u16(data, offset)?;
        let name = StringIndex::parse(header, data, offset)?;
        let sig = BlobIndex::parse(header, data, offset)?;
        Ok(Field { flags, name, sig })
    }
}

/// A `MethodDef` table row (II.22.26).
#[derive(Debug, PartialEq, Eq, Structural, Copy, Clone)]
pub struct MethodDef {
    pub rva: u32,
    pub impl_flags: u16,
    pub flags: u16,
    pub name: StringIndex,
    pub sig: BlobIndex,
    pub param_list: ParamIndex,
}

impl Row for MethodDef {
    open spec fn row_size(h: Tables) -> int {
        4 + 2 + 2 + idx_width(h.string_index_size) + idx_width(h.blob_index_size) + simple_width(h.lens@[METADATA_PARAM as int])
    }

    open spec fn spec_row(h: Tables, s: Seq<u8>, o: int) -> Option<MethodDef> {
        let o_impl_flags = o + 4;
        let o_flags = o_impl_flags + 2;
        let o_name = o_flags + 2;
        let o_sig = o_name + idx_width(h.string_index_size);
        let o_param_list = o_sig + idx_width(h.blob_index_size);
        if o + Self::row_size(h) <= s.len()
            && spec_simple(s, o_param_list, h.lens@[METADATA_PARAM as int]) is Some {
            Some(
                MethodDef {
                    rva: u32_at(s, o),
                    impl_flags: u16_at(s, o_impl_flags),
                    flags: u16_at(s, o_flags),
                    name: StringIndex(spec_heap_idx(s, o_name, h.string_index_size)),
                    sig: BlobIndex(spec_heap_idx(s, o_sig, h.blob_index_size)),
                    param_list: ParamIndex(spec_simple(s, o_param_list, h.lens@[METADATA_PARAM as int])->Some_0),
                },
            )
        } else {
            None
        }
    }

    proof fn lemma_row_size(h: Tables) {
    }

    fn parse(header: &Tables, data: &[u8], offset: &mut usize) -> (r: Result<MethodDef, ApsError>) {
        let rva = read_u32(data, offset)?;
        let impl_flags = read_u16(data, offset)?;
        let flags = read_u16(data, offset)?;
        let name = StringIndex::parse(header, data, offset)?;
        let sig = BlobIndex::parse(header, data, offset)?;
        let param_list = ParamIndex::parse(header, data, offset)?;
        Ok(MethodDef { rva, impl_flags, flags, name, sig, param_list })
    }
}

/// A `Param` table row (II.22.33).
#[derive(Debug, PartialEq, Eq, Structural, Copy, Clone)]
pub struct Param {
    pub flags: u16,
    pub sequence: u16,
    pub name: StringIndex,
}

impl Row for Param {
    open spec fn row_size(h: Tables) -> int {
        2 + 2 + idx_width(h.string_index_size)
    }

    open spec fn spec_row(h: Tables, s: Seq<u8>, o: int) -> Option<Param> {
        let o_sequence = o + 2;
        let o_name = o_sequence + 2;
        if o + Self::row_size(h) <= s.len() {
            Some(
                Param {
                    flags: u16_at(s, o),
                    sequence: u16_at(s, o_sequence),
                    name: StringIndex(spec_heap_idx(s, o_name, h.string_index_size)),
                },
            )
        } else {
            None
        }
    }

    proof fn lemma_row_size(h: Tables) {
    }

    fn parse(header: &Tables, data: &[u8], offset: &mut usize) -> (r: Result<Param, ApsError>) {
        let flags = read_u16(data, offset)?;
        let sequence = read_u16(data, offset)?;
        let name = StringIndex::parse(header, data, offset)?;
        Ok(Param { flags, sequence, name })
    }
}

/// A `InterfaceImpl` table row (II.22.23).
#[derive(Debug, PartialEq, Eq, Structural, Copy, Clone)]
pub struct InterfaceImpl {
    pub class: TypeDefIndex,
    pub iface: TypeDefOrRef,
}

impl Row for InterfaceImpl {
    open spec fn row_size(h: Tables) -> int {
        simple_width(h.lens@[METADATA_TYPE_DEF as int]) + type_def_or_ref_width(h)
    }

    open spec fn spec_row(h: Tables, s: Seq<u8>, o: int) -> Option<InterfaceImpl> {
        let o_iface = o + simple_width(h.lens@[METADATA_TYPE_DEF as int]);
        if o + Self::row_size(h) <= s.len()
            && spec_simple(s, o, h.lens@[METADATA_TYPE_DEF as int]) is Some
            && spec_type_def_or_ref(h, s, o_iface) is Some {
            Some(
                InterfaceImpl {
                    class: TypeDefIndex(spec_simple(s, o, h.lens@[METADATA_TYPE_DEF as int])->Some_0),
                    iface: spec_type_def_or_ref(h, s, o_iface)->Some_0,
                },
            )
        } else {
            None
        }
    }

    proof fn lemma_row_size(h: Tables) {
    }

    fn parse(header: &Tables, data: &[u8], offset: &mut usize) -> (r: Result<InterfaceImpl, ApsError>) {
        let class = TypeDefIndex::parse(header, data, offset)?;
        let iface = TypeDefOrRef::parse(header, data, offset)?;
        Ok(InterfaceImpl { class, iface })
    }
}

/// A `MemberRef` table row (II.22.25).
#[derive(Debug, PartialEq, Eq, Structural, Copy, Clone)]
pub struct MemberRef {
    pub class: MemberRefParent,
    pub name: StringIndex,
    pub sig: BlobIndex,
}

impl Row for MemberRef {
    open spec fn row_size(h: Tables) -> int {
        member_ref_parent_width(h) + idx_width(h.string_index_size) + idx_width(h.blob_index_size)
    }

    open spec fn spec_row(h: Tables, s: Seq<u8>, o: int) -> Option<MemberRef> {
        let o_name = o + member_ref_parent_width(h);
        let o_sig = o_name + idx_width(h.string_index_size);
        if o + Self::row_size(h) <= s.len()
            && spec_member_ref_parent(h, s, o) is Some {
            Some(
                MemberRef {
                    class: spec_member_ref_parent(h, s, o)->Some_0,
                    name: StringIndex(spec_heap_idx(s, o_name, h.string_index_size)),
                    sig: BlobIndex(spec_heap_idx(s, o_sig, h.blob_index_size)),
                },
            )
        } else {
            None
        }
    }

    proof fn lemma_row_size(h: Tables) {
    }

    fn parse(header: &Tables, data: &[u8], offset: &mut usize) -> (r: Result<MemberRef, ApsError>) {
        let class = MemberRefParent::parse(header, data, offset)?;
        let name = StringIndex::parse(header, data, offset)?;
        let sig = BlobIndex::parse(header, data, offset)?;
        Ok(MemberRef { class, name, sig })
    }
}

/// A `Constant` table row (II.22.9).
#[derive(Debug, PartialEq, Eq, Structural, Copy, Clone)]
pub struct Constant {
    pub ty: u8,
    pub parent: HasConstant,
    pub value: BlobIndex,
}

impl Row for Constant {
    open spec fn row_size(h: Tables) -> int {
        1 + 1 + has_constant_width(h) + idx_width(h.blob_index_size)
    }

    open spec fn spec_row(h: Tables, s: Seq<u8>, o: int) -> Option<Constant> {
        let o_r0 = o + 1;
        let o_parent = o_r0 + 1;
        let o_value = o_parent + has_constant_width(h);
        if o + Self::row_size(h) <= s.len()
            && spec_has_constant(h, s, o_parent) is Some {
            Some(
                Constant {
                    ty: s[o],
                    parent: spec_has_constant(h, s, o_parent)->Some_0,
                    value: BlobIndex(spec_heap_idx(s, o_value, h.blob_index_size)),
                },
            )
        } else {
            None
        }
    }

    proof fn lemma_row_size(h: Tables) {
    }

    fn parse(header: &Tables, data: &[u8], offset: &mut usize) -> (r: Result<Constant, ApsError>) {
        let ty = read_u8(data, offset)?;
        skip(data, offset, 1)?;
        let parent = HasConstant::parse(header, data, offset)?;
        let value = BlobIndex::parse(header, data, offset)?;
        Ok(Constant { ty, parent, value })
    }
}

/// A `CustomAttribute` table row (II.22.10).
#[derive(Debug, PartialEq, Eq, Structural, Copy, Clone)]
pub struct CustomAttribute {
    pub parent: HasCustomAttribute,
    pub ty: CustomAttributeType,
    pub value: BlobIndex,
}

impl Row for CustomAttribute {
    open spec fn row_size(h: Tables) -> int {
        has_custom_attribute_width(h) + custom_attribute_type_width(h) + idx_width(h.blob_index_size)
    }

    open spec fn spec_row(h: Tables, s: Seq<u8>, o: int) -> Option<CustomAttribute> {
        let o_ty = o + has_custom_attribute_width(h);
        let o_value = o_ty + custom_attribute_type_width(h);
        if o + Self::row_size(h) <= s.len()
            && spec_has_custom_attribute(h, s, o) is Some
            && spec_custom_attribute_type(h, s, o_ty) is Some {
            Some(
                CustomAttribute {
                    parent: spec_has_custom_attribute(h, s, o)->Some_0,
                    ty: spec_custom_attribute_type(h, s, o_ty)->Some_0,
                    value: BlobIndex(spec_heap_idx(s, o_value, h.blob_index_size)),
                },
            )
        } else {
            None
        }
    }

    proof fn lemma_row_size(h: Tables) {
    }

    fn parse(header: &Tables, data: &[u8], offset: &mut usize) -> (r: Result<CustomAttribute, ApsError>) {
        let parent = HasCustomAttribute::parse(header, data, offset)?;
        let ty = CustomAttributeType::parse(header, data, offset)?;
        let value = BlobIndex::parse(header, data, offset)?;
        Ok(CustomAttribute { parent, ty, value })
    }
}

/// A `FieldMarshal` table row (II.22.17).
#[derive(Debug, PartialEq, Eq, Structural, Copy, Clone)]
pub struct FieldMarshal {
    pub parent: HasFieldMarshall,
    pub native_ty: BlobIndex,
}

impl Row for FieldMarshal {
    open spec fn row_size(h: Tables) -> int {
        has_field_marshall_width(h) + idx_width(h.blob_index_size)
    }

    open spec fn spec_row(h: Tables, s: Seq<u8>, o: int) -> Option<FieldMarshal> {
        let o_native_ty = o + has_field_marshall_width(h);
        if o + Self::row_size(h) <= s.len()
            && spec_has_field_marshall(h, s, o) is Some {
            Some(
                FieldMarshal {
                    parent: spec_has_field_marshall(h, s, o)->Some_0,
                    native_ty: BlobIndex(spec_heap_idx(s, o_native_ty, h.blob_index_size)),
                },
            )
        } else {
            None
        }
    }

    proof fn lemma_row_size(h: Tables) {
    }

    fn parse(header: &Tables, data: &[u8], offset: &mut usize) -> (r: Result<FieldMarshal, ApsError>) {
        let parent = HasFieldMarshall::parse(header, data, offset)?;
        let native_ty = BlobIndex::parse(header, data, offset)?;
        Ok(FieldMarshal { parent, native_ty })
    }
}

/// A `DeclSecutity` table row (II.22.11).
#[derive(Debug, PartialEq, Eq, Structural, Copy, Clone)]
pub struct DeclSecutity {
    pub action: u16,
    pub parent: HasDeclSecurity,
    pub permission_set: BlobIndex,
}

impl Row for DeclSecutity {
    open spec fn row_size(h: Tables) -> int {
        2 + has_decl_security_width(h) + idx_width(h.blob_index_size)
    }

    open spec fn spec_row(h: Tables, s: Seq<u8>, o: int) -> Option<DeclSecutity> {
        let o_parent = o + 2;
        let o_permission_set = o_parent + has_decl_security_width(h);
        if o + Self::row_size(h) <= s.len()
            && spec_has_decl_security(h, s, o_parent) is Some {
            Some(
                DeclSecutity {
                    action: u16_at(s, o),
                    parent: spec_has_decl_security(h, s, o_parent)->Some_0,
                    permission_set: BlobIndex(spec_heap_idx(s, o_permission_set, h.blob_index_size)),
                },
            )
        } else {
            None
        }
    }

    proof fn lemma_row_size(h: Tables) {
    }

    fn parse(header: &Tables, data: &[u8], offset: &mut usize) -> (r: Result<DeclSecutity, ApsError>) {
        let action = read_u16(data, offset)?;
        let parent = HasDeclSecurity::parse(header, data, offset)?;
        let permission_set = BlobIndex::parse(header, data, offset)?;
        Ok(DeclSecutity { action, parent, permission_set })
    }
}

/// A `ClassLayout` table row (II.22.8).
#[derive(Debug, PartialEq, Eq, Structural, Copy, Clone)]
pub struct ClassLayout {
    pub packing_size: u16,
    pub class_size: u32,
    pub parent: TypeDefIndex,
}

impl Row for ClassLayout {
    open spec fn row_size(h: Tables) -> int {
        2 + 4 + simple_width(h.lens@[METADATA_TYPE_DEF as int])
    }

    open spec fn spec_row(h: Tables, s: Seq<u8>, o: int) -> Option<ClassLayout> {
        let o_class_size = o + 2;
        let o_parent = o_class_size + 4;
        if o + Self::row_size(h) <= s.len()
            && spec_simple(s, o_parent, h.lens@[METADATA_TYPE_DEF as int]) is Some {
            Some(
                ClassLayout {
                    packing_size: u16_at(s, o),
                    class_size: u32_at(s, o_class_size),
                    parent: TypeDefIndex(spec_simple(s, o_parent, h.lens@[METADATA_TYPE_DEF as int])->Some_0),
                },
            )
        } else {
            None
        }
    }

    proof fn lemma_row_size(h: Tables) {
    }

    fn parse(header: &Tables, data: &[u8], offset: &mut usize) -> (r: Result<ClassLayout, ApsError>) {
        let packing_size = read_u16(data, offset)?;
        let class_size = read_u32(data, offset)?;
        let parent = TypeDefIndex::parse(header, data, offset)?;
        Ok(ClassLayout { packing_size, class_size, parent })
    }
}

/// A `FieldLayout` table row (II.22.16).
#[derive(Debug, PartialEq, Eq, Structural, Copy, Clone)]
pub struct FieldLayout {
    pub offset: u32,
    pub field: FieldIndex,
}

impl Row for FieldLayout {
    open spec fn row_size(h: Tables) -> int {
        4 + simple_width(h.lens@[METADATA_FIELD as int])
    }

    open spec fn spec_row(h: Tables, s: Seq<u8>, o: int) -> Option<FieldLayout> {
        let o_field = o + 4;
        if o + Self::row_size(h) <= s.len()
            && spec_simple(s, o_field, h.lens@[METADATA_FIELD as int]) is Some {
            Some(
                FieldLayout {
                    offset: u32_at(s, o),
                    field: FieldIndex(spec_simple(s, o_field, h.lens@[METADATA_FIELD as int])->Some_0),
                },
            )
        } else {
            None
        }
    }

    proof fn lemma_row_size(h: Tables) {
    }

    fn parse(header: &Tables, data: &[u8], offset: &mut usize) -> (r: Result<FieldLayout, ApsError>) {
        let f_offset = read_u32(data, offset)?;
        let field = FieldIndex::parse(header, data, offset)?;
        Ok(FieldLayout { offset: f_offset, field })
    }
}

/// A `StandAloneSig` table row (II.22.36).
#[derive(Debug, PartialEq, Eq, Structural, Copy, Clone)]
pub struct StandAloneSig {
    pub sig: BlobIndex,
}

impl Row for StandAloneSig {
    open spec fn row_size(h: Tables) -> int {
        idx_width(h.blob_index_size)
    }

    open spec fn spec_row(h: Tables, s: Seq<u8>, o: int) -> Option<StandAloneSig> {
        if o + Self::row_size(h) <= s.len() {
            Some(
                StandAloneSig {
                    sig: BlobIndex(spec_heap_idx(s, o, h.blob_index_size)),
                },
            )
        } else {
            None
        }
    }

    proof fn lemma_row_size(h: Tables) {
    }

    fn parse(header: &Tables, data: &[u8], offset: &mut usize) -> (r: Result<StandAloneSig, ApsError>) {
        let sig = BlobIndex::parse(header, data, offset)?;
        Ok(StandAloneSig { sig })
    }
}

/// A `EventMap` table row (II.22.12).
#[derive(Debug, PartialEq, Eq, Structural, Copy, Clone)]
pub struct EventMap {
    pub parent: TypeDefIndex,
    pub event_list: EventIndex,
}

impl Row for EventMap {
    open spec fn row_size(h: Tables) -> int {
        simple_width(h.lens@[METADATA_TYPE_DEF as int]) + simple_width(h.lens@[METADATA_EVENT as int])
    }

    open spec fn spec_row(h: Tables, s: Seq<u8>, o: int) -> Option<EventMap> {
        let o_event_list = o + simple_width(h.lens@[METADATA_TYPE_DEF as int]);
        if o + Self::row_size(h) <= s.len()
            && spec_simple(s, o, h.lens@[METADATA_TYPE_DEF as int]) is Some
            && spec_simple(s, o_event_list, h.lens@[METADATA_EVENT as int]) is Some {
            Some(
                EventMap {
                    parent: TypeDefIndex(spec_simple(s, o, h.lens@[METADATA_TYPE_DEF as int])->Some_0),
                    event_list: EventIndex(spec_simple(s, o_event_list, h.lens@[METADATA_EVENT as int])->Some_0),
                },
            )
        } else {
            None
        }
    }

    proof fn lemma_row_size(h: Tables) {
    }

    fn parse(header: &Tables, data: &[u8], offset: &mut usize) -> (r: Result<EventMap, ApsError>) {
        let parent = TypeDefIndex::parse(header, data, offset)?;
        let event_list = EventIndex::parse(header, data, offset)?;
        Ok(EventMap { parent, event_list })
    }
}

/// A `Event` table row (II.22.13).
#[derive(Debug, PartialEq, Eq, Structural, Copy, Clone)]
pub struct Event {
    pub flags: u16,
    pub name: StringIndex,
    pub ty: TypeDefOrRef,
}

impl Row for Event {
    open spec fn row_size(h: Tables) -> int {
        2 + idx_width(h.string_index_size) + type_def_or_ref_width(h)
    }

    open spec fn spec_row(h: Tables, s: Seq<u8>, o: int) -> Option<Event> {
        let o_name = o + 2;
        let o_ty = o_name + idx_width(h.string_index_size);
        if o + Self::row_size(h) <= s.len()
            && spec_type_def_or_ref(h, s, o_ty) is Some {
            Some(
                Event {
                    flags: u16_at(s, o),
                    name: StringIndex(spec_heap_idx(s, o_name, h.string_index_size)),
                    ty: spec_type_def_or_ref(h, s, o_ty)->Some_0,
                },
            )
        } else {
            None
        }
    }

    proof fn lemma_row_size(h: Tables) {
    }

    fn parse(header: &Tables, data: &[u8], offset: &mut usize) -> (r: Result<Event, ApsError>) {
        let flags = read_u16(data, offset)?;
        let name = StringIndex::parse(header, data, offset)?;
        let ty = TypeDefOrRef::parse(header, data, offset)?;
        Ok(Event { flags, name, ty })
    }
}

/// A `PropertyMap` table row (II.22.35).
#[derive(Debug, PartialEq, Eq, Structural, Copy, Clone)]
pub struct PropertyMap {
    pub parent: TypeDefIndex,
    pub property_list: PropertyIndex,
}

impl Row for PropertyMap {
    open spec fn row_size(h: Tables) -> int {
        simple_width(h.lens@[METADATA_TYPE_DEF as int]) + simple_width(h.lens@[METADATA_PROPERTY as int])
    }

    open spec fn spec_row(h: Tables, s: Seq<u8>, o: int) -> Option<PropertyMap> {
        let o_property_list = o + simple_width(h.lens@[METADATA_TYPE_DEF as int]);
        if o + Self::row_size(h) <= s.len()
            && spec_simple(s, o, h.lens@[METADATA_TYPE_DEF as int]) is Some
            && spec_simple(s, o_property_list, h.lens@[METADATA_PROPERTY as int]) is Some {
            Some(
                PropertyMap {
                    parent: TypeDefIndex(spec_simple(s, o, h.lens@[METADATA_TYPE_DEF as int])->Some_0),
                    property_list: PropertyIndex(spec_simple(s, o_property_list, h.lens@[METADATA_PROPERTY as int])->Some_0),
                },
            )
        } else {
            None
        }
    }

    proof fn lemma_row_size(h: Tables) {
    }

    fn parse(header: &Tables, data: &[u8], offset: &mut usize) -> (r: Result<PropertyMap, ApsError>) {
        let parent = TypeDefIndex::parse(header, data, offset)?;
        let property_list = PropertyIndex::parse(header, data, offset)?;
        Ok(PropertyMap { parent, property_list })
    }
}

/// A `Property` table row (II.22.34).
#[derive(Debug, PartialEq, Eq, Structural, Copy, Clone)]
pub struct Property {
    pub flags: u16,
    pub name: StringIndex,
    pub ty: BlobIndex,
}

impl Row for Property {
    open spec fn row_size(h: Tables) -> int {
        2 + idx_width(h.string_index_size) + idx_width(h.blob_index_size)
    }

    open spec fn spec_row(h: Tables, s: Seq<u8>, o: int) -> Option<Property> {
        let o_name = o + 2;
        let o_ty = o_name + idx_width(h.string_index_size);
        if o + Self::row_size(h) <= s.len() {
            Some(
                Property {
                    flags: u16_at(s, o),
                    name: StringIndex(spec_heap_idx(s, o_name, h.string_index_size)),
                    ty: BlobIndex(spec_heap_idx(s, o_ty, h.blob_index_size)),
                },
            )
        } else {
            None
        }
    }

    proof fn lemma_row_size(h: Tables) {
    }

    fn parse(header: &Tables, data: &[u8], offset: &mut usize) -> (r: Result<Property, ApsError>) {
        let flags = read_u16(data, offset)?;
        let name = StringIndex::parse(header, data, offset)?;
        let ty = BlobIndex::parse(header, data, offset)?;
        Ok(Property { flags, name, ty })
    }
}

/// A `MethodSemantics` table row (II.22.28).
#[derive(Debug, PartialEq, Eq, Structural, Copy, Clone)]
pub struct MethodSemantics {
    pub semantics: u16,
    pub method: MethodDefIndex,
    pub assoc: HasSemantics,
}

impl Row for MethodSemantics {
    open spec fn row_size(h: Tables) -> int {
        2 + simple_width(h.lens@[METADATA_METHOD_DEF as int]) + has_semantics_width(h)
    }

    open spec fn spec_row(h: Tables, s: Seq<u8>, o: int) -> Option<MethodSemantics> {
        let o_method = o + 2;
        let o_assoc = o_method + simple_width(h.lens@[METADATA_METHOD_DEF as int]);
        if o + Self::row_size(h) <= s.len()
            && spec_simple(s, o_method, h.lens@[METADATA_METHOD_DEF as int]) is Some
            && spec_has_semantics(h, s, o_assoc) is Some {
            Some(
                MethodSemantics {
                    semantics: u16_at(s, o),
                    method: MethodDefIndex(spec_simple(s, o_method, h.lens@[METADATA_METHOD_DEF as int])->Some_0),
                    assoc: spec_has_semantics(h, s, o_assoc)->Some_0,
                },
            )
        } else {
            None
        }
    }

    proof fn lemma_row_size(h: Tables) {
    }

    fn parse(header: &Tables, data: &[u8], offset: &mut usize) -> (r: Result<MethodSemantics, ApsError>) {
        let semantics = read_u16(data, offset)?;
        let method = MethodDefIndex::parse(header, data, offset)?;
        let assoc = HasSemantics::parse(header, data, offset)?;
        Ok(MethodSemantics { semantics, method, assoc })
    }
}

/// A `MethodImpl` table row (II.22.27).
#[derive(Debug, PartialEq, Eq, Structural, Copy, Clone)]
pub struct MethodImpl {
    pub class: TypeDefIndex,
    pub body: MethodDefOrRef,
    pub decl: MethodDefOrRef,
}

impl Row for MethodImpl {
    open spec fn row_size(h: Tables) -> int {
        simple_width(h.lens@[METADATA_TYPE_DEF as int]) + method_def_or_ref_width(h) + method_def_or_ref_width(h)
    }

    open spec fn spec_row(h: Tables, s: Seq<u8>, o: int) -> Option<MethodImpl> {
        let o_body = o + simple_width(h.lens@[METADATA_TYPE_DEF as int]);
        let o_decl = o_body + method_def_or_ref_width(h);
        if o + Self::row_size(h) <= s.len()
            && spec_simple(s, o, h.lens@[METADATA_TYPE_DEF as int]) is Some
            && spec_method_def_or_ref(h, s, o_body) is Some
            && spec_method_def_or_ref(h, s, o_decl) is Some {
            Some(
                MethodImpl {
                    class: TypeDefIndex(spec_simple(s, o, h.lens@[METADATA_TYPE_DEF as int])->Some_0),
                    body: spec_method_def_or_ref(h, s, o_body)->Some_0,
                    decl: spec_method_def_or_ref(h, s, o_decl)->Some_0,
                },
            )
        } else {
            None
        }
    }

    proof fn lemma_row_size(h: Tables) {
    }

    fn parse(header: &Tables, data: &[u8], offset: &mut usize) -> (r: Result<MethodImpl, ApsError>) {
        let class = TypeDefIndex::parse(header, data, offset)?;
        let body = MethodDefOrRef::parse(header, data, offset)?;
        let decl = MethodDefOrRef::parse(header, data, offset)?;
        Ok(MethodImpl { class, body, decl })
    }
}

/// A `ModuleRef` table row (II.22.31).
#[derive(Debug, PartialEq, Eq, Structural, Copy, Clone)]
pub struct ModuleRef {
    pub name: StringIndex,
}

impl Row for ModuleRef {
    open spec fn row_size(h: Tables) -> int {
        idx_width(h.string_index_size)
    }

    open spec fn spec_row(h: Tables, s: Seq<u8>, o: int) -> Option<ModuleRef> {
        if o + Self::row_size(h) <= s.len() {
            Some(
                ModuleRef {
                    name: StringIndex(spec_heap_idx(s, o, h.string_index_size)),
                },
            )
        } else {
            None
        }
    }

    proof fn lemma_row_size(h: Tables) {
    }

    fn parse(header: &Tables, data: &[u8], offset: &mut usize) -> (r: Result<ModuleRef, ApsError>) {
        let name = StringIndex::parse(header, data, offset)?;
        Ok(ModuleRef { name })
    }
}

/// A `TypeSpec` table row (II.22.39).
#[derive(Debug, PartialEq, Eq, Structural, Copy, Clone)]
pub struct TypeSpec {
    pub sig: BlobIndex,
}

impl Row for TypeSpec {
    open spec fn row_size(h: Tables) -> int {
        idx_width(h.blob_index_size)
    }

    open spec fn spec_row(h: Tables, s: Seq<u8>, o: int) -> Option<TypeSpec> {
        if o + Self::row_size(h) <= s.len() {
            Some(
                TypeSpec {
                    sig: BlobIndex(spec_heap_idx(s, o, h.blob_index_size)),
                },
            )
        } else {
            None
        }
    }

    proof fn lemma_row_size(h: Tables) {
    }

    fn parse(header: &Tables, data: &[u8], offset: &mut usize) -> (r: Result<TypeSpec, ApsError>) {
        let sig = BlobIndex::parse(header, data, offset)?;
        Ok(TypeSpec { sig })
    }
}

/// A `ImplMap` table row (II.22.22).
#[derive(Debug, PartialEq, Eq, Structural, Copy, Clone)]
pub struct ImplMap {
    pub flags: u16,
    pub member_fwd: MemberForwarded,
    pub name: StringIndex,
    pub scope: ModuleRefIndex,
}

impl Row for ImplMap {
    open spec fn row_size(h: Tables) -> int {
        2 + member_forwarded_width(h) + idx_width(h.string_index_size) + simple_width(h.lens@[METADATA_MODULE_REF as int])
    }

    open spec fn spec_row(h: Tables, s: Seq<u8>, o: int) -> Option<ImplMap> {
        let o_member_fwd = o + 2;
        let o_name = o_member_fwd + member_forwarded_width(h);
        let o_scope = o_name + idx_width(h.string_index_size);
        if o + Self::row_size(h) <= s.len()
            && spec_member_forwarded(h, s, o_member_fwd) is Some
            && spec_simple(s, o_scope, h.lens@[METADATA_MODULE_REF as int]) is Some {
            Some(
                ImplMap {
                    flags: u16_at(s, o),
                    member_fwd: spec_member_forwarded(h, s, o_member_fwd)->Some_0,
                    name: StringIndex(spec_heap_idx(s, o_name, h.string_index_size)),
                    scope: ModuleRefIndex(spec_simple(s, o_scope, h.lens@[METADATA_MODULE_REF as int])->Some_0),
                },
            )
        } else {
            None
        }
    }

    proof fn lemma_row_size(h: Tables) {
    }

    fn parse(header: &Tables, data: &[u8], offset: &mut usize) -> (r: Result<ImplMap, ApsError>) {
        let flags = read_u16(data, offset)?;
        let member_fwd = MemberForwarded::parse(header, data, offset)?;
        let name = StringIndex::parse(header, data, offset)?;
        let scope = ModuleRefIndex::parse(header, data, offset)?;
        Ok(ImplMap { flags, member_fwd, name, scope })
    }
}

/// A `FieldRVA` table row (II.22.18).
#[derive(Debug, PartialEq, Eq, Structural, Copy, Clone)]
pub struct FieldRVA {
    pub rva: u32,
    pub field: FieldIndex,
}

impl Row for FieldRVA {
    open spec fn row_size(h: Tables) -> int {
        4 + simple_width(h.lens@[METADATA_FIELD as int])
    }

    open spec fn spec_row(h: Tables, s: Seq<u8>, o: int) -> Option<FieldRVA> {
        let o_field = o + 4;
        if o + Self::row_size(h) <= s.len()
            && spec_simple(s, o_field, h.lens@[METADATA_FIELD as int]) is Some {
            Some(
                FieldRVA {
                    rva: u32_at(s, o),
                    field: FieldIndex(spec_simple(s, o_field, h.lens@[METADATA_FIELD as int])->Some_0),
                },
            )
        } else {
            None
        }
    }

    proof fn lemma_row_size(h: Tables) {
    }

    fn parse(header: &Tables, data: &[u8], offset: &mut usize) -> (r: Result<FieldRVA, ApsError>) {
        let rva = read_u32(data, offset)?;
        let field = FieldIndex::parse(header, data, offset)?;
        Ok(FieldRVA { rva, field })
    }
}

/// A `Assembly` table row (II.22.2).
#[derive(Debug, PartialEq, Eq, Structural, Copy, Clone)]
pub struct Assembly {
    pub hash_algo: HashAlgo,
    pub major_version: u16,
    pub minor_version: u16,
    pub build_number: u16,
    pub revision_number: u16,
    pub flags: u32,
    pub pub_key: BlobIndex,
    pub name: StringIndex,
    pub culture: StringIndex,
}

impl Row for Assembly {
    open spec fn row_size(h: Tables) -> int {
        4 + 2 + 2 + 2 + 2 + 4 + idx_width(h.blob_index_size) + idx_width(h.string_index_size) + idx_width(h.string_index_size)
    }

    open spec fn spec_row(h: Tables, s: Seq<u8>, o: int) -> Option<Assembly> {
        let o_major_version = o + 4;
        let o_minor_version = o_major_version + 2;
        let o_build_number = o_minor_version + 2;
        let o_revision_number = o_build_number + 2;
        let o_flags = o_revision_number + 2;
        let o_pub_key = o_flags + 4;
        let o_name = o_pub_key + idx_width(h.blob_index_size);
        let o_culture = o_name + idx_width(h.string_index_size);
        if o + Self::row_size(h) <= s.len()
            && spec_hash_algo(s, o) is Some {
            Some(
                Assembly {
                    hash_algo: spec_hash_algo(s, o)->Some_0,
                    major_version: u16_at(s, o_major_version),
                    minor_version: u16_at(s, o_minor_version),
                    build_number: u16_at(s, o_build_number),
                    revision_number: u16_at(s, o_revision_number),
                    flags: u32_at(s, o_flags),
                    pub_key: BlobIndex(spec_heap_idx(s, o_pub_key, h.blob_index_size)),
                    name: StringIndex(spec_heap_idx(s, o_name, h.string_index_size)),
                    culture: StringIndex(spec_heap_idx(s, o_culture, h.string_index_size)),
                },
            )
        } else {
            None
        }
    }

    proof fn lemma_row_size(h: Tables) {
    }

    fn parse(header: &Tables, data: &[u8], offset: &mut usize) -> (r: Result<Assembly, ApsError>) {
        let hash_algo = HashAlgo::parse(data, offset)?;
        let major_version = read_u16(data, offset)?;
        let minor_version = read_u16(data, offset)?;
        let build_number = read_u16(data, offset)?;
        let revision_number = read_u16(data, offset)?;
        let flags = read_u32(data, offset)?;
        let pub_key = BlobIndex::parse(header, data, offset)?;
        let name = StringIndex::parse(header, data, offset)?;
        let culture = StringIndex::parse(header, data, offset)?;
        Ok(Assembly { hash_algo, major_version, minor_version, build_number, revision_number, flags, pub_key, name, culture })
    }
}

/// A `AssemblyRef` table row (II.22.5).
#[derive(Debug, PartialEq, Eq, Structural, Copy, Clone)]
pub struct AssemblyRef {
    pub major_version: u16,
    pub minor_version: u16,
    pub build_number: u16,
    pub revision_number: u16,
    pub flags: u32,
    pub pub_key_or_token: BlobIndex,
    pub name: StringIndex,
    pub culture: StringIndex,
    pub hash: BlobIndex,
}

impl Row for AssemblyRef {
    open spec fn row_size(h: Tables) -> int {
        2 + 2 + 2 + 2 + 4 + idx_width(h.blob_index_size) + idx_width(h.string_index_size) + idx_width(h.string_index_size) + idx_width(h.blob_index_size)
    }

    open spec fn spec_row(h: Tables, s: Seq<u8>, o: int) -> Option<AssemblyRef> {
        let o_minor_version = o + 2;
        let o_build_number = o_minor_version + 2;
        let o_revision_number = o_build_number + 2;
        let o_flags = o_revision_number + 2;
        let o_pub_key_or_token = o_flags + 4;
        let o_name = o_pub_key_or_token + idx_width(h.blob_index_size);
        let o_culture = o_name + idx_width(h.string_index_size);
        let o_hash = o_culture + idx_width(h.string_index_size);
        if o + Self::row_size(h) <= s.len() {
            Some(
                AssemblyRef {
                    major_version: u16_at(s, o),
                    minor_version: u16_at(s, o_minor_version),
                    build_number: u16_at(s, o_build_number),
                    revision_number: u16_at(s, o_revision_number),
                    flags: u32_at(s, o_flags),
                    pub_key_or_token: BlobIndex(spec_heap_idx(s, o_pub_key_or_token, h.blob_index_size)),
                    name: StringIndex(spec_heap_idx(s, o_name, h.string_index_size)),
                    culture: StringIndex(spec_heap_idx(s, o_culture, h.string_index_size)),
                    hash: BlobIndex(spec_heap_idx(s, o_hash, h.blob_index_size)),
                },
            )
        } else {
            None
        }
    }

    proof fn lemma_row_size(h: Tables) {
    }

    fn parse(header: &Tables, data: &[u8], offset: &mut usize) -> (r: Result<AssemblyRef, ApsError>) {
        let major_version = read_u16(data, offset)?;
        let minor_version = read_u16(data, offset)?;
        let build_number = read_u16(data, offset)?;
        let revision_number = read_u16(data, offset)?;
        let flags = read_u32(data, offset)?;
        let pub_key_or_token = BlobIndex::parse(header, data, offset)?;
        let name = StringIndex::parse(header, data, offset)?;
        let culture = StringIndex::parse(header, data, offset)?;
        let hash = BlobIndex::parse(header, data, offset)?;
        Ok(AssemblyRef { major_version, minor_version, build_number, revision_number, flags, pub_key_or_token, name, culture, hash })
    }
}

/// A `File` table row (II.22.19).
#[derive(Debug, PartialEq, Eq, Structural, Copy, Clone)]
pub struct File {
    pub flags: u32,
    pub name: StringIndex,
    pub hash: BlobIndex,
}

impl Row for File {
    open spec fn row_size(h: Tables) -> int {
        4 + idx_width(h.string_index_size) + idx_width(h.blob_index_size)
    }

    open spec fn spec_row(h: Tables, s: Seq<u8>, o: int) -> Option<File> {
        let o_name = o + 4;
        let o_hash = o_name + idx_width(h.string_index_size);
        if o + Self::row_size(h) <= s.len() {
            Some(
                File {
                    flags: u32_at(s, o),
                    name: StringIndex(spec_heap_idx(s, o_name, h.string_index_size)),
                    hash: BlobIndex(spec_heap_idx(s, o_hash, h.blob_index_size)),
                },
            )
        } else {
            None
        }
    }

    proof fn lemma_row_size(h: Tables) {
    }

    fn parse(header: &Tables, data: &[u8], offset: &mut usize) -> (r: Result<File, ApsError>) {
        let flags = read_u32(data, offset)?;
        let name = StringIndex::parse(header, data, offset)?;
        let hash = BlobIndex::parse(header, data, offset)?;
        Ok(File { flags, name, hash })
    }
}

/// A decoded coded index always names a member of its family; for
/// `CustomAttributeType`, whose tag space has unused slots, a cell
/// decodes exactly when its low three bits hold 2 or 3.
pub proof fn lemma_custom_attribute_type_tags(h: Tables, s: Seq<u8>, o: int)
    ensures
        ({
            let v = if custom_attribute_type_wide(h) {
                u32_at(s, o)
            } else {
                u16_at(s, o) as u32
            };
            spec_custom_attribute_type(h, s, o) is Some <==> (v & 7 == 2 || v & 7 == 3)
        }),
{
}

/// Row count of table `id` as the prologue declares it: its count
/// when its valid bit is set, zero otherwise.
pub open spec fn table_count(h: Tables, id: int) -> int {
    if mask_bit(h.valid_mask, id) {
        h.lens@[id] as int
    } else {
        0
    }
}

/// Whether `v` is exactly the `n` rows of a `T` table laid out one
/// after another from `o`.
pub open spec fn spec_table_at<T: Row>(h: Tables, s: Seq<u8>, o: int, n: int, v: Seq<T>) -> bool {
    &&& v.len() == n
    &&& forall|j: int|
        0 <= j < n ==> T::spec_row(h, s, o + j * T::row_size(h)) == Some(#[trigger] v[j])
}

/// Whether all `n` rows of a `T` table laid out from `o` decode.
pub open spec fn spec_table_ok<T: Row>(h: Tables, s: Seq<u8>, o: int, n: int) -> bool {
    forall|j: int| 0 <= j < n ==> #[trigger] T::spec_row(h, s, o + j * T::row_size(h)) is Some
}

/// Decode `n` rows of one table, appending to a fresh list.
#[verifier::loop_isolation(false)]
fn parse_table<T: Row>(header: &Tables, data: &[u8], offset: &mut usize, n: usize) -> (r: Result<
    Vec<T>,
    ApsError,
>)
    ensures
        match r {
            Ok(v) => spec_table_ok::<T>(*header, data@, *old(offset) as int, n as int)
                && spec_table_at::<T>(*header, data@, *old(offset) as int, n as int, v@)
                && *final(offset) == *old(offset) + n * T::row_size(*header),
            Err(_) => !spec_table_ok::<T>(*header, data@, *old(offset) as int, n as int),
        },
{
    let ghost o0 = *offset as int;
    proof {
        T::lemma_row_size(*header);
    }
    let mut rows: Vec<T> = Vec::new();
    let mut i: usize = 0;
    while i < n
        invariant
            0 <= i <= n,
            rows@.len() == i,
            *offset == o0 + i * T::row_size(*header),
            forall|j: int|
                0 <= j < i ==> T::spec_row(*header, data@, o0 + j * T::row_size(*header)) == Some(
                    #[trigger] rows@[j],
                ),
        decreases n - i,
    {
        let row = T::parse(header, data, offset)?;
        rows.push(row);
        proof {
            assert((i + 1) * T::row_size(*header) == i * T::row_size(*header) + T::row_size(
                *header,
            )) by (nonlinear_arith);
        }
        i = i + 1;
    }
    proof {
        assert forall|j: int|
            0 <= j < n implies #[trigger] T::spec_row(
            *header,
            data@,
            o0 + j * T::row_size(*header),
        ) is Some by {
            assert(T::spec_row(*header, data@, o0 + j * T::row_size(*header)) == Some(rows@[j]));
        }
    }
    Ok(rows)
}

/// Bytes that tables 1 of 4 of the modeled catalog occupy from `o`.
pub open spec fn group1_size(h: Tables) -> int {
    table_count(h, METADATA_MODULE as int) * <Module as Row>::row_size(h)
        + table_count(h, METADATA_TYPE_REF as int) * <TypeRef as Row>::row_size(h)
        + table_count(h, METADATA_TYPE_DEF as int) * <TypeDef as Row>::row_size(h)
        + table_count(h, METADATA_FIELD as int) * <Field as Row>::row_size(h)
        + table_count(h, METADATA_METHOD_DEF as int) * <MethodDef as Row>::row_size(h)
        + table_count(h, METADATA_PARAM as int) * <Param as Row>::row_size(h)
        + table_count(h, METADATA_INTERFACE_IMPL as int) * <InterfaceImpl as Row>::row_size(h)
}

/// Whether tables 1 of 4 of the modeled catalog decode whole from `o`.
pub open spec fn group1_ok(h: Tables, s: Seq<u8>, o: int) -> bool {
    let o_modules = o;
    let o_type_refs = o_modules + table_count(h, METADATA_MODULE as int) * <Module as Row>::row_size(h);
    let o_type_defs = o_type_refs + table_count(h, METADATA_TYPE_REF as int) * <TypeRef as Row>::row_size(h);
    let o_fields = o_type_defs + table_count(h, METADATA_TYPE_DEF as int) * <TypeDef as Row>::row_size(h);
    let o_method_defs = o_fields + table_count(h, METADATA_FIELD as int) * <Field as Row>::row_size(h);
    let o_params = o_method_defs + table_count(h, METADATA_METHOD_DEF as int) * <MethodDef as Row>::row_size(h);
    let o_interface_impls = o_params + table_count(h, METADATA_PARAM as int) * <Param as Row>::row_size(h);
    &&& spec_table_ok::<Module>(h, s, o_modules, table_count(h, METADATA_MODULE as int))
    &&& spec_table_ok::<TypeRef>(h, s, o_type_refs, table_count(h, METADATA_TYPE_REF as int))
    &&& spec_table_ok::<TypeDef>(h, s, o_type_defs, table_count(h, METADATA_TYPE_DEF as int))
    &&& spec_table_ok::<Field>(h, s, o_fields, table_count(h, METADATA_FIELD as int))
    &&& spec_table_ok::<MethodDef>(h, s, o_method_defs, table_count(h, METADATA_METHOD_DEF as int))
    &&& spec_table_ok::<Param>(h, s, o_params, table_count(h, METADATA_PARAM as int))
    &&& spec_table_ok::<InterfaceImpl>(h, s, o_interface_impls, table_count(h, METADATA_INTERFACE_IMPL as int))
}

/// Whether the given row lists are exactly tables 1 of 4 laid out from `o`.
pub open spec fn group1_match(h: Tables, s: Seq<u8>, o: int, modules: Seq<Module>, type_refs: Seq<TypeRef>, type_defs: Seq<TypeDef>, fields: Seq<Field>, method_defs: Seq<MethodDef>, params: Seq<Param>, interface_impls: Seq<InterfaceImpl>) -> bool {
    let o_modules = o;
    let o_type_refs = o_modules + table_count(h, METADATA_MODULE as int) * <Module as Row>::row_size(h);
    let o_type_defs = o_type_refs + table_count(h, METADATA_TYPE_REF as int) * <TypeRef as Row>::row_size(h);
    let o_fields = o_type_defs + table_count(h, METADATA_TYPE_DEF as int) * <TypeDef as Row>::row_size(h);
    let o_method_defs = o_fields + table_count(h, METADATA_FIELD as int) * <Field as Row>::row_size(h);
    let o_params = o_method_defs + table_count(h, METADATA_METHOD_DEF as int) * <MethodDef as Row>::row_size(h);
    let o_interface_impls = o_params + table_count(h, METADATA_PARAM as int) * <Param as Row>::row_size(h);
    &&& spec_table_at::<Module>(h, s, o_modules, table_count(h, METADATA_MODULE as int), modules)
    &&& spec_table_at::<TypeRef>(h, s, o_type_refs, table_count(h, METADATA_TYPE_REF as int), type_refs)
    &&& spec_table_at::<TypeDef>(h, s, o_type_defs, table_count(h, METADATA_TYPE_DEF as int), type_defs)
    &&& spec_table_at::<Field>(h, s, o_fields, table_count(h, METADATA_FIELD as int), fields)
    &&& spec_table_at::<MethodDef>(h, s, o_method_defs, table_count(h, METADATA_METHOD_DEF as int), method_defs)
    &&& spec_table_at::<Param>(h, s, o_params, table_count(h, METADATA_PARAM as int), params)
    &&& spec_table_at::<InterfaceImpl>(h, s, o_interface_impls, table_count(h, METADATA_INTERFACE_IMPL as int), interface_impls)
}

/// Decode tables 1 of 4 of the modeled catalog, in ascending table-id
/// order (modules, type_refs, type_defs, fields, method_defs, params, interface_impls).
#[verifier::loop_isolation(false)]
#[verifier::spinoff_prover]
#[verifier::rlimit(100)]
fn parse_group1(header: &Tables, data: &[u8], offset: &mut usize) -> (r: Result<(
    Vec<Module>,
    Vec<TypeRef>,
    Vec<TypeDef>,
    Vec<Field>,
    Vec<MethodDef>,
    Vec<Param>,
    Vec<InterfaceImpl>,
), ApsError>)
    ensures
        match r {
            Ok(vs) => group1_ok(*header, data@, *old(offset) as int) && group1_match(
                *header,
                data@,
                *old(offset) as int,
                vs.0@, vs.1@, vs.2@, vs.3@, vs.4@, vs.5@, vs.6@,
            ) && *final(offset) == *old(offset) + group1_size(*header),
            Err(_) => !group1_ok(*header, data@, *old(offset) as int),
        },
{
    let n_modules: usize = if header.has_table(METADATA_MODULE) {
        header.lens[METADATA_MODULE] as usize
    } else {
        0
    };
    let modules = parse_table::<Module>(header, data, offset, n_modules)?;
    let n_type_refs: usize = if header.has_table(METADATA_TYPE_REF) {
        header.lens[METADATA_TYPE_REF] as usize
    } else {
        0
    };
    let type_refs = parse_table::<TypeRef>(header, data, offset, n_type_refs)?;
    let n_type_defs: usize = if header.has_table(METADATA_TYPE_DEF) {
        header.lens[METADATA_TYPE_DEF] as usize
    } else {
        0
    };
    let type_defs = parse_table::<TypeDef>(header, data, offset, n_type_defs)?;
    let n_fields: usize = if header.has_table(METADATA_FIELD) {
        header.lens[METADATA_FIELD] as usize
    } else {
        0
    };
    let fields = parse_table::<Field>(header, data, offset, n_fields)?;
    let n_method_defs: usize = if header.has_table(METADATA_METHOD_DEF) {
        header.lens[METADATA_METHOD_DEF] as usize
    } else {
        0
    };
    let method_defs = parse_table::<MethodDef>(header, data, offset, n_method_defs)?;
    let n_params: usize = if header.has_table(METADATA_PARAM) {
        header.lens[METADATA_PARAM] as usize
    } else {
        0
    };
    let params = parse_table::<Param>(header, data, offset, n_params)?;
    let n_interface_impls: usize = if header.has_table(METADATA_INTERFACE_IMPL) {
        header.lens[METADATA_INTERFACE_IMPL] as usize
    } else {
        0
    };
    let interface_impls = parse_table::<InterfaceImpl>(header, data, offset, n_interface_impls)?;
    Ok((modules, type_refs, type_defs, fields, method_defs, params, interface_impls))
}

/// Bytes that tables 2 of 4 of the modeled catalog occupy from `o`.
pub open spec fn group2_size(h: Tables) -> int {
    table_count(h, METADATA_MEMBER_REF as int) * <MemberRef as Row>::row_size(h)
        + table_count(h, METADATA_CONSTANT as int) * <Constant as Row>::row_size(h)
        + table_count(h, METADATA_CUSTOM_ATTRIBUTE as int) * <CustomAttribute as Row>::row_size(h)
        + table_count(h, METADATA_FIELD_MARSHAL as int) * <FieldMarshal as Row>::row_size(h)
        + table_count(h, METADATA_DECL_SECURITY as int) * <DeclSecutity as Row>::row_size(h)
        + table_count(h, METADATA_CLASS_LAYOUT as int) * <ClassLayout as Row>::row_size(h)
        + table_count(h, METADATA_FIELD_LAYOUT as int) * <FieldLayout as Row>::row_size(h)
}

/// Whether tables 2 of 4 of the modeled catalog decode whole from `o`.
pub open spec fn group2_ok(h: Tables, s: Seq<u8>, o: int) -> bool {
    let o_member_refs = o;
    let o_constants = o_member_refs + table_count(h, METADATA_MEMBER_REF as int) * <MemberRef as Row>::row_size(h);
    let o_custom_attributes = o_constants + table_count(h, METADATA_CONSTANT as int) * <Constant as Row>::row_size(h);
    let o_field_marshals = o_custom_attributes + table_count(h, METADATA_CUSTOM_ATTRIBUTE as int) * <CustomAttribute as Row>::row_size(h);
    let o_security_attributes = o_field_marshals + table_count(h, METADATA_FIELD_MARSHAL as int) * <FieldMarshal as Row>::row_size(h);
    let o_class_layouts = o_security_attributes + table_count(h, METADATA_DECL_SECURITY as int) * <DeclSecutity as Row>::row_size(h);
    let o_field_layouts = o_class_layouts + table_count(h, METADATA_CLASS_LAYOUT as int) * <ClassLayout as Row>::row_size(h);
    &&& spec_table_ok::<MemberRef>(h, s, o_member_refs, table_count(h, METADATA_MEMBER_REF as int))
    &&& spec_table_ok::<Constant>(h, s, o_constants, table_count(h, METADATA_CONSTANT as int))
    &&& spec_table_ok::<CustomAttribute>(h, s, o_custom_attributes, table_count(h, METADATA_CUSTOM_ATTRIBUTE as int))
    &&& spec_table_ok::<FieldMarshal>(h, s, o_field_marshals, table_count(h, METADATA_FIELD_MARSHAL as int))
    &&& spec_table_ok::<DeclSecutity>(h, s, o_security_attributes, table_count(h, METADATA_DECL_SECURITY as int))
    &&& spec_table_ok::<ClassLayout>(h, s, o_class_layouts, table_count(h, METADATA_CLASS_LAYOUT as int))
    &&& spec_table_ok::<FieldLayout>(h, s, o_field_layouts, table_count(h, METADATA_FIELD_LAYOUT as int))
}

/// Whether the given row lists are exactly tables 2 of 4 laid out from `o`.
pub open spec fn group2_match(h: Tables, s: Seq<u8>, o: int, member_refs: Seq<MemberRef>, constants: Seq<Constant>, custom_attributes: Seq<CustomAttribute>, field_marshals: Seq<FieldMarshal>, security_attributes: Seq<DeclSecutity>, class_layouts: Seq<ClassLayout>, field_layouts: Seq<FieldLayout>) -> bool {
    let o_member_refs = o;
    let o_constants = o_member_refs + table_count(h, METADATA_MEMBER_REF as int) * <MemberRef as Row>::row_size(h);
    let o_custom_attributes = o_constants + table_count(h, METADATA_CONSTANT as int) * <Constant as Row>::row_size(h);
    let o_field_marshals = o_custom_attributes + table_count(h, METADATA_CUSTOM_ATTRIBUTE as int) * <CustomAttribute as Row>::row_size(h);
    let o_security_attributes = o_field_marshals + table_count(h, METADATA_FIELD_MARSHAL as int) * <FieldMarshal as Row>::row_size(h);
    let o_class_layouts = o_security_attributes + table_count(h, METADATA_DECL_SECURITY as int) * <DeclSecutity as Row>::row_size(h);
    let o_field_layouts = o_class_layouts + table_count(h, METADATA_CLASS_LAYOUT as int) * <ClassLayout as Row>::row_size(h);
    &&& spec_table_at::<MemberRef>(h, s, o_member_refs, table_count(h, METADATA_MEMBER_REF as int), member_refs)
    &&& spec_table_at::<Constant>(h, s, o_constants, table_count(h, METADATA_CONSTANT as int), constants)
    &&& spec_table_at::<CustomAttribute>(h, s, o_custom_attributes, table_count(h, METADATA_CUSTOM_ATTRIBUTE as int), custom_attributes)
    &&& spec_table_at::<FieldMarshal>(h, s, o_field_marshals, table_count(h, METADATA_FIELD_MARSHAL as int), field_marshals)
    &&& spec_table_at::<DeclSecutity>(h, s, o_security_attributes, table_count(h, METADATA_DECL_SECURITY as int), security_attributes)
    &&& spec_table_at::<ClassLayout>(h, s, o_class_layouts, table_count(h, METADATA_CLASS_LAYOUT as int), class_layouts)
    &&& spec_table_at::<FieldLayout>(h, s, o_field_layouts, table_count(h, METADATA_FIELD_LAYOUT as int), field_layouts)
}

/// Decode tables 2 of 4 of the modeled catalog, in ascending table-id
/// order (member_refs, constants, custom_attributes, field_marshals, security_attributes, class_layouts, field_layouts).
#[verifier::loop_isolation(false)]
#[verifier::spinoff_prover]
#[verifier::rlimit(100)]
fn parse_group2(header: &Tables, data: &[u8], offset: &mut usize) -> (r: Result<(
    Vec<MemberRef>,
    Vec<Constant>,
    Vec<CustomAttribute>,
    Vec<FieldMarshal>,
    Vec<DeclSecutity>,
    Vec<ClassLayout>,
    Vec<FieldLayout>,
), ApsError>)
    ensures
        match r {
            Ok(vs) => group2_ok(*header, data@, *old(offset) as int) && group2_match(
                *header,
                data@,
                *old(offset) as int,
                vs.0@, vs.1@, vs.2@, vs.3@, vs.4@, vs.5@, vs.6@,
            ) && *final(offset) == *old(offset) + group2_size(*header),
            Err(_) => !group2_ok(*header, data@, *old(offset) as int),
        },
{
    let n_member_refs: usize = if header.has_table(METADATA_MEMBER_REF) {
        header.lens[METADATA_MEMBER_REF] as usize
    } else {
        0
    };
    let member_refs = parse_table::<MemberRef>(header, data, offset, n_member_refs)?;
    let n_constants: usize = if header.has_table(METADATA_CONSTANT) {
        header.lens[METADATA_CONSTANT] as usize
    } else {
        0
    };
    let constants = parse_table::<Constant>(header, data, offset, n_constants)?;
    let n_custom_attributes: usize = if header.has_table(METADATA_CUSTOM_ATTRIBUTE) {
        header.lens[METADATA_CUSTOM_ATTRIBUTE] as usize
    } else {
        0
    };
    let custom_attributes = parse_table::<CustomAttribute>(header, data, offset, n_custom_attributes)?;
    let n_field_marshals: usize = if header.has_table(METADATA_FIELD_MARSHAL) {
        header.lens[METADATA_FIELD_MARSHAL] as usize
    } else {
        0
    };
    let field_marshals = parse_table::<FieldMarshal>(header, data, offset, n_field_marshals)?;
    let n_security_attributes: usize = if header.has_table(METADATA_DECL_SECURITY) {
        header.lens[METADATA_DECL_SECURITY] as usize
    } else {
        0
    };
    let security_attributes = parse_table::<DeclSecutity>(header, data, offset, n_security_attributes)?;
    let n_class_layouts: usize = if header.has_table(METADATA_CLASS_LAYOUT) {
        header.lens[METADATA_CLASS_LAYOUT] as usize
    } else {
        0
    };
    let class_layouts = parse_table::<ClassLayout>(header, data, offset, n_class_layouts)?;
    let n_field_layouts: usize = if header.has_table(METADATA_FIELD_LAYOUT) {
        header.lens[METADATA_FIELD_LAYOUT] as usize
    } else {
        0
    };
    let field_layouts = parse_table::<FieldLayout>(header, data, offset, n_field_layouts)?;
    Ok((member_refs, constants, custom_attributes, field_marshals, security_attributes, class_layouts, field_layouts))
}

/// Bytes that tables 3 of 4 of the modeled catalog occupy from `o`.
pub open spec fn group3_size(h: Tables) -> int {
    table_count(h, METADATA_STANDALONE_SIG as int) * <StandAloneSig as Row>::row_size(h)
        + table_count(h, METADATA_EVENT_MAP as int) * <EventMap as Row>::row_size(h)
        + table_count(h, METADATA_EVENT as int) * <Event as Row>::row_size(h)
        + table_count(h, METADATA_PROPERTY_MAP as int) * <PropertyMap as Row>::row_size(h)
        + table_count(h, METADATA_PROPERTY as int) * <Property as Row>::row_size(h)
        + table_count(h, METADATA_METHOD_SEMANTICS as int) * <MethodSemantics as Row>::row_size(h)
        + table_count(h, METADATA_METHOD_IMPL as int) * <MethodImpl as Row>::row_size(h)
}

/// Whether tables 3 of 4 of the modeled catalog decode whole from `o`.
pub open spec fn group3_ok(h: Tables, s: Seq<u8>, o: int) -> bool {
    let o_standalone_signatures = o;
    let o_event_maps = o_standalone_signatures + table_count(h, METADATA_STANDALONE_SIG as int) * <StandAloneSig as Row>::row_size(h);
    let o_events = o_event_maps + table_count(h, METADATA_EVENT_MAP as int) * <EventMap as Row>::row_size(h);
    let o_property_maps = o_events + table_count(h, METADATA_EVENT as int) * <Event as Row>::row_size(h);
    let o_properties = o_property_maps + table_count(h, METADATA_PROPERTY_MAP as int) * <PropertyMap as Row>::row_size(h);
    let o_method_semantics = o_properties + table_count(h, METADATA_PROPERTY as int) * <Property as Row>::row_size(h);
    let o_method_impls = o_method_semantics + table_count(h, METADATA_METHOD_SEMANTICS as int) * <MethodSemantics as Row>::row_size(h);
    &&& spec_table_ok::<StandAloneSig>(h, s, o_standalone_signatures, table_count(h, METADATA_STANDALONE_SIG as int))
    &&& spec_table_ok::<EventMap>(h, s, o_event_maps, table_count(h, METADATA_EVENT_MAP as int))
    &&& spec_table_ok::<Event>(h, s, o_events, table_count(h, METADATA_EVENT as int))
    &&& spec_table_ok::<PropertyMap>(h, s, o_property_maps, table_count(h, METADATA_PROPERTY_MAP as int))
    &&& spec_table_ok::<Property>(h, s, o_properties, table_count(h, METADATA_PROPERTY as int))
    &&& spec_table_ok::<MethodSemantics>(h, s, o_method_semantics, table_count(h, METADATA_METHOD_SEMANTICS as int))
    &&& spec_table_ok::<MethodImpl>(h, s, o_method_impls, table_count(h, METADATA_METHOD_IMPL as int))
}

/// Whether the given row lists are exactly tables 3 of 4 laid out from `o`.
pub open spec fn group3_match(h: Tables, s: Seq<u8>, o: int, standalone_signatures: Seq<StandAloneSig>, event_maps: Seq<EventMap>, events: Seq<Event>, property_maps: Seq<PropertyMap>, properties: Seq<Property>, method_semantics: Seq<MethodSemantics>, method_impls: Seq<MethodImpl>) -> bool {
    let o_standalone_signatures = o;
    let o_event_maps = o_standalone_signatures + table_count(h, METADATA_STANDALONE_SIG as int) * <StandAloneSig as Row>::row_size(h);
    let o_events = o_event_maps + table_count(h, METADATA_EVENT_MAP as int) * <EventMap as Row>::row_size(h);
    let o_property_maps = o_events + table_count(h, METADATA_EVENT as int) * <Event as Row>::row_size(h);
    let o_properties = o_property_maps + table_count(h, METADATA_PROPERTY_MAP as int) * <PropertyMap as Row>::row_size(h);
    let o_method_semantics = o_properties + table_count(h, METADATA_PROPERTY as int) * <Property as Row>::row_size(h);
    let o_method_impls = o_method_semantics + table_count(h, METADATA_METHOD_SEMANTICS as int) * <MethodSemantics as Row>::row_size(h);
    &&& spec_table_at::<StandAloneSig>(h, s, o_standalone_signatures, table_count(h, METADATA_STANDALONE_SIG as int), standalone_signatures)
    &&& spec_table_at::<EventMap>(h, s, o_event_maps, table_count(h, METADATA_EVENT_MAP as int), event_maps)
    &&& spec_table_at::<Event>(h, s, o_events, table_count(h, METADATA_EVENT as int), events)
    &&& spec_table_at::<PropertyMap>(h, s, o_property_maps, table_count(h, METADATA_PROPERTY_MAP as int), property_maps)
    &&& spec_table_at::<Property>(h, s, o_properties, table_count(h, METADATA_PROPERTY as int), properties)
    &&& spec_table_at::<MethodSemantics>(h, s, o_method_semantics, table_count(h, METADATA_METHOD_SEMANTICS as int), method_semantics)
    &&& spec_table_at::<MethodImpl>(h, s, o_method_impls, table_count(h, METADATA_METHOD_IMPL as int), method_impls)
}

/// Decode tables 3 of 4 of the modeled catalog, in ascending table-id
/// order (standalone_signatures, event_maps, events, property_maps, properties, method_semantics, method_impls).
#[verifier::loop_isolation(false)]
#[verifier::spinoff_prover]
#[verifier::rlimit(100)]
fn parse_group3(header: &Tables, data: &[u8], offset: &mut usize) -> (r: Result<(
    Vec<StandAloneSig>,
    Vec<EventMap>,
    Vec<Event>,
    Vec<PropertyMap>,
    Vec<Property>,
    Vec<MethodSemantics>,
    Vec<MethodImpl>,
), ApsError>)
    ensures
        match r {
            Ok(vs) => group3_ok(*header, data@, *old(offset) as int) && group3_match(
                *header,
                data@,
                *old(offset) as int,
                vs.0@, vs.1@, vs.2@, vs.3@, vs.4@, vs.5@, vs.6@,
            ) && *final(offset) == *old(offset) + group3_size(*header),
            Err(_) => !group3_ok(*header, data@, *old(offset) as int),
        },
{
    let n_standalone_signatures: usize = if header.has_table(METADATA_STANDALONE_SIG) {
        header.lens[METADATA_STANDALONE_SIG] as usize
    } else {
        0
    };
    let standalone_signatures = parse_table::<StandAloneSig>(header, data, offset, n_standalone_signatures)?;
    let n_event_maps: usize = if header.has_table(METADATA_EVENT_MAP) {
        header.lens[METADATA_EVENT_MAP] as usize
    } else {
        0
    };
    let event_maps = parse_table::<EventMap>(header, data, offset, n_event_maps)?;
    let n_events: usize = if header.has_table(METADATA_EVENT) {
        header.lens[METADATA_EVENT] as usize
    } else {
        0
    };
    let events = parse_table::<Event>(header, data, offset, n_events)?;
    let n_property_maps: usize = if header.has_table(METADATA_PROPERTY_MAP) {
        header.lens[METADATA_PROPERTY_MAP] as usize
    } else {
        0
    };
    let property_maps = parse_table::<PropertyMap>(header, data, offset, n_property_maps)?;
    let n_properties: usize = if header.has_table(METADATA_PROPERTY) {
        header.lens[METADATA_PROPERTY] as usize
    } else {
        0
    };
    let properties = parse_table::<Property>(header, data, offset, n_properties)?;
    let n_method_semantics: usize = if header.has_table(METADATA_METHOD_SEMANTICS) {
        header.lens[METADATA_METHOD_SEMANTICS] as usize
    } else {
        0
    };
    let method_semantics = parse_table::<MethodSemantics>(header, data, offset, n_method_semantics)?;
    let n_method_impls: usize = if header.has_table(METADATA_METHOD_IMPL) {
        header.lens[METADATA_METHOD_IMPL] as usize
    } else {
        0
    };
    let method_impls = parse_table::<MethodImpl>(header, data, offset, n_method_impls)?;
    Ok((standalone_signatures, event_maps, events, property_maps, properties, method_semantics, method_impls))
}

/// Bytes that tables 4 of 4 of the modeled catalog occupy from `o`.
pub open spec fn group4_size(h: Tables) -> int {
    table_count(h, METADATA_MODULE_REF as int) * <ModuleRef as Row>::row_size(h)
        + table_count(h, METADATA_TYPE_SPEC as int) * <TypeSpec as Row>::row_size(h)
        + table_count(h, METADATA_IMPL_MAP as int) * <ImplMap as Row>::row_size(h)
        + table_count(h, METADATA_FIELD_RVA as int) * <FieldRVA as Row>::row_size(h)
        + table_count(h, METADATA_ASSEMBLY as int) * <Assembly as Row>::row_size(h)
        + table_count(h, METADATA_ASSEMBLY_REF as int) * <AssemblyRef as Row>::row_size(h)
        + table_count(h, METADATA_FILE as int) * <File as Row>::row_size(h)
}

/// Whether tables 4 of 4 of the modeled catalog decode whole from `o`.
pub open spec fn group4_ok(h: Tables, s: Seq<u8>, o: int) -> bool {
    let o_module_refs = o;
    let o_type_specs = o_module_refs + table_count(h, METADATA_MODULE_REF as int) * <ModuleRef as Row>::row_size(h);
    let o_impl_maps = o_type_specs + table_count(h, METADATA_TYPE_SPEC as int) * <TypeSpec as Row>::row_size(h);
    let o_field_rvas = o_impl_maps + table_count(h, METADATA_IMPL_MAP as int) * <ImplMap as Row>::row_size(h);
    let o_assemblies = o_field_rvas + table_count(h, METADATA_FIELD_RVA as int) * <FieldRVA as Row>::row_size(h);
    let o_assembly_refs = o_assemblies + table_count(h, METADATA_ASSEMBLY as int) * <Assembly as Row>::row_size(h);
    let o_files = o_assembly_refs + table_count(h, METADATA_ASSEMBLY_REF as int) * <AssemblyRef as Row>::row_size(h);
    &&& spec_table_ok::<ModuleRef>(h, s, o_module_refs, table_count(h, METADATA_MODULE_REF as int))
    &&& spec_table_ok::<TypeSpec>(h, s, o_type_specs, table_count(h, METADATA_TYPE_SPEC as int))
    &&& spec_table_ok::<ImplMap>(h, s, o_impl_maps, table_count(h, METADATA_IMPL_MAP as int))
    &&& spec_table_ok::<FieldRVA>(h, s, o_field_rvas, table_count(h, METADATA_FIELD_RVA as int))
    &&& spec_table_ok::<Assembly>(h, s, o_assemblies, table_count(h, METADATA_ASSEMBLY as int))
    &&& spec_table_ok::<AssemblyRef>(h, s, o_assembly_refs, table_count(h, METADATA_ASSEMBLY_REF as int))
    &&& spec_table_ok::<File>(h, s, o_files, table_count(h, METADATA_FILE as int))
}

/// Whether the given row lists are exactly tables 4 of 4 laid out from `o`.
pub open spec fn group4_match(h: Tables, s: Seq<u8>, o: int, module_refs: Seq<ModuleRef>, type_specs: Seq<TypeSpec>, impl_maps: Seq<ImplMap>, field_rvas: Seq<FieldRVA>, assemblies: Seq<Assembly>, assembly_refs: Seq<AssemblyRef>, files: Seq<File>) -> bool {
    let o_module_refs = o;
    let o_type_specs = o_module_refs + table_count(h, METADATA_MODULE_REF as int) * <ModuleRef as Row>::row_size(h);
    let o_impl_maps = o_type_specs + table_count(h, METADATA_TYPE_SPEC as int) * <TypeSpec as Row>::row_size(h);
    let o_field_rvas = o_impl_maps + table_count(h, METADATA_IMPL_MAP as int) * <ImplMap as Row>::row_size(h);
    let o_assemblies = o_field_rvas + table_count(h, METADATA_FIELD_RVA as int) * <FieldRVA as Row>::row_size(h);
    let o_assembly_refs = o_assemblies + table_count(h, METADATA_ASSEMBLY as int) * <Assembly as Row>::row_size(h);
    let o_files = o_assembly_refs + table_count(h, METADATA_ASSEMBLY_REF as int) * <AssemblyRef as Row>::row_size(h);
    &&& spec_table_at::<ModuleRef>(h, s, o_module_refs, table_count(h, METADATA_MODULE_REF as int), module_refs)
    &&& spec_table_at::<TypeSpec>(h, s, o_type_specs, table_count(h, METADATA_TYPE_SPEC as int), type_specs)
    &&& spec_table_at::<ImplMap>(h, s, o_impl_maps, table_count(h, METADATA_IMPL_MAP as int), impl_maps)
    &&& spec_table_at::<FieldRVA>(h, s, o_field_rvas, table_count(h, METADATA_FIELD_RVA as int), field_rvas)
    &&& spec_table_at::<Assembly>(h, s, o_assemblies, table_count(h, METADATA_ASSEMBLY as int), assemblies)
    &&& spec_table_at::<AssemblyRef>(h, s, o_assembly_refs, table_count(h, METADATA_ASSEMBLY_REF as int), assembly_refs)
    &&& spec_table_at::<File>(h, s, o_files, table_count(h, METADATA_FILE as int), files)
}

/// Decode tables 4 of 4 of the modeled catalog, in ascending table-id
/// order (module_refs, type_specs, impl_maps, field_rvas, assemblies, assembly_refs, files).
#[verifier::loop_isolation(false)]
#[verifier::spinoff_prover]
#[verifier::rlimit(100)]
fn parse_group4(header: &Tables, data: &[u8], offset: &mut usize) -> (r: Result<(
    Vec<ModuleRef>,
    Vec<TypeSpec>,
    Vec<ImplMap>,
    Vec<FieldRVA>,
    Vec<Assembly>,
    Vec<AssemblyRef>,
    Vec<File>,
), ApsError>)
    ensures
        match r {
            Ok(vs) => group4_ok(*header, data@, *old(offset) as int) && group4_match(
                *header,
                data@,
                *old(offset) as int,
                vs.0@, vs.1@, vs.2@, vs.3@, vs.4@, vs.5@, vs.6@,
            ) && *final(offset) == *old(offset) + group4_size(*header),
            Err(_) => !group4_ok(*header, data@, *old(offset) as int),
        },
{
    let n_module_refs: usize = if header.has_table(METADATA_MODULE_REF) {
        header.lens[METADATA_MODULE_REF] as usize
    } else {
        0
    };
    let module_refs = parse_table::<ModuleRef>(header, data, offset, n_module_refs)?;
    let n_type_specs: usize = if header.has_table(METADATA_TYPE_SPEC) {
        header.lens[METADATA_TYPE_SPEC] as usize
    } else {
        0
    };
    let type_specs = parse_table::<TypeSpec>(header, data, offset, n_type_specs)?;
    let n_impl_maps: usize = if header.has_table(METADATA_IMPL_MAP) {
        header.lens[METADATA_IMPL_MAP] as usize
    } else {
        0
    };
    let impl_maps = parse_table::<ImplMap>(header, data, offset, n_impl_maps)?;
    let n_field_rvas: usize = if header.has_table(METADATA_FIELD_RVA) {
        header.lens[METADATA_FIELD_RVA] as usize
    } else {
        0
    };
    let field_rvas = parse_table::<FieldRVA>(header, data, offset, n_field_rvas)?;
    let n_assemblies: usize = if header.has_table(METADATA_ASSEMBLY) {
        header.lens[METADATA_ASSEMBLY] as usize
    } else {
        0
    };
    let assemblies = parse_table::<Assembly>(header, data, offset, n_assemblies)?;
    let n_assembly_refs: usize = if header.has_table(METADATA_ASSEMBLY_REF) {
        header.lens[METADATA_ASSEMBLY_REF] as usize
    } else {
        0
    };
    let assembly_refs = parse_table::<AssemblyRef>(header, data, offset, n_assembly_refs)?;
    let n_files: usize = if header.has_table(METADATA_FILE) {
        header.lens[METADATA_FILE] as usize
    } else {
        0
    };
    let files = parse_table::<File>(header, data, offset, n_files)?;
    Ok((module_refs, type_specs, impl_maps, field_rvas, assemblies, assembly_refs, files))
}

/// The decoded logical tables: one dense row list per table that this
/// decoder models, in ascending table-id order; an absent table is an
/// empty list.
#[derive(Debug, PartialEq, Clone)]
pub struct TableRows {
    pub modules: Vec<Module>,
    pub type_refs: Vec<TypeRef>,
    pub type_defs: Vec<TypeDef>,
    pub fields: Vec<Field>,
    pub method_defs: Vec<MethodDef>,
    pub params: Vec<Param>,
    pub interface_impls: Vec<InterfaceImpl>,
    pub member_refs: Vec<MemberRef>,
    pub constants: Vec<Constant>,
    pub custom_attributes: Vec<CustomAttribute>,
    pub field_marshals: Vec<FieldMarshal>,
    pub security_attributes: Vec<DeclSecutity>,
    pub class_layouts: Vec<ClassLayout>,
    pub field_layouts: Vec<FieldLayout>,
    pub standalone_signatures: Vec<StandAloneSig>,
    pub event_maps: Vec<EventMap>,
    pub events: Vec<Event>,
    pub property_maps: Vec<PropertyMap>,
    pub properties: Vec<Property>,
    pub method_semantics: Vec<MethodSemantics>,
    pub method_impls: Vec<MethodImpl>,
    pub module_refs: Vec<ModuleRef>,
    pub type_specs: Vec<TypeSpec>,
    pub impl_maps: Vec<ImplMap>,
    pub field_rvas: Vec<FieldRVA>,
    pub assemblies: Vec<Assembly>,
    pub assembly_refs: Vec<AssemblyRef>,
    pub files: Vec<File>,
}

/// Whether every modeled table decodes whole from the row bytes `s`
/// (which begin right after the prologue), in ascending table-id
/// order, and none of the four tables that shall not appear in an
/// image (AssemblyProcessor, AssemblyOS, AssemblyRefProcessor,
/// AssemblyRefOS) is present.
pub open spec fn rows_ok(h: Tables, s: Seq<u8>) -> bool {
    &&& group1_ok(h, s, 0int)
    &&& group2_ok(h, s, group1_size(h))
    &&& group3_ok(h, s, group1_size(h) + group2_size(h))
    &&& group4_ok(h, s, group1_size(h) + group2_size(h) + group3_size(h))
    &&& !mask_bit(h.valid_mask, METADATA_ASSEMBLY_PROCESSOR as int)
    &&& !mask_bit(h.valid_mask, METADATA_ASSEMBLY_OS as int)
    &&& !mask_bit(h.valid_mask, METADATA_ASSEMBLY_REF_PROCESSOR as int)
    &&& !mask_bit(h.valid_mask, METADATA_ASSEMBLY_REF_OS as int)
}

/// Whether `t` holds exactly the rows that the row bytes `s` lay out.
pub open spec fn rows_match(h: Tables, s: Seq<u8>, t: TableRows) -> bool {
    &&& group1_match(h, s, 0int, t.modules@, t.type_refs@, t.type_defs@, t.fields@, t.method_defs@, t.params@, t.interface_impls@)
    &&& group2_match(h, s, group1_size(h), t.member_refs@, t.constants@, t.custom_attributes@, t.field_marshals@, t.security_attributes@, t.class_layouts@, t.field_layouts@)
    &&& group3_match(h, s, group1_size(h) + group2_size(h), t.standalone_signatures@, t.event_maps@, t.events@, t.property_maps@, t.properties@, t.method_semantics@, t.method_impls@)
    &&& group4_match(h, s, group1_size(h) + group2_size(h) + group3_size(h), t.module_refs@, t.type_specs@, t.impl_maps@, t.field_rvas@, t.assemblies@, t.assembly_refs@, t.files@)
}

impl TableRows {
    /// Every simple-index field of every row lies below the declared
    /// row count of the table it references.
    pub open spec fn wf(self, h: Tables) -> bool {
        &&& forall|j: int| 0 <= j < self.type_defs@.len() ==> (#[trigger] self.type_defs@[j]).field_list.0 < h.lens@[METADATA_FIELD as int] && (#[trigger] self.type_defs@[j]).method_list.0 < h.lens@[METADATA_METHOD_DEF as int]
        &&& forall|j: int| 0 <= j < self.method_defs@.len() ==> (#[trigger] self.method_defs@[j]).param_list.0 < h.lens@[METADATA_PARAM as int]
        &&& forall|j: int| 0 <= j < self.interface_impls@.len() ==> (#[trigger] self.interface_impls@[j]).class.0 < h.lens@[METADATA_TYPE_DEF as int]
        &&& forall|j: int| 0 <= j < self.class_layouts@.len() ==> (#[trigger] self.class_layouts@[j]).parent.0 < h.lens@[METADATA_TYPE_DEF as int]
        &&& forall|j: int| 0 <= j < self.field_layouts@.len() ==> (#[trigger] self.field_layouts@[j]).field.0 < h.lens@[METADATA_FIELD as int]
        &&& forall|j: int| 0 <= j < self.event_maps@.len() ==> (#[trigger] self.event_maps@[j]).parent.0 < h.lens@[METADATA_TYPE_DEF as int] && (#[trigger] self.event_maps@[j]).event_list.0 < h.lens@[METADATA_EVENT as int]
        &&& forall|j: int| 0 <= j < self.property_maps@.len() ==> (#[trigger] self.property_maps@[j]).parent.0 < h.lens@[METADATA_TYPE_DEF as int] && (#[trigger] self.property_maps@[j]).property_list.0 < h.lens@[METADATA_PROPERTY as int]
        &&& forall|j: int| 0 <= j < self.method_semantics@.len() ==> (#[trigger] self.method_semantics@[j]).method.0 < h.lens@[METADATA_METHOD_DEF as int]
        &&& forall|j: int| 0 <= j < self.method_impls@.len() ==> (#[trigger] self.method_impls@[j]).class.0 < h.lens@[METADATA_TYPE_DEF as int]
        &&& forall|j: int| 0 <= j < self.impl_maps@.len() ==> (#[trigger] self.impl_maps@[j]).scope.0 < h.lens@[METADATA_MODULE_REF as int]
        &&& forall|j: int| 0 <= j < self.field_rvas@.len() ==> (#[trigger] self.field_rvas@[j]).field.0 < h.lens@[METADATA_FIELD as int]
    }

    /// Decode every modeled table from the row bytes that follow the
    /// prologue, in ascending table-id order, and reject an image
    /// that stores a table that shall not appear.
    #[verifier::loop_isolation(false)]
    #[verifier::spinoff_prover]
    #[verifier::rlimit(100)]
    pub fn parse(header: &Tables, data: &[u8]) -> (r: Result<TableRows, ApsError>)
        ensures
            match r {
                Ok(t) => {
                    &&& rows_ok(*header, data@)
                    &&& rows_match(*header, data@, t)
                    &&& t.wf(*header)
                },
                Err(_) => !rows_ok(*header, data@),
            },
    {
        let mut offset: usize = 0;
        let (modules, type_refs, type_defs, fields, method_defs, params, interface_impls) = parse_group1(header, data, &mut offset)?;
        let (member_refs, constants, custom_attributes, field_marshals, security_attributes, class_layouts, field_layouts) = parse_group2(header, data, &mut offset)?;
        let (standalone_signatures, event_maps, events, property_maps, properties, method_semantics, method_impls) = parse_group3(header, data, &mut offset)?;
        let (module_refs, type_specs, impl_maps, field_rvas, assemblies, assembly_refs, files) = parse_group4(header, data, &mut offset)?;

        // II.22.4, II.22.3, II.22.7, II.22.6: these tables shall not
        // be emitted into any image.
        if header.has_table(METADATA_ASSEMBLY_PROCESSOR) {
            return Err(
                ApsError::General("AssemblyProcessor should not be emitted into any PE file."),
            );
        }
        if header.has_table(METADATA_ASSEMBLY_OS) {
            return Err(ApsError::General("AssemblyOS should not be emitted into any PE file."));
        }
        if header.has_table(METADATA_ASSEMBLY_REF_PROCESSOR) {
            return Err(
                ApsError::General("AssemblyRefProcessor should not be emitted into any PE file."),
            );
        }
        if header.has_table(METADATA_ASSEMBLY_REF_OS) {
            return Err(ApsError::General("AssemblyRefOS should not be emitted into any PE file."));
        }

        let t = TableRows {
            modules,
            type_refs,
            type_defs,
            fields,
            method_defs,
            params,
            interface_impls,
            member_refs,
            constants,
            custom_attributes,
            field_marshals,
            security_attributes,
            class_layouts,
            field_layouts,
            standalone_signatures,
            event_maps,
            events,
            property_maps,
            properties,
            method_semantics,
            method_impls,
            module_refs,
            type_specs,
            impl_maps,
            field_rvas,
            assemblies,
            assembly_refs,
            files
        };
        proof {
            lemma_rows_wf(*header, data@, t);
        }
        Ok(t)
    }
}

/// Placeholder for a row shape that this decoder does not model
/// (II.24.2.6): it holds no cell and consumes no bytes.
#[derive(Debug, PartialEq, Eq, Structural, Copy, Clone)]
pub struct D {}

impl D {
    /// Decode nothing: the placeholder row has no cells.
    pub fn parse(_header: &Tables, _data: &[u8], offset: &mut usize) -> (r: Result<D, ApsError>)
        ensures
            r == Ok::<D, ApsError>(D {  }),
            *final(offset) == *old(offset),
    {
        Ok(D {  })
    }
}

/// Rows that decoded from the stream respect the row-count bounds on
/// every simple-index field they carry.
#[verifier::spinoff_prover]
#[verifier::rlimit(100)]
pub proof fn lemma_rows_wf(h: Tables, s: Seq<u8>, t: TableRows)
    requires
        rows_match(h, s, t),
    ensures
        t.wf(h),
{
    let o_modules = 0int;
    let o_type_refs = o_modules + table_count(h, METADATA_MODULE as int) * <Module as Row>::row_size(h);
    let o_type_defs = o_type_refs + table_count(h, METADATA_TYPE_REF as int) * <TypeRef as Row>::row_size(h);
    let o_fields = o_type_defs + table_count(h, METADATA_TYPE_DEF as int) * <TypeDef as Row>::row_size(h);
    let o_method_defs = o_fields + table_count(h, METADATA_FIELD as int) * <Field as Row>::row_size(h);
    let o_params = o_method_defs + table_count(h, METADATA_METHOD_DEF as int) * <MethodDef as Row>::row_size(h);
    let o_interface_impls = o_params + table_count(h, METADATA_PARAM as int) * <Param as Row>::row_size(h);
    assert forall|j: int| 0 <= j < t.type_defs@.len() implies (#[trigger] t.type_defs@[j]).field_list.0 < h.lens@[METADATA_FIELD as int] && (#[trigger] t.type_defs@[j]).method_list.0 < h.lens@[METADATA_METHOD_DEF as int] by {
        assert(TypeDef::spec_row(h, s, o_type_defs + j * <TypeDef as Row>::row_size(h)) == Some(
            t.type_defs@[j],
        ));
    }
    assert forall|j: int| 0 <= j < t.method_defs@.len() implies (#[trigger] t.method_defs@[j]).param_list.0 < h.lens@[METADATA_PARAM as int] by {
        assert(MethodDef::spec_row(h, s, o_method_defs + j * <MethodDef as Row>::row_size(h)) == Some(
            t.method_defs@[j],
        ));
    }
    assert forall|j: int| 0 <= j < t.interface_impls@.len() implies (#[trigger] t.interface_impls@[j]).class.0 < h.lens@[METADATA_TYPE_DEF as int] by {
        assert(InterfaceImpl::spec_row(h, s, o_interface_impls + j * <InterfaceImpl as Row>::row_size(h)) == Some(
            t.interface_impls@[j],
        ));
    }
    let o_member_refs = group1_size(h);
    let o_constants = o_member_refs + table_count(h, METADATA_MEMBER_REF as int) * <MemberRef as Row>::row_size(h);
    let o_custom_attributes = o_constants + table_count(h, METADATA_CONSTANT as int) * <Constant as Row>::row_size(h);
    let o_field_marshals = o_custom_attributes + table_count(h, METADATA_CUSTOM_ATTRIBUTE as int) * <CustomAttribute as Row>::row_size(h);
    let o_security_attributes = o_field_marshals + table_count(h, METADATA_FIELD_MARSHAL as int) * <FieldMarshal as Row>::row_size(h);
    let o_class_layouts = o_security_attributes + table_count(h, METADATA_DECL_SECURITY as int) * <DeclSecutity as Row>::row_size(h);
    let o_field_layouts = o_class_layouts + table_count(h, METADATA_CLASS_LAYOUT as int) * <ClassLayout as Row>::row_size(h);
    assert forall|j: int| 0 <= j < t.class_layouts@.len() implies (#[trigger] t.class_layouts@[j]).parent.0 < h.lens@[METADATA_TYPE_DEF as int] by {
        assert(ClassLayout::spec_row(h, s, o_class_layouts + j * <ClassLayout as Row>::row_size(h)) == Some(
            t.class_layouts@[j],
        ));
    }
    assert forall|j: int| 0 <= j < t.field_layouts@.len() implies (#[trigger] t.field_layouts@[j]).field.0 < h.lens@[METADATA_FIELD as int] by {
        assert(FieldLayout::spec_row(h, s, o_field_layouts + j * <FieldLayout as Row>::row_size(h)) == Some(
            t.field_layouts@[j],
        ));
    }
    let o_standalone_signatures = group1_size(h) + group2_size(h);
    let o_event_maps = o_standalone_signatures + table_count(h, METADATA_STANDALONE_SIG as int) * <StandAloneSig as Row>::row_size(h);
    let o_events = o_event_maps + table_count(h, METADATA_EVENT_MAP as int) * <EventMap as Row>::row_size(h);
    let o_property_maps = o_events + table_count(h, METADATA_EVENT as int) * <Event as Row>::row_size(h);
    let o_properties = o_property_maps + table_count(h, METADATA_PROPERTY_MAP as int) * <PropertyMap as Row>::row_size(h);
    let o_method_semantics = o_properties + table_count(h, METADATA_PROPERTY as int) * <Property as Row>::row_size(h);
    let o_method_impls = o_method_semantics + table_count(h, METADATA_METHOD_SEMANTICS as int) * <MethodSemantics as Row>::row_size(h);
    assert forall|j: int| 0 <= j < t.event_maps@.len() implies (#[trigger] t.event_maps@[j]).parent.0 < h.lens@[METADATA_TYPE_DEF as int] && (#[trigger] t.event_maps@[j]).event_list.0 < h.lens@[METADATA_EVENT as int] by {
        assert(EventMap::spec_row(h, s, o_event_maps + j * <EventMap as Row>::row_size(h)) == Some(
            t.event_maps@[j],
        ));
    }
    assert forall|j: int| 0 <= j < t.property_maps@.len() implies (#[trigger] t.property_maps@[j]).parent.0 < h.lens@[METADATA_TYPE_DEF as int] && (#[trigger] t.property_maps@[j]).property_list.0 < h.lens@[METADATA_PROPERTY as int] by {
        assert(PropertyMap::spec_row(h, s, o_property_maps + j * <PropertyMap as Row>::row_size(h)) == Some(
            t.property_maps@[j],
        ));
    }
    assert forall|j: int| 0 <= j < t.method_semantics@.len() implies (#[trigger] t.method_semantics@[j]).method.0 < h.lens@[METADATA_METHOD_DEF as int] by {
        assert(MethodSemantics::spec_row(h, s, o_method_semantics + j * <MethodSemantics as Row>::row_size(h)) == Some(
            t.method_semantics@[j],
        ));
    }
    assert forall|j: int| 0 <= j < t.method_impls@.len() implies (#[trigger] t.method_impls@[j]).class.0 < h.lens@[METADATA_TYPE_DEF as int] by {
        assert(MethodImpl::spec_row(h, s, o_method_impls + j * <MethodImpl as Row>::row_size(h)) == Some(
            t.method_impls@[j],
        ));
    }
    let o_module_refs = group1_size(h) + group2_size(h) + group3_size(h);
    let o_type_specs = o_module_refs + table_count(h, METADATA_MODULE_REF as int) * <ModuleRef as Row>::row_size(h);
    let o_impl_maps = o_type_specs + table_count(h, METADATA_TYPE_SPEC as int) * <TypeSpec as Row>::row_size(h);
    let o_field_rvas = o_impl_maps + table_count(h, METADATA_IMPL_MAP as int) * <ImplMap as Row>::row_size(h);
    let o_assemblies = o_field_rvas + table_count(h, METADATA_FIELD_RVA as int) * <FieldRVA as Row>::row_size(h);
    let o_assembly_refs = o_assemblies + table_count(h, METADATA_ASSEMBLY as int) * <Assembly as Row>::row_size(h);
    let o_files = o_assembly_refs + table_count(h, METADATA_ASSEMBLY_REF as int) * <AssemblyRef as Row>::row_size(h);
    assert forall|j: int| 0 <= j < t.impl_maps@.len() implies (#[trigger] t.impl_maps@[j]).scope.0 < h.lens@[METADATA_MODULE_REF as int] by {
        assert(ImplMap::spec_row(h, s, o_impl_maps + j * <ImplMap as Row>::row_size(h)) == Some(
            t.impl_maps@[j],
        ));
    }
    assert forall|j: int| 0 <= j < t.field_rvas@.len() implies (#[trigger] t.field_rvas@[j]).field.0 < h.lens@[METADATA_FIELD as int] by {
        assert(FieldRVA::spec_row(h, s, o_field_rvas + j * <FieldRVA as Row>::row_size(h)) == Some(
            t.field_rvas@[j],
        ));
    }
}

} // verus!
