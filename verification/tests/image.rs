//! Tests of the PE walk, the CLI header, the metadata root, the
//! logical tables, tokens, and the IL of the entry-point method,
//! ending in a whole-image decode.

use aps::cli::header::{Header as CliHeader, Metadata};
use aps::cli::il::{dump_opcode, il_walk, ins_size, parse_method_body, HeaderKind};
use aps::cli::logical_tables::{
    CustomAttributeType, IndexSize, TableRows, Tables, TypeDefOrRef, METADATA_METHOD_DEF,
};
use aps::cli::token::{entry_point_method, table_index, MetadataToken};
use aps::error::ApsError;
use aps::pe::{Header, Section};
use aps::utils::{align_up, os_is_64};

fn put_u16(img: &mut [u8], at: usize, v: u16) {
    img[at..at + 2].copy_from_slice(&v.to_le_bytes());
}

fn put_u32(img: &mut [u8], at: usize, v: u32) {
    img[at..at + 4].copy_from_slice(&v.to_le_bytes());
}

/// A minimal well-formed image: one section mapping RVA `0x2000` to
/// file offset `0x200`, a CLI header, a metadata root with a `#~`
/// stream holding one MethodDef and one Param row, and a tiny method
/// body of three IL bytes.
fn build_image() -> Vec<u8> {
    let mut img = vec![0u8; 0x1200];
    img[0] = 0x4D;
    img[1] = 0x5A;
    put_u32(&mut img, 0x3C, 0x40);

    let p = 0x40;
    put_u32(&mut img, p, 0x0000_4550);
    put_u16(&mut img, p + 4, 0x014C);
    put_u16(&mut img, p + 6, 1);
    put_u16(&mut img, p + 20, 224);
    put_u16(&mut img, p + 22, 0x0002);
    put_u16(&mut img, p + 24, 0x010B);
    put_u32(&mut img, p + 116, 16);
    put_u32(&mut img, p + 232, 0x2000);
    put_u32(&mut img, p + 236, 72);
    let b = p + 248;
    put_u32(&mut img, b + 8, 0x1000);
    put_u32(&mut img, b + 12, 0x2000);
    put_u32(&mut img, b + 20, 0x200);

    let c = 0x200;
    put_u32(&mut img, c, 72);
    put_u16(&mut img, c + 4, 2);
    put_u16(&mut img, c + 6, 5);
    put_u32(&mut img, c + 8, 0x2100);
    put_u32(&mut img, c + 12, 92);
    put_u32(&mut img, c + 16, 0x0000_0001);
    put_u32(&mut img, c + 20, 0x0600_0001);

    let m = 0x300;
    put_u32(&mut img, m, 0x424A_5342);
    put_u32(&mut img, m + 12, 4);
    img[m + 16..m + 20].copy_from_slice(b"v4.0");
    put_u16(&mut img, m + 22, 1);
    put_u32(&mut img, m + 24, 40);
    put_u32(&mut img, m + 28, 52);
    img[m + 32] = b'#';
    img[m + 33] = b'~';

    let t = m + 40;
    let mask: u64 = (1 << 6) | (1 << 8);
    img[t + 8..t + 16].copy_from_slice(&mask.to_le_bytes());
    put_u32(&mut img, t + 24, 1);
    put_u32(&mut img, t + 28, 1);
    let r = t + 32;
    put_u32(&mut img, r, 0x2200);

    img[0x400] = (3 << 2) | 2;
    img[0x401] = 0x00;
    img[0x402] = 0x00;
    img[0x403] = 0x2A;

    img
}

fn tables_with(lens: [u32; 64]) -> Tables {
    Tables {
        string_index_size: IndexSize::U16,
        guid_index_size: IndexSize::U16,
        blob_index_size: IndexSize::U16,
        lens,
        size: 24,
        valid_mask: 0,
    }
}

#[test]
fn dos_magic_accepted() {
    let mut data = vec![0u8; 0x40];
    data[0] = 0x4D;
    data[1] = 0x5A;
    let e = Header::parse(&data).unwrap_err();
    // The walk went past the DOS check and failed later.
    assert_ne!(e.message(), "Signature is wrong!");
}

#[test]
fn dos_magic_rejected() {
    let data = vec![0u8; 0x40];
    let e = Header::parse(&data).unwrap_err();
    assert_eq!(e.message(), "Signature is wrong!");
}

#[test]
fn pe_parse_whole_image() {
    let img = build_image();
    let pe = Header::parse(&img).unwrap();
    assert_eq!(pe.cli_rva, 0x2000);
    assert_eq!(pe.cli_size, 72);
    assert_eq!(
        pe.sections,
        vec![Section { virtual_size: 0x1000, virtual_address: 0x2000, raw_address: 0x200 }]
    );
    // The CLI directory is mapped and lies within the image.
    let off = pe.rva2offset(pe.cli_rva as usize).unwrap();
    assert_eq!(off, 0x200);
    assert!(off + pe.cli_size as usize <= img.len());
    // Every section's file range lies within the image.
    for s in &pe.sections {
        assert!((s.raw_address as usize) + (s.virtual_size as usize) <= img.len());
    }
}

#[test]
fn pe_rejects_section_outside_image() {
    let mut img = build_image();
    // Raw range escapes the image: raw + vsize > len.
    put_u32(&mut img, 0x40 + 248 + 20, 0x1000);
    let e = Header::parse(&img).unwrap_err();
    assert_eq!(e.message(), "Section data does not fit in the image.");
}

#[test]
fn pe_rejects_unmapped_cli_rva() {
    let mut img = build_image();
    put_u32(&mut img, 0x40 + 232, 0x9000);
    let e = Header::parse(&img).unwrap_err();
    assert_eq!(e.message(), "CLI header RVA is unmapped.");
}

#[test]
fn pe_rejects_wrong_machine() {
    let mut img = build_image();
    put_u16(&mut img, 0x40 + 4, 0x8664);
    let e = Header::parse(&img).unwrap_err();
    assert_eq!(e.message(), "Unexpected target machine specified.");
}

#[test]
fn pe_rejects_dll() {
    let mut img = build_image();
    put_u16(&mut img, 0x40 + 22, 0x2002);
    let e = Header::parse(&img).unwrap_err();
    assert_eq!(e.message(), "File is not a CIL executable, but a class library.");
}

#[test]
fn rva_resolution() {
    let header = Header {
        cli_rva: 0,
        cli_size: 0,
        sections: vec![Section { virtual_size: 0x1000, virtual_address: 0x2000, raw_address: 0x400 }],
    };
    assert_eq!(header.rva2offset(0x2050), Some(0x450));
    assert_eq!(header.rva2offset(0x1000), None);
    assert_eq!(header.rva2offset(0x3000), None);
    assert_eq!(header.rva2offset(0x2FFF), Some(0x13FF));
}

#[test]
fn rva_resolution_first_match_wins() {
    let header = Header {
        cli_rva: 0,
        cli_size: 0,
        sections: vec![
            Section { virtual_size: 0x100, virtual_address: 0x1000, raw_address: 0x200 },
            Section { virtual_size: 0x1000, virtual_address: 0x1000, raw_address: 0x800 },
        ],
    };
    assert_eq!(header.rva2offset(0x1010), Some(0x210));
    assert_eq!(header.rva2offset(0x1200), Some(0xA00));
}

#[test]
fn cli_header_fields() {
    let img = build_image();
    let pe = Header::parse(&img).unwrap();
    let cli = &img[0x200..0x200 + 72];
    let h = CliHeader::parse(cli, &pe).unwrap();
    assert_eq!(h.metadata_rva, 0x2100);
    assert_eq!(h.metadata_size, 92);
    assert_eq!(h.ep_token, 0x0600_0001);
}

#[test]
fn cli_header_rejects_wrong_size() {
    let img = build_image();
    let mut pe = Header::parse(&img).unwrap();
    pe.cli_size = 64;
    let cli = &img[0x200..0x200 + 72];
    let e = CliHeader::parse(cli, &pe).unwrap_err();
    assert_eq!(e.message(), "CLI header specifies wrong size.");
}

#[test]
fn cli_header_rejects_non_il_only() {
    let mut img = build_image();
    put_u32(&mut img, 0x200 + 16, 0);
    let pe = Header::parse(&img).unwrap();
    let cli = &img[0x200..0x200 + 72];
    let e = CliHeader::parse(cli, &pe).unwrap_err();
    assert_eq!(e.message(), "Assembly contains not only IL.");
}

#[test]
fn cli_header_rejects_native_entry_point() {
    let mut img = build_image();
    put_u32(&mut img, 0x200 + 16, 0x11);
    let pe = Header::parse(&img).unwrap();
    let cli = &img[0x200..0x200 + 72];
    let e = CliHeader::parse(cli, &pe).unwrap_err();
    assert_eq!(e.message(), "Assembly has native entry-point.");
}

#[test]
fn cli_header_rejects_nonzero_reserved_field() {
    let mut img = build_image();
    put_u32(&mut img, 0x200 + 32, 1);
    let pe = Header::parse(&img).unwrap();
    let cli = &img[0x200..0x200 + 72];
    let e = CliHeader::parse(cli, &pe).unwrap_err();
    assert_eq!(e.message(), "Assembly has VTable fixups.");
}

#[test]
fn metadata_root_streams() {
    let img = build_image();
    let md = &img[0x300..0x300 + 92];
    let m = Metadata::parse(md).unwrap();
    assert!(m.logical_tables.is_some());
    assert!(m.strings.is_none());
    assert!(m.user_strings.is_none());
    assert!(m.blobs.is_none());
    assert!(m.guids.is_none());
    assert_eq!(m.logical_tables.as_ref().unwrap().len(), 52);
}

#[test]
fn metadata_root_rejects_bad_magic() {
    let mut img = build_image();
    img[0x300] = 0;
    let md = &img[0x300..0x300 + 92];
    let e = Metadata::parse(md).unwrap_err();
    assert_eq!(e.message(), "Metadata signature is wrong.");
}

#[test]
fn metadata_root_rejects_unknown_stream() {
    let mut img = build_image();
    img[0x300 + 33] = b'!';
    let md = &img[0x300..0x300 + 92];
    let e = Metadata::parse(md).unwrap_err();
    assert_eq!(e.message(), "Unknown section name.");
}

#[test]
fn metadata_root_rejects_long_version() {
    let mut img = build_image();
    put_u32(&mut img, 0x300 + 12, 300);
    let md = &img[0x300..0x300 + 92];
    let e = Metadata::parse(md).unwrap_err();
    assert_eq!(e.message(), "Metadata version length is incorrect.");
}

#[test]
fn tables_prologue() {
    let img = build_image();
    let md = &img[0x300..0x300 + 92];
    let m = Metadata::parse(md).unwrap();
    let lt = m.logical_tables.unwrap();
    let t = Tables::parse(&lt).unwrap();
    assert_eq!(t.string_index_size, IndexSize::U16);
    assert_eq!(t.guid_index_size, IndexSize::U16);
    assert_eq!(t.blob_index_size, IndexSize::U16);
    assert_eq!(t.size, 32);
    assert_eq!(t.lens[6], 1);
    assert_eq!(t.lens[8], 1);
    assert_eq!(t.lens[0], 0);
}

#[test]
fn tables_heap_size_bits() {
    let mut data = vec![0u8; 24];
    data[6] = 0b101;
    let t = Tables::parse(&data).unwrap();
    assert_eq!(t.string_index_size, IndexSize::U32);
    assert_eq!(t.guid_index_size, IndexSize::U16);
    assert_eq!(t.blob_index_size, IndexSize::U32);
    assert_eq!(t.size, 24);
}

#[test]
fn table_rows_and_entry_point() {
    let img = build_image();
    let md = &img[0x300..0x300 + 92];
    let m = Metadata::parse(md).unwrap();
    let lt = m.logical_tables.unwrap();
    let t = Tables::parse(&lt).unwrap();
    let rows = TableRows::parse(&t, &lt[t.size..]).unwrap();
    assert_eq!(rows.method_defs.len(), 1);
    assert_eq!(rows.params.len(), 1);
    assert_eq!(rows.modules.len(), 0);
    assert_eq!(rows.method_defs[0].rva, 0x2200);

    let ep = MetadataToken::try_from(0x0600_0001).unwrap();
    let main_row = entry_point_method(&rows, ep).unwrap();
    assert_eq!(main_row.rva, 0x2200);
}

#[test]
fn simple_index_out_of_range() {
    // FieldLayout (0x10) references the Field table (0x04); a field
    // index at the declared count is out of range.
    let mut data = vec![0u8; 32 + 6 + 6];
    let mask: u64 = (1 << 0x04) | (1 << 0x10);
    data[8..16].copy_from_slice(&mask.to_le_bytes());
    put_u32(&mut data, 24, 1);
    put_u32(&mut data, 28, 1);
    // Field row (6 bytes) is all zero; FieldLayout row: offset then
    // a field index of 1, one past the single row.
    put_u16(&mut data, 32 + 6 + 4, 1);
    let t = Tables::parse(&data).unwrap();
    let e = TableRows::parse(&t, &data[t.size..]).unwrap_err();
    assert_eq!(e.message(), "Row index is out of range.");

    // With the index in range the same stream decodes.
    put_u16(&mut data, 32 + 6 + 4, 0);
    let rows = TableRows::parse(&t, &data[t.size..]).unwrap();
    assert_eq!(rows.field_layouts.len(), 1);
    assert_eq!(rows.field_layouts[0].field.0, 0);
}

#[test]
fn forbidden_table_rejected() {
    let mut data = vec![0u8; 28];
    let mask: u64 = 1 << 0x21;
    data[8..16].copy_from_slice(&mask.to_le_bytes());
    put_u32(&mut data, 24, 0);
    let t = Tables::parse(&data).unwrap();
    let e = TableRows::parse(&t, &data[t.size..]).unwrap_err();
    assert_eq!(e.message(), "AssemblyProcessor should not be emitted into any PE file.");
}

#[test]
fn coded_index_width_two_bytes() {
    let mut lens = [0u32; 64];
    lens[0x02] = 16383;
    let t = tables_with(lens);
    let data: Vec<u8> = vec![0x05, 0x00, 0xFF, 0xFF];
    let mut offset: usize = 0;
    let c = TypeDefOrRef::parse(&t, &data, &mut offset).unwrap();
    assert_eq!(offset, 2);
    assert!(matches!(c, TypeDefOrRef::TypeRef(1)));
}

#[test]
fn coded_index_width_four_bytes() {
    let mut lens = [0u32; 64];
    lens[0x02] = 16384;
    let t = tables_with(lens);
    let data: Vec<u8> = vec![0x05, 0x00, 0x00, 0x00];
    let mut offset: usize = 0;
    let c = TypeDefOrRef::parse(&t, &data, &mut offset).unwrap();
    assert_eq!(offset, 4);
    assert!(matches!(c, TypeDefOrRef::TypeRef(1)));
}

#[test]
fn coded_index_unknown_tag() {
    // CustomAttributeType accepts only tags 2 and 3.
    let t = tables_with([0u32; 64]);
    let data: Vec<u8> = vec![0x00, 0x00];
    let mut offset: usize = 0;
    let e = CustomAttributeType::parse(&t, &data, &mut offset).unwrap_err();
    assert_eq!(e.message(), "Unknown coded index tag.");

    let data2: Vec<u8> = vec![0x0A, 0x00];
    let mut offset2: usize = 0;
    let c = CustomAttributeType::parse(&t, &data2, &mut offset2).unwrap();
    assert!(matches!(c, CustomAttributeType::MethodDef(1)));
}

#[test]
fn token_decode() {
    let token = MetadataToken::try_from(0x0600_0003).unwrap();
    assert_eq!(token.table_index(), METADATA_METHOD_DEF);
    assert_eq!(token.row_index(), 2);
    assert_eq!(table_index(0x0600_0003), 0x06);
}

#[test]
fn token_round_trip() {
    let tag: u32 = 0x06;
    let row: u32 = 41;
    let token = MetadataToken::try_from((tag << 24) | (row + 1)).unwrap();
    assert_eq!(token.table_index(), tag as usize);
    assert_eq!(token.row_index(), row as usize);
}

#[test]
fn token_unknown_table() {
    let e = MetadataToken::try_from(0x2D00_0001).unwrap_err();
    assert_eq!(e.message(), "Unknown metadata table in possible token.");
}

#[test]
fn entry_point_must_be_method() {
    let img = build_image();
    let md = &img[0x300..0x300 + 92];
    let m = Metadata::parse(md).unwrap();
    let lt = m.logical_tables.unwrap();
    let t = Tables::parse(&lt).unwrap();
    let rows = TableRows::parse(&t, &lt[t.size..]).unwrap();
    let ep = MetadataToken::try_from(0x2000_0001).unwrap();
    let e = entry_point_method(&rows, ep).unwrap_err();
    assert_eq!(e.message(), "Unsupported entry-point type (non-method).");
}

#[test]
fn tiny_method_body() {
    let img = build_image();
    let mb = parse_method_body(&img, 0x400).unwrap();
    assert_eq!(mb.kind, HeaderKind::Tiny);
    assert_eq!(mb.code_size, 3);
    // The IL body length equals the header byte shifted right by two.
    assert_eq!(mb.il.len(), (img[0x400] >> 2) as usize);
    assert_eq!(mb.il, vec![0x00, 0x00, 0x2A]);
}

#[test]
fn fat_method_body() {
    let mut data = vec![0u8; 16];
    data[0] = 0x13;
    put_u32(&mut data, 4, 2);
    data[12] = 0x00;
    data[13] = 0x2A;
    let mb = parse_method_body(&data, 0).unwrap();
    assert_eq!(mb.kind, HeaderKind::Fat);
    assert_eq!(mb.code_size, 2);
    assert_eq!(mb.il, vec![0x00, 0x2A]);
}

#[test]
fn invalid_method_header() {
    let data: Vec<u8> = vec![0x01];
    let e = parse_method_body(&data, 0).unwrap_err();
    assert_eq!(e.message(), "Invalid method header.");
}

#[test]
fn opcode_catalog() {
    assert_eq!(dump_opcode(0x00), "nop");
    assert_eq!(dump_opcode(0x2A), "ret");
    assert_eq!(dump_opcode(0x28), "call");
    assert_eq!(dump_opcode(0x24), "Unknown opcode.");
    assert_eq!(ins_size(0x00).unwrap(), 1);
    assert_eq!(ins_size(0x28).unwrap(), 5);
    assert_eq!(ins_size(0x2B).unwrap(), 2);
    assert_eq!(ins_size(0x38).unwrap(), 5);
    assert!(ins_size(0xFE).is_err());
}

#[test]
fn il_walking() {
    let il: Vec<u8> = vec![0x00, 0x1F, 0x01, 0x02, 0x03, 0x04, 0x2A];
    let starts = il_walk(&il).unwrap();
    assert_eq!(starts, vec![0, 1, 6]);

    let bad: Vec<u8> = vec![0x00, 0x24];
    assert!(il_walk(&bad).is_err());
}

#[test]
fn whole_image_to_il() {
    let img = build_image();
    let pe = Header::parse(&img).unwrap();
    let cli_offset = pe.rva2offset(pe.cli_rva as usize).unwrap();
    let cli = &img[cli_offset..cli_offset + pe.cli_size as usize];
    let cli_header = CliHeader::parse(cli, &pe).unwrap();
    let md_offset = pe.rva2offset(cli_header.metadata_rva as usize).unwrap();
    let md = &img[md_offset..md_offset + cli_header.metadata_size as usize];
    let metadata = Metadata::parse(md).unwrap();
    let lt = metadata.logical_tables.unwrap();
    let tables = Tables::parse(&lt).unwrap();
    let rows = TableRows::parse(&tables, &lt[tables.size..]).unwrap();
    let ep = MetadataToken::try_from(cli_header.ep_token).unwrap();
    let main_row = entry_point_method(&rows, ep).unwrap();
    let body_offset = pe.rva2offset(main_row.rva as usize).unwrap();
    let mb = parse_method_body(&img, body_offset).unwrap();
    assert_eq!(mb.kind, HeaderKind::Tiny);
    assert_eq!(mb.il, vec![0x00, 0x00, 0x2A]);
    let starts = il_walk(&mb.il).unwrap();
    assert_eq!(starts, vec![0, 1, 2]);
}

#[test]
fn align_up_rounds_to_multiples() {
    assert_eq!(align_up(0, 4), 0);
    assert_eq!(align_up(1, 4), 4);
    assert_eq!(align_up(4, 4), 4);
    assert_eq!(align_up(5, 4), 8);
    assert_eq!(align_up(31, 16), 32);
}

#[test]
fn host_pointer_width() {
    assert_eq!(os_is_64(), std::mem::size_of::<usize>() == 8);
}

#[test]
fn metadata_root_all_streams() {
    // A root that names all five streams, each pointing at an empty
    // or minimal range near the end.
    let mut md = vec![0u8; 160];
    put_u32(&mut md, 0, 0x424A_5342);
    put_u32(&mut md, 12, 4);
    md[16..20].copy_from_slice(b"v4.0");
    put_u16(&mut md, 22, 5);
    let names: [&[u8]; 5] = [b"#~", b"#Strings", b"#US", b"#GUID", b"#Blob"];
    let mut at = 24;
    for name in names {
        put_u32(&mut md, at, 144);
        put_u32(&mut md, at + 4, 16);
        md[at + 8..at + 8 + name.len()].copy_from_slice(name);
        at += 8 + (name.len() + 1 + 3) / 4 * 4;
    }
    let m = Metadata::parse(&md).unwrap();
    assert!(m.logical_tables.is_some());
    assert!(m.strings.is_some());
    assert!(m.user_strings.is_some());
    assert!(m.guids.is_some());
    assert!(m.blobs.is_some());
    assert_eq!(m.blobs.unwrap().len(), 16);
}

#[test]
fn metadata_root_rejects_escaping_stream() {
    let mut img = build_image();
    // The #~ stream's declared size runs past the root.
    put_u32(&mut img, 0x300 + 28, 100);
    let md = &img[0x300..0x300 + 92];
    let e = Metadata::parse(md).unwrap_err();
    assert_eq!(e.message(), "Metadata stream range escapes the root.");
}
