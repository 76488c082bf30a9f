//! The one-byte IL opcode catalog (ECMA-335 III.1.2), the method
//! header formats (II.25.4), and instruction walking over an IL body.

use vstd::prelude::*;

use crate::buf::u32_at;
use crate::error::ApsError;

verus! {

/// The two-byte opcode prefix; its second byte is outside this catalog.
pub const TWO_BYTE_OPCODE_PREFIX: u8 = 0xFE;

/// The kind of inline operand an opcode carries; it fixes the operand
/// width and with it the instruction length.
#[derive(Debug, PartialEq, Eq, Structural, Copy, Clone)]
pub enum OperandType {
    NoOperand,
    U8,
    U16,
    I32,
    I64,
    F32,
    F64,
    /// III.1.7.2: a `u8` offset from the next instruction.
    ShortBranchTarget,
    /// III.1.7.2: a `u32` offset from the next instruction.
    BranchTarget,
    /// III.1.9: a metadata token as `u32`.
    Token,
}

/// Width in bytes of an operand of kind `t`.
pub open spec fn spec_measure(t: OperandType) -> int {
    match t {
        OperandType::NoOperand => 0,
        OperandType::U8 => 1,
        OperandType::U16 => 2,
        OperandType::I32 => 4,
        OperandType::I64 => 8,
        OperandType::F32 => 4,
        OperandType::F64 => 8,
        OperandType::ShortBranchTarget => 1,
        OperandType::BranchTarget => 4,
        OperandType::Token => 4,
    }
}

impl OperandType {
    /// Width in bytes of an operand of this kind.
    pub fn measure(&self) -> (r: usize)
        ensures
            r == spec_measure(*self),
    {
        match self {
            OperandType::NoOperand => 0,
            OperandType::U8 => 1,
            OperandType::U16 => 2,
            OperandType::I32 => 4,
            OperandType::I64 => 8,
            OperandType::F32 => 4,
            OperandType::F64 => 8,
            OperandType::ShortBranchTarget => 1,
            OperandType::BranchTarget => 4,
            OperandType::Token => 4,
        }
    }
}

/// Operand kind of the one-byte opcode `op`; `None` for the gaps in
/// the catalog and for the two-byte prefix.
pub open spec fn spec_operand_type(op: u8) -> Option<OperandType> {
    match op {
        0x00 => Some(OperandType::NoOperand),
        0x01 => Some(OperandType::NoOperand),
        0x02 => Some(OperandType::NoOperand),
        0x03 => Some(OperandType::NoOperand),
        0x04 => Some(OperandType::NoOperand),
        0x05 => Some(OperandType::NoOperand),
        0x06 => Some(OperandType::NoOperand),
        0x07 => Some(OperandType::NoOperand),
        0x08 => Some(OperandType::NoOperand),
        0x09 => Some(OperandType::NoOperand),
        0x0A => Some(OperandType::NoOperand),
        0x0B => Some(OperandType::NoOperand),
        0x0C => Some(OperandType::NoOperand),
        0x0D => Some(OperandType::NoOperand),
        0x0E => Some(OperandType::U8),
        0x0F => Some(OperandType::U8),
        0x10 => Some(OperandType::U8),
        0x11 => Some(OperandType::U8),
        0x12 => Some(OperandType::U8),
        0x13 => Some(OperandType::U8),
        0x14 => Some(OperandType::NoOperand),
        0x15 => Some(OperandType::NoOperand),
        0x16 => Some(OperandType::NoOperand),
        0x17 => Some(OperandType::NoOperand),
        0x18 => Some(OperandType::NoOperand),
        0x19 => Some(OperandType::NoOperand),
        0x1A => Some(OperandType::NoOperand),
        0x1B => Some(OperandType::NoOperand),
        0x1C => Some(OperandType::NoOperand),
        0x1D => Some(OperandType::NoOperand),
        0x1E => Some(OperandType::NoOperand),
        0x1F => Some(OperandType::I32),
        0x20 => Some(OperandType::I32),
        0x21 => Some(OperandType::I64),
        0x22 => Some(OperandType::F32),
        0x23 => Some(OperandType::F64),
        0x25 => Some(OperandType::NoOperand),
        0x26 => Some(OperandType::NoOperand),
        0x27 => Some(OperandType::Token),
        0x28 => Some(OperandType::Token),
        0x29 => Some(OperandType::Token),
        0x2A => Some(OperandType::NoOperand),
        0x2B => Some(OperandType::ShortBranchTarget),
        0x2C => Some(OperandType::ShortBranchTarget),
        0x2D => Some(OperandType::ShortBranchTarget),
        0x2E => Some(OperandType::ShortBranchTarget),
        0x2F => Some(OperandType::ShortBranchTarget),
        0x30 => Some(OperandType::ShortBranchTarget),
        0x31 => Some(OperandType::ShortBranchTarget),
        0x32 => Some(OperandType::ShortBranchTarget),
        0x33 => Some(OperandType::ShortBranchTarget),
        0x34 => Some(OperandType::ShortBranchTarget),
        0x35 => Some(OperandType::ShortBranchTarget),
        0x36 => Some(OperandType::ShortBranchTarget),
        0x37 => Some(OperandType::ShortBranchTarget),
        0x38 => Some(OperandType::BranchTarget),
        0x39 => Some(OperandType::BranchTarget),
        0x3A => Some(OperandType::BranchTarget),
        0x3B => Some(OperandType::BranchTarget),
        0x3C => Some(OperandType::BranchTarget),
        0x3D => Some(OperandType::BranchTarget),
        0x3E => Some(OperandType::BranchTarget),
        0x3F => Some(OperandType::BranchTarget),
        0x40 => Some(OperandType::BranchTarget),
        0x41 => Some(OperandType::BranchTarget),
        0x42 => Some(OperandType::BranchTarget),
        0x43 => Some(OperandType::BranchTarget),
        0x44 => Some(OperandType::BranchTarget),
        0x45 => Some(OperandType::NoOperand),
        0x46 => Some(OperandType::NoOperand),
        0x47 => Some(OperandType::NoOperand),
        0x48 => Some(OperandType::NoOperand),
        0x49 => Some(OperandType::NoOperand),
        0x4A => Some(OperandType::NoOperand),
        0x4B => Some(OperandType::NoOperand),
        0x4C => Some(OperandType::NoOperand),
        0x4D => Some(OperandType::NoOperand),
        0x4E => Some(OperandType::NoOperand),
        0x4F => Some(OperandType::NoOperand),
        0x50 => Some(OperandType::NoOperand),
        0x51 => Some(OperandType::NoOperand),
        0x52 => Some(OperandType::NoOperand),
        0x53 => Some(OperandType::NoOperand),
        0x54 => Some(OperandType::NoOperand),
        0x55 => Some(OperandType::NoOperand),
        0x56 => Some(OperandType::NoOperand),
        0x57 => Some(OperandType::NoOperand),
        0x58 => Some(OperandType::NoOperand),
        0x59 => Some(OperandType::NoOperand),
        0x5A => Some(OperandType::NoOperand),
        0x5B => Some(OperandType::NoOperand),
        0x5C => Some(OperandType::NoOperand),
        0x5D => Some(OperandType::NoOperand),
        0x5E => Some(OperandType::NoOperand),
        0x5F => Some(OperandType::NoOperand),
        0x60 => Some(OperandType::NoOperand),
        0x61 => Some(OperandType::NoOperand),
        0x62 => Some(OperandType::NoOperand),
        0x63 => Some(OperandType::NoOperand),
        0x64 => Some(OperandType::NoOperand),
        0x65 => Some(OperandType::NoOperand),
        0x66 => Some(OperandType::NoOperand),
        0x67 => Some(OperandType::NoOperand),
        0x68 => Some(OperandType::NoOperand),
        0x69 => Some(OperandType::NoOperand),
        0x6A => Some(OperandType::NoOperand),
        0x6B => Some(OperandType::NoOperand),
        0x6C => Some(OperandType::NoOperand),
        0x6D => Some(OperandType::NoOperand),
        0x6E => Some(OperandType::NoOperand),
        0x6F => Some(OperandType::Token),
        0x70 => Some(OperandType::Token),
        0x71 => Some(OperandType::Token),
        0x72 => Some(OperandType::Token),
        0x73 => Some(OperandType::Token),
        0x74 => Some(OperandType::Token),
        0x75 => Some(OperandType::Token),
        0x76 => Some(OperandType::NoOperand),
        0x79 => Some(OperandType::Token),
        0x7A => Some(OperandType::NoOperand),
        0x7B => Some(OperandType::Token),
        0x7C => Some(OperandType::Token),
        0x7D => Some(OperandType::Token),
        0x7E => Some(OperandType::Token),
        0x7F => Some(OperandType::Token),
        0x80 => Some(OperandType::Token),
        0x81 => Some(OperandType::Token),
        0x82 => Some(OperandType::NoOperand),
        0x83 => Some(OperandType::NoOperand),
        0x84 => Some(OperandType::NoOperand),
        0x85 => Some(OperandType::NoOperand),
        0x86 => Some(OperandType::NoOperand),
        0x87 => Some(OperandType::NoOperand),
        0x88 => Some(OperandType::NoOperand),
        0x89 => Some(OperandType::NoOperand),
        0x8A => Some(OperandType::NoOperand),
        0x8B => Some(OperandType::NoOperand),
        0x8C => Some(OperandType::Token),
        0x8D => Some(OperandType::Token),
        0x8E => Some(OperandType::NoOperand),
        0x8F => Some(OperandType::Token),
        0x90 => Some(OperandType::NoOperand),
        0x91 => Some(OperandType::NoOperand),
        0x92 => Some(OperandType::NoOperand),
        0x93 => Some(OperandType::NoOperand),
        0x94 => Some(OperandType::NoOperand),
        0x95 => Some(OperandType::NoOperand),
        0x96 => Some(OperandType::NoOperand),
        0x97 => Some(OperandType::NoOperand),
        0x98 => Some(OperandType::NoOperand),
        0x99 => Some(OperandType::NoOperand),
        0x9A => Some(OperandType::NoOperand),
        0x9B => Some(OperandType::NoOperand),
        0x9C => Some(OperandType::NoOperand),
        0x9D => Some(OperandType::NoOperand),
        0x9E => Some(OperandType::NoOperand),
        0x9F => Some(OperandType::NoOperand),
        0xA0 => Some(OperandType::NoOperand),
        0xA1 => Some(OperandType::NoOperand),
        0xA2 => Some(OperandType::NoOperand),
        0xA3 => Some(OperandType::Token),
        0xA4 => Some(OperandType::Token),
        0xA5 => Some(OperandType::Token),
        0xB3 => Some(OperandType::NoOperand),
        0xB4 => Some(OperandType::NoOperand),
        0xB5 => Some(OperandType::NoOperand),
        0xB6 => Some(OperandType::NoOperand),
        0xB7 => Some(OperandType::NoOperand),
        0xB8 => Some(OperandType::NoOperand),
        0xB9 => Some(OperandType::NoOperand),
        0xBA => Some(OperandType::NoOperand),
        0xC2 => Some(OperandType::Token),
        0xC3 => Some(OperandType::NoOperand),
        0xC6 => Some(OperandType::Token),
        0xD0 => Some(OperandType::Token),
        0xD1 => Some(OperandType::NoOperand),
        0xD2 => Some(OperandType::NoOperand),
        0xD3 => Some(OperandType::NoOperand),
        0xD4 => Some(OperandType::NoOperand),
        0xD5 => Some(OperandType::NoOperand),
        0xD6 => Some(OperandType::NoOperand),
        0xD7 => Some(OperandType::NoOperand),
        0xD8 => Some(OperandType::NoOperand),
        0xD9 => Some(OperandType::NoOperand),
        0xDA => Some(OperandType::NoOperand),
        0xDB => Some(OperandType::NoOperand),
        0xDC => Some(OperandType::NoOperand),
        0xDD => Some(OperandType::I32),
        0xDE => Some(OperandType::U8),
        0xDF => Some(OperandType::NoOperand),
        0xE0 => Some(OperandType::NoOperand),
        _ => None,
    }
}

/// Assembler name of the one-byte opcode `op`.
pub open spec fn spec_opcode_name(op: u8) -> &'static str {
    match op {
        0x00 => "nop",
        0x01 => "break",
        0x02 => "ldarg.0",
        0x03 => "ldarg.1",
        0x04 => "ldarg.2",
        0x05 => "ldarg.3",
        0x06 => "ldloc.0",
        0x07 => "ldloc.1",
        0x08 => "ldloc.2",
        0x09 => "ldloc.3",
        0x0A => "stloc.0",
        0x0B => "stloc.1",
        0x0C => "stloc.2",
        0x0D => "stloc.3",
        0x0E => "ldarg.s",
        0x0F => "ldarga.s",
        0x10 => "starg.s",
        0x11 => "ldloc.s",
        0x12 => "ldloca.s",
        0x13 => "stloc.s",
        0x14 => "ldnull",
        0x15 => "ldc.i4.m1",
        0x16 => "ldc.i4.0",
        0x17 => "ldc.i4.1",
        0x18 => "ldc.i4.2",
        0x19 => "ldc.i4.3",
        0x1A => "ldc.i4.4",
        0x1B => "ldc.i4.5",
        0x1C => "ldc.i4.6",
        0x1D => "ldc.i4.7",
        0x1E => "ldc.i4.8",
        0x1F => "ldc.i4.s",
        0x20 => "ldc.i4",
        0x21 => "ldc.i8",
        0x22 => "ldc.r4",
        0x23 => "ldc.r8",
        0x25 => "dup",
        0x26 => "pop",
        0x27 => "jmp",
        0x28 => "call",
        0x29 => "calli",
        0x2A => "ret",
        0x2B => "br.s",
        0x2C => "brfalse.s",
        0x2D => "brtrue.s",
        0x2E => "beq.s",
        0x2F => "bge.s",
        0x30 => "bgt.s",
        0x31 => "ble.s",
        0x32 => "blt.s",
        0x33 => "bne.un.s",
        0x34 => "bge.un.s",
        0x35 => "bgt.un.s",
        0x36 => "ble.un.s",
        0x37 => "blt.un.s",
        0x38 => "br",
        0x39 => "brfalse",
        0x3A => "brtrue",
        0x3B => "beq",
        0x3C => "bge",
        0x3D => "bgt",
        0x3E => "ble",
        0x3F => "blt",
        0x40 => "bne.un",
        0x41 => "bge.un",
        0x42 => "bgt.un",
        0x43 => "ble.un",
        0x44 => "blt.un",
        0x45 => "switch",
        0x46 => "ldind.i1",
        0x47 => "ldind.u1",
        0x48 => "ldind.i2",
        0x49 => "ldind.u2",
        0x4A => "ldind.i4",
        0x4B => "ldind.u4",
        0x4C => "ldind.i8",
        0x4D => "ldind.i",
        0x4E => "ldind.r4",
        0x4F => "ldind.r8",
        0x50 => "ldind.ref",
        0x51 => "stind.ref",
        0x52 => "stind.i1",
        0x53 => "stind.i2",
        0x54 => "stind.i4",
        0x55 => "stind.i8",
        0x56 => "stind.r4",
        0x57 => "stind.r8",
        0x58 => "add",
        0x59 => "sub",
        0x5A => "mul",
        0x5B => "div",
        0x5C => "div.un",
        0x5D => "rem",
        0x5E => "rem.un",
        0x5F => "and",
        0x60 => "or",
        0x61 => "xor",
        0x62 => "shl",
        0x63 => "shr",
        0x64 => "shr.un",
        0x65 => "neg",
        0x66 => "not",
        0x67 => "conv.i1",
        0x68 => "conv.i2",
        0x69 => "conv.i4",
        0x6A => "conv.i8",
        0x6B => "conv.r4",
        0x6C => "conv.r8",
        0x6D => "conv.u4",
        0x6E => "conv.u8",
        0x6F => "callvirt",
        0x70 => "cpobj",
        0x71 => "ldobj",
        0x72 => "ldstr",
        0x73 => "newobj",
        0x74 => "castclass",
        0x75 => "isinst",
        0x76 => "conv.r.un",
        0x79 => "unbox",
        0x7A => "throw",
        0x7B => "ldfld",
        0x7C => "ldflda",
        0x7D => "stfld",
        0x7E => "ldsfld",
        0x7F => "ldsflda",
        0x80 => "stsfld",
        0x81 => "stobj",
        0x82 => "conv.ovf.i1.un",
        0x83 => "conv.ovf.i2.un",
        0x84 => "conv.ovf.i4.un",
        0x85 => "conv.ovf.i8.un",
        0x86 => "conv.ovf.u1.un",
        0x87 => "conv.ovf.u2.un",
        0x88 => "conv.ovf.u4.un",
        0x89 => "conv.ovf.u8.un",
        0x8A => "conv.ovf.i.un",
        0x8B => "conv.ovf.u.un",
        0x8C => "box",
        0x8D => "newarr",
        0x8E => "ldlen",
        0x8F => "ldelema",
        0x90 => "ldelem.i1",
        0x91 => "ldelem.u1",
        0x92 => "ldelem.i2",
        0x93 => "ldelem.u2",
        0x94 => "ldelem.i4",
        0x95 => "ldelem.u4",
        0x96 => "ldelem.i8",
        0x97 => "ldelem.i",
        0x98 => "ldelem.r4",
        0x99 => "ldelem.r8",
        0x9A => "ldelem.ref",
        0x9B => "stelem.i",
        0x9C => "stelem.i1",
        0x9D => "stelem.i2",
        0x9E => "stelem.i4",
        0x9F => "stelem.i8",
        0xA0 => "stelem.r4",
        0xA1 => "stelem.r8",
        0xA2 => "stelem.ref",
        0xA3 => "ldelem",
        0xA4 => "stelem",
        0xA5 => "unbox.any",
        0xB3 => "conv.ovf.i1",
        0xB4 => "conv.ovf.u1",
        0xB5 => "conv.ovf.i2",
        0xB6 => "conv.ovf.u2",
        0xB7 => "conv.ovf.i4",
        0xB8 => "conv.ovf.u4",
        0xB9 => "conv.ovf.i8",
        0xBA => "conv.ovf.u8",
        0xC2 => "refanyval",
        0xC3 => "ckfinite",
        0xC6 => "mkrefany",
        0xD0 => "ldtoken",
        0xD1 => "conv.u2",
        0xD2 => "conv.u1",
        0xD3 => "conv.i",
        0xD4 => "conv.ovf.i",
        0xD5 => "conv.ovf.u",
        0xD6 => "add.ovf",
        0xD7 => "add.ovf.un",
        0xD8 => "mul.ovf",
        0xD9 => "mul.ovf.un",
        0xDA => "sub.ovf",
        0xDB => "sub.ovf.un",
        0xDC => "endfinally",
        0xDD => "leave",
        0xDE => "leave.s",
        0xDF => "stind.i",
        0xE0 => "conv.u",
        _ => "Unknown opcode.",
    }
}

/// Assembler name of the one-byte opcode `op`, for diagnostics; the
/// fixed fallback text for a byte outside the catalog.
pub fn dump_opcode(x: u8) -> (r: &'static str)
    ensures
        r == spec_opcode_name(x),
{
    match x {
        0x00 => "nop",
        0x01 => "break",
        0x02 => "ldarg.0",
        0x03 => "ldarg.1",
        0x04 => "ldarg.2",
        0x05 => "ldarg.3",
        0x06 => "ldloc.0",
        0x07 => "ldloc.1",
        0x08 => "ldloc.2",
        0x09 => "ldloc.3",
        0x0A => "stloc.0",
        0x0B => "stloc.1",
        0x0C => "stloc.2",
        0x0D => "stloc.3",
        0x0E => "ldarg.s",
        0x0F => "ldarga.s",
        0x10 => "starg.s",
        0x11 => "ldloc.s",
        0x12 => "ldloca.s",
        0x13 => "stloc.s",
        0x14 => "ldnull",
        0x15 => "ldc.i4.m1",
        0x16 => "ldc.i4.0",
        0x17 => "ldc.i4.1",
        0x18 => "ldc.i4.2",
        0x19 => "ldc.i4.3",
        0x1A => "ldc.i4.4",
        0x1B => "ldc.i4.5",
        0x1C => "ldc.i4.6",
        0x1D => "ldc.i4.7",
        0x1E => "ldc.i4.8",
        0x1F => "ldc.i4.s",
        0x20 => "ldc.i4",
        0x21 => "ldc.i8",
        0x22 => "ldc.r4",
        0x23 => "ldc.r8",
        0x25 => "dup",
        0x26 => "pop",
        0x27 => "jmp",
        0x28 => "call",
        0x29 => "calli",
        0x2A => "ret",
        0x2B => "br.s",
        0x2C => "brfalse.s",
        0x2D => "brtrue.s",
        0x2E => "beq.s",
        0x2F => "bge.s",
        0x30 => "bgt.s",
        0x31 => "ble.s",
        0x32 => "blt.s",
        0x33 => "bne.un.s",
        0x34 => "bge.un.s",
        0x35 => "bgt.un.s",
        0x36 => "ble.un.s",
        0x37 => "blt.un.s",
        0x38 => "br",
        0x39 => "brfalse",
        0x3A => "brtrue",
        0x3B => "beq",
        0x3C => "bge",
        0x3D => "bgt",
        0x3E => "ble",
        0x3F => "blt",
        0x40 => "bne.un",
        0x41 => "bge.un",
        0x42 => "bgt.un",
        0x43 => "ble.un",
        0x44 => "blt.un",
        0x45 => "switch",
        0x46 => "ldind.i1",
        0x47 => "ldind.u1",
        0x48 => "ldind.i2",
        0x49 => "ldind.u2",
        0x4A => "ldind.i4",
        0x4B => "ldind.u4",
        0x4C => "ldind.i8",
        0x4D => "ldind.i",
        0x4E => "ldind.r4",
        0x4F => "ldind.r8",
        0x50 => "ldind.ref",
        0x51 => "stind.ref",
        0x52 => "stind.i1",
        0x53 => "stind.i2",
        0x54 => "stind.i4",
        0x55 => "stind.i8",
        0x56 => "stind.r4",
        0x57 => "stind.r8",
        0x58 => "add",
        0x59 => "sub",
        0x5A => "mul",
        0x5B => "div",
        0x5C => "div.un",
        0x5D => "rem",
        0x5E => "rem.un",
        0x5F => "and",
        0x60 => "or",
        0x61 => "xor",
        0x62 => "shl",
        0x63 => "shr",
        0x64 => "shr.un",
        0x65 => "neg",
        0x66 => "not",
        0x67 => "conv.i1",
        0x68 => "conv.i2",
        0x69 => "conv.i4",
        0x6A => "conv.i8",
        0x6B => "conv.r4",
        0x6C => "conv.r8",
        0x6D => "conv.u4",
        0x6E => "conv.u8",
        0x6F => "callvirt",
        0x70 => "cpobj",
        0x71 => "ldobj",
        0x72 => "ldstr",
        0x73 => "newobj",
        0x74 => "castclass",
        0x75 => "isinst",
        0x76 => "conv.r.un",
        0x79 => "unbox",
        0x7A => "throw",
        0x7B => "ldfld",
        0x7C => "ldflda",
        0x7D => "stfld",
        0x7E => "ldsfld",
        0x7F => "ldsflda",
        0x80 => "stsfld",
        0x81 => "stobj",
        0x82 => "conv.ovf.i1.un",
        0x83 => "conv.ovf.i2.un",
        0x84 => "conv.ovf.i4.un",
        0x85 => "conv.ovf.i8.un",
        0x86 => "conv.ovf.u1.un",
        0x87 => "conv.ovf.u2.un",
        0x88 => "conv.ovf.u4.un",
        0x89 => "conv.ovf.u8.un",
        0x8A => "conv.ovf.i.un",
        0x8B => "conv.ovf.u.un",
        0x8C => "box",
        0x8D => "newarr",
        0x8E => "ldlen",
        0x8F => "ldelema",
        0x90 => "ldelem.i1",
        0x91 => "ldelem.u1",
        0x92 => "ldelem.i2",
        0x93 => "ldelem.u2",
        0x94 => "ldelem.i4",
        0x95 => "ldelem.u4",
        0x96 => "ldelem.i8",
        0x97 => "ldelem.i",
        0x98 => "ldelem.r4",
        0x99 => "ldelem.r8",
        0x9A => "ldelem.ref",
        0x9B => "stelem.i",
        0x9C => "stelem.i1",
        0x9D => "stelem.i2",
        0x9E => "stelem.i4",
        0x9F => "stelem.i8",
        0xA0 => "stelem.r4",
        0xA1 => "stelem.r8",
        0xA2 => "stelem.ref",
        0xA3 => "ldelem",
        0xA4 => "stelem",
        0xA5 => "unbox.any",
        0xB3 => "conv.ovf.i1",
        0xB4 => "conv.ovf.u1",
        0xB5 => "conv.ovf.i2",
        0xB6 => "conv.ovf.u2",
        0xB7 => "conv.ovf.i4",
        0xB8 => "conv.ovf.u4",
        0xB9 => "conv.ovf.i8",
        0xBA => "conv.ovf.u8",
        0xC2 => "refanyval",
        0xC3 => "ckfinite",
        0xC6 => "mkrefany",
        0xD0 => "ldtoken",
        0xD1 => "conv.u2",
        0xD2 => "conv.u1",
        0xD3 => "conv.i",
        0xD4 => "conv.ovf.i",
        0xD5 => "conv.ovf.u",
        0xD6 => "add.ovf",
        0xD7 => "add.ovf.un",
        0xD8 => "mul.ovf",
        0xD9 => "mul.ovf.un",
        0xDA => "sub.ovf",
        0xDB => "sub.ovf.un",
        0xDC => "endfinally",
        0xDD => "leave",
        0xDE => "leave.s",
        0xDF => "stind.i",
        0xE0 => "conv.u",
        _ => "Unknown opcode.",
    }
}

/// Operand kind of the one-byte opcode `op`; an error exactly on the
/// bytes outside the catalog.
pub fn operand_type(op: u8) -> (r: Result<OperandType, ApsError>)
    ensures
        match r {
            Ok(t) => spec_operand_type(op) == Some(t),
            Err(_) => spec_operand_type(op) is None,
        },
{
    match op {
        0x00 => Ok(OperandType::NoOperand),
        0x01 => Ok(OperandType::NoOperand),
        0x02 => Ok(OperandType::NoOperand),
        0x03 => Ok(OperandType::NoOperand),
        0x04 => Ok(OperandType::NoOperand),
        0x05 => Ok(OperandType::NoOperand),
        0x06 => Ok(OperandType::NoOperand),
        0x07 => Ok(OperandType::NoOperand),
        0x08 => Ok(OperandType::NoOperand),
        0x09 => Ok(OperandType::NoOperand),
        0x0A => Ok(OperandType::NoOperand),
        0x0B => Ok(OperandType::NoOperand),
        0x0C => Ok(OperandType::NoOperand),
        0x0D => Ok(OperandType::NoOperand),
        0x0E => Ok(OperandType::U8),
        0x0F => Ok(OperandType::U8),
        0x10 => Ok(OperandType::U8),
        0x11 => Ok(OperandType::U8),
        0x12 => Ok(OperandType::U8),
        0x13 => Ok(OperandType::U8),
        0x14 => Ok(OperandType::NoOperand),
        0x15 => Ok(OperandType::NoOperand),
        0x16 => Ok(OperandType::NoOperand),
        0x17 => Ok(OperandType::NoOperand),
        0x18 => Ok(OperandType::NoOperand),
        0x19 => Ok(OperandType::NoOperand),
        0x1A => Ok(OperandType::NoOperand),
        0x1B => Ok(OperandType::NoOperand),
        0x1C => Ok(OperandType::NoOperand),
        0x1D => Ok(OperandType::NoOperand),
        0x1E => Ok(OperandType::NoOperand),
        0x1F => Ok(OperandType::I32),
        0x20 => Ok(OperandType::I32),
        0x21 => Ok(OperandType::I64),
        0x22 => Ok(OperandType::F32),
        0x23 => Ok(OperandType::F64),
        0x25 => Ok(OperandType::NoOperand),
        0x26 => Ok(OperandType::NoOperand),
        0x27 => Ok(OperandType::Token),
        0x28 => Ok(OperandType::Token),
        0x29 => Ok(OperandType::Token),
        0x2A => Ok(OperandType::NoOperand),
        0x2B => Ok(OperandType::ShortBranchTarget),
        0x2C => Ok(OperandType::ShortBranchTarget),
        0x2D => Ok(OperandType::ShortBranchTarget),
        0x2E => Ok(OperandType::ShortBranchTarget),
        0x2F => Ok(OperandType::ShortBranchTarget),
        0x30 => Ok(OperandType::ShortBranchTarget),
        0x31 => Ok(OperandType::ShortBranchTarget),
        0x32 => Ok(OperandType::ShortBranchTarget),
        0x33 => Ok(OperandType::ShortBranchTarget),
        0x34 => Ok(OperandType::ShortBranchTarget),
        0x35 => Ok(OperandType::ShortBranchTarget),
        0x36 => Ok(OperandType::ShortBranchTarget),
        0x37 => Ok(OperandType::ShortBranchTarget),
        0x38 => Ok(OperandType::BranchTarget),
        0x39 => Ok(OperandType::BranchTarget),
        0x3A => Ok(OperandType::BranchTarget),
        0x3B => Ok(OperandType::BranchTarget),
        0x3C => Ok(OperandType::BranchTarget),
        0x3D => Ok(OperandType::BranchTarget),
        0x3E => Ok(OperandType::BranchTarget),
        0x3F => Ok(OperandType::BranchTarget),
        0x40 => Ok(OperandType::BranchTarget),
        0x41 => Ok(OperandType::BranchTarget),
        0x42 => Ok(OperandType::BranchTarget),
        0x43 => Ok(OperandType::BranchTarget),
        0x44 => Ok(OperandType::BranchTarget),
        0x45 => Ok(OperandType::NoOperand),
        0x46 => Ok(OperandType::NoOperand),
        0x47 => Ok(OperandType::NoOperand),
        0x48 => Ok(OperandType::NoOperand),
        0x49 => Ok(OperandType::NoOperand),
        0x4A => Ok(OperandType::NoOperand),
        0x4B => Ok(OperandType::NoOperand),
        0x4C => Ok(OperandType::NoOperand),
        0x4D => Ok(OperandType::NoOperand),
        0x4E => Ok(OperandType::NoOperand),
        0x4F => Ok(OperandType::NoOperand),
        0x50 => Ok(OperandType::NoOperand),
        0x51 => Ok(OperandType::NoOperand),
        0x52 => Ok(OperandType::NoOperand),
        0x53 => Ok(OperandType::NoOperand),
        0x54 => Ok(OperandType::NoOperand),
        0x55 => Ok(OperandType::NoOperand),
        0x56 => Ok(OperandType::NoOperand),
        0x57 => Ok(OperandType::NoOperand),
        0x58 => Ok(OperandType::NoOperand),
        0x59 => Ok(OperandType::NoOperand),
        0x5A => Ok(OperandType::NoOperand),
        0x5B => Ok(OperandType::NoOperand),
        0x5C => Ok(OperandType::NoOperand),
        0x5D => Ok(OperandType::NoOperand),
        0x5E => Ok(OperandType::NoOperand),
        0x5F => Ok(OperandType::NoOperand),
        0x60 => Ok(OperandType::NoOperand),
        0x61 => Ok(OperandType::NoOperand),
        0x62 => Ok(OperandType::NoOperand),
        0x63 => Ok(OperandType::NoOperand),
        0x64 => Ok(OperandType::NoOperand),
        0x65 => Ok(OperandType::NoOperand),
        0x66 => Ok(OperandType::NoOperand),
        0x67 => Ok(OperandType::NoOperand),
        0x68 => Ok(OperandType::NoOperand),
        0x69 => Ok(OperandType::NoOperand),
        0x6A => Ok(OperandType::NoOperand),
        0x6B => Ok(OperandType::NoOperand),
        0x6C => Ok(OperandType::NoOperand),
        0x6D => Ok(OperandType::NoOperand),
        0x6E => Ok(OperandType::NoOperand),
        0x6F => Ok(OperandType::Token),
        0x70 => Ok(OperandType::Token),
        0x71 => Ok(OperandType::Token),
        0x72 => Ok(OperandType::Token),
        0x73 => Ok(OperandType::Token),
        0x74 => Ok(OperandType::Token),
        0x75 => Ok(OperandType::Token),
        0x76 => Ok(OperandType::NoOperand),
        0x79 => Ok(OperandType::Token),
        0x7A => Ok(OperandType::NoOperand),
        0x7B => Ok(OperandType::Token),
        0x7C => Ok(OperandType::Token),
        0x7D => Ok(OperandType::Token),
        0x7E => Ok(OperandType::Token),
        0x7F => Ok(OperandType::Token),
        0x80 => Ok(OperandType::Token),
        0x81 => Ok(OperandType::Token),
        0x82 => Ok(OperandType::NoOperand),
        0x83 => Ok(OperandType::NoOperand),
        0x84 => Ok(OperandType::NoOperand),
        0x85 => Ok(OperandType::NoOperand),
        0x86 => Ok(OperandType::NoOperand),
        0x87 => Ok(OperandType::NoOperand),
        0x88 => Ok(OperandType::NoOperand),
        0x89 => Ok(OperandType::NoOperand),
        0x8A => Ok(OperandType::NoOperand),
        0x8B => Ok(OperandType::NoOperand),
        0x8C => Ok(OperandType::Token),
        0x8D => Ok(OperandType::Token),
        0x8E => Ok(OperandType::NoOperand),
        0x8F => Ok(OperandType::Token),
        0x90 => Ok(OperandType::NoOperand),
        0x91 => Ok(OperandType::NoOperand),
        0x92 => Ok(OperandType::NoOperand),
        0x93 => Ok(OperandType::NoOperand),
        0x94 => Ok(OperandType::NoOperand),
        0x95 => Ok(OperandType::NoOperand),
        0x96 => Ok(OperandType::NoOperand),
        0x97 => Ok(OperandType::NoOperand),
        0x98 => Ok(OperandType::NoOperand),
        0x99 => Ok(OperandType::NoOperand),
        0x9A => Ok(OperandType::NoOperand),
        0x9B => Ok(OperandType::NoOperand),
        0x9C => Ok(OperandType::NoOperand),
        0x9D => Ok(OperandType::NoOperand),
        0x9E => Ok(OperandType::NoOperand),
        0x9F => Ok(OperandType::NoOperand),
        0xA0 => Ok(OperandType::NoOperand),
        0xA1 => Ok(OperandType::NoOperand),
        0xA2 => Ok(OperandType::NoOperand),
        0xA3 => Ok(OperandType::Token),
        0xA4 => Ok(OperandType::Token),
        0xA5 => Ok(OperandType::Token),
        0xB3 => Ok(OperandType::NoOperand),
        0xB4 => Ok(OperandType::NoOperand),
        0xB5 => Ok(OperandType::NoOperand),
        0xB6 => Ok(OperandType::NoOperand),
        0xB7 => Ok(OperandType::NoOperand),
        0xB8 => Ok(OperandType::NoOperand),
        0xB9 => Ok(OperandType::NoOperand),
        0xBA => Ok(OperandType::NoOperand),
        0xC2 => Ok(OperandType::Token),
        0xC3 => Ok(OperandType::NoOperand),
        0xC6 => Ok(OperandType::Token),
        0xD0 => Ok(OperandType::Token),
        0xD1 => Ok(OperandType::NoOperand),
        0xD2 => Ok(OperandType::NoOperand),
        0xD3 => Ok(OperandType::NoOperand),
        0xD4 => Ok(OperandType::NoOperand),
        0xD5 => Ok(OperandType::NoOperand),
        0xD6 => Ok(OperandType::NoOperand),
        0xD7 => Ok(OperandType::NoOperand),
        0xD8 => Ok(OperandType::NoOperand),
        0xD9 => Ok(OperandType::NoOperand),
        0xDA => Ok(OperandType::NoOperand),
        0xDB => Ok(OperandType::NoOperand),
        0xDC => Ok(OperandType::NoOperand),
        0xDD => Ok(OperandType::I32),
        0xDE => Ok(OperandType::U8),
        0xDF => Ok(OperandType::NoOperand),
        0xE0 => Ok(OperandType::NoOperand),
        _ => Err(ApsError::General("Unknown opcode.")),
    }
}

/// Length in bytes of the instruction that the one-byte opcode `op`
/// opens: the opcode byte plus its operand width.
pub fn ins_size(op: u8) -> (r: Result<usize, ApsError>)
    ensures
        match r {
            Ok(n) => spec_operand_type(op) matches Some(t) && n == 1 + spec_measure(t),
            Err(_) => spec_operand_type(op) is None,
        },
{
    let t = operand_type(op)?;
    Ok(1 + t.measure())
}

/// The two method header formats of ECMA-335 II.25.4.
#[derive(Debug, PartialEq, Eq, Structural, Copy, Clone)]
pub enum HeaderKind {
    /// One header byte; its high six bits are the code size.
    Tiny,
    /// A 12-byte header; the code size is its second word.
    Fat,
}

/// The decoded body of a method: header format, declared code size,
/// and the IL bytes themselves.
#[derive(Debug)]
pub struct MethodBody {
    pub kind: HeaderKind,
    pub code_size: u32,
    pub il: Vec<u8>,
}

/// Whether a whole method body lies at `o` in `s`: a tiny or fat
/// header byte and as much IL as the header declares.
pub open spec fn method_body_ok(s: Seq<u8>, o: int) -> bool {
    &&& 0 <= o < s.len()
    &&& if s[o] & 3 == 2 {
        o + 1 + (s[o] >> 2) <= s.len()
    } else if s[o] & 3 == 3 {
        o + 12 + u32_at(s, o + 4) <= s.len()
    } else {
        false
    }
}

/// Decode the method body at offset `o` of the image.
///
/// The header byte's low two bits select the format: `10` is tiny,
/// with the code size in the remaining six bits and the IL following
/// immediately; `11` is fat, with the code size at the second word
/// and the IL after the 12-byte header. Other low bits are an error,
/// as is a body that runs past the image.
pub fn parse_method_body(data: &[u8], o: usize) -> (r: Result<MethodBody, ApsError>)
    ensures
        match r {
            Ok(mb) => {
                &&& method_body_ok(data@, o as int)
                &&& mb.il@.len() == mb.code_size
                &&& if data@[o as int] & 3 == 2 {
                    &&& mb.kind == HeaderKind::Tiny
                    &&& mb.code_size == data@[o as int] >> 2
                    &&& mb.il@ == data@.subrange(o + 1, o + 1 + (data@[o as int] >> 2))
                } else {
                    &&& mb.kind == HeaderKind::Fat
                    &&& mb.code_size == u32_at(data@, o + 4)
                    &&& mb.il@ == data@.subrange(o + 12, o + 12 + u32_at(data@, o + 4))
                }
            },
            Err(_) => !method_body_ok(data@, o as int),
        },
{
    if o >= data.len() {
        return Err(ApsError::Parse(crate::buf::Error::NotEnoughData));
    }
    let b = data[o];
    match b & 3 {
        2 => {
            let size = (b >> 2) as usize;
            if size > data.len() - o - 1 {
                return Err(ApsError::Parse(crate::buf::Error::NotEnoughData));
            }
            let il = vstd::slice::slice_to_vec(
                vstd::slice::slice_subrange(data, o + 1, o + 1 + size),
            );
            Ok(MethodBody { kind: HeaderKind::Tiny, code_size: (b >> 2) as u32, il })
        },
        3 => {
            let mut offset: usize = o;
            crate::utils::skip(data, &mut offset, 4)?;
            let code_size = crate::utils::read_u32(data, &mut offset)?;
            crate::utils::skip(data, &mut offset, 4)?;
            if (code_size as u64) > (data.len() as u64) - (offset as u64) {
                return Err(ApsError::Parse(crate::buf::Error::NotEnoughData));
            }
            let il = vstd::slice::slice_to_vec(
                vstd::slice::slice_subrange(data, offset, offset + code_size as usize),
            );
            Ok(MethodBody { kind: HeaderKind::Fat, code_size, il })
        },
        _ => Err(ApsError::General("Invalid method header.")),
    }
}

/// The start offsets of the instructions of `s` from `i` on, walking
/// each opcode's declared length; `None` at the first byte outside
/// the catalog. The last instruction may declare more operand bytes
/// than remain: the walk then stops after it, as the stream ends.
pub open spec fn spec_instruction_starts(s: Seq<u8>, i: int) -> Option<Seq<int>>
    decreases s.len() - i,
{
    if i < 0 || i >= s.len() {
        Some(seq![])
    } else {
        match spec_operand_type(s[i]) {
            Some(t) => {
                let j = if i + 1 + spec_measure(t) > s.len() {
                    s.len() as int
                } else {
                    i + 1 + spec_measure(t)
                };
                match spec_instruction_starts(s, j) {
                    Some(rest) => Some(seq![i] + rest),
                    None => None,
                }
            },
            None => None,
        }
    }
}

/// Walk the IL body instruction by instruction and return each
/// instruction's start offset; an error at the first unknown opcode.
#[verifier::loop_isolation(false)]
pub fn il_walk(il: &[u8]) -> (r: Result<Vec<usize>, ApsError>)
    ensures
        match r {
            Ok(v) => {
                &&& spec_instruction_starts(il@, 0) matches Some(starts)
                &&& v@.len() == spec_instruction_starts(il@, 0)->Some_0.len()
                &&& forall|j: int|
                    0 <= j < v@.len() ==> v@[j] == spec_instruction_starts(il@, 0)->Some_0[j]
            },
            Err(_) => spec_instruction_starts(il@, 0) is None,
        },
{
    let ghost s = il@;
    let mut starts: Vec<usize> = Vec::new();
    let ghost mut done: Seq<int> = Seq::empty();
    let mut offset: usize = 0;

    while offset < il.len()
        invariant
            offset <= s.len(),
            starts@.len() == done.len(),
            forall|j: int| 0 <= j < done.len() ==> starts@[j] == done[j],
            match spec_instruction_starts(s, offset as int) {
                Some(rest) => spec_instruction_starts(s, 0) == Some(done + rest),
                None => spec_instruction_starts(s, 0) is None,
            },
        decreases s.len() - offset,
    {
        let op = il[offset];
        let size = ins_size(op)?;
        proof {
            done = done + seq![offset as int];
        }
        starts.push(offset);
        if size > il.len() - offset {
            offset = il.len();
        } else {
            offset = offset + size;
        }
    }
    proof {
        assert(done + Seq::<int>::empty() =~= done);
    }
    Ok(starts)
}

} // verus!
