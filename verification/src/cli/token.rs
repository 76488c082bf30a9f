//! Metadata tokens (ECMA II.22): a `u32` whose high byte names a
//! table and whose low 24 bits hold a one-based row number.

use vstd::prelude::*;

use crate::cli::logical_tables::{
    MethodDef, TableRows, METADATA_GENERIC_PARAM_CONSTRAINT, METADATA_METHOD_DEF, METADATA_MODULE,
};
use crate::error::ApsError;

verus! {

/// A validated metadata token: its table byte names a table of the
/// catalog.
#[derive(Debug, PartialEq, Eq, Structural, Copy, Clone)]
pub struct MetadataToken(pub u32);

/// The table byte of a raw token value.
pub fn table_index(x: u32) -> (r: usize)
    ensures
        r == x >> 24u32,
{
    (x >> 24) as usize
}

impl MetadataToken {
    /// Accept a raw token whose table byte lies within the catalog.
    pub fn try_from(x: u32) -> (r: Result<MetadataToken, ApsError>)
        ensures
            match r {
                Ok(t) => t.0 == x && METADATA_MODULE <= x >> 24u32
                    <= METADATA_GENERIC_PARAM_CONSTRAINT,
                Err(_) => x >> 24u32 > METADATA_GENERIC_PARAM_CONSTRAINT,
            },
    {
        let idx = table_index(x);
        if METADATA_MODULE <= idx && idx <= METADATA_GENERIC_PARAM_CONSTRAINT {
            Ok(MetadataToken(x))
        } else {
            Err(ApsError::General("Unknown metadata table in possible token."))
        }
    }

    /// The table this token points into.
    pub fn table_index(&self) -> (r: usize)
        ensures
            r == self.0 >> 24u32,
    {
        table_index(self.0)
    }

    /// The zero-based row this token points at; the stored row number
    /// is one-based, and a zero row number points at no row.
    pub fn row_index(&self) -> (r: usize)
        requires
            self.0 & 0xFFFFFF >= 1,
        ensures
            r == (self.0 & 0xFFFFFF) - 1,
    {
        ((self.0 & 0xFFFFFF) - 1) as usize
    }
}

/// Round trip of the token packing: a token built as
/// `(tag << 24) | (row + 1)` decodes to table `tag` and zero-based
/// row `row` again.
pub proof fn lemma_token_round_trip(tag: u32, row: u32)
    requires
        tag <= 0xFF,
        row < 0xFFFFFF,
    ensures
        ((tag << 24u32) | ((row + 1) as u32)) >> 24u32 == tag,
        ((tag << 24u32) | ((row + 1) as u32)) & 0xFFFFFF == ((row + 1) as u32),
{
    assert(((tag << 24u32) | ((row + 1) as u32)) >> 24u32 == tag && ((tag << 24u32) | ((row + 1) as u32))
        & 0xFFFFFF == ((row + 1) as u32)) by (bit_vector)
        requires
            tag <= 0xFFu32 && row < 0xFFFFFFu32,
    ;
}

/// Resolve the entry-point token to its method row: the token must
/// name the MethodDef table and a row that exists.
pub fn entry_point_method(rows: &TableRows, ep: MetadataToken) -> (r: Result<MethodDef, ApsError>)
    ensures
        match r {
            Ok(m) => {
                &&& ep.0 >> 24u32 == METADATA_METHOD_DEF
                &&& ep.0 & 0xFFFFFF >= 1
                &&& (ep.0 & 0xFFFFFF) - 1 < rows.method_defs@.len()
                &&& m == rows.method_defs@[(ep.0 & 0xFFFFFF) - 1]
            },
            Err(_) => !(ep.0 >> 24u32 == METADATA_METHOD_DEF && ep.0 & 0xFFFFFF >= 1 && (ep.0
                & 0xFFFFFF) - 1 < rows.method_defs@.len()),
        },
{
    if ep.table_index() != METADATA_METHOD_DEF {
        return Err(ApsError::General("Unsupported entry-point type (non-method)."));
    }
    if ep.0 & 0xFFFFFF == 0 {
        return Err(ApsError::General("Entry-point token names no row."));
    }
    let row = ep.row_index();
    if row >= rows.method_defs.len() {
        return Err(ApsError::General("Entry-point row is out of range."));
    }
    Ok(rows.method_defs[row])
}

} // verus!
