//! Descriptors that follow a table-definition header: one per real index,
//! one per column, and the column names. Their count comes from the header's
//! `num_real_idx` and `num_columns`; walking them is left to a caller.

use vstd::prelude::*;

verus! {

/// Descriptor of one real index.
#[derive(Debug, Clone, Copy, PartialEq, Eq)]
pub struct RealIndexDef {
    pub num_idx_rows: u32,
}

/// Descriptor of one column.
#[derive(Debug, Clone, Copy, PartialEq, Eq)]
pub struct ColumnDefinition {
    pub column_type: u8,
    pub unknown: u32,
    pub col_number_inc_deleted: u16,
    pub offset_v: u16,
    pub col_number: u16,
    pub misc: u16,
    pub misc_ext: u16,
    pub bitmask: u8,
    pub misc_flags: u8,
    pub offset_f: u16,
    pub col_len: u16,
}

/// The name of one column, in UTF-16 code units.
#[derive(Debug, Clone, PartialEq, Eq)]
pub struct ColumnNames {
    pub name_len: u16,
    pub name: Vec<u16>,
}

} // verus!
