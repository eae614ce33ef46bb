//! Page kinds and the decoding of one page-sized frame.

use vstd::prelude::*;

use crate::bytes::{le_u16, le_u32, read_u16_le, read_u32_le};

verus! {

/// Size in bytes of every page of the format.
pub const PAGE_SIZE: usize = 4096;

/// Offset of the version byte in a database-definition page.
pub const VERSION_AT: usize = 0x13;

/// Offset of the obfuscation secret in a database-definition page.
pub const SECRET_AT: usize = 0x14;

/// Length of the obfuscation secret.
pub const SECRET_LEN: usize = 128;

/// Offset of the obfuscated counter in a database-definition page.
pub const COUNTER_AT: usize = 0xbd;

/// Offset of the table-kind byte in a table-definition page.
pub const TABLE_TYPE_AT: usize = 40;

/// Release generation of the file format.
#[derive(Debug, Clone, Copy, PartialEq, Eq)]
pub enum DatabaseVersion {
    V3,
    V4,
    V5,
    Access2010,
    Access2013,
    Access2016,
    Access2019,
}

/// Whether a table holds user data or belongs to the system catalogue.
#[derive(Debug, Clone, Copy, PartialEq, Eq)]
pub enum TableType {
    User,
    System,
}

/// A fatal decoding failure.
#[derive(Debug, Clone, Copy, PartialEq, Eq)]
pub enum FormatError {
    /// A region of fixed size is cut short; the offset where it starts.
    Truncated(usize),
    /// The version byte of a database-definition page names no known generation.
    UnknownVersion(u8),
    /// The first page does not describe the database.
    MissingDatabaseHeader,
}

/// The first page: version, obfuscation secret and obfuscated counter.
#[derive(Debug, Clone, PartialEq, Eq)]
pub struct DatabaseDefinition {
    pub page_type: u8,
    pub version: DatabaseVersion,
    pub rc4_key: Vec<u8>,
    pub key: u32,
}

/// Header of a page of table rows.
#[derive(Debug, Clone, Copy, PartialEq, Eq)]
pub struct Data {
    pub page_type: u8,
    pub free_space: u16,
    pub table_def_page: u32,
    pub num_rows: u16,
}

/// Header of a table-definition page. The column and index descriptors that
/// follow it are left undecoded.
#[derive(Debug, Clone, Copy, PartialEq, Eq)]
pub struct TableDefinition {
    pub page_type: u8,
    pub table_def_id: u16,
    pub next_page: u32,
    pub length: u32,
    pub num_rows: u32,
    pub auto_number: u32,
    pub auto_number_flag: u8,
    pub complex_auto_number: u32,
    pub table_type: Option<TableType>,
    pub max_columns: u16,
    pub number_variable_columns: u16,
    pub num_columns: u16,
    pub num_idx: u32,
    pub num_real_idx: u32,
    pub used_pages: u32,
    pub free_pages: u32,
}

/// An intermediate page of an index; its body is left undecoded.
#[derive(Debug, Clone, Copy, PartialEq, Eq)]
pub struct IntermediateIndex {
    pub page_type: u8,
}

/// A leaf page of an index; its body is left undecoded.
#[derive(Debug, Clone, Copy, PartialEq, Eq)]
pub struct LeafIndex {
    pub page_type: u8,
}

/// A page-usage bitmap; its body is left undecoded.
#[derive(Debug, Clone, Copy, PartialEq, Eq)]
pub struct PageUseBitMaps {
    pub page_type: u8,
}

/// A page of a kind this reader does not model; keeps its kind byte.
#[derive(Debug, Clone, Copy, PartialEq, Eq)]
pub struct Unknown {
    pub page_type: u8,
}

/// One decoded page.
#[derive(Debug, Clone, PartialEq, Eq)]
pub enum Page {
    DatabaseDefinition(DatabaseDefinition),
    Data(Data),
    TableDefinition(TableDefinition),
    IntermediateIndex(IntermediateIndex),
    LeafIndex(LeafIndex),
    PageUseBitMaps(PageUseBitMaps),
    Unknown(Unknown),
}

/// The generation that a version byte names.
pub open spec fn version_of(b: u8) -> Option<DatabaseVersion> {
    if b == 0 {
        Some(DatabaseVersion::V3)
    } else if b == 1 {
        Some(DatabaseVersion::V4)
    } else if b == 2 {
        Some(DatabaseVersion::V5)
    } else if b == 3 {
        Some(DatabaseVersion::Access2010)
    } else if b == 4 {
        Some(DatabaseVersion::Access2013)
    } else if b == 5 {
        Some(DatabaseVersion::Access2016)
    } else if b == 6 {
        Some(DatabaseVersion::Access2019)
    } else {
        None
    }
}

/// The table kind that a kind byte names.
pub open spec fn table_type_of(b: u8) -> Option<TableType> {
    if b == 0x4e {
        Some(TableType::User)
    } else if b == 0x53 {
        Some(TableType::System)
    } else {
        None
    }
}

/// The fields of a table-definition header, as laid out in frame `f`. The
/// layout is fixed: the counts follow the kind byte whether or not it names
/// a kind.
pub open spec fn table_definition_of(f: Seq<u8>, t: TableDefinition) -> bool {
    &&& t.page_type == 2
    &&& t.table_def_id == le_u16(f, 2)
    &&& t.next_page == le_u32(f, 4)
    &&& t.length == le_u32(f, 8)
    &&& t.num_rows == le_u32(f, 16)
    &&& t.auto_number == le_u32(f, 20)
    &&& t.auto_number_flag == f[24]
    &&& t.complex_auto_number == le_u32(f, 28)
    &&& t.table_type == table_type_of(f[TABLE_TYPE_AT as int])
    &&& t.max_columns == le_u16(f, 41)
    &&& t.number_variable_columns == le_u16(f, 43)
    &&& t.num_columns == le_u16(f, 45)
    &&& t.num_idx == le_u32(f, 47)
    &&& t.num_real_idx == le_u32(f, 51)
    &&& t.used_pages == le_u32(f, 55)
    &&& t.free_pages == le_u32(f, 59)
}

/// `p` is what frame `f` holds, field for field, as the kind byte `f[0]` selects.
pub open spec fn decodes_to(f: Seq<u8>, p: Page) -> bool {
    match p {
        Page::DatabaseDefinition(d) => {
            &&& f[0] == 0
            &&& d.page_type == 0
            &&& version_of(f[VERSION_AT as int]) == Some(d.version)
            &&& d.rc4_key@ == f.subrange(SECRET_AT as int, SECRET_AT + SECRET_LEN)
            &&& d.key == le_u32(f, COUNTER_AT as int)
        },
        Page::Data(d) => {
            &&& f[0] == 1
            &&& d.page_type == 1
            &&& d.free_space == le_u16(f, 2)
            &&& d.table_def_page == le_u32(f, 4)
            &&& d.num_rows == le_u16(f, 12)
        },
        Page::TableDefinition(t) => f[0] == 2 && table_definition_of(f, t),
        Page::IntermediateIndex(x) => f[0] == 3 && x.page_type == 3,
        Page::LeafIndex(x) => f[0] == 4 && x.page_type == 4,
        Page::PageUseBitMaps(x) => f[0] == 5 && x.page_type == 5,
        Page::Unknown(x) => f[0] > 5 && x.page_type == f[0],
    }
}

/// The fatal error, if any, in decoding frame `f`.
pub open spec fn page_error(f: Seq<u8>) -> Option<FormatError> {
    if f[0] == 0 && version_of(f[VERSION_AT as int]) is None {
        Some(FormatError::UnknownVersion(f[VERSION_AT as int]))
    } else {
        None
    }
}

/// Maps a version byte to its generation.
pub fn decode_version(b: u8) -> (r: Option<DatabaseVersion>)
    ensures
        r == version_of(b),
{
    match b {
        0 => Some(DatabaseVersion::V3),
        1 => Some(DatabaseVersion::V4),
        2 => Some(DatabaseVersion::V5),
        3 => Some(DatabaseVersion::Access2010),
        4 => Some(DatabaseVersion::Access2013),
        5 => Some(DatabaseVersion::Access2016),
        6 => Some(DatabaseVersion::Access2019),
        _ => None,
    }
}

/// Maps a table-kind byte to its kind.
pub fn decode_table_type(b: u8) -> (r: Option<TableType>)
    ensures
        r == table_type_of(b),
{
    if b == 0x4e {
        Some(TableType::User)
    } else if b == 0x53 {
        Some(TableType::System)
    } else {
        None
    }
}

fn decode_database_definition(f: &[u8]) -> (r: Result<DatabaseDefinition, FormatError>)
    requires
        f@.len() == PAGE_SIZE,
        f@[0] == 0,
    ensures
        match r {
            Ok(d) => page_error(f@) is None && decodes_to(f@, Page::DatabaseDefinition(d)),
            Err(e) => page_error(f@) == Some(e),
        },
{
    let v = f[VERSION_AT];
    let version = match decode_version(v) {
        Some(version) => version,
        None => return Err(FormatError::UnknownVersion(v)),
    };
    let mut secret: Vec<u8> = Vec::new();
    let mut i: usize = 0;
    while i < SECRET_LEN
        invariant
            f@.len() == PAGE_SIZE,
            i <= SECRET_LEN,
            secret@ == f@.subrange(SECRET_AT as int, SECRET_AT + i),
        decreases SECRET_LEN - i,
    {
        secret.push(f[SECRET_AT + i]);
        i = i + 1;
        assert(secret@ =~= f@.subrange(SECRET_AT as int, SECRET_AT + i));
    }
    Ok(DatabaseDefinition {
        page_type: 0,
        version,
        rc4_key: secret,
        key: read_u32_le(f, COUNTER_AT),
    })
}

fn decode_table_definition(f: &[u8]) -> (r: TableDefinition)
    requires
        f@.len() == PAGE_SIZE,
    ensures
        table_definition_of(f@, r),
{
    let table_type = decode_table_type(f[TABLE_TYPE_AT]);
    TableDefinition {
        page_type: 2,
        table_def_id: read_u16_le(f, 2),
        next_page: read_u32_le(f, 4),
        length: read_u32_le(f, 8),
        num_rows: read_u32_le(f, 16),
        auto_number: read_u32_le(f, 20),
        auto_number_flag: f[24],
        complex_auto_number: read_u32_le(f, 28),
        table_type,
        max_columns: read_u16_le(f, 41),
        number_variable_columns: read_u16_le(f, 43),
        num_columns: read_u16_le(f, 45),
        num_idx: read_u32_le(f, 47),
        num_real_idx: read_u32_le(f, 51),
        used_pages: read_u32_le(f, 55),
        free_pages: read_u32_le(f, 59),
    }
}

/// Decodes one page-sized frame by its kind byte. An unmodelled kind gives
/// `Unknown`; only a database-definition page with an unknown version fails.
pub fn decode_page(frame: &[u8]) -> (r: Result<Page, FormatError>)
    requires
        frame@.len() == PAGE_SIZE,
    ensures
        match r {
            Ok(p) => page_error(frame@) is None && decodes_to(frame@, p),
            Err(e) => page_error(frame@) == Some(e),
        },
{
    let tag = frame[0];
    match tag {
        0 => match decode_database_definition(frame) {
            Ok(d) => Ok(Page::DatabaseDefinition(d)),
            Err(e) => Err(e),
        },
        1 => Ok(
            Page::Data(
                Data {
                    page_type: 1,
                    free_space: read_u16_le(frame, 2),
                    table_def_page: read_u32_le(frame, 4),
                    num_rows: read_u16_le(frame, 12),
                },
            ),
        ),
        2 => Ok(Page::TableDefinition(decode_table_definition(frame))),
        3 => Ok(Page::IntermediateIndex(IntermediateIndex { page_type: 3 })),
        4 => Ok(Page::LeafIndex(LeafIndex { page_type: 4 })),
        5 => Ok(Page::PageUseBitMaps(PageUseBitMaps { page_type: 5 })),
        _ => Ok(Page::Unknown(Unknown { page_type: tag })),
    }
}

} // verus!

verus! {

/// A database-definition page whose version byte is one of 0 to 6 decodes
/// to the generation that byte names; any other version byte is refused.
pub proof fn lemma_version_byte(f: Seq<u8>, p: Page)
    requires
        f.len() == PAGE_SIZE,
        f[0] == 0,
    ensures
        f[VERSION_AT as int] <= 6 <==> page_error(f) is None,
        f[VERSION_AT as int] > 6 ==> page_error(f) == Some(
            FormatError::UnknownVersion(f[VERSION_AT as int]),
        ),
        decodes_to(f, p) ==> match p {
            Page::DatabaseDefinition(d) => version_of(f[VERSION_AT as int]) == Some(d.version),
            _ => false,
        },
{
}

/// A table-definition page whose kind byte names no table kind still
/// decodes, with the kind absent and every other field read at its fixed
/// offset.
pub proof fn lemma_unnamed_table_type(f: Seq<u8>, p: Page)
    requires
        f.len() == PAGE_SIZE,
        f[0] == 2,
        f[TABLE_TYPE_AT as int] != 0x4e,
        f[TABLE_TYPE_AT as int] != 0x53,
    ensures
        page_error(f) is None,
        decodes_to(f, p) ==> match p {
            Page::TableDefinition(t) => t.table_type is None && table_definition_of(f, t),
            _ => false,
        },
{
}

/// The kind byte of a table-definition page moves no other field: two
/// frames that differ only in that byte decode to headers that differ at
/// most in their kind.
pub proof fn lemma_table_kind_moves_no_field(
    f: Seq<u8>,
    g: Seq<u8>,
    t: TableDefinition,
    u: TableDefinition,
)
    requires
        f.len() == PAGE_SIZE,
        g.len() == PAGE_SIZE,
        f[0] == 2,
        forall|i: int| 0 <= i < PAGE_SIZE && i != TABLE_TYPE_AT ==> f[i] == g[i],
        decodes_to(f, Page::TableDefinition(t)),
        decodes_to(g, Page::TableDefinition(u)),
    ensures
        t == (TableDefinition { table_type: t.table_type, ..u }),
{
    assert(g[0] == f[0]);
}

} // verus!
