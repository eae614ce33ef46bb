use mdb_rs::database::{parse_access_file, Database};
use mdb_rs::obfuscation::{resolve_counter, unmask_counter};
use mdb_rs::page::{
    decode_page, decode_table_type, decode_version, DatabaseVersion, FormatError, Page,
    TableType, PAGE_SIZE,
};

fn blank(tag: u8) -> Vec<u8> {
    let mut f = vec![0u8; PAGE_SIZE];
    f[0] = tag;
    f
}

fn header(version: u8) -> Vec<u8> {
    let mut f = blank(0);
    f[0x13] = version;
    f
}

fn join(frames: &[Vec<u8>]) -> Vec<u8> {
    let mut out = Vec::new();
    for f in frames {
        out.extend_from_slice(f);
    }
    out
}

fn decode(bytes: &[u8]) -> Database {
    parse_access_file(bytes).expect("decodes")
}

#[test]
fn one_zero_page_end_to_end() {
    let mut buf = vec![0x00u8];
    buf.extend(std::iter::repeat(0u8).take(0x12));
    buf.push(0x02);
    buf.extend(std::iter::repeat(0u8).take(128));
    buf.extend(std::iter::repeat(0u8).take(0x29));
    buf.extend_from_slice(&0u32.to_le_bytes());
    buf.resize(4096, 0);
    let db = decode(&buf);
    assert_eq!(db.page_size, 4096);
    assert_eq!(db.pages.len(), 1);
    match &db.pages[0] {
        Page::DatabaseDefinition(d) => {
            assert_eq!(d.version, DatabaseVersion::V5);
            assert_eq!(d.key, 0);
            assert_eq!(d.rc4_key, vec![0u8; 128]);
            let clear = resolve_counter(&d.rc4_key, d.key);
            assert_eq!(resolve_counter(&d.rc4_key, clear), 0);
        }
        other => panic!("unexpected page {:?}", other),
    }
}

#[test]
fn zero_secret_keystream_word() {
    // RC4 under an all-zero key starts its keystream with de 18 89 41.
    let secret = vec![0u8; 128];
    assert_eq!(resolve_counter(&secret, 0), 0x4189_18de);
}

#[test]
fn whole_pages_give_one_page_each() {
    let bytes = join(&[header(3), blank(1), blank(2), blank(3), blank(4), blank(5), blank(9)]);
    let db = decode(&bytes);
    assert_eq!(db.pages.len(), bytes.len() / PAGE_SIZE);
    assert!(matches!(db.pages[0], Page::DatabaseDefinition(_)));
    assert!(matches!(db.pages[1], Page::Data(_)));
    assert!(matches!(db.pages[2], Page::TableDefinition(_)));
    assert!(matches!(db.pages[3], Page::IntermediateIndex(_)));
    assert!(matches!(db.pages[4], Page::LeafIndex(_)));
    assert!(matches!(db.pages[5], Page::PageUseBitMaps(_)));
    assert!(matches!(db.pages[6], Page::Unknown(u) if u.page_type == 9));
}

#[test]
fn short_inputs_are_truncated() {
    assert_eq!(parse_access_file(&[]), Err(FormatError::Truncated(0)));
    assert_eq!(parse_access_file(&[0u8; 100]), Err(FormatError::Truncated(0)));
    assert_eq!(parse_access_file(&vec![0u8; 4095]), Err(FormatError::Truncated(0)));
}

#[test]
fn partial_last_page_is_truncated() {
    let mut bytes = header(0);
    bytes.extend_from_slice(&[1u8; 10]);
    assert_eq!(parse_access_file(&bytes), Err(FormatError::Truncated(4096)));
}

#[test]
fn version_bytes_name_generations() {
    let expected = [
        DatabaseVersion::V3,
        DatabaseVersion::V4,
        DatabaseVersion::V5,
        DatabaseVersion::Access2010,
        DatabaseVersion::Access2013,
        DatabaseVersion::Access2016,
        DatabaseVersion::Access2019,
    ];
    for (b, v) in expected.iter().enumerate() {
        assert_eq!(decode_version(b as u8), Some(*v));
        let db = decode(&header(b as u8));
        match &db.pages[0] {
            Page::DatabaseDefinition(d) => assert_eq!(d.version, *v),
            other => panic!("unexpected page {:?}", other),
        }
    }
    assert_eq!(decode_version(7), None);
}

#[test]
fn unknown_version_is_refused() {
    assert_eq!(parse_access_file(&header(7)), Err(FormatError::UnknownVersion(7)));
    assert_eq!(parse_access_file(&header(0xff)), Err(FormatError::UnknownVersion(0xff)));
    let bytes = join(&[header(1), header(42)]);
    assert_eq!(parse_access_file(&bytes), Err(FormatError::UnknownVersion(42)));
}

#[test]
fn first_page_must_describe_database() {
    assert_eq!(parse_access_file(&blank(1)), Err(FormatError::MissingDatabaseHeader));
    assert_eq!(parse_access_file(&blank(9)), Err(FormatError::MissingDatabaseHeader));
}

#[test]
fn unknown_kind_does_not_stop_decoding() {
    let mut data = blank(1);
    data[2] = 0x34;
    data[3] = 0x12;
    let bytes = join(&[header(4), blank(9), data]);
    let db = decode(&bytes);
    assert_eq!(db.pages.len(), 3);
    assert!(matches!(db.pages[1], Page::Unknown(u) if u.page_type == 9));
    match &db.pages[2] {
        Page::Data(d) => assert_eq!(d.free_space, 0x1234),
        other => panic!("unexpected page {:?}", other),
    }
}

#[test]
fn database_definition_fields() {
    let mut f = header(6);
    for i in 0..128 {
        f[0x14 + i] = i as u8;
    }
    f[0xbd..0xc1].copy_from_slice(&0xdead_beefu32.to_le_bytes());
    match decode_page(&f) {
        Ok(Page::DatabaseDefinition(d)) => {
            assert_eq!(d.page_type, 0);
            assert_eq!(d.version, DatabaseVersion::Access2019);
            assert_eq!(d.rc4_key, (0..128).map(|i| i as u8).collect::<Vec<u8>>());
            assert_eq!(d.key, 0xdead_beef);
        }
        other => panic!("unexpected result {:?}", other),
    }
}

#[test]
fn data_page_fields() {
    let mut f = blank(1);
    f[2..4].copy_from_slice(&0x0102u16.to_le_bytes());
    f[4..8].copy_from_slice(&0x0a0b_0c0du32.to_le_bytes());
    f[8..12].copy_from_slice(&[0xff; 4]);
    f[12..14].copy_from_slice(&0x0304u16.to_le_bytes());
    match decode_page(&f) {
        Ok(Page::Data(d)) => {
            assert_eq!(d.page_type, 1);
            assert_eq!(d.free_space, 0x0102);
            assert_eq!(d.table_def_page, 0x0a0b_0c0d);
            assert_eq!(d.num_rows, 0x0304);
        }
        other => panic!("unexpected result {:?}", other),
    }
}

fn table_frame(kind: u8) -> Vec<u8> {
    let mut f = blank(2);
    f[2..4].copy_from_slice(&7u16.to_le_bytes());
    f[4..8].copy_from_slice(&11u32.to_le_bytes());
    f[8..12].copy_from_slice(&13u32.to_le_bytes());
    f[16..20].copy_from_slice(&17u32.to_le_bytes());
    f[20..24].copy_from_slice(&19u32.to_le_bytes());
    f[24] = 23;
    f[28..32].copy_from_slice(&29u32.to_le_bytes());
    f[40] = kind;
    f[41..43].copy_from_slice(&31u16.to_le_bytes());
    f[43..45].copy_from_slice(&37u16.to_le_bytes());
    f[45..47].copy_from_slice(&41u16.to_le_bytes());
    f[47..51].copy_from_slice(&43u32.to_le_bytes());
    f[51..55].copy_from_slice(&47u32.to_le_bytes());
    f[55..59].copy_from_slice(&53u32.to_le_bytes());
    f[59..63].copy_from_slice(&59u32.to_le_bytes());
    f
}

fn check_table_common(f: &[u8]) -> mdb_rs::page::TableDefinition {
    match decode_page(f) {
        Ok(Page::TableDefinition(t)) => {
            assert_eq!(t.page_type, 2);
            assert_eq!(t.table_def_id, 7);
            assert_eq!(t.next_page, 11);
            assert_eq!(t.length, 13);
            assert_eq!(t.num_rows, 17);
            assert_eq!(t.auto_number, 19);
            assert_eq!(t.auto_number_flag, 23);
            assert_eq!(t.complex_auto_number, 29);
            assert_eq!(t.max_columns, 31);
            assert_eq!(t.number_variable_columns, 37);
            assert_eq!(t.num_columns, 41);
            assert_eq!(t.num_idx, 43);
            assert_eq!(t.num_real_idx, 47);
            assert_eq!(t.used_pages, 53);
            assert_eq!(t.free_pages, 59);
            t
        }
        other => panic!("unexpected result {:?}", other),
    }
}

#[test]
fn table_definition_user_and_system() {
    let t = check_table_common(&table_frame(0x4e));
    assert_eq!(t.table_type, Some(TableType::User));
    let t = check_table_common(&table_frame(0x53));
    assert_eq!(t.table_type, Some(TableType::System));
}

#[test]
fn table_definition_with_unnamed_kind() {
    let t = check_table_common(&table_frame(0x1f));
    assert_eq!(t.table_type, None);
    assert_eq!(decode_table_type(0x1f), None);
    assert_eq!(decode_table_type(0x4e), Some(TableType::User));
    assert_eq!(decode_table_type(0x53), Some(TableType::System));
}

#[test]
fn resolving_twice_restores_counter() {
    let secret: Vec<u8> = (0..128).map(|i| (i * 7 + 3) as u8).collect();
    for counter in [0u32, 1, 0xdead_beef, u32::MAX] {
        let clear = resolve_counter(&secret, counter);
        assert_eq!(resolve_counter(&secret, clear), counter);
    }
    let clear = resolve_counter(&secret, 0x1234_5678);
    assert_ne!(clear, 0x1234_5678);
}

#[test]
fn unmask_reads_keystream_little_endian() {
    assert_eq!(unmask_counter(0x1234_5678, [0x78, 0x56, 0x34, 0x12]), 0);
    assert_eq!(unmask_counter(0, [1, 2, 3, 4]), 0x0403_0201);
    assert_eq!(unmask_counter(0xffff_ffff, [0xff, 0, 0, 0]), 0xffff_ff00);
}

#[test]
fn table_kind_byte_moves_no_field() {
    let named = parse_access_file(&join(&[header(2), table_frame(0x4e)])).expect("decodes");
    let unnamed = parse_access_file(&join(&[header(2), table_frame(0x00)])).expect("decodes");
    match (&named.pages[1], &unnamed.pages[1]) {
        (Page::TableDefinition(a), Page::TableDefinition(b)) => {
            assert_eq!(a.table_type, Some(TableType::User));
            assert_eq!(b.table_type, None);
            let mut a = *a;
            a.table_type = None;
            assert_eq!(a, *b);
            assert_eq!(b.max_columns, 31);
        }
        other => panic!("unexpected pages {:?}", other),
    }
}
