use boubo_trace::maps::{parse_row, translate_address_in, MapsRow};
use boubo_trace::text::{parse_hex, push_dec, push_dec_bytes};

#[test]
fn hex_parsing_is_exact() {
    assert_eq!(parse_hex(b"400000"), Some(0x400000));
    assert_eq!(parse_hex(b"0"), Some(0));
    assert_eq!(parse_hex(b"AbC"), Some(0xabc));
    assert_eq!(parse_hex(b"ffffffffffffffff"), Some(usize::MAX));
    assert_eq!(parse_hex(b"10000000000000000"), None);
    assert_eq!(parse_hex(b""), None);
    assert_eq!(parse_hex(b"12g4"), None);
    assert_eq!(parse_hex(b"-1"), None);
}

#[test]
fn decimal_formatting_is_exact() {
    let mut s = String::new();
    push_dec(&mut s, 0);
    assert_eq!(s, "0");
    let mut s = String::new();
    push_dec(&mut s, 1234567890);
    assert_eq!(s, "1234567890");
    let mut s = String::from("pid ");
    push_dec(&mut s, 42);
    assert_eq!(s, "pid 42");
    let mut v: Vec<u8> = vec![];
    push_dec_bytes(&mut v, 908);
    assert_eq!(v, b"908".to_vec());
}

#[test]
fn one_row_parses() {
    let row = parse_row(b"400000-401000 r-xp 00000000 fd:01 123456 /bin/foo").unwrap();
    assert_eq!(
        row,
        MapsRow {
            start: 0x400000,
            stop: 0x401000,
            offset: 0
        }
    );
    let row = parse_row(b"7f00000-7f10000 rw-p 0002a000 08:02 99").unwrap();
    assert_eq!(row.offset, 0x2a000);
}

#[test]
fn malformed_rows_do_not_parse() {
    assert!(parse_row(b"").is_none());
    assert!(parse_row(b"no numbers here at all").is_none());
    assert!(parse_row(b"400000 r-xp 00000000").is_none()); // no dash
    assert!(parse_row(b"400000-401000 r-xp").is_none()); // no offset column
}

#[test]
fn translation_of_one_row() {
    // The documented example: a row mapping file offset 0 at 0x400000,
    // asked for file offset 0x10.
    let table = b"400000-401000 r-xp 00000000 fd:01 123456 /bin/foo";
    assert_eq!(translate_address_in(table, 0x10), Some(0x400010));
    assert_eq!(translate_address_in(table, 0), Some(0x400000));
    assert_eq!(translate_address_in(table, 0x1000), Some(0x401000));
}

#[test]
fn address_outside_all_rows_is_not_found() {
    let table = b"400000-401000 r-xp 00000000 fd:01 123456 /bin/foo";
    assert_eq!(translate_address_in(table, 0x1001), None);
    assert_eq!(translate_address_in(b"", 0x10), None);
}

#[test]
fn first_matching_row_wins() {
    let table = b"400000-401000 r-xp 00000000 fd:01 1 /bin/a\n\
500000-501000 r--p 00000000 fd:01 1 /bin/a\n\
600000-601000 rw-p 00001000 fd:01 1 /bin/a\n";
    assert_eq!(translate_address_in(table, 0x10), Some(0x400010));
    assert_eq!(translate_address_in(table, 0x1500), Some(0x600500));
}

#[test]
fn unparsable_lines_are_skipped() {
    let table = b"this line is noise\n400000-401000 r-xp 00000000 fd:01 1 /bin/a\n";
    assert_eq!(translate_address_in(table, 0x10), Some(0x400010));
}

#[test]
fn inverted_range_never_matches() {
    // A row whose range ends before it starts cannot contain anything.
    let table = b"401000-400000 r-xp 00000000 fd:01 1 /bin/a\n";
    assert_eq!(translate_address_in(table, 0x10), None);
}
