use party_screen::charmap::{
    encode_plain, index_of, map_special, pkstr_build, pkstr_bytes_len, pkstr_write, push_decimal,
    ArrayPkstr, Pkstr,
};

#[test]
fn charmap_maps_letters_digits_and_punctuation() {
    assert_eq!(party_screen::charmap::map(b'a'), 0xD5);
    assert_eq!(party_screen::charmap::map(b'z'), 0xD5 + 25);
    assert_eq!(party_screen::charmap::map(b'A'), 0xBB);
    assert_eq!(party_screen::charmap::map(b'Z'), 0xBB + 25);
    assert_eq!(party_screen::charmap::map(b'0'), 0xA1);
    assert_eq!(party_screen::charmap::map(b'9'), 0xA1 + 9);
    assert_eq!(party_screen::charmap::map(b' '), 0x00);
    assert_eq!(party_screen::charmap::map(b'!'), 0xAB);
    assert_eq!(party_screen::charmap::map(b'/'), 0xBA);
    assert_eq!(party_screen::charmap::map(0), 0xFF);
    // bytes without a glyph render as the dash glyph
    assert_eq!(party_screen::charmap::map(b'@'), 0xAE);
}

#[test]
fn charmap_special_escapes() {
    assert_eq!(map_special(&b"PAUSE".to_vec()), Some(vec![0xFC, 0x09]));
    assert_eq!(map_special(&b"PARAGRAPH".to_vec()), Some(vec![0xFB]));
    assert_eq!(map_special(&b"P".to_vec()), Some(vec![0xFB]));
    assert_eq!(map_special(&b"NOPE".to_vec()), None);
    assert_eq!(map_special(&b"".to_vec()), None);
}

#[test]
fn charmap_index_of_finds_first_occurrence() {
    assert_eq!(index_of(&vec![4, 5, 6, 5], 5), Some(1));
    assert_eq!(index_of(&vec![4, 5, 6], 9), None);
    assert_eq!(index_of(&vec![], 9), None);
}

#[test]
fn charmap_pkstr_build_encodes_text_and_escapes() {
    let built = pkstr_build(&b"Hi".to_vec()).unwrap();
    assert_eq!(built, vec![0xBB + 7, 0xD5 + 8, 0xFF]);
    let with_escape = pkstr_build(&b"a{PAUSE}b".to_vec()).unwrap();
    assert_eq!(with_escape, vec![0xD5, 0xFC, 0x09, 0xD5 + 1, 0xFF]);
    assert!(pkstr_build(&b"a{NOPE}b".to_vec()).is_none());
    assert!(pkstr_build(&b"a{open".to_vec()).is_none());
}

#[test]
fn charmap_pkstr_bytes_len_counts_the_sentinel() {
    assert_eq!(pkstr_bytes_len(&b"abc".to_vec()), Some(4));
    assert_eq!(pkstr_bytes_len(&b"{PAUSE}".to_vec()), Some(3));
    assert_eq!(pkstr_bytes_len(&b"{X}".to_vec()), None);
}

#[test]
fn charmap_pkstr_write_appends_only_on_success() {
    let mut buf: Vec<u8> = vec![1];
    assert!(pkstr_write(&mut buf, &b"a".to_vec()));
    assert_eq!(buf, vec![1, 0xD5, 0xFF]);
    assert!(!pkstr_write(&mut buf, &b"{X}".to_vec()));
    assert_eq!(buf, vec![1, 0xD5, 0xFF]);
}

#[test]
fn charmap_encode_plain_maps_every_byte() {
    let out = encode_plain(&vec![b'L', b'v', b'7']);
    assert_eq!(out, vec![0xBB + 11, 0xD5 + 21, 0xA1 + 7, 0xFF]);
}

#[test]
fn charmap_push_decimal_writes_ascii_digits() {
    let mut out: Vec<u8> = Vec::new();
    push_decimal(&mut out, 0);
    push_decimal(&mut out, 407);
    assert_eq!(out, vec![b'0', b'4', b'0', b'7']);
}

#[test]
fn charmap_array_pkstr_encodes_ascii_labels() {
    let s = ArrayPkstr::from_str("Ab 9");
    assert_eq!(s.len(), 5);
    let p = s.to_pkstr();
    assert_eq!(p.to_bytes(), vec![0xBB, 0xD5 + 1, 0x00, 0xA1 + 9, 0xFF]);
}

#[test]
fn charmap_array_pkstr_from_slice_keeps_bytes() {
    let s = ArrayPkstr::from_slice(&vec![0xBB, 0xFF]);
    assert_eq!(s.len(), 2);
    assert_eq!(s.to_pkstr().to_bytes(), vec![0xBB, 0xFF]);
}

#[test]
fn charmap_pkstr_wraps_encoded_bytes() {
    let p = Pkstr::from_bytes(vec![0xD5, 0xFF]);
    assert_eq!(p.len(), 2);
    assert_eq!(p.byte_at(0), 0xD5);
    assert_eq!(p.to_bytes(), vec![0xD5, 0xFF]);
}
