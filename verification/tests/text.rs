use llvm_wrap::util::{
    contains_nul, cstring_to_string, empty_twine, has_interior_nul, is_text, string_to_cstring,
};

#[test]
fn a_name_becomes_its_bytes_and_a_zero() {
    assert_eq!(string_to_cstring("main"), vec![b'm', b'a', b'i', b'n', 0]);
}

#[test]
fn the_empty_name_is_the_zero_alone() {
    assert_eq!(string_to_cstring(""), vec![0]);
    assert_eq!(empty_twine(), vec![0]);
}

#[test]
fn a_name_beyond_ascii_goes_out_as_utf8() {
    assert_eq!(string_to_cstring("é"), vec![0xC3, 0xA9, 0]);
    assert_eq!(string_to_cstring("日本"), vec![0xE6, 0x97, 0xA5, 0xE6, 0x9C, 0xAC, 0]);
}

#[test]
fn a_zero_byte_inside_a_name_is_found() {
    assert!(has_interior_nul("ma\0in"));
    assert!(has_interior_nul("\0"));
    assert!(has_interior_nul("main\0"));
    assert!(!has_interior_nul("main"));
    assert!(!has_interior_nul(""));
}

#[test]
fn a_zero_byte_among_bytes_is_found() {
    assert!(contains_nul(&[1, 0, 2]));
    assert!(!contains_nul(&[1, 2, 3]));
    assert!(!contains_nul(&[]));
}

#[test]
fn bytes_from_the_backend_are_text_or_not() {
    assert!(is_text(b"x86_64-unknown-linux-gnu"));
    assert!(is_text(&[0xC3, 0xA9]));
    assert!(is_text(&[]));
    assert!(!is_text(&[0xFF]));
    assert!(!is_text(&[0xC3]));
    assert!(!is_text(&[b'a', 0x80]));
}

#[test]
fn bytes_from_the_backend_read_as_their_text() {
    assert_eq!(cstring_to_string(b"x86_64-unknown-linux-gnu"), "x86_64-unknown-linux-gnu");
    assert_eq!(cstring_to_string(&[0xC3, 0xA9]), "é");
    assert_eq!(cstring_to_string(&[]), "");
}

#[test]
fn a_text_survives_the_way_out_and_back() {
    let out = string_to_cstring("wasm32-unknown-unknown");
    let (closing, text) = out.split_last().unwrap();
    assert_eq!(*closing, 0);
    assert!(is_text(text));
    assert_eq!(cstring_to_string(text), "wasm32-unknown-unknown");
}
