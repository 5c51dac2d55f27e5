use cursor_guest::text::{ascii_uppercase, joined, contains, hex_id, is_blank, is_white_space_char, same_text};

#[test]
fn hex_id_writes_two_lowercase_digits_per_byte() {
    assert_eq!(hex_id(&[0x00, 0x0f, 0xa5, 0xff]), "000fa5ff");
    assert_eq!(hex_id(&[]), "");
}

#[test]
fn hex_id_of_thirty_two_bytes_has_sixty_four_digits() {
    let bytes: Vec<u8> = (0u8..32).collect();
    let id = hex_id(&bytes);
    assert_eq!(id.len(), 64);
    assert_eq!(&id[..8], "00010203");
    assert!(id.chars().all(|c| c.is_ascii_hexdigit() && !c.is_ascii_uppercase()));
}

#[test]
fn ascii_uppercase_matches_to_uppercase_on_ascii() {
    let s = "a1b2-c3d4-ef";
    assert_eq!(ascii_uppercase(s), s.to_uppercase());
    assert_eq!(ascii_uppercase("Ünï"), "ÜNï");
}

#[test]
fn contains_finds_substrings() {
    assert!(contains("错误: 没有找到进程", "没有找到"));
    assert!(contains("abc", ""));
    assert!(contains("process not found", "not found"));
    assert!(!contains("not", "not found"));
    assert!(!contains("abcabd", "abdd"));
    assert!(contains("abcabd", "abd"));
}

#[test]
fn concat_and_same_text() {
    assert_eq!(joined("json.", "backup"), "json.backup");
    assert!(same_text("abc", "abc"));
    assert!(!same_text("abc", "abd"));
    assert!(!same_text("abc", "ab"));
}

#[test]
fn white_space_agrees_with_std_on_every_char() {
    for v in 0u32..=0x10FFFF {
        if let Some(c) = char::from_u32(v) {
            assert_eq!(is_white_space_char(c), c.is_whitespace(), "code point {:x}", v);
        }
    }
}

#[test]
fn blank_is_what_trims_to_nothing() {
    for s in ["", "  ", "\n\t\r ", "\u{3000}\u{a0}", " x ", "{}", "\u{200b}"] {
        assert_eq!(is_blank(s), s.trim().is_empty(), "{:?}", s);
    }
}
