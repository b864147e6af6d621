use gateway_core::hashing::{cache_key, hex_encode, request_fingerprint};
use gateway_core::text::{chars_of, contains, decimal_text, is_blank, is_whitespace};

#[test]
fn key_of_no_fields_is_the_digest_of_nothing() {
    let parts: [&str; 0] = [];
    assert_eq!(cache_key(&parts), "d41d8cd98f00b204e9800998ecf8427e");
}

#[test]
fn key_of_one_field_is_its_digest() {
    assert_eq!(cache_key(&["abc"]), "900150983cd24fb0d6963f7d28e17f72");
    assert_eq!(
        cache_key(&["abcdefghijklmnopqrstuvwxyz"]),
        "c3fcd3d76192e4007dfb496cca67e13b"
    );
}

#[test]
fn key_is_the_same_on_every_call() {
    let first = cache_key(&["hi", "m", "0.5", "10"]);
    let second = cache_key(&["hi", "m", "0.5", "10"]);
    assert_eq!(first, second);
    assert_eq!(first.len(), 32);
    assert!(first.chars().all(|c| c.is_ascii_digit() || ('a'..='f').contains(&c)));
}

#[test]
fn key_agrees_with_the_digest_of_the_concatenation() {
    let expected = format!("{:x}", md5::compute("him0.510".as_bytes()));
    assert_eq!(cache_key(&["hi", "m", "0.5", "10"]), expected);
}

#[test]
fn fields_that_spell_the_same_text_share_a_key() {
    assert_eq!(cache_key(&["ab", "c"]), cache_key(&["a", "bc"]));
    assert_eq!(cache_key(&["ab", "c"]), "900150983cd24fb0d6963f7d28e17f72");
}

#[test]
fn different_fields_have_different_keys() {
    assert_ne!(cache_key(&["hi", "m"]), cache_key(&["hi", "n"]));
}

#[test]
fn key_covers_text_beyond_ascii() {
    let expected = format!("{:x}", md5::compute("héllo wörld".as_bytes()));
    assert_eq!(cache_key(&["héllo", " ", "wörld"]), expected);
}

#[test]
fn request_key_is_the_key_of_its_four_fields() {
    let temperature = 0.5f32.to_string();
    let key = request_fingerprint("hi", "m", &temperature, 10);
    assert_eq!(key, cache_key(&["hi", "m", "0.5", "10"]));
    assert_eq!(key, request_fingerprint("hi", "m", "0.5", 10));
}

#[test]
fn request_key_changes_with_each_field() {
    let key = request_fingerprint("hi", "m", "0.5", 10);
    assert_ne!(key, request_fingerprint("ho", "m", "0.5", 10));
    assert_ne!(key, request_fingerprint("hi", "n", "0.5", 10));
    assert_ne!(key, request_fingerprint("hi", "m", "0.7", 10));
    assert_ne!(key, request_fingerprint("hi", "m", "0.5", 11));
}

#[test]
fn hex_is_lower_case_with_two_digits_to_the_byte() {
    assert_eq!(hex_encode(&[]), "");
    assert_eq!(hex_encode(&[0x00, 0x0f, 0xa0, 0xff]), "000fa0ff");
    assert_eq!(hex_encode(&[0xbe, 0xef]), "beef");
}

#[test]
fn decimal_numerals() {
    assert_eq!(decimal_text(0), "0");
    assert_eq!(decimal_text(7), "7");
    assert_eq!(decimal_text(10), "10");
    assert_eq!(decimal_text(2048), "2048");
    assert_eq!(decimal_text(usize::MAX), usize::MAX.to_string());
}

#[test]
fn characters_are_read_in_order() {
    assert_eq!(chars_of("aé\u{1F600}b"), vec!['a', 'é', '\u{1F600}', 'b']);
    assert_eq!(chars_of(""), Vec::<char>::new());
}

#[test]
fn contains_finds_a_text_anywhere() {
    assert!(contains("application/json, text/plain", "text/plain"));
    assert!(contains("text/plain", "text/plain"));
    assert!(contains("abc", ""));
    assert!(contains("", ""));
    assert!(!contains("", "a"));
    assert!(!contains("text/plai", "text/plain"));
    assert!(!contains("aab", "abb"));
    assert!(contains("aaab", "aab"));
}

#[test]
fn blank_text_is_white_space_only() {
    assert!(is_blank(""));
    assert!(is_blank("   "));
    assert!(is_blank(" \t\n\u{a0}"));
    assert!(!is_blank(" a "));
    assert!(!is_blank("redis://127.0.0.1:6379"));
}

#[test]
fn white_space_is_the_unicode_property() {
    for c in ['\t', '\n', '\u{b}', '\u{c}', '\r', ' ', '\u{85}', '\u{a0}', '\u{1680}', '\u{2000}',
        '\u{200a}', '\u{2028}', '\u{2029}', '\u{202f}', '\u{205f}', '\u{3000}']
    {
        assert!(is_whitespace(c));
    }
    for c in ['a', '0', '\u{0}', '\u{8}', '\u{e}', '\u{1f}', '!', '\u{84}', '\u{86}', '\u{180e}',
        '\u{1fff}', '\u{200b}', '\u{2027}', '\u{202a}', '\u{2060}', '\u{feff}', '\u{3001}']
    {
        assert!(!is_whitespace(c));
    }
}

#[test]
fn white_space_agrees_with_the_standard_library_on_every_character() {
    for code in 0..=0x10ffffu32 {
        if let Some(c) = char::from_u32(code) {
            assert_eq!(is_whitespace(c), c.is_whitespace());
        }
    }
}
