use barracuda::utils::{pack_string_to_words, unescape_chars, utf8_encode};

#[test]
fn pack_short_string_into_one_word() {
    // "hi": bytes 0x68 0x69, first byte lowest, shifted up by 6 bytes for a 64-bit word
    assert_eq!(pack_string_to_words("hi", 64), vec![0x6968u64 << 48]);
    // 32-bit precision packs 4 bytes per word
    assert_eq!(pack_string_to_words("hi", 32), vec![0x6968u64 << 16]);
}

#[test]
fn pack_splits_into_chunks() {
    let words = pack_string_to_words("abcdefghij", 64);
    assert_eq!(words.len(), 2);
    assert_eq!(words[0], u64::from_le_bytes(*b"abcdefgh"));
    assert_eq!(words[1], (u64::from(b'j') << 8 | u64::from(b'i')) << 48);
    let words = pack_string_to_words("abcd", 32);
    assert_eq!(words, vec![u32::from_le_bytes(*b"abcd") as u64]);
    assert!(pack_string_to_words("", 64).is_empty());
}

#[test]
fn escapes_are_replaced_before_packing() {
    assert_eq!(pack_string_to_words("\\n", 64), vec![0x0Au64 << 56]);
    let chars: Vec<char> = "a\\tb\\qc\\".chars().collect();
    let out: String = unescape_chars(&chars).into_iter().collect();
    assert_eq!(out, "a\tb\\qc\\");
    let chars: Vec<char> = "\\\\\\\"\\?\\'\\a\\b\\f\\r\\v".chars().collect();
    let out: String = unescape_chars(&chars).into_iter().collect();
    assert_eq!(out, "\\\"?'\x07\x08\x0C\r\x0B");
}

#[test]
fn utf8_encoding_matches_std() {
    let text = "aé€😀";
    let chars: Vec<char> = text.chars().collect();
    assert_eq!(utf8_encode(&chars), text.as_bytes().to_vec());
}
