use window_of_opportunity::{get_utf16_vec, hword, lword};

#[test]
fn lword_extracts_low_word() {
    let val: isize = 0xF0F00F0F;
    assert_eq!(lword(val), 0x0F0F);
}

#[test]
fn hword_extracts_high_word() {
    let val: isize = 0xF0F00F0F;
    assert_eq!(hword(val), 0xF0F0);
}

#[test]
fn words_repack_to_original() {
    let val: isize = 0xF0F00F0F;
    let low = lword(val) as isize;
    let high = hword(val) as isize;
    assert_eq!((high << 16) | low, val);
}

#[test]
fn words_repack_boundaries() {
    for &val in &[0isize, 1, 0xFFFF, 0x10000, 0x7FFF_FFFF, 0xFFFF_FFFF] {
        let low = lword(val) as isize;
        let high = hword(val) as isize;
        assert_eq!((high << 16) | low, val, "round trip failed for {val:#x}");
    }
}

#[test]
fn lword_of_negative_is_two_complement_low_bits() {
    assert_eq!(lword(-1), 0xFFFF);
    assert_eq!(hword(-1), 0xFFFF);
}

#[test]
fn utf16_of_ascii() {
    assert_eq!(get_utf16_vec("ab"), vec![0x61, 0x62, 0]);
}

#[test]
fn utf16_of_empty_is_terminator_only() {
    assert_eq!(get_utf16_vec(""), vec![0]);
}

#[test]
fn utf16_of_basic_plane_char() {
    // U+20AC EURO SIGN encodes as a single unit.
    assert_eq!(get_utf16_vec("\u{20AC}"), vec![0x20AC, 0]);
}

#[test]
fn utf16_of_supplementary_char_is_surrogate_pair() {
    // U+10437 DESERET SMALL LETTER YEE.
    assert_eq!(get_utf16_vec("\u{10437}"), vec![0xD801, 0xDC37, 0]);
}

#[test]
fn utf16_of_mixed_text() {
    // U+1F600 GRINNING FACE after ASCII.
    assert_eq!(get_utf16_vec("a\u{1F600}"), vec![0x61, 0xD83D, 0xDE00, 0]);
}
