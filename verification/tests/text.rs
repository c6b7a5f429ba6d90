use ew_auto_import_tool::utils::text::{contains_word, is_blank_text, matches_at, space_width_at};

#[test]
fn a_word_is_found_at_its_offset() {
    assert!(matches_at(b"plugins: []", b"plugins", 0));
    assert!(matches_at(b"plugins: []", b"[]", 9));
    assert!(!matches_at(b"plugins: []", b"[]", 8));
    assert!(matches_at(b"plugins: []", b"", 11));
    assert!(matches_at(b"", b"", 0));
}

#[test]
fn a_word_is_found_anywhere() {
    assert!(contains_word(b"import a from 'unplugin-auto-import/vite'", b"unplugin-auto-import/vite"));
    assert!(contains_word(b"unplugin-auto-import/vite", b"unplugin-auto-import/vite"));
    assert!(contains_word(b"xunplugin-auto-import/vite", b"unplugin-auto-import/vite"));
    assert!(contains_word(b"unplugin-auto-import/vitex", b"unplugin-auto-import/vite"));
    assert!(!contains_word(b"unplugin-auto-import/vit", b"unplugin-auto-import/vite"));
    assert!(!contains_word(b"unplugin-auto-import\\vite", b"unplugin-auto-import/vite"));
    assert!(!contains_word(b"", b"x"));
    assert!(contains_word(b"", b""));
    assert!(contains_word(b"abc", b""));
    assert!(contains_word(b"aab", b"ab"));
    assert!(contains_word(b"abababc", b"ababc"));
}

#[test]
fn white_space_has_its_width() {
    assert_eq!(space_width_at(b" x", 0), 1);
    assert_eq!(space_width_at(b" x", 1), 0);
    assert_eq!(space_width_at(b" x", 2), 0);
    assert_eq!(space_width_at(b"\t\n\x0b\x0c\r", 2), 1);
    assert_eq!(space_width_at("\u{85}".as_bytes(), 0), 2);
    assert_eq!(space_width_at("\u{a0}".as_bytes(), 0), 2);
    assert_eq!(space_width_at("\u{a0}".as_bytes(), 1), 0);
    assert_eq!(space_width_at("\u{a1}".as_bytes(), 0), 0);
    assert_eq!(space_width_at("\u{1680}".as_bytes(), 0), 3);
    assert_eq!(space_width_at("\u{2000}".as_bytes(), 0), 3);
    assert_eq!(space_width_at("\u{200a}".as_bytes(), 0), 3);
    assert_eq!(space_width_at("\u{200b}".as_bytes(), 0), 0);
    assert_eq!(space_width_at("\u{2028}".as_bytes(), 0), 3);
    assert_eq!(space_width_at("\u{2029}".as_bytes(), 0), 3);
    assert_eq!(space_width_at("\u{202f}".as_bytes(), 0), 3);
    assert_eq!(space_width_at("\u{205f}".as_bytes(), 0), 3);
    assert_eq!(space_width_at("\u{3000}".as_bytes(), 0), 3);
    assert_eq!(space_width_at("\u{3001}".as_bytes(), 0), 0);
    assert_eq!(space_width_at(b"\xe2\x80", 0), 0);
    assert_eq!(space_width_at(b"\xc2", 0), 0);
}

#[test]
fn blank_text_is_what_trimming_empties() {
    let samples = [
        "",
        " ",
        "\n\t \r\n",
        "\u{a0}",
        " \u{3000} ",
        "x",
        " x ",
        "\u{200b}",
        "\u{feff}",
        "\u{1c}",
        "\u{85}\u{1680}\u{2000}\u{2001}\u{2002}\u{2003}\u{2004}\u{2005}\u{2006}\u{2007}\u{2008}\u{2009}\u{200a}\u{2028}\u{2029}\u{202f}\u{205f}",
        "é",
        "  ,",
    ];
    for sample in samples {
        assert_eq!(is_blank_text(sample.as_bytes()), sample.trim().is_empty());
    }
}

#[test]
fn every_character_is_white_space_as_std_has_it() {
    let mut buffer = [0u8; 4];
    for code in 0..0x11_0000u32 {
        if let Some(character) = char::from_u32(code) {
            let encoded = character.encode_utf8(&mut buffer);
            assert_eq!(is_blank_text(encoded.as_bytes()), character.is_whitespace());
        }
    }
}

#[test]
fn broken_text_is_not_blank() {
    assert!(!is_blank_text(b"\xc2"));
    assert!(!is_blank_text(b" \xe2\x80"));
    assert!(!is_blank_text(b"\xa0"));
    assert!(!is_blank_text(b"\xff"));
}
