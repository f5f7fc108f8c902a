use zero2prod::forbidden::{contains_forbidden_char, forbidden_char};
use zero2prod::whitespace::blank;

#[test]
fn the_empty_text_is_blank() {
    assert!(blank(""));
}

#[test]
fn white_space_alone_is_blank() {
    assert!(blank(" "));
    assert!(blank("   "));
    assert!(blank("\t\n\u{b}\u{c}\r"));
    assert!(blank("\u{85}\u{a0}\u{1680}"));
    assert!(blank("\u{2000}\u{2001}\u{2002}\u{2003}\u{2004}\u{2005}\u{2006}\u{2007}\u{2008}\u{2009}\u{200a}"));
    assert!(blank("\u{2028}\u{2029}\u{202f}\u{205f}\u{3000}"));
}

#[test]
fn any_other_character_makes_a_text_not_blank() {
    assert!(!blank("a"));
    assert!(!blank(" a"));
    assert!(!blank("a "));
    assert!(!blank("  a  "));
    assert!(!blank(" \t. \n"));
}

#[test]
fn neighbours_of_white_space_are_not_white_space() {
    for c in ['\u{8}', '\u{e}', '\u{1c}', '\u{1f}', '\u{21}', '\u{84}', '\u{86}', '\u{9f}', '\u{a1}', '\u{167f}', '\u{1681}', '\u{180e}', '\u{1fff}', '\u{200b}', '\u{200d}', '\u{2027}', '\u{202a}', '\u{202e}', '\u{2030}', '\u{205e}', '\u{2060}', '\u{2fff}', '\u{3001}', '\u{feff}'] {
        assert!(!blank(&c.to_string()), "{:?}", c);
    }
}

#[test]
fn exactly_twenty_five_code_points_are_white_space() {
    let white_space: Vec<u32> = (0..=0x10FFFF_u32)
        .filter_map(char::from_u32)
        .filter(|c| blank(&c.to_string()))
        .map(u32::from)
        .collect();
    let listed: Vec<u32> = vec![
        0x09, 0x0A, 0x0B, 0x0C, 0x0D, 0x20, 0x85, 0xA0, 0x1680, 0x2000, 0x2001, 0x2002, 0x2003,
        0x2004, 0x2005, 0x2006, 0x2007, 0x2008, 0x2009, 0x200A, 0x2028, 0x2029, 0x202F, 0x205F,
        0x3000,
    ];
    assert_eq!(white_space, listed);
}

#[test]
fn white_space_is_taken_off_both_ends_only() {
    assert!(!blank(" a b "));
    assert!(!blank("\u{3000} \u{2003}x"));
    assert!(!blank("x\u{3000} \u{2003}"));
    assert!(!blank(" \u{200b} "));
}

#[test]
fn the_nine_forbidden_characters() {
    for c in ['/', '(', ')', '"', '<', '>', '\\', '{', '}'] {
        assert!(forbidden_char(c), "{:?}", c);
    }
    let forbidden = (0..=0x10FFFF_u32).filter_map(char::from_u32).filter(|c| forbidden_char(*c)).count();
    assert_eq!(forbidden, 9);
}

#[test]
fn look_alikes_are_not_forbidden() {
    for c in ['[', ']', '|', '\'', '`', '-', '_', '.', ',', ' ', 'a', '0', '\u{2044}', '\u{ff08}', '\u{ff09}', '\u{201c}', '\u{2039}', '\u{ff3c}'] {
        assert!(!forbidden_char(c), "{:?}", c);
    }
}

#[test]
fn a_scan_finds_a_forbidden_character_wherever_it_stands() {
    assert!(!contains_forbidden_char(""));
    assert!(!contains_forbidden_char("Ursula Le Guin"));
    assert!(contains_forbidden_char("(Ursula Le Guin"));
    assert!(contains_forbidden_char("Ursula <Le> Guin"));
    assert!(contains_forbidden_char("Ursula Le Guin\\"));
    assert!(contains_forbidden_char("症{"));
    assert!(!contains_forbidden_char("症"));
}
