use rexta::text::{
    chars_of, clean_line, copy_range, digit, hex_char, hex_string, is_space, is_word, next_token,
    parse_number, same_text, scan, scan_back, upper, upper_range, Class,
};

fn chars(s: &str) -> Vec<char> {
    s.chars().collect()
}

#[test]
fn white_space_is_what_unicode_says() {
    for c in [' ', '\t', '\n', '\r', '\u{0B}', '\u{0C}', '\u{85}', '\u{A0}', '\u{1680}',
        '\u{2000}', '\u{200A}', '\u{2028}', '\u{2029}', '\u{202F}', '\u{205F}', '\u{3000}']
    {
        assert!(is_space(c));
    }
    for c in ['a', '0', ',', ';', '\u{200B}', '\u{08}', '\u{0E}', '\u{1F}', 'z'] {
        assert!(!is_space(c));
    }
    for n in 0..0x3100u32 {
        if let Some(c) = char::from_u32(n) {
            assert_eq!(is_space(c), c.is_whitespace());
        }
    }
}

#[test]
fn classes_of_characters() {
    assert!(Class::Space.has(' ') && !Class::Space.has(','));
    assert!(Class::Separator.has(' ') && Class::Separator.has(',') && !Class::Separator.has('x'));
    assert!(Class::Word.has('x') && !Class::Word.has(',') && !Class::Word.has('\t'));
    assert!(Class::Code.has('x') && !Class::Code.has(';'));
    assert!(Class::Line.has('\r') && !Class::Line.has('\n'));
    assert!(Class::Name.has('A') && !Class::Name.has('.'));
    assert!(Class::Colon.has(':') && !Class::Colon.has(';'));
}

#[test]
fn scans_run_to_the_first_character_outside_the_class() {
    let s = chars("  ab,c  ");
    assert_eq!(scan(&s, 0, s.len(), Class::Space), 2);
    assert_eq!(scan(&s, 2, s.len(), Class::Word), 4);
    assert_eq!(scan(&s, 2, 3, Class::Word), 3);
    assert_eq!(scan(&s, 4, s.len(), Class::Word), 4);
    assert_eq!(scan(&s, 8, 8, Class::Space), 8);
    assert_eq!(scan_back(&s, 0, s.len(), Class::Space), 6);
    assert_eq!(scan_back(&s, 0, 6, Class::Word), 5);
    assert_eq!(scan_back(&s, 7, 8, Class::Space), 7);
    assert_eq!(scan_back(&s, 0, 0, Class::Space), 0);
    let blank = chars("   ");
    assert_eq!(scan(&blank, 0, 3, Class::Space), 3);
    assert_eq!(scan_back(&blank, 0, 3, Class::Space), 0);
}

#[test]
fn a_clean_line_has_no_comment_and_no_blanks_around_it() {
    let s = chars("  LOADI R0, 1  ; one\nnext");
    assert_eq!(clean_line(&s, 0, 20), chars("LOADI R0, 1"));
    assert_eq!(clean_line(&s, 0, 5), chars("LOA"));
    assert_eq!(clean_line(&s, 15, 20), chars(""));
    assert_eq!(clean_line(&s, 21, 25), chars("next"));
    let s = chars(" \t ");
    assert_eq!(clean_line(&s, 0, 3), chars(""));
    let s = chars(";;");
    assert_eq!(clean_line(&s, 0, 2), chars(""));
    assert_eq!(copy_range(&chars("abcdef"), 2, 4), chars("cd"));
}

#[test]
fn tokens_are_separated_by_blanks_and_commas() {
    let s = chars(" ,ADD  R0,,\tR1 ");
    assert_eq!(next_token(&s, 0), (2, 5));
    assert_eq!(next_token(&s, 5), (7, 9));
    assert_eq!(next_token(&s, 9), (12, 14));
    assert_eq!(next_token(&s, 14), (15, 15));
    assert_eq!(next_token(&s, 3), (3, 5));
    assert_eq!(next_token(&chars(""), 0), (0, 0));
}

#[test]
fn upper_case_of_ascii_letters_only() {
    assert_eq!(upper('a'), 'A');
    assert_eq!(upper('z'), 'Z');
    assert_eq!(upper('M'), 'M');
    assert_eq!(upper('1'), '1');
    assert_eq!(upper('.'), '.');
    assert_eq!(upper('\u{E9}'), '\u{E9}');
    assert_eq!(upper('\u{17F}'), '\u{17F}');
    assert_eq!(upper_range(&chars("xAdd.2y"), 1, 6), chars("ADD.2"));
}

#[test]
fn texts_are_compared_character_by_character() {
    assert_eq!(chars_of("h\u{E9}llo"), chars("h\u{E9}llo"));
    assert_eq!(chars_of(""), chars(""));
    assert!(same_text(&chars("abc"), &chars("abc")));
    assert!(!same_text(&chars("abc"), &chars("abd")));
    assert!(!same_text(&chars("abc"), &chars("ab")));
    assert!(same_text(&chars(""), &chars("")));
    assert!(is_word(&chars("STORE"), "STORE"));
    assert!(!is_word(&chars("STORE"), "STOR"));
    assert!(!is_word(&chars("store"), "STORE"));
}

#[test]
fn digits_have_their_values() {
    assert_eq!(digit('0'), Some(0));
    assert_eq!(digit('9'), Some(9));
    assert_eq!(digit('a'), Some(10));
    assert_eq!(digit('F'), Some(15));
    assert_eq!(digit('g'), None);
    assert_eq!(digit('/'), None);
    assert_eq!(digit(':'), None);
    assert_eq!(digit('\u{663}'), None);
}

#[test]
fn number_literals_have_their_values() {
    assert_eq!(parse_number(&chars("0")), Some(0));
    assert_eq!(parse_number(&chars("007")), Some(7));
    assert_eq!(parse_number(&chars("4294967295")), Some(u32::MAX));
    assert_eq!(parse_number(&chars("+42")), Some(42));
    assert_eq!(parse_number(&chars("0x0")), Some(0));
    assert_eq!(parse_number(&chars("0xFFFFFFFF")), Some(u32::MAX));
    assert_eq!(parse_number(&chars("0x00000000001f")), Some(31));
    assert_eq!(parse_number(&chars("0xdeadBEEF")), Some(0xDEAD_BEEF));
}

#[test]
fn what_is_no_number_literal() {
    for s in ["", "+", "0x", "x10", "1 ", "1_000", "4294967296", "99999999999999999999",
        "0x100000000", "0x+1", "++1", "+0x10", "-0", "1a", "0xfg", "a"]
    {
        assert_eq!(parse_number(&chars(s)), None);
    }
}

#[test]
fn hexadecimal_digits_and_strings() {
    assert_eq!(hex_char(0, false), '0');
    assert_eq!(hex_char(9, true), '9');
    assert_eq!(hex_char(10, false), 'a');
    assert_eq!(hex_char(15, true), 'F');
    assert_eq!(hex_string(0, false), "000000");
    assert_eq!(hex_string(0x00FF_FFFF, false), "ffffff");
    assert_eq!(hex_string(0x0001_2ABC, true), "012ABC");
}
