use bakery::cli::same_text;
use bakery::text::{chars_of, digit, whitespace, CharClass};

#[test]
fn whitespace_is_what_unicode_calls_white_space() {
    for c in ['\t', '\n', '\u{b}', '\u{c}', '\r', ' ', '\u{85}', '\u{a0}', '\u{1680}', '\u{2000}',
        '\u{2005}', '\u{200a}', '\u{2028}', '\u{2029}', '\u{202f}', '\u{205f}', '\u{3000}']
    {
        assert!(whitespace(c), "{:?}", c);
    }
    for c in ['a', '0', '-', '\u{0}', '\u{8}', '\u{e}', '\u{1f}', '!', '\u{84}', '\u{86}',
        '\u{9f}', '\u{a1}', '\u{167f}', '\u{1681}', '\u{1fff}', '\u{200b}', '\u{2027}',
        '\u{202a}', '\u{202e}', '\u{2030}', '\u{205e}', '\u{2060}', '\u{2fff}', '\u{3001}',
        '\u{feff}']
    {
        assert!(!whitespace(c), "{:?}", c);
    }
}

#[test]
fn whitespace_agrees_with_the_standard_library_on_every_character() {
    let mut c = '\u{0}';
    loop {
        assert_eq!(whitespace(c), c.is_whitespace(), "{:?}", c);
        if c == char::MAX {
            break;
        }
        c = match char::from_u32(c as u32 + 1) {
            Some(next) => next,
            None => '\u{e000}',
        };
    }
}

#[test]
fn digits_are_the_ten_of_ascii() {
    assert_eq!(digit('0'), Some(0));
    assert_eq!(digit('7'), Some(7));
    assert_eq!(digit('9'), Some(9));
    assert_eq!(digit('/'), None);
    assert_eq!(digit(':'), None);
    assert_eq!(digit('a'), None);
    assert_eq!(digit('\u{664}'), None);
    assert_eq!(digit('\u{ff11}'), None);
}

#[test]
fn classes_hold_their_characters() {
    assert!(CharClass::Whitespace.contains(' '));
    assert!(!CharClass::Whitespace.contains('x'));
    assert!(CharClass::NonWhitespace.contains('x'));
    assert!(!CharClass::NonWhitespace.contains('\n'));
    assert!(CharClass::Except('.').contains('4'));
    assert!(!CharClass::Except('.').contains('.'));
}

#[test]
fn the_characters_of_a_text_come_in_order() {
    assert_eq!(chars_of(""), Vec::<char>::new());
    assert_eq!(chars_of("a\u{df}\u{2713}\u{1f600}z"), vec!['a', '\u{df}', '\u{2713}', '\u{1f600}', 'z']);
}

#[test]
fn texts_are_the_same_character_by_character() {
    assert!(same_text("", ""));
    assert!(same_text("bake", "bake"));
    assert!(!same_text("bake", "Bake"));
    assert!(!same_text("bake", "bake "));
    assert!(!same_text("", "x"));
}
