use morse_time_clock::morse::{char_to_morse, morse_to_display_string, text_to_morse, MorseSymbol};
use morse_time_clock::morse::MorseSymbol::{Dash, Dot, LetterSpace, WordSpace};

#[test]
fn encode_empty_is_empty() {
    assert_eq!(text_to_morse(""), Vec::<MorseSymbol>::new());
}

#[test]
fn encode_colon() {
    assert_eq!(text_to_morse(":"), vec![Dash, Dash, Dash, Dot, Dot, Dot]);
}

#[test]
fn encode_sos() {
    assert_eq!(
        text_to_morse("SOS"),
        vec![Dot, Dot, Dot, LetterSpace, Dash, Dash, Dash, LetterSpace, Dot, Dot, Dot]
    );
}

#[test]
fn encode_lower_case_like_upper_case() {
    assert_eq!(text_to_morse("sos"), text_to_morse("SOS"));
    assert_eq!(text_to_morse("q"), vec![Dash, Dash, Dot, Dash]);
}

#[test]
fn encode_space_between_letters() {
    assert_eq!(text_to_morse("A Z"), vec![Dot, Dash, WordSpace, Dash, Dash, Dot, Dot]);
    assert_eq!(
        text_to_morse("AB  CD"),
        vec![Dot, Dash, LetterSpace, Dash, Dot, Dot, Dot, WordSpace, WordSpace, Dash, Dot, Dash, Dot, LetterSpace, Dash, Dot, Dot]
    );
}

#[test]
fn encode_space_adds_no_gap_around_it() {
    assert_eq!(text_to_morse(" E"), vec![WordSpace, Dot]);
    assert_eq!(text_to_morse("E "), vec![Dot, WordSpace]);
}

#[test]
fn encode_single_characters_have_no_gap() {
    assert_eq!(text_to_morse("0"), vec![Dash, Dash, Dash, Dash, Dash]);
    assert_eq!(text_to_morse("7"), vec![Dash, Dash, Dot, Dot, Dot]);
    assert_eq!(text_to_morse("e"), vec![Dot]);
    assert_eq!(text_to_morse(" "), vec![WordSpace]);
    for c in "0123456789ABCDEFGHIJKLMNOPQRSTUVWXYZabcdefghijklmnopqrstuvwxyz: ".chars() {
        let alone = text_to_morse(&c.to_string());
        assert_eq!(Some(alone), char_to_morse(c));
    }
}

#[test]
fn encode_drops_unsupported_characters() {
    assert_eq!(text_to_morse("?"), Vec::<MorseSymbol>::new());
    assert_eq!(char_to_morse('#'), None);
    assert_eq!(char_to_morse('\u{e9}'), None);
    // An unsupported last character leaves the gap of the one before it.
    assert_eq!(text_to_morse("E!"), vec![Dot, LetterSpace]);
    assert_eq!(text_to_morse("!E"), vec![Dot]);
}

#[test]
fn encode_time_string() {
    assert_eq!(
        text_to_morse("12:05"),
        vec![
            Dot, Dash, Dash, Dash, Dash, LetterSpace,
            Dot, Dot, Dash, Dash, Dash, LetterSpace,
            Dash, Dash, Dash, Dot, Dot, Dot, LetterSpace,
            Dash, Dash, Dash, Dash, Dash, LetterSpace,
            Dot, Dot, Dot, Dot, Dot,
        ]
    );
}

#[test]
fn encode_counts_one_separator_per_neighbouring_pair() {
    for (text, letter_gaps, word_gaps) in [
        ("SOS", 2, 0),
        ("12:34:56", 7, 0),
        ("A Z", 0, 1),
        ("HELLO WORLD", 8, 1),
        ("A  B", 0, 2),
        (" X", 0, 1),
        ("X ", 0, 1),
    ] {
        let morse = text_to_morse(text);
        assert_eq!(morse.iter().filter(|s| **s == LetterSpace).count(), letter_gaps, "{}", text);
        assert_eq!(morse.iter().filter(|s| **s == WordSpace).count(), word_gaps, "{}", text);
    }
    // With no space, one gap fewer than there are characters.
    let morse = text_to_morse("MORSE");
    assert_eq!(morse.iter().filter(|s| **s == LetterSpace).count(), 4);
}

#[test]
fn letter_gaps_stand_between_tones() {
    for text in ["A Z", "AB  CD", "E ", " 1 2 ", "x:y", "HELLO WORLD"] {
        let morse = text_to_morse(text);
        for i in 0..morse.len() {
            if morse[i] == LetterSpace {
                assert!(i > 0 && i + 1 < morse.len(), "{}", text);
                assert!(morse[i - 1] == Dot || morse[i - 1] == Dash, "{}", text);
                assert!(morse[i + 1] == Dot || morse[i + 1] == Dash, "{}", text);
            }
        }
    }
}

#[test]
fn display_string_glyphs() {
    assert_eq!(morse_to_display_string(&[]), "");
    assert_eq!(
        morse_to_display_string(&[Dot, Dash, LetterSpace, WordSpace, Dot]),
        "\u{b7}\u{2212}    \u{b7}"
    );
    assert_eq!(
        morse_to_display_string(&text_to_morse("SOS")),
        "\u{b7}\u{b7}\u{b7} \u{2212}\u{2212}\u{2212} \u{b7}\u{b7}\u{b7}"
    );
}
