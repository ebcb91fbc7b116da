//! Each grammar, written once more as a regular expression: the library and
//! the expression must agree on every text tried here.

use custom_type::{CountryCode, Email, PhoneNumber, RawPassword, Url};
use regex::Regex;

/// Every character of the Basic Multilingual Plane, and a few beyond it.
fn characters() -> Vec<char> {
    let mut all: Vec<char> = (0u32..=0xffff).filter_map(char::from_u32).collect();
    all.extend(['\u{10000}', '\u{1d7ce}', '\u{1f511}', '\u{e0020}', '\u{10ffff}']);
    all
}

/// `seed`, and `seed` with one character replaced, put in or taken out, at
/// every place, for every character of `with`.
fn neighbours(seed: &str, with: &[char]) -> Vec<String> {
    let chars: Vec<char> = seed.chars().collect();
    let mut texts = vec![seed.to_string()];
    for at in 0..=chars.len() {
        for &c in with {
            let mut put_in = chars.clone();
            put_in.insert(at, c);
            texts.push(put_in.into_iter().collect());
            if at < chars.len() {
                let mut replaced = chars.clone();
                replaced[at] = c;
                texts.push(replaced.into_iter().collect());
            }
        }
        if at < chars.len() {
            let mut taken_out = chars.clone();
            taken_out.remove(at);
            texts.push(taken_out.into_iter().collect());
        }
    }
    texts
}

/// The characters that the grammars tell apart, and some that they do not.
fn telling() -> Vec<char> {
    let mut with: Vec<char> = (0u8..128).map(char::from).collect();
    with.extend([
        '\u{85}', '\u{a0}', 'ä', 'Ä', 'ß', '\u{130}', '\u{17f}', '\u{212a}', '\u{663}',
        '\u{1680}', '\u{2003}', '\u{200b}', '\u{2028}', '\u{3000}', '\u{ff10}', '\u{ff21}',
        '\u{1f511}',
    ]);
    with
}

#[test]
fn addresses_agree_with_the_regular_expression() {
    let grammar =
        Regex::new(r"^[A-Za-z0-9.!#$%&'*+/=?^_`{|}~-]+@[A-Za-z0-9-]+(?:\.[A-Za-z0-9-]+)+$")
            .unwrap();
    let mut tried = 0;
    let mut accepted = 0;
    for seed in ["a@b.c", "User.Name+tag@Example.co.uk", "x@y", "@", "a@b..c", "a@@b.c"] {
        for text in neighbours(seed, &telling()) {
            let lowered = text.to_lowercase();
            let parsed = Email::parse(&text);
            assert_eq!(parsed.is_ok(), grammar.is_match(&lowered), "{text:?}");
            if let Ok(email) = parsed {
                assert_eq!(email.as_str(), lowered, "{text:?}");
                accepted += 1;
            }
            tried += 1;
        }
    }
    assert!(tried > 5000 && accepted > 500 && accepted < tried);
}

#[test]
fn every_character_in_an_address_agrees_with_the_regular_expression() {
    let grammar =
        Regex::new(r"^[A-Za-z0-9.!#$%&'*+/=?^_`{|}~-]+@[A-Za-z0-9-]+(?:\.[A-Za-z0-9-]+)+$")
            .unwrap();
    for c in characters() {
        for text in [format!("a{c}@b.c"), format!("a@b{c}.c"), format!("a@b.c{c}"), format!("{c}")] {
            let lowered = text.to_lowercase();
            assert_eq!(Email::parse(&text).is_ok(), grammar.is_match(&lowered), "{text:?}");
        }
    }
}

#[test]
fn national_numbers_agree_with_the_regular_expression() {
    let grammar = Regex::new(r"^[0-9]{10,15}$").unwrap();
    let mut tried = 0;
    let mut accepted = 0;
    for seed in ["123456789", "1234567890", "123456789012345", "1234567890123456", ""] {
        for text in neighbours(seed, &telling()) {
            let parsed = PhoneNumber::parse(CountryCode::USA, &text);
            assert_eq!(parsed.is_ok(), grammar.is_match(&text), "{text:?}");
            if let Ok(phone) = parsed {
                assert_eq!(phone.as_str(), format!("+1{text}"));
                accepted += 1;
            }
            tried += 1;
        }
    }
    assert!(tried > 5000 && accepted > 100 && accepted < tried);
}

#[test]
fn every_character_in_a_national_number_agrees_with_the_regular_expression() {
    let grammar = Regex::new(r"^[0-9]{10,15}$").unwrap();
    for c in characters() {
        for text in [format!("123456789{c}"), format!("{c}1234567890"), format!("12345{c}67890")] {
            assert_eq!(
                PhoneNumber::parse(CountryCode::UK, &text).is_ok(),
                grammar.is_match(&text),
                "{text:?}"
            );
        }
    }
}

#[test]
fn urls_agree_with_the_regular_expression() {
    let grammar = Regex::new(r"^(https?|ftp)://[^\s/$.?#]+\.[^\s]*$").unwrap();
    let mut tried = 0;
    let mut accepted = 0;
    for seed in [
        "http://a.b",
        "https://a.b",
        "ftp://a.b",
        "https://example.com/path?query#fragment",
        "http://a",
        "http://",
        "https:/",
        "ftp",
    ] {
        for text in neighbours(seed, &telling()) {
            let parsed = Url::parse(&text);
            assert_eq!(parsed.is_ok(), grammar.is_match(&text), "{text:?}");
            if let Ok(url) = parsed {
                assert_eq!(url.as_str(), text);
                accepted += 1;
            }
            tried += 1;
        }
    }
    assert!(tried > 5000 && accepted > 500 && accepted < tried);
}

#[test]
fn every_character_in_a_url_agrees_with_the_regular_expression() {
    let grammar = Regex::new(r"^(https?|ftp)://[^\s/$.?#]+\.[^\s]*$").unwrap();
    for c in characters() {
        for text in [format!("http://a{c}.b"), format!("http://a.b{c}"), format!("http://{c}.b")] {
            assert_eq!(Url::parse(&text).is_ok(), grammar.is_match(&text), "{text:?}");
        }
    }
}

#[test]
fn passwords_agree_with_the_regular_expressions() {
    let upper = Regex::new(r"[A-Z]").unwrap();
    let lower = Regex::new(r"[a-z]").unwrap();
    let letter = Regex::new(r"[a-zA-Z]").unwrap();
    let digit = Regex::new(r"[0-9]").unwrap();
    let special = Regex::new(r"[^a-zA-Z0-9]").unwrap();
    let mut tried = 0;
    let mut accepted = 0;
    for seed in ["Valid12!", "valid123", "validpas", "VALID12", "1234567", "Aa1!"] {
        for text in neighbours(seed, &telling()) {
            let long = text.chars().count() >= 8;
            assert_eq!(RawPassword::parse_weak(&text).is_ok(), long, "{text:?}");
            assert_eq!(
                RawPassword::parse_medium(&text).is_ok(),
                long && digit.is_match(&text) && letter.is_match(&text),
                "{text:?}"
            );
            let strict = RawPassword::parse_strict(&text);
            assert_eq!(
                strict.is_ok(),
                long && upper.is_match(&text)
                    && lower.is_match(&text)
                    && digit.is_match(&text)
                    && special.is_match(&text),
                "{text:?}"
            );
            if let Ok(password) = strict {
                assert_eq!(password.as_str(), text);
                accepted += 1;
            }
            tried += 1;
        }
    }
    assert!(tried > 5000 && accepted > 500 && accepted < tried);
}

#[test]
fn every_character_in_a_password_agrees_with_the_regular_expressions() {
    let letter = Regex::new(r"[a-zA-Z]").unwrap();
    let digit = Regex::new(r"[0-9]").unwrap();
    let special = Regex::new(r"[^a-zA-Z0-9]").unwrap();
    for c in characters() {
        let no_letter = format!("1234567{c}");
        assert_eq!(RawPassword::parse_medium(&no_letter).is_ok(), letter.is_match(&no_letter));
        let no_digit = format!("abcdefg{c}");
        assert_eq!(RawPassword::parse_medium(&no_digit).is_ok(), digit.is_match(&no_digit));
        let no_special = format!("Abcdef1{c}");
        assert_eq!(RawPassword::parse_strict(&no_special).is_ok(), special.is_match(&no_special));
    }
}
