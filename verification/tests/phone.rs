use custom_type::error::TypeError;
use custom_type::{CountryCode, PhoneNumber};

const INVALID: &str = "unable to parse phone number, invalid phone number.";

fn text(r: Result<PhoneNumber, TypeError>) -> Result<String, TypeError> {
    r.map(|phone| phone.to_string())
}

fn refused() -> Result<String, TypeError> {
    Err(TypeError::ParseError(INVALID.to_string()))
}

#[test]
fn test_valid_phone_number() {
    assert_eq!(
        text(PhoneNumber::parse(CountryCode::USA, "1234567890")),
        Ok("+11234567890".to_string())
    );
    assert_eq!(
        text(PhoneNumber::parse(CountryCode::UK, "123456789012")),
        Ok("+44123456789012".to_string())
    );
    assert_eq!(
        text(PhoneNumber::parse(CountryCode::IND, "1234567890")),
        Ok("+911234567890".to_string())
    );
    assert_eq!(
        text(PhoneNumber::parse(CountryCode::AUS, "1234567890")),
        Ok("+611234567890".to_string())
    );
}

#[test]
fn test_invalid_phone_number() {
    assert_eq!(
        PhoneNumber::parse(CountryCode::USA, "12345"),
        Err(TypeError::ParseError(
            "unable to parse phone number, invalid phone number.".to_string()
        ))
    );
    assert_eq!(
        PhoneNumber::parse(CountryCode::UK, "phone123456"),
        Err(TypeError::ParseError(
            "unable to parse phone number, invalid phone number.".to_string()
        ))
    );
    assert_eq!(
        PhoneNumber::parse(CountryCode::IND, "123-456-7890"),
        Err(TypeError::ParseError(
            "unable to parse phone number, invalid phone number.".to_string()
        ))
    );
}

#[test]
fn ten_to_fifteen_digits() {
    let digits = "1234567890123456789";
    for length in 0..=19 {
        let input = &digits[..length];
        let parsed = text(PhoneNumber::parse(CountryCode::DEU, input));
        if (10..=15).contains(&length) {
            assert_eq!(parsed, Ok(format!("+49{input}")), "{length}");
        } else {
            assert_eq!(parsed, refused(), "{length}");
        }
    }
}

#[test]
fn digits_and_nothing_else() {
    for input in [
        "+1234567890",
        "1234567890 ",
        " 1234567890",
        "12345 67890",
        "1234567890\n",
        "123456789a",
        "123.456.7890",
        "(123)4567890",
        "",
    ] {
        assert_eq!(text(PhoneNumber::parse(CountryCode::USA, input)), refused(), "{input:?}");
    }
    // Digits of other scripts are no digits here: Arabic-Indic, full-width.
    assert_eq!(
        text(PhoneNumber::parse(CountryCode::USA, "\u{661}\u{662}\u{663}4567890")),
        refused()
    );
    assert_eq!(text(PhoneNumber::parse(CountryCode::USA, "123456789\u{ff10}")), refused());
    assert_eq!(
        text(PhoneNumber::parse(CountryCode::USA, "0000000000")),
        Ok("+10000000000".to_string())
    );
}

#[test]
fn the_country_adds_its_dial_code_and_nothing_else() {
    let digits = "9876543210";
    for country in [CountryCode::USA, CountryCode::UK, CountryCode::MAR, CountryCode::UZB] {
        let phone = PhoneNumber::parse(country, digits).unwrap();
        assert_eq!(phone.to_string(), format!("{}{digits}", country.dial_code()));
        assert_eq!(PhoneNumber::parse(country, "12345"), Err(TypeError::ParseError(INVALID.to_string())));
    }
    assert_eq!(
        text(PhoneNumber::parse(CountryCode::UZB, "123456789012345")),
        Ok("+998123456789012345".to_string())
    );
}

#[test]
fn a_rendered_phone_number_is_no_national_number() {
    let phone = PhoneNumber::parse(CountryCode::USA, "1234567890").unwrap();
    assert_eq!(phone.as_str(), "+11234567890");
    assert_eq!(text(PhoneNumber::parse(CountryCode::USA, phone.as_str())), refused());
    // What follows the dial code parses to the same value again.
    let national = &phone.as_str()[CountryCode::USA.dial_code().len()..];
    assert_eq!(national, "1234567890");
    assert_eq!(PhoneNumber::parse(CountryCode::USA, national), Ok(phone));
}

#[test]
fn phone_numbers_compare_by_text() {
    let a = PhoneNumber::parse(CountryCode::USA, "1234567890").unwrap();
    let b = PhoneNumber::parse(CountryCode::USA, "1234567890").unwrap();
    let c = PhoneNumber::parse(CountryCode::UK, "1234567890").unwrap();
    assert_eq!(a, b);
    assert_eq!(a.clone(), a);
    assert_ne!(a, c);
    // Two countries and two national numbers may render alike.
    let d = PhoneNumber::parse(CountryCode::USA, "71234567890").unwrap();
    let e = PhoneNumber::parse(CountryCode::RUS, "11234567890").unwrap();
    assert_ne!(d, e);
    let f = PhoneNumber::parse(CountryCode::PRT, "1234567890").unwrap();
    assert_eq!(f.as_str(), "+3511234567890");
}
