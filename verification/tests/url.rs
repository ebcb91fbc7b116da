use custom_type::error::TypeError;
use custom_type::Url;

const INVALID: &str = "unable to parse URL, invalid URL.";

fn text(r: Result<Url, TypeError>) -> Result<String, TypeError> {
    r.map(|url| url.to_string())
}

fn refused() -> Result<String, TypeError> {
    Err(TypeError::ParseError(INVALID.to_string()))
}

fn kept(input: &str) -> Result<String, TypeError> {
    Ok(input.to_string())
}

#[test]
fn test_valid_urls() {
    assert_eq!(
        text(Url::parse("https://example.com")),
        Ok("https://example.com".to_string())
    );
    assert_eq!(
        text(Url::parse("http://example.com")),
        Ok("http://example.com".to_string())
    );
    assert_eq!(
        text(Url::parse("ftp://example.com")),
        Ok("ftp://example.com".to_string())
    );
}

#[test]
fn test_invalid_urls() {
    assert_eq!(
        Url::parse("example.com"),
        Err(TypeError::ParseError(
            "unable to parse URL, invalid URL.".to_string()
        ))
    );
    assert_eq!(
        Url::parse("http://example"),
        Err(TypeError::ParseError(
            "unable to parse URL, invalid URL.".to_string()
        ))
    );
    assert_eq!(
        Url::parse("ftp://example.com/path with spaces"),
        Err(TypeError::ParseError(
            "unable to parse URL, invalid URL.".to_string()
        ))
    );
}

#[test]
fn one_of_three_schemes() {
    for input in ["http://a.b", "https://a.b", "ftp://a.b"] {
        assert_eq!(text(Url::parse(input)), kept(input));
    }
    for input in [
        "a.b",
        "//a.b",
        "://a.b",
        "file://a.b",
        "ftps://a.b",
        "httpss://a.b",
        "htt://a.b",
        "HTTP://a.b",
        "Http://a.b",
        "http:/a.b",
        "http:///a.b",
        "http//a.b",
        " http://a.b",
        "xhttp://a.b",
        "",
        "http://",
        "https://",
        "ftp://",
    ] {
        assert_eq!(text(Url::parse(input)), refused(), "{input:?}");
    }
}

#[test]
fn the_host_label_ends_at_the_first_dot() {
    for input in ["http://a.", "http://a..", "http://a.b.c", "http://a-b_c.d", "http://a:80.b", "http://a@b.c"] {
        assert_eq!(text(Url::parse(input)), kept(input), "{input:?}");
    }
    for input in [
        "http://.a",
        "http://.",
        "http://a",
        "http://a/b.c",
        "http://a?b.c",
        "http://a#b.c",
        "http://a$b.c",
        "http://a b.c",
        "http://a\tb.c",
    ] {
        assert_eq!(text(Url::parse(input)), refused(), "{input:?}");
    }
}

#[test]
fn the_rest_takes_anything_but_whitespace() {
    for input in [
        "https://example.com/useridex",
        "https://example.com/a/b?c=d&e=f#g",
        "https://example.com/$.?#/",
        "ftp://example.com/päth",
        "http://example.com/\u{200b}",
        "http://example.com/\0",
    ] {
        assert_eq!(text(Url::parse(input)), kept(input), "{input:?}");
    }
    for space in [
        ' ', '\t', '\n', '\u{b}', '\u{c}', '\r', '\u{85}', '\u{a0}', '\u{1680}', '\u{2000}',
        '\u{2005}', '\u{200a}', '\u{2028}', '\u{2029}', '\u{202f}', '\u{205f}', '\u{3000}',
    ] {
        assert_eq!(text(Url::parse(&format!("http://example.com/a{space}b"))), refused(), "{space:?}");
        assert_eq!(text(Url::parse(&format!("http://example.com{space}"))), refused(), "{space:?}");
        assert_eq!(text(Url::parse(&format!("http://exam{space}ple.com"))), refused(), "{space:?}");
    }
}

#[test]
fn the_text_is_not_rewritten() {
    let url = Url::parse("https://Example.COM/Path/../x?Q=1#Frag").unwrap();
    assert_eq!(url.as_str(), "https://Example.COM/Path/../x?Q=1#Frag");
    assert_eq!(url.to_string(), "https://Example.COM/Path/../x?Q=1#Frag");
}

#[test]
fn a_rendered_url_parses_to_itself() {
    for input in ["https://example.com", "ftp://a.b/c", "http://x.y.z/?#"] {
        let url = Url::parse(input).unwrap();
        assert_eq!(Url::parse(&url.to_string()), Ok(url.clone()), "{input}");
        assert_eq!(Url::parse(url.as_str()), Ok(url), "{input}");
    }
}

#[test]
fn urls_compare_by_text() {
    let a = Url::parse("https://example.com").unwrap();
    let b = Url::parse("https://example.com").unwrap();
    let c = Url::parse("https://EXAMPLE.com").unwrap();
    assert_eq!(a, b);
    assert_ne!(a, c);
}
