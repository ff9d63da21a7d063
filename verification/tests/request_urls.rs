use urban_rs::{Defid, define_defid_url, define_term_url, random_url};

#[test]
fn defid_wraps_and_unwraps_the_integer() {
    assert_eq!(Defid::new(42).as_u64(), 42);
    assert_eq!(Defid::new(0).as_u64(), 0);
    assert_eq!(Defid::new(u64::MAX).as_u64(), u64::MAX);
    assert_eq!(Defid::new(7), Defid::new(7));
    assert_ne!(Defid::new(7), Defid::new(8));
}

#[test]
fn term_url_keeps_unreserved_characters() {
    assert_eq!(
        define_term_url("hello"),
        "https://api.urbandictionary.com/v0/define?term=hello"
    );
    assert_eq!(
        define_term_url("a-b.c_d~E9"),
        "https://api.urbandictionary.com/v0/define?term=a-b.c_d~E9"
    );
}

#[test]
fn term_url_percent_encodes_reserved_characters() {
    assert_eq!(
        define_term_url("hello world"),
        "https://api.urbandictionary.com/v0/define?term=hello%20world"
    );
    assert_eq!(
        define_term_url("a&b=c"),
        "https://api.urbandictionary.com/v0/define?term=a%26b%3Dc"
    );
}

#[test]
fn term_url_percent_encodes_utf8_bytes() {
    assert_eq!(
        define_term_url("h\u{e9}"),
        "https://api.urbandictionary.com/v0/define?term=h%C3%A9"
    );
}

#[test]
fn empty_term_url_is_just_the_endpoint() {
    assert_eq!(
        define_term_url(""),
        "https://api.urbandictionary.com/v0/define?term="
    );
}

#[test]
fn defid_url_renders_the_identifier_in_decimal() {
    assert_eq!(
        define_defid_url(Defid::new(12345)),
        "https://api.urbandictionary.com/v0/define?defid=12345"
    );
    assert_eq!(
        define_defid_url(Defid::new(0)),
        "https://api.urbandictionary.com/v0/define?defid=0"
    );
    assert_eq!(
        define_defid_url(Defid::new(18446744073709551615)),
        "https://api.urbandictionary.com/v0/define?defid=18446744073709551615"
    );
}

#[test]
fn random_url_is_the_random_endpoint() {
    assert_eq!(random_url(), "https://api.urbandictionary.com/v0/random");
}
