use encurtador::code::{short_code, CODE_LEN};
use encurtador::models::{Url, Visit};
use encurtador::resources::shorten;

#[test]
fn short_code_of_small_numbers_is_their_whole_encoding() {
    assert_eq!(short_code(0), "0");
    assert_eq!(short_code(9), "9");
    assert_eq!(short_code(10), "A");
    assert_eq!(short_code(35), "Z");
    assert_eq!(short_code(36), "a");
    assert_eq!(short_code(61), "z");
    assert_eq!(short_code(62), "10");
    assert_eq!(short_code(1337), "LZ");
}

#[test]
fn short_code_keeps_the_first_seven_digits() {
    // 62^7 is written 1 followed by seven zeros.
    assert_eq!(short_code(3_521_614_606_208), "1000000");
    assert_eq!(short_code(3_521_614_606_207), "zzzzzzz");
    assert_eq!(short_code(u128::MAX), "7n42DGM");
    assert_eq!(short_code(u128::MAX), base62::encode(u128::MAX)[..7].to_string());
}

#[test]
fn shorten_keeps_the_url_and_makes_a_seven_character_code() {
    for _ in 0..1000 {
        let url = shorten("https://foo.com/bar?baz=1234".to_string());
        assert_eq!(url.url, "https://foo.com/bar?baz=1234");
        assert_eq!(url.shortened, short_code(url.id));
        assert_eq!(url.shortened.chars().count(), CODE_LEN);
        assert!(url.shortened.chars().all(|c| c.is_ascii_alphanumeric()));
        // version 4, variant RFC 4122
        assert_eq!((url.id >> 76) & 0xf, 4);
        assert_eq!((url.id >> 62) & 0x3, 2);
        let id = url.id;
        assert_eq!(url.id(), id);
    }
}

#[test]
fn url_new_keeps_its_fields() {
    let url = Url::new(42, "https://example.org".to_string(), "abcdefg".to_string());
    assert_eq!(url.id, 42);
    assert_eq!(url.url, "https://example.org");
    assert_eq!(url.shortened(), "abcdefg");
}

#[test]
fn a_new_visit_counter_is_zero() {
    assert_eq!(Visit::new(7), Visit { url_id: 7, count: 0 });
}
