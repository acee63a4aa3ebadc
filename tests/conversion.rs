use jni::errors::Error;
use jni::strings::JNIString;
use jstring_bridge::bridge::{finish_conversion, ConversionFailure};

fn fetched(text: &str) -> Result<(Vec<u8>, String), Error> {
    let encoded = JNIString::from(text);
    Ok((encoded.to_bytes().to_vec(), String::from(encoded)))
}

#[test]
fn ascii_text_is_returned_as_it_is() {
    assert_eq!(finish_conversion(fetched("hello")), Ok(String::from("hello")));
}

#[test]
fn empty_string_converts_to_empty() {
    let r = finish_conversion(fetched(""));
    assert_eq!(r, Ok(String::new()));
}

#[test]
fn multi_byte_text_round_trips() {
    assert_eq!(finish_conversion(fetched("héllo")), Ok(String::from("héllo")));
    assert_eq!(finish_conversion(fetched("日本語 ✓")), Ok(String::from("日本語 ✓")));
}

#[test]
fn text_beyond_the_basic_plane_round_trips() {
    assert_eq!(finish_conversion(fetched("a\u{1F600}b")), Ok(String::from("a\u{1F600}b")));
}

#[test]
fn text_with_nul_round_trips() {
    assert_eq!(finish_conversion(fetched("a\u{0}b")), Ok(String::from("a\u{0}b")));
}

#[test]
fn modified_utf8_bytes_hold_no_nul() {
    let (bytes, _) = fetched("a\u{0}b").unwrap();
    assert_eq!(bytes, vec![0x61, 0xC0, 0x80, 0x62]);
}

#[test]
fn modified_utf8_agrees_with_utf8_on_the_basic_plane() {
    let (bytes, _) = fetched("héllo").unwrap();
    assert_eq!(bytes, "héllo".as_bytes().to_vec());
}

#[test]
fn null_handle_error_becomes_conversion_failure() {
    let r = finish_conversion(Err(Error::NullPtr("get_string obj argument")));
    assert_eq!(r, Err(ConversionFailure));
}

#[test]
fn pending_exception_becomes_conversion_failure() {
    assert_eq!(finish_conversion(Err(Error::JavaException)), Err(ConversionFailure));
}

#[test]
fn result_outlives_the_fetched_values() {
    let source = fetched("héllo");
    let r = finish_conversion(source);
    let again = fetched("other");
    drop(again);
    assert_eq!(r.unwrap(), "héllo");
}

#[test]
fn two_conversions_are_equal_and_distinct() {
    let first = finish_conversion(fetched("héllo")).unwrap();
    let second = finish_conversion(fetched("héllo")).unwrap();
    assert_eq!(first, second);
    assert_ne!(first.as_ptr(), second.as_ptr());
}
