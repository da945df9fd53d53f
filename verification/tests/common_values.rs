use subsonic_types::attrs::string_to_camel_case;
use subsonic_types::common::{VideoBitrate, VideoSize};

#[test]
fn test_video_bitrate() {
    let b = "123456789";
    let b = b.parse::<VideoBitrate>().unwrap();
    assert_eq!(b.bitrate, 123456789);
    assert_eq!(b.size, None);

    let b = "123456789@1920x1080";
    let b = b.parse::<VideoBitrate>().unwrap();
    assert_eq!(b.bitrate, 123456789);
    assert_eq!(b.size, Some(VideoSize::new(1920, 1080)));
}

#[test]
fn subsonic_type_test_camel_case() {
    assert_eq!(string_to_camel_case("foo_bar"), "fooBar");
    assert_eq!(string_to_camel_case("foo_bar_baz"), "fooBarBaz");
    assert_eq!(string_to_camel_case("foo_bar_baz_qux"), "fooBarBazQux");

    assert_eq!(string_to_camel_case("foo"), "foo");
    assert_eq!(string_to_camel_case("foo_bar"), "fooBar");
}

#[test]
fn util_test_camel_case() {
    assert_eq!(string_to_camel_case("foo_bar"), "fooBar");
    assert_eq!(string_to_camel_case("foo_bar_baz"), "fooBarBaz");
    assert_eq!(string_to_camel_case("foo_bar_baz_qux"), "fooBarBazQux");
    assert_eq!(string_to_camel_case("foo"), "foo");
    assert_eq!(string_to_camel_case("foo_bar"), "fooBar");
    assert_eq!(string_to_camel_case("FooBar"), "fooBar");
    assert_eq!(string_to_camel_case("license_expires"), "licenseExpires");
}
