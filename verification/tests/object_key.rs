use imagik::handlers::image::key::decode_and_validate_object_key;

#[test]
fn accepts_nested_object_key() {
    let key = decode_and_validate_object_key("photos/deer.jpg").expect("valid key");
    assert_eq!(key, "photos/deer.jpg");
}

#[test]
fn decodes_percent_encoding() {
    let key = decode_and_validate_object_key("photos/deer%20image.jpg").expect("valid key");
    assert_eq!(key, "photos/deer image.jpg");
}

#[test]
fn rejects_traversal_segments() {
    let err = decode_and_validate_object_key("photos/../secret.jpg").expect_err("must reject");
    assert!(err.contains("invalid path segments"));
}

#[test]
fn rejects_empty_path_segments() {
    let err = decode_and_validate_object_key("photos//deer.jpg").expect_err("must reject");
    assert!(err.contains("invalid path segments"));
}

#[test]
fn strips_leading_slashes_and_decodes_utf8() {
    assert_eq!(decode_and_validate_object_key("//a/b").unwrap(), "a/b");
    assert_eq!(decode_and_validate_object_key("%2Fa%2fb").unwrap(), "a/b");
    assert_eq!(decode_and_validate_object_key("caf%C3%A9").unwrap(), "café");
    assert_eq!(decode_and_validate_object_key("100%").unwrap(), "100%");
    assert_eq!(decode_and_validate_object_key("a%zz").unwrap(), "a%zz");
}

#[test]
fn refusals_name_their_reason() {
    assert_eq!(
        decode_and_validate_object_key("%ff").unwrap_err(),
        "object key is not valid UTF-8"
    );
    assert_eq!(
        decode_and_validate_object_key("///").unwrap_err(),
        "object key cannot be empty"
    );
    assert_eq!(decode_and_validate_object_key("").unwrap_err(), "object key cannot be empty");
    let long = "a".repeat(1025);
    assert_eq!(
        decode_and_validate_object_key(&long).unwrap_err(),
        "object key is too long (max 1024 bytes)"
    );
    assert!(decode_and_validate_object_key(&"a".repeat(1024)).is_ok());
    let wide = "é".repeat(513);
    assert_eq!(
        decode_and_validate_object_key(&wide).unwrap_err(),
        "object key is too long (max 1024 bytes)"
    );
    assert_eq!(
        decode_and_validate_object_key("a%01b").unwrap_err(),
        "object key contains disallowed characters"
    );
    assert_eq!(
        decode_and_validate_object_key("a\\b").unwrap_err(),
        "object key contains disallowed characters"
    );
    assert_eq!(
        decode_and_validate_object_key("a%C2%85").unwrap_err(),
        "object key contains disallowed characters"
    );
    assert_eq!(
        decode_and_validate_object_key("a/./b").unwrap_err(),
        "object key contains invalid path segments"
    );
    assert_eq!(
        decode_and_validate_object_key("a/").unwrap_err(),
        "object key contains invalid path segments"
    );
    assert!(decode_and_validate_object_key("a/...").is_ok());
}
