use surf_vcr::Body;

#[test]
fn text_bytes_become_a_text_body() {
    let body = Body::from("{\"ok\":true}".as_bytes());
    assert_eq!(body, Body::Str("{\"ok\":true}".to_string()));
}

#[test]
fn other_bytes_stay_bytes() {
    let raw: Vec<u8> = vec![0xff, 0xfe, 0x00];
    let body = Body::from(raw.as_slice());
    assert_eq!(body, Body::Bytes(raw.clone()));
    assert_eq!(body.to_bytes(), raw);
}

#[test]
fn no_bytes_are_an_empty_text() {
    let raw: Vec<u8> = Vec::new();
    let body = Body::from(raw.as_slice());
    assert_eq!(body, Body::Str(String::new()));
    assert_eq!(body.to_bytes(), raw);
}

#[test]
fn text_of_several_bytes_per_character_round_trips() {
    let text = "h\u{e9}llo \u{2713} \u{1f600}";
    let body = Body::from(text.as_bytes());
    assert_eq!(body, Body::Str(text.to_string()));
    assert_eq!(body.to_bytes(), text.as_bytes().to_vec());
}

#[test]
fn truncated_character_is_binary() {
    let raw: Vec<u8> = vec![b'a', 0xe2, 0x9c];
    let body = Body::from(raw.as_slice());
    assert_eq!(body, Body::Bytes(raw.clone()));
    assert_eq!(body.to_bytes(), raw);
}

#[test]
fn overlong_and_surrogate_encodings_are_binary() {
    let overlong: Vec<u8> = vec![0xc0, 0x80];
    assert_eq!(Body::from(overlong.as_slice()), Body::Bytes(overlong.clone()));
    let surrogate: Vec<u8> = vec![0xed, 0xa0, 0x80];
    assert_eq!(Body::from(surrogate.as_slice()), Body::Bytes(surrogate.clone()));
}

#[test]
fn bytes_beyond_the_last_code_point_are_binary() {
    let too_high: Vec<u8> = vec![0xf4, 0x90, 0x80, 0x80];
    assert_eq!(Body::from(too_high.as_slice()), Body::Bytes(too_high.clone()));
    let five_byte_form: Vec<u8> = vec![0xf8, 0x88, 0x80, 0x80, 0x80];
    assert_eq!(Body::from(five_byte_form.as_slice()), Body::Bytes(five_byte_form.clone()));
    let lone_continuation: Vec<u8> = vec![b'a', 0x80, b'b'];
    assert_eq!(Body::from(lone_continuation.as_slice()), Body::Bytes(lone_continuation.clone()));
    let highest = "\u{10ffff}";
    assert_eq!(Body::from(highest.as_bytes()), Body::Str(highest.to_string()));
}

#[test]
fn a_text_body_differs_from_the_same_bytes_kept_raw() {
    let text = Body::Str("abc".to_string());
    let raw = Body::Bytes(b"abc".to_vec());
    assert_ne!(text, raw);
    assert_eq!(text.to_bytes(), raw.to_bytes());
}

#[test]
fn a_copy_of_a_body_equals_it() {
    let text = Body::Str("abc".to_string());
    assert_eq!(text.clone(), text);
    let raw = Body::Bytes(vec![1, 2, 255]);
    assert_eq!(raw.clone(), raw);
    assert_ne!(raw, Body::Bytes(vec![1, 2]));
    assert_ne!(raw, Body::Bytes(vec![1, 2, 254]));
}
