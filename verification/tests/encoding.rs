use base64::Engine;
use image_fetcher::encoding::{data_uri, fits_encoded, try_data_uri, DATA_URI_PREFIX};

fn body_of(len: usize) -> Vec<u8> {
    let mut body = Vec::with_capacity(len);
    let mut next: u8 = 0xA7;
    for _ in 0..len {
        body.push(next);
        next = next.wrapping_mul(31).wrapping_add(17);
    }
    body
}

#[test]
fn prefix_is_the_jpeg_data_uri_header() {
    assert_eq!(DATA_URI_PREFIX, "data:image/jpeg;base64,");
}

#[test]
fn data_uri_of_jpeg_magic_bytes() {
    assert_eq!(data_uri(&[0xFF, 0xD8, 0xFF]), "data:image/jpeg;base64,/9j/");
}

#[test]
fn data_uri_of_empty_body_is_the_bare_prefix() {
    assert_eq!(data_uri(&[]), "data:image/jpeg;base64,");
}

#[test]
fn data_uri_pads_a_single_byte_with_two_signs() {
    assert_eq!(data_uri(b"f"), "data:image/jpeg;base64,Zg==");
}

#[test]
fn data_uri_pads_two_bytes_with_one_sign() {
    assert_eq!(data_uri(b"fo"), "data:image/jpeg;base64,Zm8=");
}

#[test]
fn data_uri_of_longer_texts() {
    assert_eq!(data_uri(b"foo"), "data:image/jpeg;base64,Zm9v");
    assert_eq!(data_uri(b"foob"), "data:image/jpeg;base64,Zm9vYg==");
    assert_eq!(data_uri(b"fooba"), "data:image/jpeg;base64,Zm9vYmE=");
    assert_eq!(data_uri(b"foobar"), "data:image/jpeg;base64,Zm9vYmFy");
}

#[test]
fn data_uri_uses_plus_and_slash() {
    assert_eq!(data_uri(&[0xFB, 0xEF, 0xBE]), "data:image/jpeg;base64,++++");
    assert_eq!(data_uri(&[0xFF, 0xFF, 0xFF]), "data:image/jpeg;base64,////");
}

#[test]
fn data_uri_is_not_the_body_itself() {
    let uri = data_uri(b"plain text");
    assert_ne!(uri.as_bytes(), b"plain text");
    assert_eq!(uri, "data:image/jpeg;base64,cGxhaW4gdGV4dA==");
}

#[test]
fn data_uri_length_is_prefix_plus_four_per_three_bytes() {
    for len in 0..40usize {
        let uri = data_uri(&body_of(len));
        assert_eq!(uri.len(), DATA_URI_PREFIX.len() + 4 * ((len + 2) / 3));
    }
}

#[test]
fn data_uri_suffix_decodes_to_the_body() {
    for len in 0..200usize {
        let body = body_of(len);
        let uri = data_uri(&body);
        assert!(uri.starts_with(DATA_URI_PREFIX));
        let decoded = base64::engine::general_purpose::STANDARD
            .decode(&uri[DATA_URI_PREFIX.len()..])
            .unwrap();
        assert_eq!(decoded, body);
    }
}

#[test]
fn data_uri_holds_every_byte_value() {
    let body: Vec<u8> = (0..=255u8).collect();
    let uri = data_uri(&body);
    let decoded = base64::engine::general_purpose::STANDARD
        .decode(&uri[DATA_URI_PREFIX.len()..])
        .unwrap();
    assert_eq!(decoded, body);
}

#[test]
fn fits_encoded_for_ordinary_lengths() {
    assert!(fits_encoded(0));
    assert!(fits_encoded(1));
    assert!(fits_encoded(3));
    assert!(fits_encoded(1 << 20));
}

#[test]
fn fits_encoded_at_the_limit() {
    let groups = (isize::MAX as usize) / 4;
    assert!(fits_encoded(groups * 3));
    assert!(!fits_encoded(groups * 3 + 1));
    assert!(fits_encoded(groups * 3 - 1));
    assert!(!fits_encoded(isize::MAX as usize));
    assert!(!fits_encoded(usize::MAX));
}

#[test]
fn try_data_uri_of_an_ordinary_body() {
    assert_eq!(
        try_data_uri(&[0xFF, 0xD8, 0xFF]),
        Some("data:image/jpeg;base64,/9j/".to_string())
    );
    assert_eq!(try_data_uri(&[]), Some("data:image/jpeg;base64,".to_string()));
    for len in 0..20usize {
        let body = body_of(len);
        assert_eq!(try_data_uri(&body), Some(data_uri(&body)));
    }
}
