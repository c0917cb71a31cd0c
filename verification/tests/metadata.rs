use rget::metadata::{ResponseHead, ResponseMetadata};

fn head(status: u16, length: Option<&[u8]>, media_type: Option<&[u8]>) -> ResponseHead {
    ResponseHead {
        status,
        content_length: length.map(|v| v.to_vec()),
        content_type: media_type.map(|v| v.to_vec()),
    }
}

#[test]
fn read_takes_length_and_type() {
    let metadata = ResponseMetadata::read(&head(200, Some(b"1500"), Some(b"application/zip")));
    assert_eq!(metadata.status(), 200);
    assert_eq!(metadata.content_length(), Some(1500));
    assert_eq!(metadata.content_type(), Some("application/zip"));
}

#[test]
fn read_without_headers_knows_neither() {
    let metadata = ResponseMetadata::read(&head(200, None, None));
    assert_eq!(metadata.status(), 200);
    assert_eq!(metadata.content_length(), None);
    assert_eq!(metadata.content_type(), None);
}

#[test]
fn length_that_is_no_number_is_unknown() {
    for value in [&b""[..], b"abc", b"-5", b"1.5", b"12 ", b"18446744073709551616", &[0x31, 0x80]] {
        let metadata = ResponseMetadata::read(&head(200, Some(value), None));
        assert_eq!(metadata.content_length(), None, "{:?}", value);
    }
}

#[test]
fn length_may_be_as_large_as_sixty_four_bits() {
    let metadata = ResponseMetadata::read(&head(200, Some(b"18446744073709551615"), None));
    assert_eq!(metadata.content_length(), Some(u64::MAX));
}

#[test]
fn type_that_is_no_visible_text_is_unknown() {
    let metadata = ResponseMetadata::read(&head(200, Some(b"3"), Some(&[0x74, 0xe9])));
    assert_eq!(metadata.content_type(), None);
    assert_eq!(metadata.content_length(), Some(3));
}

#[test]
fn empty_type_is_an_empty_text() {
    let metadata = ResponseMetadata::read(&head(206, None, Some(b"")));
    assert_eq!(metadata.content_type(), Some(""));
    assert_eq!(metadata.status(), 206);
}
