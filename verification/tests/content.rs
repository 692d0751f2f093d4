use cast_source::content::{classify, declares_html, status_is_success, ContentEnvelope};
use cast_source::error::FetchError;

fn header(text: &str) -> Option<Vec<u8>> {
    Some(text.as_bytes().to_vec())
}

#[test]
fn the_successful_range_is_200_to_299() {
    assert!(status_is_success(200));
    assert!(status_is_success(204));
    assert!(status_is_success(299));
    assert!(!status_is_success(0));
    assert!(!status_is_success(100));
    assert!(!status_is_success(199));
    assert!(!status_is_success(300));
    assert!(!status_is_success(304));
    assert!(!status_is_success(404));
    assert!(!status_is_success(500));
    assert!(!status_is_success(u16::MAX));
}

#[test]
fn a_missing_header_is_a_failure() {
    assert_eq!(classify(&None), Err(FetchError::MissingContentType));
}

#[test]
fn text_html_declares_a_page() {
    assert_eq!(classify(&header("text/html")), Ok(ContentEnvelope::Html));
    assert_eq!(classify(&header("text/html; charset=utf-8")), Ok(ContentEnvelope::Html));
    assert_eq!(classify(&header("text/htmlx")), Ok(ContentEnvelope::Html));
}

#[test]
fn any_other_content_type_declares_the_payload() {
    assert_eq!(classify(&header("application/x-asciicast")), Ok(ContentEnvelope::Payload));
    assert_eq!(classify(&header("application/json")), Ok(ContentEnvelope::Payload));
    assert_eq!(classify(&header("text/plain")), Ok(ContentEnvelope::Payload));
    assert_eq!(classify(&header("text/htm")), Ok(ContentEnvelope::Payload));
    assert_eq!(classify(&header("Text/HTML")), Ok(ContentEnvelope::Payload));
    assert_eq!(classify(&header(" text/html")), Ok(ContentEnvelope::Payload));
    assert_eq!(classify(&header("")), Ok(ContentEnvelope::Payload));
}

#[test]
fn a_header_is_classified_by_its_bytes_whatever_they_are() {
    assert_eq!(classify(&Some(vec![0xff])), Ok(ContentEnvelope::Payload));
    assert_eq!(classify(&Some(vec![0x74, 0xff])), Ok(ContentEnvelope::Payload));
    assert_eq!(classify(&Some(b"text\n".to_vec())), Ok(ContentEnvelope::Payload));
    assert_eq!(classify(&Some(vec![0, 1, 2, 127, 128, 255])), Ok(ContentEnvelope::Payload));
    assert_eq!(classify(&Some(b"application/x-asciicast; a=\xe9".to_vec())), Ok(ContentEnvelope::Payload));
    assert_eq!(classify(&Some(b"text/html\x7f".to_vec())), Ok(ContentEnvelope::Html));
    assert_eq!(classify(&Some(b"text/html; a=\xe9".to_vec())), Ok(ContentEnvelope::Html));
    assert_eq!(classify(&Some(b"text/html; a=\xc3\xa9".to_vec())), Ok(ContentEnvelope::Html));
    assert_eq!(classify(&Some(b"text/html\x00".to_vec())), Ok(ContentEnvelope::Html));
}

#[test]
fn only_a_missing_header_fails_the_classification() {
    assert_eq!(classify(&None), Err(FetchError::MissingContentType));
    assert!(classify(&Some(vec![])).is_ok());
    let mut byte: u8 = 0;
    loop {
        assert_eq!(classify(&Some(vec![byte])), Ok(ContentEnvelope::Payload));
        if byte == u8::MAX {
            break;
        }
        byte += 1;
    }
}

#[test]
fn the_html_marker_is_looked_for_at_the_start_only() {
    assert!(declares_html(&b"text/html".to_vec()));
    assert!(declares_html(&b"text/html;".to_vec()));
    assert!(!declares_html(&b"text/htm".to_vec()));
    assert!(!declares_html(&b"xtext/html".to_vec()));
    assert!(!declares_html(&b"application/xhtml+xml; alt=text/html".to_vec()));
    assert!(!declares_html(&vec![]));
}
