use farfalle::classify::{File, Sniffed};
use farfalle::error::Error;

const PNG: [u8; 16] = [
    0x89, 0x50, 0x4E, 0x47, 0x0D, 0x0A, 0x1A, 0x0A, 0x00, 0x00, 0x00, 0x0D, 0x49, 0x48, 0x44, 0x52,
];

#[test]
fn plain_text_is_text_without_hint() {
    let r = File::infer(b"fn main() {}\n");
    assert!(matches!(r, Ok(File::Text(None))));
}

#[test]
fn empty_input_is_empty() {
    assert!(matches!(File::infer(b""), Err(Error::Empty)));
}

#[test]
fn whitespace_only_is_empty() {
    assert!(matches!(File::infer(b"  \n\t\r\n  "), Err(Error::Empty)));
    assert!(matches!(File::infer("\u{a0}\u{3000}\n".as_bytes()), Err(Error::Empty)));
}

#[test]
fn text_with_surrounding_whitespace_is_text() {
    assert!(matches!(File::infer(b"   x   "), Ok(File::Text(_))));
}

#[test]
fn invalid_utf8_is_rejected() {
    assert!(matches!(File::infer(&[0x61, 0xC3, 0x28, 0x62]), Err(Error::NotUtf8)));
    assert!(matches!(File::infer(&[0xED, 0xA0, 0x80]), Err(Error::NotUtf8)));
}

#[test]
fn png_is_binary_image() {
    match File::infer(&PNG) {
        Ok(File::Binary(s)) => {
            assert_eq!(s.mime, "image/png");
            assert_eq!(s.extension, "png");
            assert!(s.is_image);
        }
        other => panic!("unexpected {:?}", other),
    }
}

#[test]
fn binary_extension_comes_from_sniffing() {
    let f = File::infer(&PNG).unwrap();
    assert_eq!(f.extension(), Some("png"));
    let t = File::infer(b"hello").unwrap();
    assert_eq!(t.extension(), None);
}

#[test]
fn classification_is_repeatable() {
    let inputs: Vec<Vec<u8>> = vec![PNG.to_vec(), b"hello".to_vec(), b"  ".to_vec(), vec![0xff, 0xfe]];
    for input in inputs {
        let a = format!("{:?}", File::infer(&input));
        let b = format!("{:?}", File::infer(&input));
        assert_eq!(a, b);
    }
}

#[test]
fn non_image_binary_is_unsupported() {
    let mut zip = vec![0x50, 0x4B, 0x03, 0x04];
    zip.extend(std::iter::repeat(0xFFu8).take(60));
    match File::infer(&zip) {
        Err(Error::UnsupportedFile(m)) => assert!(m.starts_with("application/"), "{}", m),
        other => panic!("unexpected {:?}", other),
    }
}

#[test]
fn sniffed_input_decides_directly() {
    let gif = Sniffed { mime: "image/gif".to_string(), is_image: true, extension: "gif".to_string() };
    assert!(matches!(File::infer_sniffed(b"GIF89a", Some(gif)), Ok(File::Binary(_))));
    let pdf = Sniffed { mime: "application/pdf".to_string(), is_image: false, extension: "pdf".to_string() };
    match File::infer_sniffed(b"%PDF", Some(pdf)) {
        Err(Error::UnsupportedFile(m)) => assert_eq!(m, "application/pdf"),
        other => panic!("unexpected {:?}", other),
    }
    let html = Sniffed { mime: "text/html".to_string(), is_image: false, extension: "html".to_string() };
    match File::infer_sniffed(b"<html></html>", Some(html)) {
        Ok(File::Text(Some(s))) => assert_eq!(s.extension, "html"),
        other => panic!("unexpected {:?}", other),
    }
    let html2 = Sniffed { mime: "text/html".to_string(), is_image: false, extension: "html".to_string() };
    assert!(matches!(File::infer_sniffed(b" \n", Some(html2)), Err(Error::Empty)));
}

#[test]
fn blank_detection() {
    assert!(farfalle::classify::is_blank_str(""));
    assert!(farfalle::classify::is_blank_str(" \u{2028}\u{85}"));
    assert!(!farfalle::classify::is_blank_str(" a "));
}

#[test]
fn error_status_codes() {
    assert_eq!(Error::NotFound.status_code(), 404);
    assert_eq!(Error::BadRequest.status_code(), 400);
    assert_eq!(Error::StorageError.status_code(), 500);
    assert_eq!(Error::NotUtf8.status_code(), 400);
    assert_eq!(Error::Empty.status_code(), 400);
    assert_eq!(Error::UnsupportedFile("application/zip".to_string()).status_code(), 400);
    assert_eq!(Error::MissingFile.status_code(), 400);
}

#[test]
fn error_messages() {
    assert_eq!(Error::NotFound.message(), "not found");
    assert_eq!(Error::Empty.message(), "empty content");
    assert_eq!(
        Error::UnsupportedFile("application/zip".to_string()).message(),
        "unsupported file type 'application/zip'"
    );
    assert_eq!(
        Error::NotUtf8.message(),
        "file contents are not recognized and not valid UTF-8"
    );
}
