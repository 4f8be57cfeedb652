//! Deciding what kind of content a blob is, and whether it is admissible.
use vstd::prelude::*;
use vstd::string::*;
use vstd::utf8::*;

use crate::error::Error;

verus! {

/// What magic-byte sniffing reports of a blob: its MIME type, whether it
/// belongs to the image category, and the usual file extension.
#[derive(Debug)]
pub struct Sniffed {
    pub mime: String,
    pub is_image: bool,
    pub extension: String,
}

pub open spec fn sniffed_view(s: Option<Sniffed>) -> Option<(Seq<char>, bool, Seq<char>)> {
    match s {
        Some(t) => Some((t.mime@, t.is_image, t.extension@)),
        None => None,
    }
}

/// The sniffing result for the given bytes (MIME type, image category, extension).
pub uninterp spec fn sniff_of(data: Seq<u8>) -> Option<(Seq<char>, bool, Seq<char>)>;

/// Relies on infer::get, which matches the bytes against a fixed table of
/// magic-byte signatures, so that its answer depends on the bytes alone;
/// Type::mime_type, Type::matcher_type and Type::extension only read fields.
/// Every matcher of the image category has an `image/...` MIME type.
#[verifier::external_body]
fn sniff(data: &[u8]) -> (r: Option<Sniffed>)
    ensures
        sniffed_view(r) == sniff_of(data@),
        r is Some && r->0.is_image ==> !is_text_mime(r->0.mime@),
{
    infer::get(data).map(|t| Sniffed {
        mime: t.mime_type().to_string(),
        is_image: matches!(t.matcher_type(), infer::MatcherType::Image),
        extension: t.extension().to_string(),
    })
}

/// Relies on std::str::from_utf8: it succeeds exactly on well-formed UTF-8,
/// and the text it returns is what the bytes encode.
#[verifier::external_body]
pub(crate) fn utf8_text(data: &[u8]) -> (r: Option<&str>)
    ensures
        r is Some <==> valid_utf8(data@),
        r is Some ==> r->0@ == decode_utf8(data@),
{
    std::str::from_utf8(data).ok()
}

/// A MIME type of the text family (`text/...`).
pub open spec fn is_text_mime(m: Seq<char>) -> bool {
    m.len() >= 5 && m[0] == 't' && m[1] == 'e' && m[2] == 'x' && m[3] == 't' && m[4] == '/'
}

/// A character of the Unicode White_Space property.
pub open spec fn is_blank(c: char) -> bool {
    ('\u{9}' <= c && c <= '\u{d}') || c == ' ' || c == '\u{85}' || c == '\u{a0}' || c
        == '\u{1680}' || ('\u{2000}' <= c && c <= '\u{200a}') || c == '\u{2028}' || c
        == '\u{2029}' || c == '\u{202f}' || c == '\u{205f}' || c == '\u{3000}'
}

/// Text that is empty once leading and trailing whitespace is trimmed.
pub open spec fn is_blank_text(s: Seq<char>) -> bool {
    forall|i: int| 0 <= i < s.len() ==> #[trigger] is_blank(s[i])
}

/// The outcome of classification, over plain values.
pub enum Class {
    Binary { mime: Seq<char>, extension: Seq<char> },
    Text { hint: Option<(Seq<char>, bool, Seq<char>)> },
    Unsupported { mime: Seq<char> },
    NotUtf8,
    Empty,
    Other,
}

/// Classification of `data`, given what sniffing reported of it.
pub open spec fn class_of(data: Seq<u8>, sniffed: Option<(Seq<char>, bool, Seq<char>)>) -> Class {
    match sniffed {
        Some(t) if !is_text_mime(t.0) => if t.1 {
            Class::Binary { mime: t.0, extension: t.2 }
        } else {
            Class::Unsupported { mime: t.0 }
        },
        _ => if !valid_utf8(data) {
            Class::NotUtf8
        } else if is_blank_text(decode_utf8(data)) {
            Class::Empty
        } else {
            Class::Text { hint: sniffed }
        },
    }
}

/// The classification of the bytes themselves.
pub open spec fn classify(data: Seq<u8>) -> Class {
    class_of(data, sniff_of(data))
}

/// What kind of content an admissible blob is.
#[derive(Debug)]
pub enum File {
    /// An image, with what sniffing reported.
    Binary(Sniffed),
    /// Well-formed, non-blank text, with what sniffing reported, if anything.
    Text(Option<Sniffed>),
}

/// The classification that a result reports.
pub open spec fn class_view(r: Result<File, Error>) -> Class {
    match r {
        Ok(File::Binary(s)) => Class::Binary { mime: s.mime@, extension: s.extension@ },
        Ok(File::Text(h)) => Class::Text { hint: sniffed_view(h) },
        Err(Error::UnsupportedFile(m)) => Class::Unsupported { mime: m@ },
        Err(Error::NotUtf8) => Class::NotUtf8,
        Err(Error::Empty) => Class::Empty,
        Err(_) => Class::Other,
    }
}

fn is_text_mime_str(m: &str) -> (r: bool)
    ensures
        r == is_text_mime(m@),
{
    let n = m.unicode_len();
    n >= 5 && m.get_char(0) == 't' && m.get_char(1) == 'e' && m.get_char(2) == 'x'
        && m.get_char(3) == 't' && m.get_char(4) == '/'
}

pub(crate) fn is_blank_char(c: char) -> (r: bool)
    ensures
        r == is_blank(c),
{
    ('\u{9}' <= c && c <= '\u{d}') || c == ' ' || c == '\u{85}' || c == '\u{a0}' || c
        == '\u{1680}' || ('\u{2000}' <= c && c <= '\u{200a}') || c == '\u{2028}' || c
        == '\u{2029}' || c == '\u{202f}' || c == '\u{205f}' || c == '\u{3000}'
}

/// Whether the text is empty or whitespace only.
pub fn is_blank_str(s: &str) -> (r: bool)
    ensures
        r == is_blank_text(s@),
{
    let mut blank = true;
    for c in it: s.chars()
        invariant
            it.seq() == s@,
            blank == (forall|i: int| 0 <= i < it.index() ==> #[trigger] is_blank(s@[i])),
    {
        blank = blank && is_blank_char(c);
    }
    blank
}

impl File {
    /// Classifies `data` given what sniffing reported of it: sniffed
    /// non-text content is accepted only as an image; anything else must be
    /// well-formed UTF-8 that is not blank.
    pub fn infer_sniffed(data: &[u8], sniffed: Option<Sniffed>) -> (r: Result<File, Error>)
        ensures
            class_view(r) == class_of(data@, sniffed_view(sniffed)),
    {
        match sniffed {
            Some(t) => {
                if !is_text_mime_str(t.mime.as_str()) {
                    if t.is_image {
                        return Ok(File::Binary(t));
                    } else {
                        return Err(Error::UnsupportedFile(t.mime));
                    }
                }
                Self::infer_text(data, Some(t))
            },
            None => Self::infer_text(data, None),
        }
    }

    fn infer_text(data: &[u8], sniffed: Option<Sniffed>) -> (r: Result<File, Error>)
        requires
            sniffed matches Some(t) ==> is_text_mime(t.mime@),
        ensures
            class_view(r) == class_of(data@, sniffed_view(sniffed)),
    {
        match utf8_text(data) {
            None => Err(Error::NotUtf8),
            Some(text) => {
                if is_blank_str(text) {
                    Err(Error::Empty)
                } else {
                    Ok(File::Text(sniffed))
                }
            },
        }
    }

    /// Classifies `data` by sniffing its magic bytes and validating it.
    pub fn infer(data: &[u8]) -> (r: Result<File, Error>)
        ensures
            class_view(r) == classify(data@),
    {
        let sniffed = sniff(data);
        Self::infer_sniffed(data, sniffed)
    }

    /// The file extension that sniffing suggests, if any.
    pub fn extension(&self) -> (r: Option<&str>)
        ensures
            r matches Some(e) <==> (self matches File::Binary(_) || self matches File::Text(
                Some(_),
            )),
            self matches File::Binary(s) ==> r matches Some(e) && e@ == s.extension@,
            self matches File::Text(Some(s)) ==> r matches Some(e) && e@ == s.extension@,
    {
        match self {
            File::Binary(s) => Some(s.extension.as_str()),
            File::Text(Some(s)) => Some(s.extension.as_str()),
            File::Text(None) => None,
        }
    }
}

/// Classification is a function of the bytes alone: equal bytes are
/// classified alike, at upload and at every later view.
pub proof fn classification_is_pure(a: Seq<u8>, b: Seq<u8>)
    requires
        a == b,
    ensures
        classify(a) == classify(b),
{
}

/// Text that is empty or whitespace only is rejected as empty, unless
/// sniffing took it for a non-text format.
pub proof fn blank_text_is_empty(data: Seq<u8>)
    requires
        !(sniff_of(data) matches Some(t) && !is_text_mime(t.0)),
        valid_utf8(data),
        is_blank_text(decode_utf8(data)),
    ensures
        classify(data) == Class::Empty,
{
}

/// Bytes that are not well-formed UTF-8 are rejected as such, unless
/// sniffing recognised a non-text format (an image is accepted, any other
/// such format is unsupported).
pub proof fn invalid_text_is_not_utf8(data: Seq<u8>)
    requires
        !(sniff_of(data) matches Some(t) && !is_text_mime(t.0)),
        !valid_utf8(data),
    ensures
        classify(data) == Class::NotUtf8,
{
}

/// Bytes sniffed as an image are binary content, with the sniffed MIME type
/// and extension.
pub proof fn image_is_binary(data: Seq<u8>)
    requires
        sniff_of(data) matches Some(t) && t.1 && !is_text_mime(t.0),
    ensures
        classify(data) matches Class::Binary { mime, extension } && sniff_of(data) == Some(
            (mime, true, extension),
        ),
{
}

} // verus!
