//! Reading what a request names: the paste and extension of a view path,
//! the extension of an uploaded file, and where an upload can be found.
use vstd::prelude::*;
use vstd::string::*;
use vstd::utf8::*;

use crate::storage::{is_paste_id, PasteId};
use crate::text::{last_dot, split_last_dot};

verus! {

broadcast use vstd::utf8::group_utf8_lib;

/// The part of a path segment before its last `.`, or all of it.
pub open spec fn base_part(b: Seq<u8>) -> Seq<u8> {
    match last_dot(b) {
        Some(k) => b.subrange(0, k),
        None => b,
    }
}

/// The non-empty part of a path segment after its last `.`.
pub open spec fn ext_part(b: Seq<u8>) -> Option<Seq<u8>> {
    match last_dot(b) {
        Some(k) => if k + 1 < b.len() {
            Some(b.subrange(k + 1, b.len() as int))
        } else {
            None
        },
        None => None,
    }
}

/// The part of a file name after its last `.` (all of it if it has none),
/// when that part is not empty.
pub open spec fn file_ext_part(b: Seq<u8>) -> Option<Seq<u8>> {
    let tail = match last_dot(b) {
        Some(k) => b.subrange(k + 1, b.len() as int),
        None => b,
    };
    if tail.len() > 0 {
        Some(tail)
    } else {
        None
    }
}

pub open spec fn opt_bytes(s: Option<String>) -> Option<Seq<u8>> {
    match s {
        Some(t) => Some(encode_utf8(t@)),
        None => None,
    }
}

/// A value named in a path segment, with the extension that followed its
/// last `.`, if any.
pub struct WithExtension<T>(pub T, pub Option<String>);

/// Splits a path segment at its last `.`: the part before it and the
/// non-empty part after it.
pub fn split_extension(s: &str) -> (r: (String, Option<String>))
    ensures
        encode_utf8(r.0@) == base_part(s.spec_bytes()),
        opt_bytes(r.1) == ext_part(s.spec_bytes()),
{
    match split_last_dot(s) {
        Some((base, ext)) => {
            let base = base.to_owned();
            if ext.is_empty() {
                (base, None)
            } else {
                (base, Some(ext.to_owned()))
            }
        },
        None => (s.to_owned(), None),
    }
}

impl WithExtension<PasteId> {
    /// Reads a paste identifier and an optional extension from a path
    /// segment; hands back the identifier part if it is not well-formed.
    pub fn parse(s: &str) -> (r: Result<WithExtension<PasteId>, String>)
        ensures
            r is Ok <==> is_paste_id(decode_utf8(base_part(s.spec_bytes()))),
            r matches Ok(w) ==> w.0.wf() && encode_utf8(w.0.id_text()) == base_part(s.spec_bytes())
                && opt_bytes(w.1) == ext_part(s.spec_bytes()),
            r matches Err(b) ==> encode_utf8(b@) == base_part(s.spec_bytes()),
    {
        let (base, ext) = split_extension(s);
        proof {
            encode_utf8_decode_utf8(base@);
        }
        match PasteId::new(base) {
            Ok(id) => Ok(WithExtension(id, ext)),
            Err(b) => Err(b),
        }
    }
}

/// The extension of an uploaded file's name: the non-empty part after its
/// last `.`, or the whole name if it has no `.`.
pub fn upload_extension(file_name: Option<&str>) -> (r: Option<String>)
    ensures
        file_name is None ==> r is None,
        file_name matches Some(f) ==> opt_bytes(r) == file_ext_part(f.spec_bytes()),
{
    match file_name {
        None => None,
        Some(f) => {
            let tail = match split_last_dot(f) {
                Some((_, ext)) => ext,
                None => f,
            };
            if tail.is_empty() {
                None
            } else {
                Some(tail.to_owned())
            }
        },
    }
}

/// Where an uploaded paste can be found: its identifier, followed by `.`
/// and an extension if one is known.
pub open spec fn location_of(id: Seq<char>, ext: Option<Seq<char>>) -> Seq<char> {
    match ext {
        Some(e) => id + "."@ + e,
        None => id,
    }
}

/// The location of an uploaded paste: the extension of the uploaded file
/// name if there was one, else the one sniffing suggested.
pub fn upload_location(id: &PasteId, file_ext: Option<&str>, guess_ext: Option<&str>) -> (r: String)
    ensures
        r@ == location_of(
            id.id_text(),
            match file_ext {
                Some(e) => Some(e@),
                None => match guess_ext {
                    Some(g) => Some(g@),
                    None => None,
                },
            },
        ),
{
    let ext = match file_ext {
        Some(e) => Some(e),
        None => guess_ext,
    };
    let mut r = String::from_str(id.as_str());
    match ext {
        Some(e) => {
            r.append(".");
            r.append(e);
        },
        None => {},
    }
    r
}

} // verus!
