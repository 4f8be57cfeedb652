//! Paste identifiers and identifier allocation against a storage backend.
use vstd::prelude::*;
use vstd::string::*;
use vstd::utf8::*;

use crate::error::Error;
use crate::id::IdGen;

verus! {

/// An identifier character: an ASCII letter or digit.
pub open spec fn is_id_char(c: char) -> bool {
    ('a' <= c && c <= 'z') || ('A' <= c && c <= 'Z') || ('0' <= c && c <= '9')
}

/// A well-formed paste identifier: non-empty and made of identifier characters only.
pub open spec fn is_paste_id(s: Seq<char>) -> bool {
    s.len() > 0 && forall|i: int| 0 <= i < s.len() ==> #[trigger] is_id_char(s[i])
}

fn is_id_byte(b: u8) -> (r: bool)
    ensures
        r == is_id_char(b as char),
{
    (97 <= b && b <= 122) || (65 <= b && b <= 90) || (48 <= b && b <= 57)
}

/// The identifier of a stored paste.
#[derive(Debug)]
pub struct PasteId(String);

impl PasteId {
    /// The identifier's characters.
    pub closed spec fn id_text(&self) -> Seq<char> {
        self.0@
    }

    pub closed spec fn wf(&self) -> bool {
        is_paste_id(self.0@)
    }

    /// Accepts `id` if it is a well-formed identifier, else hands it back.
    pub fn new(id: String) -> (r: Result<PasteId, String>)
        ensures
            is_paste_id(id@) ==> r is Ok && r->Ok_0.id_text() == id@ && r->Ok_0.wf(),
            !is_paste_id(id@) ==> r is Err && r->Err_0@ == id@,
    {
        let s = id.as_str();
        if !s.is_ascii() {
            proof {
                if is_paste_id(id@) {
                    assert forall|i: int| 0 <= i < s@.len() implies '\0' <= #[trigger] s@[i] <= '\u{7f}' by {
                        assert(is_id_char(s@[i]));
                    }
                }
            }
            return Err(id);
        }
        let n = s.unicode_len();
        if n == 0 {
            return Err(id);
        }
        let mut i: usize = 0;
        while i < n
            invariant
                s@ == id@,
                is_ascii_chars(s@),
                n == s@.len(),
                i <= n,
                forall|j: int| 0 <= j < i ==> #[trigger] is_id_char(s@[j]),
            decreases n - i,
        {
            let b = s.get_ascii(i);
            if !is_id_byte(b) {
                return Err(id);
            }
            i += 1;
        }
        Ok(PasteId(id))
    }

    pub fn as_str(&self) -> (r: &str)
        ensures
            r@ == self.id_text(),
    {
        self.0.as_str()
    }
}

/// Relies on std::io::Error::kind: whether the error reports a missing file.
#[verifier::external_body]
fn is_not_found(e: &std::io::Error) -> bool {
    e.kind() == std::io::ErrorKind::NotFound
}

/// std's I/O error, held opaque.
#[verifier::external_type_specification]
#[verifier::external_body]
pub struct ExIoError(std::io::Error);

/// Saving failed: no free identifier was found, or the write failed.
#[derive(Debug)]
pub struct SaveError;

/// Loading failed.
#[derive(Debug)]
pub enum LoadError {
    /// No paste has that identifier.
    NotFound,
    /// Any other I/O failure.
    IoError(std::io::Error),
}

impl LoadError {
    /// Classifies a failure to open a paste: not found exactly when the
    /// failure reported a missing file.
    pub fn from_open_error(e: std::io::Error, not_found: bool) -> (r: LoadError)
        ensures
            r is NotFound <==> not_found,
    {
        if not_found {
            LoadError::NotFound
        } else {
            LoadError::IoError(e)
        }
    }

    /// Classifies an I/O failure of opening a paste, by its error kind.
    pub fn from_io(e: std::io::Error) -> (r: LoadError) {
        let not_found = is_not_found(&e);
        Self::from_open_error(e, not_found)
    }

    /// The client-visible error: a missing paste is not found, any other
    /// failure is a storage error.
    pub fn to_error(&self) -> (r: Error)
        ensures
            self is NotFound ==> r is NotFound,
            self is IoError ==> r is StorageError,
    {
        match self {
            LoadError::NotFound => Error::NotFound,
            LoadError::IoError(_) => Error::StorageError,
        }
    }
}

/// The number of candidates tried before allocation gives up.
pub const MAX_ATTEMPTS: u32 = 10;

/// What allocation does after checking a candidate.
#[derive(Debug, PartialEq, Eq, Structural)]
pub enum AllocStep {
    /// The candidate is free: use it.
    Accept,
    /// Try again with this attempt index.
    Retry(u32),
    /// Every attempt found its candidate taken.
    Exhausted,
}

/// The decision after checking the candidate of attempt `attempt`: accept a
/// free one, else retry with the next attempt index while the budget lasts.
pub fn after_check(attempt: u32, free: bool) -> (r: AllocStep)
    requires
        attempt < MAX_ATTEMPTS,
    ensures
        free ==> r is Accept,
        !free && attempt + 1 < MAX_ATTEMPTS ==> r == AllocStep::Retry((attempt + 1) as u32),
        !free && attempt + 1 == MAX_ATTEMPTS ==> r is Exhausted,
{
    if free {
        AllocStep::Accept
    } else if attempt + 1 < MAX_ATTEMPTS {
        AllocStep::Retry(attempt + 1)
    } else {
        AllocStep::Exhausted
    }
}

/// Paste storage in a directory, one file per paste named by its identifier.
pub struct FilesystemStorage<G: IdGen> {
    root: String,
    id_gen: G,
}

impl<G: IdGen> FilesystemStorage<G> {
    pub closed spec fn root_view(&self) -> Seq<char> {
        self.root@
    }

    pub fn new(root: String, id_gen: G) -> (r: FilesystemStorage<G>)
        ensures
            r.root_view() == root@,
    {
        FilesystemStorage { root, id_gen }
    }

    /// The directory that holds the pastes.
    pub fn root(&self) -> (r: &str)
        ensures
            r@ == self.root_view(),
    {
        self.root.as_str()
    }

    /// Allocates an identifier: asks the generator for the candidate of
    /// attempts 0, 1, ... up to `MAX_ATTEMPTS - 1`, and returns the first
    /// well-formed one that `taken` reports free. A malformed candidate
    /// counts as taken and is never handed to `taken`. `taken` may claim the
    /// identifier atomically and report a collision at create time as taken,
    /// which moves on to the next attempt.
    pub fn allocate<F: Fn(&PasteId) -> bool>(&self, taken: &F) -> (r: Result<PasteId, SaveError>)
        requires
            forall|id: &PasteId| #[trigger] taken.requires((id,)),
        ensures
            r matches Ok(id) ==> is_paste_id(id.id_text()) && taken.ensures((&id,), false),
    {
        let mut attempt: u32 = 0;
        loop
            invariant
                attempt < MAX_ATTEMPTS,
                forall|id: &PasteId| #[trigger] taken.requires((id,)),
            decreases MAX_ATTEMPTS - attempt,
        {
            let candidate = self.id_gen.next_id(attempt);
            let step = match PasteId::new(candidate) {
                Ok(id) => {
                    let free = !taken(&id);
                    match after_check(attempt, free) {
                        AllocStep::Accept => return Ok(id),
                        other => other,
                    }
                },
                Err(_) => after_check(attempt, false),
            };
            match step {
                AllocStep::Retry(next) => attempt = next,
                _ => return Err(SaveError),
            }
        }
    }
}

} // verus!
