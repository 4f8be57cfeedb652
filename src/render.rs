//! Choosing how a stored paste is shown: raw bytes, an image, plain lines
//! or styled lines.
use vstd::prelude::*;

use crate::classify::{classify, utf8_text, Class, File};
use crate::error::Error;
use crate::highlight::{highlighted_of, lines_view, stylesheet, Highlighted, Theme};
use crate::language::{grammar_name, language_of_extension, Language};
use crate::text::first_index;

verus! {

/// A line without the carriage return of its `\r\n` ending.
pub open spec fn strip_cr(l: Seq<char>) -> Seq<char> {
    if l.len() > 0 && l.last() == '\r' {
        l.drop_last()
    } else {
        l
    }
}

/// The lines of a text: split at each `\n`, a `\r` right before it
/// dropped, and no empty line after a final `\n`.
pub open spec fn text_lines(s: Seq<char>) -> Seq<Seq<char>>
    decreases s.len(),
{
    if s.len() == 0 {
        seq![]
    } else {
        match first_index(s, '\n') {
            Some(k) => if 0 <= k < s.len() {
                seq![strip_cr(s.subrange(0, k))] + text_lines(s.subrange(k + 1, s.len() as int))
            } else {
                seq![]
            },
            None => seq![s],
        }
    }
}

/// Relies on str::lines, documented to split at `\n` and `\r\n` line
/// endings, to leave the endings out, and to give no line after a final
/// line ending.
#[verifier::external_body]
fn split_lines(s: &str) -> (r: Vec<String>)
    ensures
        lines_view(r) == text_lines(s@),
{
    s.lines().map(|l| l.to_string()).collect()
}

/// A line as plain rendering shows it: an empty line keeps its line break.
pub open spec fn shown_line(l: Seq<char>) -> Seq<char> {
    if l.len() == 0 {
        seq!['\n']
    } else {
        l
    }
}

/// The plain rendering of a text.
pub open spec fn plain_lines(s: Seq<char>) -> Seq<Seq<char>> {
    text_lines(s).map_values(|l: Seq<char>| shown_line(l))
}

/// How a text paste is shown.
pub enum Rendered {
    /// The stored text, unmodified.
    Raw(String),
    /// Plain lines, to be escaped when shown, with no styling.
    Plain(Vec<String>),
    /// Styled lines and the stylesheet they refer to.
    Styled { css: String, lines: Vec<String> },
}

/// The plain rendering of `source`.
pub fn plain(source: &str) -> (r: Vec<String>)
    ensures
        lines_view(r) == plain_lines(source@),
{
    let lines = split_lines(source);
    let mut out: Vec<String> = Vec::new();
    for i in 0..lines.len()
        invariant
            lines_view(lines) == text_lines(source@),
            out.len() == i,
            forall|j: int| 0 <= j < i ==> #[trigger] out[j]@ == shown_line(lines[j]@),
    {
        if lines[i].as_str().is_empty() {
            proof {
                reveal_strlit("\n");
            }
            let line = String::from_str("\n");
            assert(line@ =~= seq!['\n']);
            out.push(line);
        } else {
            out.push(String::from_str(lines[i].as_str()));
        }
    }
    assert(lines_view(out) =~= plain_lines(source@));
    out
}

/// What a rendering shows for `source`, viewed with extension `ext`, given
/// what highlighting returned where a grammar applies.
pub open spec fn rendering_of(
    source: Seq<char>,
    language: Option<Option<Language>>,
    highlighted: Option<Seq<Seq<char>>>,
    css: Seq<char>,
    r: Rendered,
) -> bool {
    match language {
        None => r matches Rendered::Raw(s) && s@ == source,
        Some(None) => r matches Rendered::Plain(l) && lines_view(l) == plain_lines(source),
        Some(Some(_)) => match highlighted {
            Some(h) => r matches Rendered::Styled { css: c, lines: l } && c@ == css && lines_view(l)
                == h,
            None => r matches Rendered::Plain(l) && lines_view(l) == plain_lines(source),
        },
    }
}

/// Picks the rendering: with no extension the text passes through; with an
/// extension of no grammar, or where highlighting failed, plain lines;
/// otherwise the highlighted lines with the stylesheet.
pub fn select_rendering(
    source: String,
    language: Option<Option<Language>>,
    highlighted: Option<Highlighted>,
    css: &str,
) -> (r: Rendered)
    ensures
        rendering_of(
            source@,
            language,
            match highlighted {
                Some(h) => Some(h.styled_lines()),
                None => None,
            },
            css@,
            r,
        ),
{
    match language {
        None => Rendered::Raw(source),
        Some(None) => Rendered::Plain(plain(source.as_str())),
        Some(Some(_)) => match highlighted {
            Some(h) => {
                let lines = h.into_lines();
                Rendered::Styled { css: String::from_str(css), lines }
            },
            None => Rendered::Plain(plain(source.as_str())),
        },
    }
}

/// Renders a text paste viewed with extension `ext`.
pub fn view_paste(theme: &Theme, source: String, ext: Option<String>) -> (r: Rendered)
    requires
        theme.wf(),
    ensures
        ext is None ==> (r matches Rendered::Raw(s) && s@ == source@),
        ext matches Some(e) && language_of_extension(e@) is None ==> (r matches Rendered::Plain(l)
            && lines_view(l) == plain_lines(source@)),
        ext is Some && language_of_extension(ext->0@) is Some ==> rendering_of(
            source@,
            Some(language_of_extension(ext->0@)),
            highlighted_of(
                grammar_name(language_of_extension(ext->0@)->0),
                theme.capture_names(),
                source@,
            ),
            stylesheet(theme.styles()),
            r,
        ),
{
    let language = match &ext {
        Some(e) => Some(Language::from_extension(e.as_str())),
        None => None,
    };
    let highlighted = match language {
        Some(Some(l)) => theme.highlight(l, source.as_str()),
        _ => None,
    };
    select_rendering(source, language, highlighted, theme.css())
}

/// What a view request returns.
pub enum Viewed {
    /// An image, with its MIME type.
    Image { mime: String, data: Vec<u8> },
    /// A text paste, rendered.
    Page(Rendered),
}

/// Re-derives the kind of stored bytes and renders them: an image passes
/// through with its MIME type and never reaches the highlighter; text is
/// rendered for the requested extension; anything else is a storage error.
pub fn view_content(theme: &Theme, data: Vec<u8>, ext: Option<String>) -> (r: Result<Viewed, Error>)
    requires
        theme.wf(),
    ensures
        classify(data@) matches Class::Binary { mime: m, extension: _ } ==> (r matches Ok(
            Viewed::Image { mime: rm, data: d },
        ) && rm@ == m && d@ == data@),
        classify(data@) is Text ==> r matches Ok(Viewed::Page(_)),
        classify(data@) is Text && ext is None ==> (r matches Ok(Viewed::Page(Rendered::Raw(s)))
            && s@ == vstd::utf8::decode_utf8(data@)),
        classify(data@) is Text && (ext matches Some(e) && language_of_extension(e@) is None)
            ==> (r matches Ok(Viewed::Page(Rendered::Plain(l))) && lines_view(l) == plain_lines(
            vstd::utf8::decode_utf8(data@),
        )),
        classify(data@) is Text && ext is Some && language_of_extension(ext->0@) is Some
            ==> (r matches Ok(Viewed::Page(p)) && rendering_of(
            vstd::utf8::decode_utf8(data@),
            Some(language_of_extension(ext->0@)),
            highlighted_of(
                grammar_name(language_of_extension(ext->0@)->0),
                theme.capture_names(),
                vstd::utf8::decode_utf8(data@),
            ),
            stylesheet(theme.styles()),
            p,
        )),
        !(classify(data@) is Binary || classify(data@) is Text) ==> r matches Err(
            Error::StorageError,
        ),
{
    match File::infer(data.as_slice()) {
        Ok(File::Binary(s)) => Ok(Viewed::Image { mime: s.mime, data }),
        Ok(File::Text(_)) => match utf8_text(data.as_slice()) {
            Some(text) => Ok(Viewed::Page(view_paste(theme, String::from_str(text), ext))),
            None => Err(Error::StorageError),
        },
        Err(_) => Err(Error::StorageError),
    }
}

} // verus!
