//! Themes and the highlighting engine: capture names, their styles, the
//! stylesheet a theme produces, and styled rendering of source text.
use vstd::prelude::*;
use vstd::string::*;
use once_cell::sync::OnceCell;
use tree_sitter_highlight::{Highlight, HighlightConfiguration, Highlighter, HtmlRenderer};

use crate::text::{seq_less, str_less};
use crate::language::{all_languages, grammar_name, index_of, language_of_name, Language};

verus! {

/// once_cell's single-initialization cell, held opaque.
#[verifier::external_type_specification]
#[verifier::external_body]
#[verifier::reject_recursive_types(T)]
pub struct ExOnceCell<T>(OnceCell<T>);

/// Relies on OnceCell::new: an empty cell.
pub assume_specification<T>[ OnceCell::<T>::new ]() -> OnceCell<T>;

/// The style of one capture: a color, or property/value pairs in their
/// canonical order.
#[derive(Debug)]
pub enum Style {
    Color(String),
    Attributes(Vec<(String, String)>),
}

/// The character of a decimal digit.
pub open spec fn digit_char(d: nat) -> char {
    if d == 0 { '0' }
    else if d == 1 { '1' }
    else if d == 2 { '2' }
    else if d == 3 { '3' }
    else if d == 4 { '4' }
    else if d == 5 { '5' }
    else if d == 6 { '6' }
    else if d == 7 { '7' }
    else if d == 8 { '8' }
    else { '9' }
}

/// The decimal notation of `n`.
pub open spec fn decimal(n: nat) -> Seq<char>
    decreases n,
{
    if n < 10 {
        seq![digit_char(n)]
    } else {
        decimal(n / 10).push(digit_char(n % 10))
    }
}

/// The attribute token of the capture at position `i`.
pub open spec fn attr_name(i: nat) -> Seq<char> {
    seq!['h'] + decimal(i)
}

/// One `key: value` declaration.
pub open spec fn pair_text(kv: (String, String)) -> Seq<char> {
    kv.0@ + ": "@ + kv.1@
}

/// Declarations joined by `;`.
pub open spec fn pairs_text(kvs: Seq<(String, String)>) -> Seq<char>
    decreases kvs.len(),
{
    if kvs.len() == 0 {
        seq![]
    } else if kvs.len() == 1 {
        pair_text(kvs[0])
    } else {
        pairs_text(kvs.drop_last()) + ";"@ + pair_text(kvs.last())
    }
}

/// The body of the rule for a style.
pub open spec fn style_text(s: Style) -> Seq<char> {
    match s {
        Style::Color(c) => "color: "@ + c@ + ";"@,
        Style::Attributes(kvs) => pairs_text(kvs@),
    }
}

/// The stylesheet rule for the capture at position `i`.
pub open spec fn rule_text(i: nat, s: Style) -> Seq<char> {
    "["@ + attr_name(i) + "] {"@ + style_text(s) + "}\n"@
}

/// The rules for the first `n` styles, in order.
pub open spec fn css_text(styles: Seq<Style>, n: nat) -> Seq<char>
    decreases n,
{
    if n == 0 || n > styles.len() {
        seq![]
    } else {
        css_text(styles, (n - 1) as nat) + rule_text((n - 1) as nat, styles[n - 1])
    }
}

/// The full stylesheet of a sequence of styles.
pub open spec fn stylesheet(styles: Seq<Style>) -> Seq<char> {
    css_text(styles, styles.len())
}

fn digit_str(d: usize) -> (r: &'static str)
    requires
        d < 10,
    ensures
        r@ == seq![digit_char(d as nat)],
{
    proof {
        reveal_strlit("0");
        reveal_strlit("1");
        reveal_strlit("2");
        reveal_strlit("3");
        reveal_strlit("4");
        reveal_strlit("5");
        reveal_strlit("6");
        reveal_strlit("7");
        reveal_strlit("8");
        reveal_strlit("9");
    }
    let r = if d == 0 { "0" }
    else if d == 1 { "1" }
    else if d == 2 { "2" }
    else if d == 3 { "3" }
    else if d == 4 { "4" }
    else if d == 5 { "5" }
    else if d == 6 { "6" }
    else if d == 7 { "7" }
    else if d == 8 { "8" }
    else { "9" };
    assert(r@ =~= seq![digit_char(d as nat)]);
    r
}

/// Appends the decimal notation of `n` to `s`.
fn push_decimal(s: &mut String, n: usize)
    ensures
        final(s)@ == old(s)@ + decimal(n as nat),
    decreases n,
{
    if n < 10 {
        s.append(digit_str(n));
    } else {
        push_decimal(s, n / 10);
        s.append(digit_str(n % 10));
        assert(final(s)@ =~= old(s)@ + decimal(n as nat));
    }
}

/// The attribute token of the capture at position `i`.
pub fn attr_token(i: usize) -> (r: String)
    ensures
        r@ == attr_name(i as nat),
{
    let mut s = String::from_str("h");
    proof {
        reveal_strlit("h");
    }
    push_decimal(&mut s, i);
    assert(s@ =~= attr_name(i as nat));
    s
}

/// Appends `key: value` declarations joined by `;`.
fn push_pairs(css: &mut String, kvs: &Vec<(String, String)>)
    ensures
        final(css)@ == old(css)@ + pairs_text(kvs@),
{
    let n = kvs.len();
    let mut i: usize = 0;
    while i < n
        invariant
            n == kvs@.len(),
            i <= n,
            css@ == old(css)@ + pairs_text(kvs@.subrange(0, i as int)),
        decreases n - i,
    {
        let ghost before = css@;
        if i > 0 {
            css.append(";");
        }
        css.append(kvs[i].0.as_str());
        css.append(": ");
        css.append(kvs[i].1.as_str());
        proof {
            let sub = kvs@.subrange(0, i + 1);
            assert(sub.drop_last() =~= kvs@.subrange(0, i as int));
            assert(sub.last() == kvs@[i as int]);
            if i == 0 {
                assert(before =~= old(css)@);
            }
            assert(css@ =~= old(css)@ + pairs_text(sub));
        }
        i += 1;
    }
    assert(kvs@.subrange(0, n as int) =~= kvs@);
}

/// Capture names in canonical order: strictly increasing, so each name
/// is declared once.
pub open spec fn is_canonical(names: Seq<Seq<char>>) -> bool {
    forall|i: int| 0 <= i < names.len() - 1 ==> #[trigger] seq_less(names[i], names[i + 1])
}

/// The capture names of theme entries.
pub open spec fn entry_names(theme: Seq<(String, Style)>) -> Seq<Seq<char>> {
    theme.map_values(|e: (String, Style)| e.0@)
}

/// Whether theme entries declare their capture names in canonical order.
pub fn canonical_entries(theme: &Vec<(String, Style)>) -> (r: bool)
    ensures
        r == is_canonical(entry_names(theme@)),
{
    let n = theme.len();
    if n == 0 {
        return true;
    }
    let mut i: usize = 0;
    while i + 1 < n
        invariant
            n == theme@.len(),
            n > 0,
            i + 1 <= n,
            forall|j: int| 0 <= j < i ==> #[trigger] seq_less(
                entry_names(theme@)[j],
                entry_names(theme@)[j + 1],
            ),
        decreases n - i,
    {
        if !str_less(theme[i].0.as_str(), theme[i + 1].0.as_str()) {
            proof {
                let names = entry_names(theme@);
                assert(names[i as int] == theme@[i as int].0@);
                assert(names[i + 1] == theme@[i + 1].0@);
                assert(!seq_less(names[i as int], names[i + 1]));
            }
            return false;
        }
        i += 1;
    }
    true
}

/// A theme's ordered capture names, their styles and attribute tokens, with
/// the stylesheet built on first use.
pub struct Styles {
    names: Vec<String>,
    styles: Vec<Style>,
    attrs: Vec<String>,
    css: OnceCell<String>,
}

impl Styles {
    pub closed spec fn wf(&self) -> bool {
        &&& self.names.len() == self.styles.len()
        &&& self.attrs.len() == self.styles.len()
        &&& forall|i: int| 0 <= i < self.attrs.len() ==> #[trigger] self.attrs[i]@ == attr_name(i as nat)
    }

    /// The declared capture names, in order.
    pub closed spec fn names(&self) -> Seq<Seq<char>> {
        self.names@.map_values(|n: String| n@)
    }

    /// The declared styles, in order.
    pub closed spec fn styles(&self) -> Seq<Style> {
        self.styles@
    }

    /// Builds the styles from `(capture name, style)` entries given in the
    /// theme's canonical order; the capture at position `i` gets token `h<i>`.
    pub fn new(theme: Vec<(String, Style)>) -> (r: Styles)
        requires
            is_canonical(entry_names(theme@)),
        ensures
            r.wf(),
            r.names() == theme@.map_values(|e: (String, Style)| e.0@),
            r.styles() == theme@.map_values(|e: (String, Style)| e.1),
    {
        let ghost entries = theme@;
        let mut rest = theme;
        let mut names: Vec<String> = Vec::new();
        let mut styles: Vec<Style> = Vec::new();
        let mut attrs: Vec<String> = Vec::new();
        while rest.len() > 0
            invariant
                names.len() == styles.len(),
                attrs.len() == styles.len(),
                styles.len() + rest.len() == entries.len(),
                rest@ == entries.subrange(styles.len() as int, entries.len() as int),
                forall|i: int| 0 <= i < attrs.len() ==> #[trigger] attrs[i]@ == attr_name(i as nat),
                forall|i: int| 0 <= i < names.len() ==> #[trigger] names[i]@ == entries[i].0@,
                forall|i: int| 0 <= i < styles.len() ==> #[trigger] styles[i] == entries[i].1,
            decreases rest.len(),
        {
            let (name, style) = rest.remove(0);
            let i = styles.len();
            names.push(name);
            styles.push(style);
            attrs.push(attr_token(i));
        }
        let r = Styles { names, styles, attrs, css: OnceCell::new() };
        assert(r.names() =~= entries.map_values(|e: (String, Style)| e.0@));
        assert(r.styles() =~= entries.map_values(|e: (String, Style)| e.1));
        r
    }

    /// The attribute token of capture `i`; empty for a capture that the
    /// theme does not declare.
    pub fn attr(&self, i: usize) -> (r: &str)
        requires
            self.wf(),
        ensures
            i < self.styles().len() ==> r@ == attr_name(i as nat),
            i >= self.styles().len() ==> r@.len() == 0,
    {
        if i < self.attrs.len() {
            self.attrs[i].as_str()
        } else {
            proof {
                reveal_strlit("");
            }
            ""
        }
    }

    /// Builds the stylesheet: one rule per capture, in order.
    pub fn css_inner(&self) -> (r: String)
        requires
            self.wf(),
        ensures
            r@ == stylesheet(self.styles()),
    {
        let mut css = String::new();
        let n = self.styles.len();
        for i in 0..n
            invariant
                self.wf(),
                n == self.styles@.len(),
                css@ == css_text(self.styles@, i as nat),
        {
            css.append("[");
            css.append(self.attrs[i].as_str());
            css.append("] {");
            match &self.styles[i] {
                Style::Color(color) => {
                    css.append("color: ");
                    css.append(color.as_str());
                    css.append(";");
                },
                Style::Attributes(kvs) => {
                    push_pairs(&mut css, kvs);
                },
            }
            css.append("}\n");
            assert(css@ =~= css_text(self.styles@, (i + 1) as nat));
        }
        css
    }

    /// The stylesheet, built on first use and kept for the theme's lifetime.
    pub fn css(&self) -> (r: &str)
        requires
            self.wf(),
        ensures
            r@ == stylesheet(self.styles()),
    {
        cached_css(self)
    }
}

/// Relies on OnceCell::get_or_init: the cell keeps the first value that the
/// closure produced. Only this function fills the private cell of `styles`,
/// always from `css_inner` of the same immutable styles.
#[verifier::external_body]
fn cached_css(styles: &Styles) -> (r: &str)
    requires
        styles.wf(),
    ensures
        r@ == stylesheet(styles.styles()),
{
    styles.css.get_or_init(|| styles.css_inner())
}

/// Relies on HighlightConfiguration::configure: the configuration reports
/// only the given capture names, by their position in the list.
#[verifier::external_body]
fn configure(config: &mut HighlightConfiguration, names: &Vec<String>) {
    config.configure(names)
}

/// The lines of a rendering, as plain character sequences.
pub open spec fn lines_view(v: Vec<String>) -> Seq<Seq<char>> {
    v@.map_values(|l: String| l@)
}

/// The styled lines that tree-sitter renders for `source` in the grammar
/// named `grammar`, recognising the capture names `captures`; `None` where
/// highlighting or rendering fails.
pub uninterp spec fn highlighted_of(
    grammar: Seq<char>,
    captures: Seq<Seq<char>>,
    source: Seq<char>,
) -> Option<Seq<Seq<char>>>;

/// Relies on tree-sitter-highlight's `Highlighter::highlight` (with
/// `Highlighter::new`) and `HtmlRenderer::render` and `HtmlRenderer::lines`
/// (with `HtmlRenderer::new`). No cancellation flag is passed and the parser
/// has no timeout, so the outcome depends on the grammar, the recognised
/// capture names and the source alone: `config` is the theme's configuration
/// of `language`, which `Theme::new` built from the bundled grammar and
/// configured with the theme's capture names; injected grammars resolve
/// through the theme's other configurations, and each span's attribute is
/// the token of its capture's position.
#[verifier::external_body]
fn highlight_lines(
    theme: &Theme,
    config: &HighlightConfiguration,
    language: Language,
    source: &str,
) -> (r: Option<Vec<String>>)
    requires
        theme.wf(),
        *config == theme.config_of(language),
    ensures
        r is Some <==> highlighted_of(grammar_name(language), theme.capture_names(), source@) is Some,
        r matches Some(v) ==> lines_view(v) == highlighted_of(
            grammar_name(language),
            theme.capture_names(),
            source@,
        )->0,
{
    let mut highlighter = Highlighter::new();
    let events = highlighter.highlight(config, source.as_bytes(), None, |name| theme.injected(name));
    let mut renderer = HtmlRenderer::new();
    let attr = |h: Highlight| theme.styles.attr(h.0).as_bytes();
    renderer.render(events.ok()?, source.as_bytes(), &attr).ok()?;
    Some(renderer.lines().map(|line| line.to_string()).collect())
}

/// Source text rendered into styled lines.
pub struct Highlighted {
    lines: Vec<String>,
}

impl Highlighted {
    /// The styled lines, as character sequences.
    pub closed spec fn styled_lines(&self) -> Seq<Seq<char>> {
        lines_view(self.lines)
    }

    /// The styled lines, in order.
    pub fn lines(&self) -> (r: &[String])
        ensures
            r@.map_values(|l: String| l@) == self.styled_lines(),
    {
        self.lines.as_slice()
    }

    /// Takes the styled lines out.
    pub fn into_lines(self) -> (r: Vec<String>)
        ensures
            lines_view(r) == self.styled_lines(),
    {
        self.lines
    }
}

/// Whether `r` is what highlighting `source` as `language` under `theme`
/// gives: styled lines exactly when tree-sitter's rendering succeeds, and
/// then those lines.
pub open spec fn highlights_as(
    theme: &Theme,
    language: Language,
    source: Seq<char>,
    r: Option<Highlighted>,
) -> bool {
    let h = highlighted_of(grammar_name(language), theme.capture_names(), source);
    &&& (r is Some <==> h is Some)
    &&& (r matches Some(x) ==> x.styled_lines() == h->0)
}

/// Highlighting is repeatable: two highlightings of the same source as the
/// same language under the same theme give the same styled lines, or both
/// fail.
pub proof fn highlighting_is_repeatable(
    theme: &Theme,
    language: Language,
    source: Seq<char>,
    a: Option<Highlighted>,
    b: Option<Highlighted>,
)
    requires
        highlights_as(theme, language, source, a),
        highlights_as(theme, language, source, b),
    ensures
        a is Some <==> b is Some,
        a is Some ==> a->0.styled_lines() == b->0.styled_lines(),
{
}

/// A named theme: its styles and one highlighting configuration per
/// registered language, configured with the theme's capture names.
pub struct Theme {
    name: String,
    styles: Styles,
    configs: Vec<HighlightConfiguration>,
}

impl Theme {
    pub closed spec fn wf(&self) -> bool {
        &&& self.styles.wf()
        &&& self.configs.len() == all_languages().len()
    }

    pub closed spec fn name_view(&self) -> Seq<char> {
        self.name@
    }

    /// The highlighting configuration of a language.
    pub closed spec fn config_of(&self, language: Language) -> HighlightConfiguration {
        self.configs@[index_of(language)]
    }

    /// The declared capture names, in order.
    pub closed spec fn capture_names(&self) -> Seq<Seq<char>> {
        self.styles.names()
    }

    /// The declared styles, in order.
    pub closed spec fn styles(&self) -> Seq<Style> {
        self.styles.styles()
    }

    /// Builds a theme from its name and `(capture name, style)` entries in
    /// canonical order.
    pub fn new(name: String, theme: Vec<(String, Style)>) -> (r: Theme)
        requires
            is_canonical(entry_names(theme@)),
        ensures
            is_canonical(r.capture_names()),
            r.wf(),
            r.name_view() == name@,
            r.capture_names() == theme@.map_values(|e: (String, Style)| e.0@),
            r.styles() == theme@.map_values(|e: (String, Style)| e.1),
    {
        let styles = Styles::new(theme);
        let languages = Language::all();
        let mut configs: Vec<HighlightConfiguration> = Vec::new();
        for i in 0..languages.len()
            invariant
                languages@ == all_languages(),
                configs.len() == i,
        {
            let mut config = languages[i].config();
            configure(&mut config, &styles.names);
            configs.push(config);
        }
        Theme { name, styles, configs }
    }

    pub fn name(&self) -> (r: &str)
        ensures
            r@ == self.name_view(),
    {
        self.name.as_str()
    }

    /// The theme's stylesheet: one rule per declared capture.
    pub fn css(&self) -> (r: &str)
        requires
            self.wf(),
        ensures
            r@ == stylesheet(self.styles()),
    {
        self.styles.css()
    }

    /// The configuration for a language that a grammar injects by name;
    /// `None` for a grammar that is not configured.
    pub fn injected(&self, name: &str) -> (r: Option<&HighlightConfiguration>)
        requires
            self.wf(),
        ensures
            r is Some <==> language_of_name(name@) is Some,
            r matches Some(c) ==> *c == self.config_of(language_of_name(name@)->0),
    {
        match Language::from_name(name) {
            Some(language) => Some(&self.configs[language.index()]),
            None => None,
        }
    }

    /// Highlights `source` as `language`; `None` where highlighting fails,
    /// so that the caller falls back to plain rendering.
    pub fn highlight(&self, language: Language, source: &str) -> (r: Option<Highlighted>)
        requires
            self.wf(),
        ensures
            highlights_as(self, language, source@, r),
    {
        let config = &self.configs[language.index()];
        match highlight_lines(self, config, language, source) {
            Some(lines) => Some(Highlighted { lines }),
            None => None,
        }
    }
}

proof fn lemma_css_prefix(styles: Seq<Style>, m: nat, n: nat)
    requires
        m <= n <= styles.len(),
    ensures
        css_text(styles, m).len() <= css_text(styles, n).len(),
        css_text(styles, n).subrange(0, css_text(styles, m).len() as int) == css_text(styles, m),
    decreases n - m,
{
    if m == n {
        assert(css_text(styles, n).subrange(0, css_text(styles, m).len() as int) =~= css_text(styles, m));
    } else {
        lemma_css_prefix(styles, m, (n - 1) as nat);
        let p = css_text(styles, (n - 1) as nat);
        assert(css_text(styles, n) == p + rule_text((n - 1) as nat, styles[n - 1]));
        assert(css_text(styles, n).subrange(0, p.len() as int) =~= p);
        assert(css_text(styles, n).subrange(0, css_text(styles, m).len() as int) =~= p.subrange(0, css_text(styles, m).len() as int));
    }
}

/// Every declared capture has its rule in the stylesheet: the rule for the
/// capture at position `i` names its attribute token and holds its style.
pub proof fn stylesheet_has_rule(styles: Seq<Style>, i: nat)
    requires
        i < styles.len(),
    ensures
        exists|before: Seq<char>, after: Seq<char>| stylesheet(styles) == #[trigger] (before + rule_text(
            i,
            styles[i as int],
        ) + after),
{
    lemma_css_prefix(styles, i + 1, styles.len());
    let full = stylesheet(styles);
    let upto = css_text(styles, i + 1);
    let before = css_text(styles, i);
    let after = full.subrange(upto.len() as int, full.len() as int);
    assert(upto == before + rule_text(i, styles[i as int]));
    assert(full =~= upto + after);
    assert(full == before + rule_text(i, styles[i as int]) + after);
}

} // verus!
