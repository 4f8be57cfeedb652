use farfalle::classify::File;
use farfalle::highlight::{attr_token, canonical_entries, Style, Theme};
use farfalle::language::Language;
use farfalle::render::{plain, view_content, view_paste, Rendered, Viewed};

fn keyword_theme() -> Theme {
    Theme::new(
        "test".to_string(),
        vec![("keyword".to_string(), Style::Color("#ff0000".to_string()))],
    )
}

#[test]
fn attribute_tokens_are_numbered() {
    assert_eq!(attr_token(0), "h0");
    assert_eq!(attr_token(7), "h7");
    assert_eq!(attr_token(12), "h12");
    assert_eq!(attr_token(305), "h305");
}

#[test]
fn stylesheet_of_single_color() {
    let theme = keyword_theme();
    assert_eq!(theme.name(), "test");
    assert_eq!(theme.css(), "[h0] {color: #ff0000;}\n");
    assert_eq!(theme.css(), "[h0] {color: #ff0000;}\n");
}

#[test]
fn stylesheet_of_attributes() {
    let theme = Theme::new(
        "t".to_string(),
        vec![
            ("comment".to_string(), Style::Color("gray".to_string())),
            (
                "keyword".to_string(),
                Style::Attributes(vec![
                    ("color".to_string(), "red".to_string()),
                    ("font-weight".to_string(), "bold".to_string()),
                ]),
            ),
        ],
    );
    assert_eq!(
        theme.css(),
        "[h0] {color: gray;}\n[h1] {color: red;font-weight: bold}\n"
    );
}

#[test]
fn languages_by_extension() {
    assert_eq!(Language::from_extension("sh"), Some(Language::Bash));
    assert_eq!(Language::from_extension("zsh"), Some(Language::Bash));
    assert_eq!(Language::from_extension("rs"), Some(Language::Rust));
    assert_eq!(Language::from_extension("mjs"), Some(Language::JavaScript));
    assert_eq!(Language::from_extension("txt"), None);
    assert_eq!(Language::from_extension(""), None);
    assert_eq!(Language::Tsx.as_str(), "tsx");
    assert_eq!(Language::from_name("javascript"), Some(Language::JavaScript));
    assert_eq!(Language::all().len(), 18);
}

#[test]
fn keyword_span_uses_its_token() {
    let theme = keyword_theme();
    let h = theme.highlight(Language::Rust, "fn main() {}\n").unwrap();
    let joined = h.lines().join("");
    assert!(joined.contains("<span h0>fn</span>"), "{}", joined);
}

#[test]
fn highlighting_is_repeatable() {
    let theme = keyword_theme();
    let src = "<script>let x = 1;</script>\n<p>hi</p>\n";
    let a = theme.highlight(Language::Html, src).map(|h| h.lines().to_vec());
    let b = theme.highlight(Language::Html, src).map(|h| h.lines().to_vec());
    assert!(a.is_some());
    assert_eq!(a, b);
}

#[test]
fn plain_lines_keep_empty_lines() {
    assert_eq!(plain("a\n\nb\n"), vec!["a".to_string(), "\n".to_string(), "b".to_string()]);
    assert!(plain("").is_empty());
}

#[test]
fn no_extension_passes_text_through() {
    let theme = keyword_theme();
    match view_paste(&theme, "fn x() {}\n".to_string(), None) {
        Rendered::Raw(s) => assert_eq!(s, "fn x() {}\n"),
        _ => panic!("expected raw text"),
    }
}

#[test]
fn unknown_extension_renders_plain_lines() {
    let theme = keyword_theme();
    match view_paste(&theme, "a<b\n\nc".to_string(), Some("nope".to_string())) {
        Rendered::Plain(lines) => assert_eq!(lines, vec!["a<b", "\n", "c"]),
        _ => panic!("expected plain lines"),
    }
}

#[test]
fn known_extension_renders_styled_lines() {
    let theme = keyword_theme();
    match view_paste(&theme, "fn x() {}\n".to_string(), Some("rs".to_string())) {
        Rendered::Styled { css, lines } => {
            assert_eq!(css, "[h0] {color: #ff0000;}\n");
            assert!(lines.join("").contains("<span h0>fn</span>"));
        }
        _ => panic!("expected styled lines"),
    }
}

#[test]
fn images_are_served_not_highlighted() {
    let theme = keyword_theme();
    let png = vec![
        0x89, 0x50, 0x4E, 0x47, 0x0D, 0x0A, 0x1A, 0x0A, 0x00, 0x00, 0x00, 0x0D, 0x49, 0x48, 0x44,
        0x52,
    ];
    assert!(matches!(File::infer(&png), Ok(File::Binary(_))));
    match view_content(&theme, png.clone(), Some("rs".to_string())) {
        Ok(Viewed::Image { mime, data }) => {
            assert_eq!(mime, "image/png");
            assert_eq!(data, png);
        }
        _ => panic!("expected an image"),
    }
}

#[test]
fn stored_text_is_rendered() {
    let theme = keyword_theme();
    match view_content(&theme, b"hello\n".to_vec(), None) {
        Ok(Viewed::Page(Rendered::Raw(s))) => assert_eq!(s, "hello\n"),
        _ => panic!("expected raw text"),
    }
    assert!(view_content(&theme, vec![0xff, 0xfe, 0xfd], None).is_err());
}

#[test]
fn plain_lines_follow_line_endings() {
    assert_eq!(plain("a\r\nb\r"), vec!["a".to_string(), "b\r".to_string()]);
    assert_eq!(plain("\n"), vec!["\n".to_string()]);
}

#[test]
fn theme_entries_must_be_sorted_and_distinct() {
    let entry = |n: &str| (n.to_string(), Style::Color("red".to_string()));
    assert!(canonical_entries(&vec![entry("comment"), entry("keyword"), entry("keyword.control")]));
    assert!(!canonical_entries(&vec![entry("keyword"), entry("comment")]));
    assert!(!canonical_entries(&vec![entry("keyword"), entry("keyword")]));
    assert!(canonical_entries(&vec![]));
}

#[test]
fn captures_the_theme_lacks_stay_plain() {
    let theme = Theme::new("empty".to_string(), vec![]);
    let h = theme.highlight(Language::Rust, "fn main() {}\n").unwrap();
    let joined = h.lines().join("");
    assert!(!joined.contains("<span"), "{}", joined);
    assert!(joined.contains("fn main()"));
}
