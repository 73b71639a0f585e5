use shadcnui_maud::manifest::{
    classify_source, parse_manifest, ManifestEntry, ManifestError, Source,
};
use shadcnui_maud::text::is_space_char;

fn remote(name: &str, group: &str, url: &str) -> ManifestEntry {
    ManifestEntry {
        name: name.to_string(),
        group: group.to_string(),
        source: Source::Remote(url.to_string()),
    }
}

fn local(name: &str, group: &str, path: &str) -> ManifestEntry {
    ManifestEntry {
        name: name.to_string(),
        group: group.to_string(),
        source: Source::Local(path.to_string()),
    }
}

#[test]
fn parses_one_remote_entry() {
    let entries = parse_manifest("logo.svg brand https://example.com/logo.svg\n").unwrap();
    assert_eq!(entries, vec![remote("logo.svg", "brand", "https://example.com/logo.svg")]);
}

#[test]
fn yields_one_entry_per_occupied_line_in_order() {
    let text = "htmx.min.js js https://unpkg.com/htmx.org\n\n  \t \nstyle.css css ./dist/css/style.css\nlogo.svg brand https://example.com/logo.svg";
    let entries = parse_manifest(text).unwrap();
    assert_eq!(
        entries,
        vec![
            remote("htmx.min.js", "js", "https://unpkg.com/htmx.org"),
            local("style.css", "css", "./dist/css/style.css"),
            remote("logo.svg", "brand", "https://example.com/logo.svg"),
        ]
    );
}

#[test]
fn empty_text_has_no_entries() {
    assert_eq!(parse_manifest("").unwrap(), vec![]);
    assert_eq!(parse_manifest("\n\n   \n\t\n").unwrap(), vec![]);
}

#[test]
fn fields_are_split_at_any_run_of_whitespace() {
    let entries = parse_manifest("  a \t\t b\u{00A0}\u{3000}c  \r\nd\u{2003}e\u{0085}f\r\n").unwrap();
    assert_eq!(entries, vec![local("a", "b", "c"), local("d", "e", "f")]);
}

#[test]
fn repeated_lines_are_kept() {
    let entries = parse_manifest("a g https://x/y\na g https://x/y\n").unwrap();
    assert_eq!(entries, vec![remote("a", "g", "https://x/y"), remote("a", "g", "https://x/y")]);
}

#[test]
fn source_is_remote_only_with_the_https_prefix() {
    assert_eq!(classify_source("https://example.com/a"), Source::Remote("https://example.com/a".to_string()));
    assert_eq!(classify_source("https://"), Source::Remote("https://".to_string()));
    assert_eq!(classify_source("http://example.com/a"), Source::Local("http://example.com/a".to_string()));
    assert_eq!(classify_source("https:/example.com"), Source::Local("https:/example.com".to_string()));
    assert_eq!(classify_source("HTTPS://example.com"), Source::Local("HTTPS://example.com".to_string()));
    assert_eq!(classify_source("xhttps://example.com"), Source::Local("xhttps://example.com".to_string()));
    assert_eq!(classify_source("css/style.css"), Source::Local("css/style.css".to_string()));
    assert_eq!(classify_source(""), Source::Local(String::new()));
}

#[test]
fn entry_is_made_of_three_fields() {
    assert_eq!(ManifestEntry::new("n", "g", "https://h/p"), remote("n", "g", "https://h/p"));
    assert_eq!(ManifestEntry::new("n", "g", "p"), local("n", "g", "p"));
}

#[test]
fn reports_first_malformed_line() {
    let err = parse_manifest("a b c\n\nx y\nz\n").unwrap_err();
    assert_eq!(err, ManifestError { line: 3, found: 2 });
}

#[test]
fn reports_line_numbers_counted_from_one() {
    assert_eq!(parse_manifest("only").unwrap_err(), ManifestError { line: 1, found: 1 });
    assert_eq!(parse_manifest("a b c d").unwrap_err(), ManifestError { line: 1, found: 4 });
    assert_eq!(
        parse_manifest("\n\n\na b c\n\n1 2 3 4 5\n").unwrap_err(),
        ManifestError { line: 6, found: 5 }
    );
    assert_eq!(
        parse_manifest("a b c\r\nd e\r\n").unwrap_err(),
        ManifestError { line: 2, found: 2 }
    );
}

#[test]
fn malformed_line_hides_every_entry() {
    assert!(parse_manifest("a b https://x\nbad line\nc d e\n").is_err());
}

#[test]
fn separators_are_the_unicode_white_space_characters() {
    for c in ['\t', '\n', '\u{0B}', '\u{0C}', '\r', ' ', '\u{85}', '\u{A0}', '\u{1680}', '\u{2000}', '\u{200A}', '\u{2028}', '\u{2029}', '\u{202F}', '\u{205F}', '\u{3000}'] {
        assert!(is_space_char(c), "{:?}", c);
        assert!(c.is_whitespace());
    }
    for c in ['a', '0', '/', '.', '\u{200B}', '\u{FEFF}', '\u{08}', '\u{0E}', '\u{1F}', '!', '\u{180E}', '\u{2060}'] {
        assert!(!is_space_char(c), "{:?}", c);
        assert!(!c.is_whitespace());
    }
}

#[test]
fn separators_agree_with_std_on_every_character() {
    let mut code: u32 = 0;
    while code <= 0x10FFFF {
        if let Some(c) = char::from_u32(code) {
            assert_eq!(is_space_char(c), c.is_whitespace(), "U+{:04X}", code);
        }
        code += 1;
    }
}

/// A small deterministic generator of texts over `alphabet`.
struct Texts {
    state: u64,
}

impl Texts {
    fn next(&mut self, bound: usize) -> usize {
        self.state = self.state.wrapping_mul(6364136223846793005).wrapping_add(1442695040888963407);
        ((self.state >> 33) as usize) % bound
    }

    fn text(&mut self, alphabet: &[&str], max_len: usize) -> String {
        let len = self.next(max_len + 1);
        let mut text = String::new();
        for _ in 0..len {
            text.push_str(alphabet[self.next(alphabet.len())]);
        }
        text
    }
}

fn parse_with_std(text: &str) -> Result<Vec<ManifestEntry>, ManifestError> {
    let mut entries = Vec::new();
    for (i, line) in text.lines().enumerate() {
        let cols = line.split_whitespace().collect::<Vec<_>>();
        if cols.is_empty() {
            continue;
        }
        if cols.len() != 3 {
            return Err(ManifestError { line: i + 1, found: cols.len() });
        }
        let source = if cols[2].starts_with("https://") {
            Source::Remote(cols[2].to_string())
        } else {
            Source::Local(cols[2].to_string())
        };
        entries.push(ManifestEntry { name: cols[0].to_string(), group: cols[1].to_string(), source });
    }
    Ok(entries)
}

#[test]
fn parser_agrees_with_std_splitting() {
    let alphabet = ["a", "b.c", "https://", "/", " ", " ", "\t", "\n", "\n", "\r\n", "\r", "\u{00A0}", "\u{00E9}", "\u{2028}", "x y z", "\nu v w\n"];
    let mut texts = Texts { state: 7 };
    let mut good = 0;
    let mut bad = 0;
    for _ in 0..20_000 {
        let text = texts.text(&alphabet, 12);
        let expected = parse_with_std(&text);
        if expected.is_ok() {
            good += 1;
        } else {
            bad += 1;
        }
        assert_eq!(parse_manifest(&text), expected, "{:?}", text);
    }
    assert!(good > 1_000 && bad > 1_000);
}
