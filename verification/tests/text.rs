use wellwon_desktop::text::{chars_of, replace_all_exec, trim_by, trim_quotes, trim_whitespace, Strip};

const SAMPLES: &[&str] = &[
    "",
    " ",
    "abc",
    "  abc  ",
    "\t\n\r\x0b\x0ctoken\n",
    "\u{a0}\u{2003}x y\u{3000}",
    "\u{85}\u{1680}\u{2028}\u{2029}\u{202f}\u{205f}z\u{200a}",
    "\u{200b}zero-width is not whitespace\u{200b}",
    "  \u{feff}bom\u{feff}  ",
    "мир  ",
];

#[test]
fn trim_whitespace_agrees_with_std() {
    for s in SAMPLES {
        assert_eq!(trim_whitespace(s), s.trim(), "input {s:?}");
    }
}

#[test]
fn trim_quotes_agrees_with_std() {
    for s in ["\"0.1.13\"", "\"\"", "\"", "0.1.13", "\"\"a\"b\"\"", " \"x\" "] {
        assert_eq!(trim_quotes(s), s.trim_matches('"'), "input {s:?}");
    }
}

#[test]
fn trim_is_idempotent_on_samples() {
    for s in SAMPLES {
        let once = trim_by(s, Strip::Whitespace);
        assert_eq!(trim_by(&once, Strip::Whitespace), once);
    }
}

#[test]
fn chars_of_keeps_order() {
    assert_eq!(chars_of("aé€𝄞"), vec!['a', 'é', '€', '𝄞']);
    assert!(chars_of("").is_empty());
}

#[test]
fn replace_agrees_with_std() {
    let cases = [
        ("v=__V__; w=__V__", "__V__", "1.2.3"),
        ("no placeholder", "__V__", "x"),
        ("aaaa", "aa", "b"),
        ("aaa", "aa", "b"),
        ("__V_", "__V__", "x"),
        ("", "x", "y"),
        ("éé€é", "é", "e"),
    ];
    for (s, pat, rep) in cases {
        assert_eq!(replace_all_exec(s, pat, rep), s.replace(pat, rep), "input {s:?}");
    }
}
