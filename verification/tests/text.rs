use zed_csharp::text::{
    chars_of, contains_exec, first_word_exec, is_space_exec, lines_of, starts_with_exec, str_eq,
    trim_string,
};

const SAMPLES: &[&str] = &[
    "",
    "\n",
    "\n\n",
    "a",
    "a\n",
    "a\r\n",
    "a\rb\r",
    "a\r\nb\n\nc",
    "\r\n\r\n",
    " \t one two\u{a0}three \u{3000}",
    "\u{2028}x\u{2029}",
    "8.0.100 [/usr/share/dotnet/sdk]\n9.0.100 [/usr/share/dotnet/sdk]\n",
    "ünïcödé \u{1680}wörds\u{205f}",
];

#[test]
fn whitespace_matches_char_is_whitespace() {
    for u in 0u32..=0x10ffff {
        if let Some(c) = char::from_u32(u) {
            assert_eq!(is_space_exec(c), c.is_whitespace(), "{:?}", c);
        }
    }
}

#[test]
fn lines_match_str_lines() {
    for s in SAMPLES {
        let expected: Vec<String> = s.lines().map(|l| l.to_string()).collect();
        assert_eq!(lines_of(s), expected, "{:?}", s);
    }
}

#[test]
fn trim_matches_str_trim() {
    for s in SAMPLES {
        assert_eq!(trim_string(s), s.trim(), "{:?}", s);
    }
}

#[test]
fn first_word_matches_split_whitespace() {
    for s in SAMPLES {
        assert_eq!(first_word_exec(s), s.split_whitespace().next().map(|w| w.to_string()), "{:?}", s);
    }
}

#[test]
fn string_predicates() {
    assert_eq!(chars_of("héllo"), vec!['h', 'é', 'l', 'l', 'o']);
    assert!(str_eq("abc", "abc"));
    assert!(!str_eq("abc", "abd"));
    assert!(!str_eq("abc", "ab"));
    assert!(starts_with_exec("dotnet run", "dotnet"));
    assert!(!starts_with_exec("dot", "dotnet"));
    assert!(starts_with_exec("x", ""));
    assert!(contains_exec("my-runner", "run"));
    assert!(contains_exec("x", ""));
    assert!(!contains_exec("", "x"));
}
