use agent_t::names::sort_strings;
use agent_t::text::{
    byte_len, chars_of, joined, joined3, decimal, is_whitespace, join, lines, split_whitespace,
    str_contains, str_eq, str_replace, str_replace_first, string_of, trim, truncate_string,
};

fn samples() -> Vec<&'static str> {
    vec![
        "",
        " ",
        "a",
        "abc",
        "  padded\t\n",
        "\u{a0}nbsp\u{2003}",
        "line 1\nline 2\r\nline 3",
        "ends with newline\n",
        "\n\nblank lines\n\n",
        "cr only\r",
        "tab\tseparated words  here",
        "aaaa",
        "abababab",
        "h\u{e9}llo w\u{f6}rld \u{1F600} caf\u{e9}",
        "{{a}} {{b}} {{a}}",
        "\u{3000}wide\u{3000}space\u{3000}",
    ]
}

#[test]
fn whitespace_is_what_std_says() {
    let mut n = 0u32;
    while n <= 0x10FFFF {
        if let Some(c) = char::from_u32(n) {
            assert_eq!(is_whitespace(c), c.is_whitespace(), "at {:x}", n);
        }
        n += 1;
    }
}

#[test]
fn trim_is_what_std_says() {
    for s in samples() {
        assert_eq!(trim(s), s.trim());
    }
}

#[test]
fn lines_are_what_std_says() {
    for s in samples() {
        let expected: Vec<String> = s.lines().map(|l| l.to_string()).collect();
        assert_eq!(lines(s), expected, "for {:?}", s);
    }
    assert_eq!(lines("a\r\nb\rc\r"), vec!["a", "b\rc\r"]);
}

#[test]
fn words_are_what_std_says() {
    for s in samples() {
        let expected: Vec<String> = s.split_whitespace().map(|l| l.to_string()).collect();
        assert_eq!(split_whitespace(s), expected, "for {:?}", s);
    }
}

#[test]
fn replace_is_what_std_says() {
    let patterns = ["a", "ab", "aa", "", "\n", "{{a}}", "\u{e9}", "zzz", "line"];
    let replacements = ["", "X", "aa", "ab", "\u{1F600}"];
    for s in samples() {
        for p in patterns {
            for r in replacements {
                assert_eq!(str_replace(s, p, r), s.replace(p, r), "{:?} {:?} {:?}", s, p, r);
                assert_eq!(
                    str_replace_first(s, p, r),
                    s.replacen(p, r, 1),
                    "{:?} {:?} {:?}",
                    s,
                    p,
                    r
                );
            }
        }
    }
    assert_eq!(str_replace("abc", "", "-"), "-a-b-c-");
    assert_eq!(str_replace("aaaa", "aa", "b"), "bb");
    assert_eq!(str_replace_first("aaaa", "aa", "b"), "baa");
}

#[test]
fn contains_is_what_std_says() {
    let needles = ["", "a", "ab", "line 2", "\u{e9}", "here", "zz", "\n"];
    for s in samples() {
        for n in needles {
            assert_eq!(str_contains(s, n), s.contains(n), "{:?} {:?}", s, n);
            assert_eq!(str_eq(s, n), s == n);
        }
        assert_eq!(byte_len(s), s.len());
        assert_eq!(string_of(&chars_of(s)), s);
    }
}

#[test]
fn decimal_digits() {
    assert_eq!(decimal(0), "0");
    assert_eq!(decimal(7), "7");
    assert_eq!(decimal(10), "10");
    assert_eq!(decimal(1234567890), "1234567890");
    assert_eq!(decimal(u64::MAX), "18446744073709551615");
}

#[test]
fn truncation_keeps_characters_whole() {
    assert_eq!(truncate_string("hello", 5), "hello");
    assert_eq!(truncate_string("hello", 10), "hello");
    assert_eq!(truncate_string("hello world", 5), "hello...");
    assert_eq!(truncate_string("hello", 0), "...");
    assert_eq!(truncate_string("", 0), "");
    // two bytes each: a cut inside a character falls back to before it
    assert_eq!(truncate_string("\u{e9}\u{e9}\u{e9}", 3), "\u{e9}...");
    assert_eq!(truncate_string("\u{e9}\u{e9}\u{e9}", 4), "\u{e9}\u{e9}...");
    assert_eq!(truncate_string("\u{e9}\u{e9}\u{e9}", 6), "\u{e9}\u{e9}\u{e9}");
    assert_eq!(truncate_string("a\u{1F600}b", 2), "a...");
}

#[test]
fn joining_and_concatenation() {
    assert_eq!(join(&vec![], ", "), "");
    assert_eq!(join(&vec!["a".to_string()], ", "), "a");
    assert_eq!(join(&vec!["a".to_string(), "b".to_string(), "".to_string()], ", "), "a, b, ");
    assert_eq!(joined("a", "b"), "ab");
    assert_eq!(joined3("a", "", "c"), "ac");
}

#[test]
fn sorting_is_what_std_says() {
    let mut items: Vec<String> =
        vec!["pear", "Apple", "apple", "", "zebra", "apple", "app", "\u{e9}clair", "b/", "b"]
            .into_iter()
            .map(|s| s.to_string())
            .collect();
    let sorted = sort_strings(items.clone());
    items.sort();
    assert_eq!(sorted, items);
    assert_eq!(sort_strings(vec![]), Vec::<String>::new());
}
