use agent_t::chunking::{fallback_chunk, get_query_patterns};

#[test]
fn a_short_text_is_one_piece() {
    assert!(fallback_chunk("a.txt", "", "Text").is_empty());
    assert!(fallback_chunk("a.txt", " \n\t\n", "Text").is_empty());
    let chunks = fallback_chunk("src/m.rs", "\nfn main() {}\n", "Rust");
    assert_eq!(chunks.len(), 1);
    assert_eq!(chunks[0].file_path, "src/m.rs");
    assert_eq!(chunks[0].language, "Rust");
    assert_eq!(chunks[0].content, "fn main() {}");
    assert_eq!(chunks[0].start_line, 1);
    assert_eq!(chunks[0].end_line, 3);
}

#[test]
fn a_long_text_is_cut_at_a_line_feed_and_the_pieces_overlap() {
    let lines: Vec<String> = (0..30).map(|i| format!("{:02}{}", i, "x".repeat(48))).collect();
    let content: String = lines.iter().map(|l| format!("{}\n", l)).collect();
    assert_eq!(content.len(), 1530);
    let chunks = fallback_chunk("big.txt", &content, "Text");
    assert_eq!(chunks.len(), 2);
    assert_eq!(chunks[0].content, lines[..19].join("\n"));
    assert_eq!(chunks[0].start_line, 1);
    assert_eq!(chunks[0].end_line, 20);
    assert_eq!(chunks[1].content, content[769..].trim());
    assert!(chunks[1].content.starts_with(&"x".repeat(46)));
    assert!(chunks[1].content.ends_with(&lines[29]));
    assert_eq!(chunks[1].start_line, 16);
    assert_eq!(chunks[1].end_line, 31);
}

#[test]
fn no_character_is_cut_in_two() {
    let content = "\u{e9}".repeat(600);
    let chunks = fallback_chunk("e.txt", &content, "Text");
    assert_eq!(chunks.len(), 2);
    assert_eq!(chunks[0].content, "\u{e9}".repeat(501));
    assert_eq!(chunks[1].content, "\u{e9}".repeat(199));
    assert_eq!((chunks[0].start_line, chunks[0].end_line), (1, 1));
    assert_eq!((chunks[1].start_line, chunks[1].end_line), (1, 1));
}

#[test]
fn a_line_feed_early_in_a_long_text_makes_a_short_piece() {
    let content = format!("a\n{}", "b".repeat(1500));
    let chunks = fallback_chunk("f", &content, "Text");
    let texts: Vec<&str> = chunks.iter().map(|c| c.content.as_str()).collect();
    assert_eq!(texts, vec!["a", &"b".repeat(1001), &"b".repeat(699)]);
    assert_eq!((chunks[0].start_line, chunks[0].end_line), (1, 2));
    assert_eq!((chunks[1].start_line, chunks[1].end_line), (2, 2));
    assert_eq!((chunks[2].start_line, chunks[2].end_line), (2, 2));
}

#[test]
fn the_patterns_of_a_language_name_its_units() {
    assert_eq!(
        get_query_patterns("py"),
        Some("\n            (function_definition) @function\n            (class_definition) @class\n            ")
    );
    assert_eq!(get_query_patterns("js"), get_query_patterns("jsx"));
    assert_eq!(get_query_patterns("ts"), get_query_patterns("tsx"));
    assert_eq!(get_query_patterns("c"), get_query_patterns("h"));
    assert_eq!(get_query_patterns("cpp"), get_query_patterns("hpp"));
    assert_eq!(get_query_patterns("cc"), get_query_patterns("cxx"));
    assert_ne!(get_query_patterns("ts"), get_query_patterns("js"));
    assert!(get_query_patterns("rs").unwrap().contains("(trait_item) @trait"));
    assert!(get_query_patterns("go").unwrap().contains("(method_declaration) @method"));
    assert!(get_query_patterns("java").unwrap().contains("(constructor_declaration) @constructor"));
    assert_eq!(get_query_patterns("md"), None);
    assert_eq!(get_query_patterns("RS"), None);
    assert_eq!(get_query_patterns(""), None);
}
