use agent_t::args::ArgValue;
use agent_t::diff::{preview_diff, DiffChangeType, UnifiedDiff};

#[test]
fn test_simple_diff() {
    let old = "line 1\nline 2\nline 3\n";
    let new = "line 1\nline 2 modified\nline 3\n";

    let diff = UnifiedDiff::from_texts("test.txt".to_string(), old, new);

    assert!(diff.has_changes());
    assert_eq!(diff.summary(), "+1, -1");
}

#[test]
fn test_addition_only() {
    let old = "line 1\n";
    let new = "line 1\nline 2\n";

    let diff = UnifiedDiff::from_texts("test.txt".to_string(), old, new);

    assert_eq!(diff.summary(), "+1, -0");
}

#[test]
fn test_deletion_only() {
    let old = "line 1\nline 2\n";
    let new = "line 1\n";

    let diff = UnifiedDiff::from_texts("test.txt".to_string(), old, new);

    assert_eq!(diff.summary(), "+0, -1");
}

#[test]
fn lines_are_numbered_in_each_text() {
    let diff = UnifiedDiff::from_texts(
        "f".to_string(),
        "a\nb\nc\nd\n",
        "a\nB\nc\nd\ne\n",
    );
    assert_eq!(diff.file_path, "f");
    let shown: Vec<(Option<usize>, Option<usize>, DiffChangeType, &str)> = diff
        .lines
        .iter()
        .map(|l| (l.old_line_num, l.new_line_num, l.change_type, l.content.as_str()))
        .collect();
    assert_eq!(
        shown,
        vec![
            (Some(1), Some(1), DiffChangeType::Context, "a"),
            (Some(2), None, DiffChangeType::Deletion, "b"),
            (None, Some(2), DiffChangeType::Addition, "B"),
            (Some(3), Some(3), DiffChangeType::Context, "c"),
            (Some(4), Some(4), DiffChangeType::Context, "d"),
            (None, Some(5), DiffChangeType::Addition, "e"),
        ]
    );
    assert_eq!(diff.summary(), "+2, -1");
}

#[test]
fn equal_texts_have_no_changes() {
    let diff = UnifiedDiff::from_texts("f".to_string(), "same\ntext\n", "same\ntext\n");
    assert!(!diff.has_changes());
    assert_eq!(diff.summary(), "+0, -0");
    assert_eq!(diff.lines.len(), 2);
    let empty = UnifiedDiff::from_texts("f".to_string(), "", "");
    assert!(!empty.has_changes());
    assert_eq!(empty.lines.len(), 0);
}

#[test]
fn changes_are_numbered_as_given() {
    let diff = UnifiedDiff::from_changes(
        "p".to_string(),
        vec![
            (DiffChangeType::Addition, "new\n\n".to_string()),
            (DiffChangeType::Deletion, "old".to_string()),
            (DiffChangeType::Context, "same\n".to_string()),
        ],
    );
    assert_eq!(diff.lines[0].old_line_num, None);
    assert_eq!(diff.lines[0].new_line_num, Some(1));
    assert_eq!(diff.lines[0].content, "new");
    assert_eq!(diff.lines[1].old_line_num, Some(1));
    assert_eq!(diff.lines[1].new_line_num, None);
    assert_eq!(diff.lines[1].content, "old");
    assert_eq!(diff.lines[2].old_line_num, Some(2));
    assert_eq!(diff.lines[2].new_line_num, Some(2));
    assert!(diff.has_changes());
}

fn s(text: &str) -> ArgValue {
    ArgValue::Str(text.to_string())
}

fn obj(entries: Vec<(&str, ArgValue)>) -> ArgValue {
    ArgValue::Object(entries.into_iter().map(|(k, v)| (k.to_string(), v)).collect())
}

#[test]
fn a_write_is_previewed_against_the_file() {
    let args = obj(vec![("file_path", s("a.txt")), ("content", s("one\ntwo\n"))]);
    let diff = preview_diff("write_file", &args, Some("one\n")).unwrap();
    assert_eq!(diff.file_path, "a.txt");
    assert_eq!(diff.summary(), "+1, -0");
    // a file that is not there counts as empty
    let diff = preview_diff("write_file", &args, None).unwrap();
    assert_eq!(diff.summary(), "+2, -0");
    assert!(preview_diff("write_file", &obj(vec![("file_path", s("a"))]), None).is_none());
    assert!(preview_diff("write_file", &obj(vec![("content", s("a"))]), None).is_none());
    assert!(preview_diff("read_file", &args, Some("x")).is_none());
}

#[test]
fn an_edit_is_previewed_on_the_file() {
    let args = obj(vec![("file_path", s("a.txt")), ("old_string", s("x")), ("new_string", s("y"))]);
    let diff = preview_diff("edit_file", &args, Some("x\nx\n")).unwrap();
    assert_eq!(diff.summary(), "+1, -1");
    assert_eq!(diff.lines[1].content, "y");
    let all = obj(vec![
        ("file_path", s("a.txt")),
        ("old_string", s("x")),
        ("new_string", s("y")),
        ("replace_all", ArgValue::Bool(true)),
    ]);
    let diff = preview_diff("edit_file", &all, Some("x\nx\n")).unwrap();
    assert_eq!(diff.summary(), "+2, -2");
    assert!(preview_diff("edit_file", &args, None).is_none());
    assert!(preview_diff("edit_file", &args, Some("no match")).is_none());
    assert!(preview_diff("edit_file", &obj(vec![("file_path", s("a"))]), Some("x")).is_none());
}
