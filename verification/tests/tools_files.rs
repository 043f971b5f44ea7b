use agent_t::tool_args::{EditFileArgs, GlobArgs, GrepArgs, ReadFileArgs, WriteFileArgs};
use agent_t::tools::files::{
    io_error, not_a_directory, not_a_file, DirEntry, EditFile, EntryKind, GlobFiles, GrepSearch,
    IoFailure, ListDir, ReadFile, WriteFile,
};

fn read_args(offset: Option<usize>, limit: Option<usize>) -> ReadFileArgs {
    ReadFileArgs { file_path: "f".to_string(), offset, limit }
}

#[test]
fn a_file_is_shown_with_line_numbers() {
    let contents = "alpha\nbeta\r\ngamma\n";
    assert_eq!(
        ReadFile::render(&read_args(None, None), contents),
        "     1\talpha\n     2\tbeta\n     3\tgamma\n"
    );
    assert_eq!(ReadFile::render(&read_args(Some(2), None), contents), "     2\tbeta\n     3\tgamma\n");
    assert_eq!(ReadFile::render(&read_args(Some(0), Some(1)), contents), "     1\talpha\n");
    assert_eq!(ReadFile::render(&read_args(Some(1), Some(1)), contents), "     1\talpha\n");
    assert_eq!(ReadFile::render(&read_args(Some(2), Some(1)), contents), "     2\tbeta\n");
    assert_eq!(
        ReadFile::render(&read_args(Some(3), Some(usize::MAX)), contents),
        "     3\tgamma\n"
    );
    assert_eq!(
        ReadFile::render(&read_args(None, Some(0)), contents),
        "(empty file or no lines in range 1-0)"
    );
    assert_eq!(
        ReadFile::render(&read_args(Some(9), None), contents),
        "(empty file or no lines in range 9-3)"
    );
    assert_eq!(
        ReadFile::render(&read_args(Some(usize::MAX), Some(usize::MAX)), contents),
        format!("(empty file or no lines in range {}-3)", usize::MAX)
    );
    assert_eq!(
        ReadFile::render(&read_args(None, None), ""),
        "(empty file or no lines in range 1-0)"
    );
    let many: String = (0..1_000_000).map(|_| "\n").collect();
    let shown = ReadFile::render(&read_args(Some(999_999), None), &many);
    assert_eq!(shown, "999999\t\n1000000\t\n");
    assert_eq!(ReadFile::name(), "read_file");
}

#[test]
fn a_write_is_reported() {
    let args = WriteFileArgs { file_path: "out/a.txt".to_string(), content: "h\u{e9}llo\nworld\n".to_string() };
    assert_eq!(WriteFile::report(&args), "Successfully wrote 13 bytes (2 lines) to out/a.txt");
    let empty = WriteFileArgs { file_path: "e".to_string(), content: String::new() };
    assert_eq!(WriteFile::report(&empty), "Successfully wrote 0 bytes (0 lines) to e");
    assert_eq!(WriteFile::name(), "write_file");
}

fn edit_args(old: &str, new: &str, all: Option<bool>) -> EditFileArgs {
    EditFileArgs {
        file_path: "a.rs".to_string(),
        old_string: old.to_string(),
        new_string: new.to_string(),
        replace_all: all,
    }
}

#[test]
fn an_edit_replaces_the_first_or_every_occurrence() {
    let (new, report) = EditFile::apply(&edit_args("foo", "bar", None), "foo foo foo").unwrap();
    assert_eq!(new, "bar foo foo");
    assert_eq!(report, "Successfully replaced 1 occurrence(s) in a.rs");
    let (new, report) = EditFile::apply(&edit_args("foo", "bar", Some(false)), "foo foo").unwrap();
    assert_eq!(new, "bar foo");
    assert_eq!(report, "Successfully replaced 1 occurrence(s) in a.rs");
    let (new, report) = EditFile::apply(&edit_args("foo", "bar", Some(true)), "foo foo foo").unwrap();
    assert_eq!(new, "bar bar bar");
    assert_eq!(report, "Successfully replaced 3 occurrence(s) in a.rs");
    let (new, report) = EditFile::apply(&edit_args("aa", "b", Some(true)), "aaaaa").unwrap();
    assert_eq!(new, "bba");
    assert_eq!(report, "Successfully replaced 2 occurrence(s) in a.rs");
    let (new, report) = EditFile::apply(&edit_args("", "-", Some(true)), "ab").unwrap();
    assert_eq!(new, "-a-b-");
    assert_eq!(report, "Successfully replaced 3 occurrence(s) in a.rs");
    let e = EditFile::apply(&edit_args("zzz", "bar", None), "foo").unwrap_err();
    assert_eq!(
        e.message(),
        "Invalid arguments: The string to replace was not found in a.rs. Make sure the old_string matches exactly, including whitespace."
    );
    assert_eq!(EditFile::name(), "edit_file");
}

fn entry(name: &str, kind: EntryKind) -> DirEntry {
    DirEntry { name: name.to_string(), kind }
}

#[test]
fn a_directory_is_listed_in_order() {
    assert_eq!(ListDir::render(&vec![]), "(empty directory)");
    let entries = vec![
        entry("src", EntryKind::Directory),
        entry("Cargo.toml", EntryKind::Other),
        entry("link", EntryKind::Symlink),
        entry("a.txt", EntryKind::Other),
    ];
    assert_eq!(ListDir::render(&entries), "Cargo.toml\na.txt\nlink@\nsrc/");
    assert_eq!(ListDir::name(), "list_dir");
}

#[test]
fn glob_patterns_and_results() {
    let with_base = GlobArgs { pattern: "**/*.rs".to_string(), base_dir: Some("/w/src//".to_string()) };
    assert_eq!(GlobFiles::full_pattern(&with_base), "/w/src/**/*.rs");
    let root = GlobArgs { pattern: "*".to_string(), base_dir: Some("/".to_string()) };
    assert_eq!(GlobFiles::full_pattern(&root), "/*");
    let plain = GlobArgs { pattern: "*.md".to_string(), base_dir: None };
    assert_eq!(GlobFiles::full_pattern(&plain), "*.md");
    assert_eq!(GlobFiles::render("*.md", vec![]), "No files matching pattern: *.md");
    assert_eq!(
        GlobFiles::render("*", vec!["b.rs".to_string(), "a.rs".to_string(), "a/b.rs".to_string()]),
        "a.rs\na/b.rs\nb.rs\n\n(3 files found)"
    );
    assert_eq!(GlobFiles::name(), "glob");
}

fn grep_args(max: Option<usize>, ignore: Option<bool>, path: Option<&str>) -> GrepArgs {
    GrepArgs {
        pattern: "fn main".to_string(),
        path: path.map(|p| p.to_string()),
        ignore_case: ignore,
        max_results: max,
    }
}

#[test]
fn the_search_is_put_together() {
    assert_eq!(
        GrepSearch::command_line(&grep_args(None, None, None), true),
        vec!["rg", "--line-number", "--color=never", "fn main", "."]
    );
    assert_eq!(
        GrepSearch::command_line(&grep_args(Some(7), Some(true), Some("src")), true),
        vec!["rg", "--line-number", "--color=never", "--ignore-case", "--max-count", "7", "fn main", "src"]
    );
    assert_eq!(
        GrepSearch::command_line(&grep_args(Some(7), Some(false), Some("src")), false),
        vec!["grep", "-rn", "fn main", "src"]
    );
    assert_eq!(
        GrepSearch::command_line(&grep_args(None, Some(true), None), false),
        vec!["grep", "-rn", "-i", "fn main", "."]
    );
    assert_eq!(GrepSearch::name(), "grep");
}

#[test]
fn matches_are_shown_up_to_the_limit() {
    let args = grep_args(Some(2), None, None);
    assert_eq!(GrepSearch::render(&args, "", "", true, Some(0)).unwrap(), "No matches found.");
    assert_eq!(GrepSearch::render(&args, "", "", false, Some(1)).unwrap(), "No matches found.");
    assert_eq!(GrepSearch::render(&args, "a:1:x\nb:2:y\n", "", true, Some(0)).unwrap(), "a:1:x\nb:2:y");
    assert_eq!(
        GrepSearch::render(&args, "a:1:x\nb:2:y\nc:3:z\nd:4:w\n", "", true, Some(0)).unwrap(),
        "a:1:x\nb:2:y\n\n... and 2 more matches (showing first 2)"
    );
    let fifty_one: String = (0..51).map(|i| format!("f:{}:m\n", i)).collect();
    let shown = GrepSearch::render(&grep_args(None, None, None), &fifty_one, "", true, Some(0)).unwrap();
    assert!(shown.ends_with("f:49:m\n\n... and 1 more matches (showing first 50)"));
    // what went to the standard error counts only where the search failed
    assert_eq!(
        GrepSearch::render(&args, "a:1:x\n", "warning", true, Some(0)).unwrap(),
        "a:1:x"
    );
    assert_eq!(
        GrepSearch::render(&args, "", "warning", false, Some(1)).unwrap(),
        "No matches found."
    );
    assert_eq!(
        GrepSearch::render(&args, "", "regex parse error", false, Some(2)).unwrap_err().message(),
        "Command failed: regex parse error"
    );
    assert_eq!(
        GrepSearch::render(&args, "x", "killed", false, None).unwrap_err().message(),
        "Command failed: killed"
    );
    assert_eq!(GrepSearch::render(&args, "x", "", false, Some(2)).unwrap(), "x");
}

#[test]
fn failures_of_the_system_become_errors_of_the_tool() {
    let denied = IoFailure { permission_denied: true, message: "Permission denied (os error 13)".to_string() };
    assert_eq!(io_error("/etc/shadow", &denied).message(), "Permission denied: /etc/shadow");
    let other = IoFailure { permission_denied: false, message: "disk full".to_string() };
    assert_eq!(io_error("/tmp/x", &other).message(), "IO error: disk full");
    assert_eq!(not_a_file("/tmp").message(), "Invalid path: /tmp is not a file");
    assert_eq!(not_a_directory("/a.txt").message(), "Invalid path: /a.txt is not a directory");
}
