//! The tools that read, write and search files.

use vstd::prelude::*;
use crate::error::{ToolError, ToolErrorView};
use crate::names::{sort_strings, sorted};
use crate::text::{
    byte_len, chars_of, joined, count_matches, contains_seq, decimal_spec, extend_chars,
    extend_str, join, join_spec, lines, lines_spec, match_count, pad_left_spec, push_decimal,
    push_padded, replace_chars, replace_spec, string_of, utf8_len, views,
};
use crate::tool_args::{
    opt_view, EditFileArgs, GlobArgs, GrepArgs, ReadFileArgs, WriteFileArgs,
};

verus! {

/// A failure of reading or writing, as the system reported it.
#[derive(Debug, Clone)]
pub struct IoFailure {
    /// Whether the system refused for want of permission.
    pub permission_denied: bool,
    /// The text of the error.
    pub message: String,
}

/// The error of a tool for a failure of reading or writing at `path`.
pub fn io_error(path: &str, failure: &IoFailure) -> (e: ToolError)
    ensures
        e@ == if failure.permission_denied {
            ToolErrorView::PermissionDenied(path@)
        } else {
            ToolErrorView::Io(failure.message@)
        },
{
    if failure.permission_denied {
        ToolError::permission_denied(path)
    } else {
        ToolError::io(failure.message.as_str())
    }
}

/// The error of a tool for a path that is there but is no file.
pub fn not_a_file(path: &str) -> (e: ToolError)
    ensures
        e@ == ToolErrorView::InvalidPath(path@ + " is not a file"@),
{
    ToolError::InvalidPath(joined(path, " is not a file"))
}

/// The error of a tool for a path that is there but is no directory.
pub fn not_a_directory(path: &str) -> (e: ToolError)
    ensures
        e@ == ToolErrorView::InvalidPath(path@ + " is not a directory"@),
{
    ToolError::InvalidPath(joined(path, " is not a directory"))
}

// ---------------------------------------------------------------------------
// read_file
// ---------------------------------------------------------------------------

/// The tool that reads a file.
#[derive(Debug, Default)]
pub struct ReadFile;

/// The index of the first line that is shown: one less than the offset,
/// which counts from 1; the first line where no offset is given.
pub open spec fn first_shown(offset: Option<usize>) -> nat {
    match offset {
        Some(o) => if o == 0 {
            0
        } else {
            (o - 1) as nat
        },
        None => 0,
    }
}

/// The index after the last line that is shown.
pub open spec fn last_shown(offset: Option<usize>, limit: Option<usize>, total: nat) -> nat {
    match limit {
        Some(l) => if first_shown(offset) + l < total {
            (first_shown(offset) + l) as nat
        } else {
            total
        },
        None => total,
    }
}

/// One line as it is shown: its number, counted from 1, to the right in
/// six columns, a tab, the line, and a line feed.
pub open spec fn shown_line(index: nat, line: Seq<char>) -> Seq<char> {
    pad_left_spec(decimal_spec(index + 1), 6) + seq!['\t'] + line + seq!['\n']
}

/// The lines from index `from` up to index `to` as they are shown.
pub open spec fn shown_lines(all: Seq<Seq<char>>, from: nat, to: nat) -> Seq<char>
    decreases to,
{
    if to <= from || to > all.len() {
        Seq::empty()
    } else {
        shown_lines(all, from, (to - 1) as nat) + shown_line((to - 1) as nat, all[to - 1])
    }
}

/// What `read_file` gives for a file that holds `contents`.
pub open spec fn read_file_text(offset: Option<usize>, limit: Option<usize>, contents: Seq<char>)
    -> Seq<char> {
    let all = lines_spec(contents);
    let from = first_shown(offset);
    let to = last_shown(offset, limit, all.len());
    if from < to {
        shown_lines(all, from, to)
    } else {
        "(empty file or no lines in range "@ + decimal_spec(from + 1) + "-"@ + decimal_spec(to)
            + ")"@
    }
}

impl ReadFile {
    /// The name of the tool.
    pub fn name() -> (r: &'static str)
        ensures
            r@ == "read_file"@,
    {
        "read_file"
    }

    /// What the tool gives for a file that holds `contents`: the lines
    /// that the arguments ask for, each with its number, or a note that
    /// there are none.
    pub fn render(args: &ReadFileArgs, contents: &str) -> (r: String)
        ensures
            r@ == read_file_text(args.offset, args.limit, contents@),
    {
        let all = lines(contents);
        let total = all.len();
        let start: usize = match args.offset {
            Some(o) => if o == 0 {
                0
            } else {
                o - 1
            },
            None => 0,
        };
        let end: usize = match args.limit {
            Some(l) => if l < total && start < total - l {
                start + l
            } else {
                total
            },
            None => total,
        };
        let ghost av = views(all@);
        if start < end {
            let mut out: Vec<char> = Vec::new();
            let mut i: usize = start;
            while i < end
                invariant
                    start <= i <= end <= all@.len(),
                    av == views(all@),
                    out@ == shown_lines(av, start as nat, i as nat),
                decreases end - i,
            {
                let mut number: Vec<char> = Vec::new();
                push_decimal(&mut number, (i + 1) as u64);
                let mut shown: Vec<char> = Vec::new();
                push_padded(&mut shown, &number, 6);
                shown.push('\t');
                extend_str(&mut shown, all[i].as_str());
                shown.push('\n');
                assert(shown@ =~= shown_line(i as nat, av[i as int]));
                extend_chars(&mut out, &shown);
                i += 1;
            }
            string_of(&out)
        } else {
            let mut out = chars_of("(empty file or no lines in range ");
            push_decimal(&mut out, (start + 1) as u64);
            extend_str(&mut out, "-");
            push_decimal(&mut out, end as u64);
            extend_str(&mut out, ")");
            string_of(&out)
        }
    }
}

// ---------------------------------------------------------------------------
// write_file
// ---------------------------------------------------------------------------

/// The tool that writes a file.
#[derive(Debug, Default)]
pub struct WriteFile;

/// What `write_file` gives once the file is written.
pub open spec fn write_file_text(path: Seq<char>, content: Seq<char>) -> Seq<char> {
    "Successfully wrote "@ + decimal_spec(utf8_len(content)) + " bytes ("@ + decimal_spec(
        lines_spec(content).len(),
    ) + " lines) to "@ + path
}

impl WriteFile {
    /// The name of the tool.
    pub fn name() -> (r: &'static str)
        ensures
            r@ == "write_file"@,
    {
        "write_file"
    }

    /// What the tool gives once the file is written: how many bytes and
    /// lines went where.
    pub fn report(args: &WriteFileArgs) -> (r: String)
        ensures
            r@ == write_file_text(args.file_path@, args.content@),
    {
        let line_count = lines(args.content.as_str()).len();
        let byte_count = byte_len(args.content.as_str());
        let mut out = chars_of("Successfully wrote ");
        push_decimal(&mut out, byte_count as u64);
        extend_str(&mut out, " bytes (");
        push_decimal(&mut out, line_count as u64);
        extend_str(&mut out, " lines) to ");
        extend_str(&mut out, args.file_path.as_str());
        string_of(&out)
    }
}

// ---------------------------------------------------------------------------
// edit_file
// ---------------------------------------------------------------------------

/// The tool that edits a file.
#[derive(Debug, Default)]
pub struct EditFile;

/// The text of the error for a file that does not hold the text to
/// replace.
pub open spec fn not_found_in_file_text(path: Seq<char>) -> Seq<char> {
    "The string to replace was not found in "@ + path
        + ". Make sure the old_string matches exactly, including whitespace."@
}

/// What `edit_file` gives once the file is written.
pub open spec fn edit_file_text(path: Seq<char>, count: nat) -> Seq<char> {
    "Successfully replaced "@ + decimal_spec(count) + " occurrence(s) in "@ + path
}

/// Whether every occurrence is to be replaced.
pub open spec fn replaces_all(args: EditFileArgs) -> bool {
    args.replace_all == Some(true)
}

/// The number of occurrences that an edit replaces, as far as it can be
/// counted.
pub open spec fn replaced_count(args: EditFileArgs, contents: Seq<char>) -> nat {
    if replaces_all(args) {
        if match_count(contents, args.old_string@) > usize::MAX {
            usize::MAX as nat
        } else {
            match_count(contents, args.old_string@)
        }
    } else {
        1
    }
}

impl EditFile {
    /// The name of the tool.
    pub fn name() -> (r: &'static str)
        ensures
            r@ == "edit_file"@,
    {
        "edit_file"
    }

    /// What an edit makes of a file that holds `contents`: the new
    /// contents and what the tool gives once they are written, or the
    /// error for a file that does not hold the text to replace. The first
    /// occurrence is replaced, or every one where the arguments say so.
    pub fn apply(args: &EditFileArgs, contents: &str) -> (r: Result<(String, String), ToolError>)
        ensures
            match r {
                Ok((new_contents, report)) => {
                    &&& contains_seq(contents@, args.old_string@)
                    &&& new_contents@ == replace_spec(
                        contents@,
                        args.old_string@,
                        args.new_string@,
                        if replaces_all(*args) {
                            None
                        } else {
                            Some(1nat)
                        },
                    )
                    &&& report@ == edit_file_text(
                        args.file_path@,
                        replaced_count(*args, contents@),
                    )
                },
                Err(e) => !contains_seq(contents@, args.old_string@) && e@
                    == ToolErrorView::InvalidArguments(not_found_in_file_text(args.file_path@)),
            },
    {
        let text = chars_of(contents);
        let old_string = chars_of(args.old_string.as_str());
        let new_string = chars_of(args.new_string.as_str());
        if !crate::text::contains_chars(&text, &old_string) {
            let mut m = chars_of("The string to replace was not found in ");
            extend_str(&mut m, args.file_path.as_str());
            extend_str(
                &mut m,
                ". Make sure the old_string matches exactly, including whitespace.",
            );
            return Err(ToolError::InvalidArguments(string_of(&m)));
        }
        let all = match args.replace_all {
            Some(b) => b,
            None => false,
        };
        let (new_contents, count) = if all {
            (replace_chars(&text, &old_string, &new_string, None), count_matches(&text, &old_string))
        } else {
            (replace_chars(&text, &old_string, &new_string, Some(1)), 1usize)
        };
        let mut report = chars_of("Successfully replaced ");
        push_decimal(&mut report, count as u64);
        extend_str(&mut report, " occurrence(s) in ");
        extend_str(&mut report, args.file_path.as_str());
        Ok((string_of(&new_contents), string_of(&report)))
    }
}

// ---------------------------------------------------------------------------
// list_dir
// ---------------------------------------------------------------------------

/// The tool that lists a directory.
#[derive(Debug, Default)]
pub struct ListDir;

/// What an entry of a directory is.
#[derive(Debug, Clone, Copy, PartialEq, Eq, Structural)]
pub enum EntryKind {
    Directory,
    Symlink,
    Other,
}

/// An entry of a directory.
#[derive(Debug, Clone)]
pub struct DirEntry {
    pub name: String,
    pub kind: EntryKind,
}

/// An entry as it is shown: its name, with `/` after a directory and `@`
/// after a symbolic link.
pub open spec fn shown_entry(entry: DirEntry) -> Seq<char> {
    entry.name@ + match entry.kind {
        EntryKind::Directory => "/"@,
        EntryKind::Symlink => "@"@,
        EntryKind::Other => ""@,
    }
}

/// The entries as they are shown, in the order in which they came.
pub open spec fn shown_entries(entries: Seq<DirEntry>) -> Seq<Seq<char>> {
    Seq::new(entries.len(), |i: int| shown_entry(entries[i]))
}

impl ListDir {
    /// The name of the tool.
    pub fn name() -> (r: &'static str)
        ensures
            r@ == "list_dir"@,
    {
        "list_dir"
    }

    /// What the tool gives for a directory with the given entries: the
    /// entries as they are shown, in the order of strings, a line each; or
    /// a note that there are none.
    pub fn render(entries: &Vec<DirEntry>) -> (r: String)
        ensures
            entries@.len() == 0 ==> r@ == "(empty directory)"@,
            entries@.len() > 0 ==> exists|listed: Seq<Seq<char>>|
                #![auto]
                sorted(listed) && listed.to_multiset() == shown_entries(entries@).to_multiset()
                    && r@ == join_spec(listed, "\n"@),
    {
        if entries.len() == 0 {
            return "(empty directory)".to_owned();
        }
        let mut shown: Vec<String> = Vec::new();
        let mut i: usize = 0;
        while i < entries.len()
            invariant
                i <= entries@.len(),
                shown@.len() == i,
                forall|j: int| 0 <= j < i ==> (#[trigger] shown@[j])@ == shown_entry(entries@[j]),
            decreases entries@.len() - i,
        {
            let mark = match entries[i].kind {
                EntryKind::Directory => "/",
                EntryKind::Symlink => "@",
                EntryKind::Other => "",
            };
            shown.push(joined(entries[i].name.as_str(), mark));
            i += 1;
        }
        assert(views(shown@) =~= shown_entries(entries@));
        let listed = sort_strings(shown);
        join(&listed, "\n")
    }
}

// ---------------------------------------------------------------------------
// glob
// ---------------------------------------------------------------------------

/// The tool that finds files by a glob pattern.
#[derive(Debug, Default)]
pub struct GlobFiles;

/// `base` without the separators at its end.
pub open spec fn without_trailing_slashes(base: Seq<char>) -> Seq<char>
    decreases base.len(),
{
    if base.len() > 0 && base.last() == '/' {
        without_trailing_slashes(base.drop_last())
    } else {
        base
    }
}

/// The pattern that is searched: the pattern of the call, below the base
/// directory where one is given.
pub open spec fn full_pattern_spec(pattern: Seq<char>, base_dir: Option<Seq<char>>) -> Seq<char> {
    match base_dir {
        Some(base) => without_trailing_slashes(base) + "/"@ + pattern,
        None => pattern,
    }
}

impl GlobFiles {
    /// The name of the tool.
    pub fn name() -> (r: &'static str)
        ensures
            r@ == "glob"@,
    {
        "glob"
    }

    /// The pattern that is searched.
    pub fn full_pattern(args: &GlobArgs) -> (r: String)
        ensures
            r@ == full_pattern_spec(args.pattern@, opt_view(args.base_dir)),
    {
        match &args.base_dir {
            Some(base) => {
                let v = chars_of(base.as_str());
                let mut end: usize = v.len();
                assert(v@.subrange(0, v@.len() as int) == v@);
                while end > 0 && v[end - 1] == '/'
                    invariant
                        end <= v@.len(),
                        without_trailing_slashes(v@) == without_trailing_slashes(
                            v@.subrange(0, end as int),
                        ),
                    decreases end,
                {
                    assert(v@.subrange(0, end as int).drop_last() == v@.subrange(0, end - 1));
                    end -= 1;
                }
                let trimmed = crate::text::string_of_range(&v, 0, end);
                crate::text::joined3(trimmed.as_str(), "/", args.pattern.as_str())
            },
            None => args.pattern.clone(),
        }
    }

    /// What the tool gives for the files that the search found: the paths
    /// in the order of strings, a line each, and their number; or a note
    /// that there are none.
    pub fn render(full_pattern: &str, files: Vec<String>) -> (r: String)
        ensures
            files@.len() == 0 ==> r@ == "No files matching pattern: "@ + full_pattern@,
            files@.len() > 0 ==> exists|listed: Seq<Seq<char>>|
                #![auto]
                sorted(listed) && listed.to_multiset() == views(files@).to_multiset() && r@
                    == join_spec(listed, "\n"@) + "\n\n("@ + decimal_spec(files@.len())
                    + " files found)"@,
    {
        if files.len() == 0 {
            return joined("No files matching pattern: ", full_pattern);
        }
        let listed = sort_strings(files);
        let count = listed.len();
        let mut out = chars_of(join(&listed, "\n").as_str());
        extend_str(&mut out, "\n\n(");
        push_decimal(&mut out, count as u64);
        extend_str(&mut out, " files found)");
        string_of(&out)
    }
}

// ---------------------------------------------------------------------------
// grep
// ---------------------------------------------------------------------------

/// The tool that searches files for a pattern.
#[derive(Debug, Default)]
pub struct GrepSearch;

/// The largest number of matches that are shown where the call sets none.
pub const DEFAULT_MAX_RESULTS: usize = 50;

/// The place that is searched: that of the call, or the current directory.
pub open spec fn search_path(path: Option<Seq<char>>) -> Seq<char> {
    match path {
        Some(p) => p,
        None => "."@,
    }
}

/// The command line of the search, program first: `rg` where it can be
/// had, and `grep` where not.
pub open spec fn grep_command_spec(args: GrepArgs, use_rg: bool) -> Seq<Seq<char>> {
    let ignore = args.ignore_case == Some(true);
    if use_rg {
        seq!["rg"@, "--line-number"@, "--color=never"@] + (if ignore {
            seq!["--ignore-case"@]
        } else {
            Seq::empty()
        }) + (match args.max_results {
            Some(max) => seq!["--max-count"@, decimal_spec(max as nat)],
            None => Seq::empty(),
        }) + seq![args.pattern@, search_path(opt_view(args.path))]
    } else {
        seq!["grep"@, "-rn"@] + (if ignore {
            seq!["-i"@]
        } else {
            Seq::empty()
        }) + seq![args.pattern@, search_path(opt_view(args.path))]
    }
}

/// The number of matches that are shown at most.
pub open spec fn shown_max(args: GrepArgs) -> nat {
    match args.max_results {
        Some(max) => max as nat,
        None => DEFAULT_MAX_RESULTS as nat,
    }
}

/// What `grep` gives for a search that printed `stdout`.
pub open spec fn grep_text(args: GrepArgs, stdout: Seq<char>) -> Seq<char> {
    let all = lines_spec(stdout);
    let max = shown_max(args);
    if stdout.len() == 0 {
        "No matches found."@
    } else if all.len() > max {
        join_spec(all.take(max as int), "\n"@) + "\n\n... and "@ + decimal_spec(
            (all.len() - max) as nat,
        ) + " more matches (showing first "@ + decimal_spec(max) + ")"@
    } else {
        join_spec(all, "\n"@)
    }
}

/// Whether a search failed: it wrote to its standard error and ended
/// without success, with a code other than 1, which stands for no match.
pub open spec fn grep_failed(stderr: Seq<char>, success: bool, code: Option<i32>) -> bool {
    stderr.len() > 0 && !success && code != Some(1i32)
}

impl GrepSearch {
    /// The name of the tool.
    pub fn name() -> (r: &'static str)
        ensures
            r@ == "grep"@,
    {
        "grep"
    }

    /// The command line of the search, program first.
    pub fn command_line(args: &GrepArgs, use_rg: bool) -> (r: Vec<String>)
        ensures
            views(r@) == grep_command_spec(*args, use_rg),
    {
        let ignore = match args.ignore_case {
            Some(b) => b,
            None => false,
        };
        let mut r: Vec<String> = Vec::new();
        if use_rg {
            r.push("rg".to_owned());
            r.push("--line-number".to_owned());
            r.push("--color=never".to_owned());
            if ignore {
                r.push("--ignore-case".to_owned());
            }
            match args.max_results {
                Some(max) => {
                    r.push("--max-count".to_owned());
                    r.push(crate::text::decimal(max as u64));
                },
                None => {},
            }
        } else {
            r.push("grep".to_owned());
            r.push("-rn".to_owned());
            if ignore {
                r.push("-i".to_owned());
            }
        }
        r.push(args.pattern.clone());
        match &args.path {
            Some(p) => {
                r.push(p.clone());
            },
            None => {
                r.push(".".to_owned());
            },
        }
        assert(views(r@) =~= grep_command_spec(*args, use_rg));
        r
    }

    /// What the tool gives for a search that printed `stdout` and `stderr`
    /// and ended as `success` and `code` say: the error of a search that
    /// failed; a note where nothing matched; and else the matches, the
    /// first of them where there are more than are shown.
    pub fn render(args: &GrepArgs, stdout: &str, stderr: &str, success: bool, code: Option<i32>)
        -> (r: Result<String, ToolError>)
        ensures
            match r {
                Ok(text) => !grep_failed(stderr@, success, code) && text@ == grep_text(
                    *args,
                    stdout@,
                ),
                Err(e) => grep_failed(stderr@, success, code) && e@ == ToolErrorView::CommandFailed(
                    stderr@,
                ),
            },
    {
        let is_one = match code {
            Some(c) => c == 1,
            None => false,
        };
        if chars_of(stderr).len() > 0 && !success && !is_one {
            return Err(ToolError::command_failed(stderr));
        }
        if chars_of(stdout).len() == 0 {
            return Ok("No matches found.".to_owned());
        }
        let max: usize = match args.max_results {
            Some(m) => m,
            None => DEFAULT_MAX_RESULTS,
        };
        let all = lines(stdout);
        let total = all.len();
        if total > max {
            let mut first: Vec<String> = Vec::new();
            let mut i: usize = 0;
            while i < max
                invariant
                    i <= max < all@.len(),
                    first@.len() == i,
                    forall|j: int| 0 <= j < i ==> (#[trigger] first@[j])@ == all@[j]@,
                decreases max - i,
            {
                first.push(all[i].clone());
                i += 1;
            }
            assert(views(first@) =~= views(all@).take(max as int));
            let mut out = chars_of(join(&first, "\n").as_str());
            extend_str(&mut out, "\n\n... and ");
            push_decimal(&mut out, (total - max) as u64);
            extend_str(&mut out, " more matches (showing first ");
            push_decimal(&mut out, max as u64);
            extend_str(&mut out, ")");
            Ok(string_of(&out))
        } else {
            Ok(join(&all, "\n"))
        }
    }
}

} // verus!
