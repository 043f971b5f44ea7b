//! Line diffs of two texts, with the lines numbered for display.

use vstd::prelude::*;
use crate::args::ArgValue;
use crate::text::{
    chars_of, contains_seq, extend_str, push_decimal, decimal_spec, replace_chars, replace_spec,
    str_contains, string_of, string_of_range,
};

verus! {

/// What a line of a diff stands for.
#[derive(Debug, Clone, Copy, PartialEq, Eq, Structural)]
pub enum DiffChangeType {
    /// A line of both texts.
    Context,
    /// A line of the new text only.
    Addition,
    /// A line of the old text only.
    Deletion,
}

/// One line of a diff: its number in the old and in the new text, as far
/// as it stands there, and the line without its line feed.
#[derive(Debug, Clone)]
pub struct DiffLine {
    pub old_line_num: Option<usize>,
    pub new_line_num: Option<usize>,
    pub change_type: DiffChangeType,
    pub content: String,
}

/// The diff of two versions of a file.
#[derive(Debug, Clone)]
pub struct UnifiedDiff {
    pub file_path: String,
    pub lines: Vec<DiffLine>,
}

/// The changes that lead from the lines of `old_text` to those of
/// `new_text`, as `similar::TextDiff::from_lines` finds them and
/// `iter_all_changes` lists them: each with what it stands for and its
/// line, line feed included.
pub uninterp spec fn line_changes_of(old_text: Seq<char>, new_text: Seq<char>) -> Seq<
    (DiffChangeType, Seq<char>),
>;

/// The views of a sequence of changes.
pub open spec fn changes_view(changes: Seq<(DiffChangeType, String)>) -> Seq<
    (DiffChangeType, Seq<char>),
> {
    Seq::new(changes.len(), |i: int| (changes[i].0, changes[i].1@))
}

/// `similar::TextDiff::from_lines` followed by `iter_all_changes`: the
/// line diff of two texts by the crate's default algorithm, without a
/// deadline. Each change comes with its tag (equal, insert, delete) and
/// its value. The result is named by [`line_changes_of`]; nothing else is
/// claimed of it.
#[verifier::external_body]
fn line_changes(old_text: &str, new_text: &str) -> (r: Vec<(DiffChangeType, String)>)
    ensures
        changes_view(r@) == line_changes_of(old_text@, new_text@),
{
    let diff = similar::TextDiff::from_lines(old_text, new_text);
    diff.iter_all_changes().map(
        |change|
            (
                match change.tag() {
                    similar::ChangeTag::Equal => DiffChangeType::Context,
                    similar::ChangeTag::Insert => DiffChangeType::Addition,
                    similar::ChangeTag::Delete => DiffChangeType::Deletion,
                },
                change.value().to_string(),
            ),
    ).collect()
}

/// `line` without the line feeds at its end.
pub open spec fn without_line_feeds(line: Seq<char>) -> Seq<char>
    decreases line.len(),
{
    if line.len() > 0 && line.last() == '\n' {
        without_line_feeds(line.drop_last())
    } else {
        line
    }
}

/// The number of changes among the first `n` that stand in the old text.
pub open spec fn old_lines_before(changes: Seq<(DiffChangeType, Seq<char>)>, n: int) -> nat
    decreases n,
{
    if n <= 0 || n > changes.len() {
        0
    } else {
        old_lines_before(changes, n - 1) + if changes[n - 1].0 is Addition {
            0nat
        } else {
            1nat
        }
    }
}

/// The number of changes among the first `n` that stand in the new text.
pub open spec fn new_lines_before(changes: Seq<(DiffChangeType, Seq<char>)>, n: int) -> nat
    decreases n,
{
    if n <= 0 || n > changes.len() {
        0
    } else {
        new_lines_before(changes, n - 1) + if changes[n - 1].0 is Deletion {
            0nat
        } else {
            1nat
        }
    }
}

/// A line of a diff over character sequences.
pub struct DiffLineView {
    pub old_line_num: Option<usize>,
    pub new_line_num: Option<usize>,
    pub change_type: DiffChangeType,
    pub content: Seq<char>,
}

impl View for DiffLine {
    type V = DiffLineView;

    open spec fn view(&self) -> DiffLineView {
        DiffLineView {
            old_line_num: self.old_line_num,
            new_line_num: self.new_line_num,
            change_type: self.change_type,
            content: self.content@,
        }
    }
}

/// The views of a sequence of lines.
pub open spec fn lines_view(lines: Seq<DiffLine>) -> Seq<DiffLineView> {
    Seq::new(lines.len(), |i: int| lines[i]@)
}

/// The line that the change at index `i` gives: numbered from 1 in each
/// text in which it stands.
pub open spec fn numbered_line(changes: Seq<(DiffChangeType, Seq<char>)>, i: int) -> DiffLineView {
    DiffLineView {
        old_line_num: if changes[i].0 is Addition {
            None
        } else {
            Some((old_lines_before(changes, i) + 1) as usize)
        },
        new_line_num: if changes[i].0 is Deletion {
            None
        } else {
            Some((new_lines_before(changes, i) + 1) as usize)
        },
        change_type: changes[i].0,
        content: without_line_feeds(changes[i].1),
    }
}

/// The lines that a sequence of changes gives.
pub open spec fn numbered(changes: Seq<(DiffChangeType, Seq<char>)>) -> Seq<DiffLineView> {
    Seq::new(changes.len(), |i: int| numbered_line(changes, i))
}

/// The number of lines among the first `n` that stand for `kind`.
pub open spec fn count_kind(lines: Seq<DiffLineView>, kind: DiffChangeType, n: int) -> nat
    decreases n,
{
    if n <= 0 || n > lines.len() {
        0
    } else {
        count_kind(lines, kind, n - 1) + if lines[n - 1].change_type == kind {
            1nat
        } else {
            0nat
        }
    }
}

fn strip_line_feeds(line: &str) -> (r: String)
    ensures
        r@ == without_line_feeds(line@),
{
    let v = chars_of(line);
    let mut end: usize = v.len();
    assert(v@.subrange(0, v@.len() as int) == v@);
    while end > 0 && v[end - 1] == '\n'
        invariant
            end <= v@.len(),
            without_line_feeds(v@) == without_line_feeds(v@.subrange(0, end as int)),
        decreases end,
    {
        assert(v@.subrange(0, end as int).drop_last() == v@.subrange(0, end - 1));
        end -= 1;
    }
    string_of_range(&v, 0, end)
}

impl UnifiedDiff {
    /// The path and the lines over character sequences.
    pub open spec fn view(&self) -> (Seq<char>, Seq<DiffLineView>) {
        (self.file_path@, lines_view(self.lines@))
    }

    /// The text that sums the diff up.
    pub open spec fn summary_spec(&self) -> Seq<char> {
        let lines = lines_view(self.lines@);
        "+"@ + decimal_spec(count_kind(lines, DiffChangeType::Addition, lines.len() as int))
            + ", -"@ + decimal_spec(
            count_kind(lines, DiffChangeType::Deletion, lines.len() as int),
        )
    }

    /// Numbers the lines of a diff that was found as a sequence of changes.
    /// Lines of both texts count in both, added lines in the new text,
    /// deleted lines in the old; each line is shown without its line feed.
    pub fn from_changes(file_path: String, changes: Vec<(DiffChangeType, String)>) -> (d: Self)
        ensures
            d@ == (file_path@, numbered(changes_view(changes@))),
    {
        let mut lines: Vec<DiffLine> = Vec::new();
        let mut old_line: usize = 0;
        let mut new_line: usize = 0;
        let ghost cv = changes_view(changes@);
        let mut i: usize = 0;
        while i < changes.len()
            invariant
                i <= changes@.len(),
                cv == changes_view(changes@),
                old_line == old_lines_before(cv, i as int),
                new_line == new_lines_before(cv, i as int),
                old_line <= i,
                new_line <= i,
                lines@.len() == i,
                forall|j: int| 0 <= j < i ==> (#[trigger] lines@[j])@ == numbered_line(cv, j),
            decreases changes@.len() - i,
        {
            let change_type = changes[i].0;
            let content = strip_line_feeds(changes[i].1.as_str());
            let old_line_num = match change_type {
                DiffChangeType::Addition => None,
                _ => Some(old_line + 1),
            };
            let new_line_num = match change_type {
                DiffChangeType::Deletion => None,
                _ => Some(new_line + 1),
            };
            match change_type {
                DiffChangeType::Addition => {},
                _ => {
                    old_line += 1;
                },
            }
            match change_type {
                DiffChangeType::Deletion => {},
                _ => {
                    new_line += 1;
                },
            }
            lines.push(DiffLine { old_line_num, new_line_num, change_type, content });
            i += 1;
        }
        let d = UnifiedDiff { file_path, lines };
        assert(lines_view(d.lines@) =~= numbered(cv));
        d
    }

    /// The line diff of two versions of a file, with its lines numbered.
    pub fn from_texts(file_path: String, old_text: &str, new_text: &str) -> (d: Self)
        ensures
            d@ == (file_path@, numbered(line_changes_of(old_text@, new_text@))),
    {
        Self::from_changes(file_path, line_changes(old_text, new_text))
    }

    fn count(&self, kind: DiffChangeType) -> (n: usize)
        ensures
            n == count_kind(lines_view(self.lines@), kind, self.lines@.len() as int),
    {
        let mut n: usize = 0;
        let mut i: usize = 0;
        let ghost lv = lines_view(self.lines@);
        while i < self.lines.len()
            invariant
                i <= self.lines@.len(),
                lv == lines_view(self.lines@),
                n == count_kind(lv, kind, i as int),
                n <= i,
            decreases self.lines@.len() - i,
        {
            if self.lines[i].change_type == kind {
                n += 1;
            }
            i += 1;
        }
        n
    }

    /// The numbers of added and of deleted lines, as `+a, -d`.
    pub fn summary(&self) -> (r: String)
        ensures
            r@ == self.summary_spec(),
    {
        let additions = self.count(DiffChangeType::Addition);
        let deletions = self.count(DiffChangeType::Deletion);
        let mut out = chars_of("+");
        push_decimal(&mut out, additions as u64);
        extend_str(&mut out, ", -");
        push_decimal(&mut out, deletions as u64);
        string_of(&out)
    }

    /// Whether a line was added or deleted.
    pub fn has_changes(&self) -> (r: bool)
        ensures
            r == exists|i: int|
                0 <= i < self.lines@.len() && !((#[trigger] self.lines@[i]).change_type is Context),
    {
        let mut i: usize = 0;
        while i < self.lines.len()
            invariant
                i <= self.lines@.len(),
                forall|j: int| 0 <= j < i ==> (#[trigger] self.lines@[j]).change_type is Context,
            decreases self.lines@.len() - i,
        {
            if self.lines[i].change_type != DiffChangeType::Context {
                return true;
            }
            i += 1;
        }
        false
    }
}

/// The two versions of a file that a call of `write_file` or `edit_file`
/// is about, where `existing` is what the file holds now, if it is there:
/// the path as the call names it, the old text and the new text. Nothing
/// where the call is none of the two, lacks an argument, or is an edit of
/// a file that is not there or does not hold the text to replace.
pub open spec fn preview_texts(
    tool_name: Seq<char>,
    args: ArgValue,
    existing: Option<Seq<char>>,
) -> Option<(Seq<char>, Seq<char>, Seq<char>)> {
    if tool_name == "write_file"@ {
        match (args.str_field("file_path"@), args.str_field("content"@)) {
            (Some(path), Some(content)) => Some(
                (
                    path,
                    match existing {
                        Some(text) => text,
                        None => Seq::empty(),
                    },
                    content,
                ),
            ),
            _ => None,
        }
    } else if tool_name == "edit_file"@ {
        match (
            args.str_field("file_path"@),
            args.str_field("old_string"@),
            args.str_field("new_string"@),
            existing,
        ) {
            (Some(path), Some(old_string), Some(new_string), Some(text)) => if contains_seq(
                text,
                old_string,
            ) {
                Some(
                    (
                        path,
                        text,
                        replace_spec(
                            text,
                            old_string,
                            new_string,
                            if args.lookup("replace_all"@) == Some(ArgValue::Bool(true)) {
                                None
                            } else {
                                Some(1nat)
                            },
                        ),
                    ),
                )
            } else {
                None
            },
            _ => None,
        }
    } else {
        None
    }
}

/// The diff that shows what a call of `write_file` or `edit_file` would do
/// to its file, where `existing` is what the file holds now, if it is
/// there. Nothing is written.
pub fn preview_diff(tool_name: &str, args: &ArgValue, existing: Option<&str>) -> (r: Option<
    UnifiedDiff,
>)
    ensures
        match preview_texts(
            tool_name@,
            *args,
            match existing {
                Some(t) => Some(t@),
                None => None,
            },
        ) {
            Some((path, old_text, new_text)) => r matches Some(d) && d@ == (
                path,
                numbered(line_changes_of(old_text, new_text)),
            ),
            None => r is None,
        },
{
    if crate::text::str_eq(tool_name, "write_file") {
        let path = match args.get_str("file_path") {
            Some(p) => p,
            None => {
                return None;
            },
        };
        let content = match args.get_str("content") {
            Some(c) => c,
            None => {
                return None;
            },
        };
        let old_text = match existing {
            Some(t) => t,
            None => "",
        };
        proof {
            reveal_strlit("");
            assert(""@ =~= Seq::<char>::empty());
        }
        Some(UnifiedDiff::from_texts(path.clone(), old_text, content.as_str()))
    } else if crate::text::str_eq(tool_name, "edit_file") {
        let path = match args.get_str("file_path") {
            Some(p) => p,
            None => {
                return None;
            },
        };
        let old_string = match args.get_str("old_string") {
            Some(s) => s,
            None => {
                return None;
            },
        };
        let new_string = match args.get_str("new_string") {
            Some(s) => s,
            None => {
                return None;
            },
        };
        let text = match existing {
            Some(t) => t,
            None => {
                return None;
            },
        };
        if !str_contains(text, old_string.as_str()) {
            return None;
        }
        let replace_all = match args.get("replace_all") {
            Some(ArgValue::Bool(b)) => *b,
            _ => false,
        };
        let limit = if replace_all {
            None
        } else {
            Some(1usize)
        };
        let new_text = replace_chars(
            &chars_of(text),
            &chars_of(old_string.as_str()),
            &chars_of(new_string.as_str()),
            limit,
        );
        Some(UnifiedDiff::from_texts(path.clone(), text, string_of(&new_text).as_str()))
    } else {
        None
    }
}

} // verus!
