//! What is reported of a session to whoever watches it.

use vstd::prelude::*;
use crate::text::{
    byte_len, chars_of, extend_chars, is_space, is_whitespace, joined, prefix_end, prefix_within,
    skip_spaces, skip_spaces_back, string_of, string_of_range, trim_end_spec, trim_start_spec,
    utf8_len,
};

verus! {

/// The direction of a message in the record of traffic.
#[derive(Debug, Clone, Copy, PartialEq, Eq, Structural)]
pub enum Direction {
    /// To the model.
    Request,
    /// From the model.
    Response,
    /// The run of a tool.
    Tool,
    /// A notice of the system.
    System,
}

/// How the tab of an agent stands.
#[derive(Debug, Clone, Copy, PartialEq, Eq, Structural)]
pub enum TabStatus {
    Running,
    Completed,
    Failed,
    Killed,
}

/// One entry of the log that is shown of a conversation.
#[derive(Debug, Clone)]
pub enum ChatMessage {
    User(String),
    Assistant(String),
    /// An answer that is still streaming in.
    AssistantStreaming(String),
    ToolHeader { name: String, args: Vec<(String, String)> },
    ToolResult { name: String, success: bool, message: String },
    Info(String),
    Warning(String),
    Error(String),
}

/// The name of the tab of a sub-agent: `Agent-` and the first 8 bytes of
/// its id.
pub open spec fn tab_name_spec(agent_id: Seq<char>) -> Seq<char> {
    "Agent-"@ + prefix_within(agent_id, 8)
}

/// The name of the tab of a sub-agent.
pub fn tab_name(agent_id: &str) -> (r: String)
    ensures
        r@ == tab_name_spec(agent_id@),
{
    let v = crate::text::chars_of(agent_id);
    let k = crate::text::prefix_end(&v, 8);
    joined("Agent-", string_of_range(&v, 0, k).as_str())
}


// ---------------------------------------------------------------------------
// Long lines
// ---------------------------------------------------------------------------

/// `n` spaces.
pub open spec fn spaces(n: nat) -> Seq<char> {
    Seq::new(n, |i: int| ' ')
}

/// The bytes that a line of a wrapped text has for the text itself: the
/// width without the two bytes of the mark at its end, and, on every line
/// but the first, without the indent.
pub open spec fn room(max_width: nat, indent: nat, first: bool) -> nat {
    let taken = if first {
        2
    } else {
        indent + 2
    };
    if max_width >= taken {
        (max_width - taken) as nat
    } else {
        0
    }
}

/// Whether `s` takes at most `bytes` bytes.
pub open spec fn fits(s: Seq<char>, bytes: nat) -> bool {
    prefix_within(s, bytes).len() == s.len()
}

/// The index of the last whitespace before the index `upto`, or -1.
pub open spec fn last_space(s: Seq<char>, upto: int) -> int
    decreases upto,
{
    if upto <= 0 || upto > s.len() {
        -1
    } else if is_space(s[upto - 1]) {
        upto - 1
    } else {
        last_space(s, upto - 1)
    }
}

/// Where a line is broken that has room for `available` bytes of `rest`:
/// at the last whitespace among the characters that fit, where more than
/// half of the room lies before it; else behind the characters that fit;
/// and behind the first character where not even that one fits.
pub open spec fn break_at(rest: Seq<char>, available: nat) -> int {
    let whole = prefix_within(rest, available).len() as int;
    let space = last_space(rest, whole);
    if whole == 0 {
        1
    } else if space >= 0 && space > prefix_within(rest, available / 2).len() {
        space
    } else {
        whole
    }
}

/// The lines of a text that does not fit, from `rest` on: a line that is
/// not the last ends in a space and a backslash, and every line but the
/// first begins with the indent. The whitespace at which a line is broken
/// is left out.
pub open spec fn wrapped_from(rest: Seq<char>, max_width: nat, indent: nat, first: bool) -> Seq<
    Seq<char>,
>
    decreases rest.len(),
{
    let pad = if first {
        Seq::empty()
    } else {
        spaces(indent)
    };
    let available = room(max_width, indent, first);
    if rest.len() == 0 {
        Seq::empty()
    } else if fits(rest, available) {
        seq![pad + rest]
    } else {
        let cut = break_at(rest, available);
        let line = pad + trim_end_spec(rest.take(cut)) + " \\"@;
        let next = trim_start_spec(rest.skip(cut));
        if next.len() < rest.len() {
            seq![line] + wrapped_from(next, max_width, indent, false)
        } else {
            seq![line]
        }
    }
}

/// A text as lines of at most `max_width` bytes: the text itself where it
/// fits beside the indent, and else its parts, broken at whitespace where
/// that does not make a line too short.
pub open spec fn wrapped(text: Seq<char>, max_width: nat, indent: nat) -> Seq<Seq<char>> {
    if utf8_len(text) + indent <= max_width {
        seq![text]
    } else {
        wrapped_from(text, max_width, indent, true)
    }
}

/// A text takes at most `bytes` bytes just where all of it is within the
/// first `bytes` bytes.
pub proof fn lemma_fits(s: Seq<char>, bytes: nat)
    ensures
        fits(s, bytes) == (utf8_len(s) <= bytes),
    decreases s.len(),
{
    if s.len() > 0 && crate::text::char_width(s[0]) <= bytes {
        let left = (bytes - crate::text::char_width(s[0])) as nat;
        lemma_fits(s.drop_first(), left);
        assert(prefix_within(s, bytes).len() == 1 + prefix_within(s.drop_first(), left).len());
    }
}

fn last_space_before(v: &Vec<char>, upto: usize) -> (r: Option<usize>)
    requires
        upto <= v@.len(),
    ensures
        match r {
            Some(j) => j == last_space(v@, upto as int) && j < upto,
            None => last_space(v@, upto as int) == -1,
        },
{
    let mut k: usize = upto;
    while k > 0 && !is_whitespace(v[k - 1])
        invariant
            k <= upto <= v@.len(),
            last_space(v@, k as int) == last_space(v@, upto as int),
        decreases k,
    {
        k -= 1;
    }
    if k > 0 {
        Some(k - 1)
    } else {
        None
    }
}

fn indent_of(indent: usize) -> (r: Vec<char>)
    ensures
        r@ == spaces(indent as nat),
{
    let mut r: Vec<char> = Vec::new();
    while r.len() < indent
        invariant
            r@.len() <= indent,
            r@ == spaces(r@.len()),
        decreases indent - r@.len(),
    {
        let ghost before = r@;
        r.push(' ');
        assert(r@ =~= spaces(r@.len()));
    }
    r
}

impl ChatMessage {
    /// A long text as lines with a backslash at the end of each line that
    /// goes on, as a shell writes a long command. No character is cut in
    /// two, and every line but the last takes at least one character.
    pub fn wrap_with_continuation(text: &str, max_width: usize, indent: usize) -> (lines: Vec<
        String,
    >)
        ensures
            crate::text::views(lines@) == wrapped(text@, max_width as nat, indent as nat),
    {
        if indent <= max_width && byte_len(text) <= max_width - indent {
            let lines = vec![text.to_owned()];
            assert(crate::text::views(lines@) =~= seq![text@]);
            return lines;
        }
        let pad = indent_of(indent);
        let mut lines: Vec<String> = Vec::new();
        let mut rest = chars_of(text);
        let mut first = true;
        assert(crate::text::views(lines@) =~= Seq::<Seq<char>>::empty());
        while rest.len() > 0
            invariant
                pad@ == spaces(indent as nat),
                crate::text::views(lines@) + wrapped_from(
                    rest@,
                    max_width as nat,
                    indent as nat,
                    first,
                ) == wrapped(text@, max_width as nat, indent as nat),
            decreases rest@.len(),
        {
            let ghost done = crate::text::views(lines@);
            let ghost all = rest@;
            let available = if first {
                if max_width >= 2 {
                    max_width - 2
                } else {
                    0
                }
            } else if indent <= max_width && max_width - indent >= 2 {
                max_width - indent - 2
            } else {
                0
            };
            assert(available == room(max_width as nat, indent as nat, first));
            let whole = prefix_end(&rest, available);
            let mut line: Vec<char> = Vec::new();
            if !first {
                extend_chars(&mut line, &pad);
            }
            if whole == rest.len() {
                extend_chars(&mut line, &rest);
                lines.push(string_of(&line));
                assert(crate::text::views(lines@) =~= done + seq![line@]);
                rest = Vec::new();
                assert(wrapped_from(rest@, max_width as nat, indent as nat, false)
                    =~= Seq::<Seq<char>>::empty());
                first = false;
            } else {
                let cut = if whole == 0 {
                    1
                } else {
                    let half = prefix_end(&rest, available / 2);
                    match last_space_before(&rest, whole) {
                        Some(j) => if j > half {
                            j
                        } else {
                            whole
                        },
                        None => whole,
                    }
                };
                assert(cut == break_at(all, available as nat));
                assert(1 <= cut <= rest@.len());
                let end = skip_spaces_back(&rest, 0, cut);
                let kept = string_of_range(&rest, 0, end);
                crate::text::extend_str(&mut line, kept.as_str());
                crate::text::extend_str(&mut line, " \\");
                assert(all.take(cut as int) == all.subrange(0, cut as int));
                lines.push(string_of(&line));
                assert(crate::text::views(lines@) =~= done + seq![line@]);
                let begin = skip_spaces(&rest, cut);
                let tail = string_of_range(&rest, begin, rest.len());
                assert(all.skip(cut as int) == all.subrange(cut as int, all.len() as int));
                let ghost next = trim_start_spec(all.skip(cut as int));
                assert(tail@ == next);
                assert(next.len() < all.len());
                rest = chars_of(tail.as_str());
                first = false;
            }
        }
        lines
    }
}

} // verus!
