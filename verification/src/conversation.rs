//! The messages of a conversation, and what a completion gives.

use vstd::prelude::*;
use crate::args::ArgValue;
use crate::text::{
    chars_of, extend_str, str_eq, string_of, truncate_spec, truncate_string, };

verus! {

/// A request of the model to call a tool.
#[derive(Debug)]
pub struct ToolCall {
    pub id: String,
    pub name: String,
    pub arguments: ArgValue,
}

/// What a tool call gave: the output of the tool, or the text of its
/// error.
#[derive(Debug, Clone)]
pub struct ToolResult {
    pub call_id: String,
    pub content: String,
}

/// One message of the history.
#[derive(Debug)]
pub enum Message {
    /// What the user wrote.
    UserText(String),
    /// The results of the tool calls of the assistant message before it.
    ToolResults(Vec<ToolResult>),
    /// An answer of the model in text.
    AssistantText(String),
    /// A request of the model to call tools, with the text that came with
    /// it.
    AssistantToolCalls { text: Option<String>, calls: Vec<ToolCall> },
}

/// One part of the answer to a request that was sent whole.
#[derive(Debug)]
pub enum AssistantItem {
    Text(String),
    ToolCall(ToolCall),
    /// Reasoning, an image, or anything else that the loop passes over.
    Other,
}

/// One part of an answer as it streams in.
#[derive(Debug)]
pub enum StreamItem {
    Text(String),
    ToolCall(ToolCall),
    /// A piece of a tool call, reasoning, or the final record of the
    /// stream: the loop passes over them.
    Other,
}

/// What a completion gave, whichever way it came: the text, if any, and
/// the tool calls in the order in which they were made.
#[derive(Debug)]
pub struct CompletionOutcome {
    pub text: Option<String>,
    pub tool_calls: Vec<ToolCall>,
}

/// A tool call over character sequences.
pub struct ToolCallView {
    pub id: Seq<char>,
    pub name: Seq<char>,
    pub arguments: ArgValue,
}

impl View for ToolCall {
    type V = ToolCallView;

    open spec fn view(&self) -> ToolCallView {
        ToolCallView { id: self.id@, name: self.name@, arguments: self.arguments }
    }
}

/// The result of a tool call over character sequences.
pub struct ToolResultView {
    pub call_id: Seq<char>,
    pub content: Seq<char>,
}

impl View for ToolResult {
    type V = ToolResultView;

    open spec fn view(&self) -> ToolResultView {
        ToolResultView { call_id: self.call_id@, content: self.content@ }
    }
}

/// The views of a sequence of tool calls.
pub open spec fn calls_view(calls: Seq<ToolCall>) -> Seq<ToolCallView> {
    Seq::new(calls.len(), |i: int| calls[i]@)
}

/// The views of a sequence of tool results.
pub open spec fn results_view(results: Seq<ToolResult>) -> Seq<ToolResultView> {
    Seq::new(results.len(), |i: int| results[i]@)
}

/// A message over character sequences.
pub enum MessageView {
    UserText(Seq<char>),
    ToolResults(Seq<ToolResultView>),
    AssistantText(Seq<char>),
    AssistantToolCalls { text: Option<Seq<char>>, calls: Seq<ToolCallView> },
}

impl View for Message {
    type V = MessageView;

    open spec fn view(&self) -> MessageView {
        match self {
            Message::UserText(t) => MessageView::UserText(t@),
            Message::ToolResults(results) => MessageView::ToolResults(results_view(results@)),
            Message::AssistantText(t) => MessageView::AssistantText(t@),
            Message::AssistantToolCalls { text, calls } => MessageView::AssistantToolCalls {
                text: match text {
                    Some(t) => Some(t@),
                    None => None,
                },
                calls: calls_view(calls@),
            },
        }
    }
}

/// The views of a sequence of messages.
pub open spec fn history_view(history: Seq<Message>) -> Seq<MessageView> {
    Seq::new(history.len(), |i: int| history[i]@)
}

/// The tool calls among the parts of an answer, in order.
pub open spec fn calls_among(items: Seq<AssistantItem>) -> Seq<ToolCall>
    decreases items.len(),
{
    if items.len() == 0 {
        Seq::empty()
    } else {
        match items.last() {
            AssistantItem::ToolCall(c) => calls_among(items.drop_last()).push(c),
            _ => calls_among(items.drop_last()),
        }
    }
}

/// The last text among the parts of an answer.
pub open spec fn last_text_among(items: Seq<AssistantItem>) -> Option<String>
    decreases items.len(),
{
    if items.len() == 0 {
        None
    } else {
        match items.last() {
            AssistantItem::Text(t) => Some(t),
            _ => last_text_among(items.drop_last()),
        }
    }
}

/// Gathers an answer that was sent whole: its tool calls in order, and the
/// last of its texts.
pub fn collect_choice(items: Vec<AssistantItem>) -> (outcome: CompletionOutcome)
    ensures
        outcome.tool_calls@ == calls_among(items@),
        outcome.text == last_text_among(items@),
{
    let mut text: Option<String> = None;
    let mut tool_calls: Vec<ToolCall> = Vec::new();
    let ghost all = items@;
    assert(all.take(0) =~= Seq::<AssistantItem>::empty());
    for item in it: items
        invariant
            it.seq() == all,
            tool_calls@ == calls_among(all.take(it.index() as int)),
            text == last_text_among(all.take(it.index() as int)),
    {
        assert(all.take(it.index() + 1).drop_last() == all.take(it.index() as int));
        assert(all.take(it.index() + 1).last() == item);
        match item {
            AssistantItem::Text(t) => {
                text = Some(t);
            },
            AssistantItem::ToolCall(c) => {
                tool_calls.push(c);
            },
            AssistantItem::Other => {},
        }
    }
    assert(all.take(all.len() as int) == all);
    CompletionOutcome { text, tool_calls }
}


/// The texts among the parts of a stream, one after the other.
pub open spec fn streamed_text(items: Seq<StreamItem>) -> Seq<char>
    decreases items.len(),
{
    if items.len() == 0 {
        Seq::empty()
    } else {
        match items.last() {
            StreamItem::Text(t) => streamed_text(items.drop_last()) + t@,
            _ => streamed_text(items.drop_last()),
        }
    }
}

/// The tool calls among the parts of a stream, in order.
pub open spec fn streamed_calls(items: Seq<StreamItem>) -> Seq<ToolCall>
    decreases items.len(),
{
    if items.len() == 0 {
        Seq::empty()
    } else {
        match items.last() {
            StreamItem::ToolCall(c) => streamed_calls(items.drop_last()).push(c),
            _ => streamed_calls(items.drop_last()),
        }
    }
}

/// Whether one of the calls has the id `id`.
pub open spec fn has_call_id(calls: Seq<ToolCall>, id: Seq<char>) -> bool {
    exists|i: int| 0 <= i < calls.len() && (#[trigger] calls[i]).id@ == id
}

/// The calls `base`, and after them those of `choice` whose id none of the
/// calls before them has.
pub open spec fn merged_calls(base: Seq<ToolCall>, choice: Seq<AssistantItem>) -> Seq<ToolCall>
    decreases choice.len(),
{
    if choice.len() == 0 {
        base
    } else {
        let before = merged_calls(base, choice.drop_last());
        match choice.last() {
            AssistantItem::ToolCall(c) => if has_call_id(before, c.id@) {
                before
            } else {
                before.push(c)
            },
            _ => before,
        }
    }
}

fn any_call_has_id(calls: &Vec<ToolCall>, id: &str) -> (r: bool)
    ensures
        r == has_call_id(calls@, id@),
{
    let mut i: usize = 0;
    while i < calls.len()
        invariant
            i <= calls@.len(),
            forall|j: int| 0 <= j < i ==> (#[trigger] calls@[j]).id@ != id@,
        decreases calls@.len() - i,
    {
        if str_eq(calls[i].id.as_str(), id) {
            return true;
        }
        i += 1;
    }
    false
}

/// Gathers an answer that streamed in: the texts of the stream joined, if
/// there was any text; the tool calls of the stream in order; and after
/// them the tool calls of the answer as the stream summed it up, `choice`,
/// but for those whose id is there already.
pub fn collect_stream(items: Vec<StreamItem>, choice: Vec<AssistantItem>) -> (outcome:
    CompletionOutcome)
    ensures
        outcome.tool_calls@ == merged_calls(streamed_calls(items@), choice@),
        match outcome.text {
            Some(t) => t@ == streamed_text(items@) && t@.len() > 0,
            None => streamed_text(items@).len() == 0,
        },
{
    let mut buffer: Vec<char> = Vec::new();
    let mut tool_calls: Vec<ToolCall> = Vec::new();
    let ghost all = items@;
    assert(all.take(0) =~= Seq::<StreamItem>::empty());
    for item in it: items
        invariant
            it.seq() == all,
            tool_calls@ == streamed_calls(all.take(it.index() as int)),
            buffer@ == streamed_text(all.take(it.index() as int)),
    {
        assert(all.take(it.index() + 1).drop_last() == all.take(it.index() as int));
        assert(all.take(it.index() + 1).last() == item);
        match item {
            StreamItem::Text(t) => {
                extend_str(&mut buffer, t.as_str());
            },
            StreamItem::ToolCall(c) => {
                tool_calls.push(c);
            },
            StreamItem::Other => {},
        }
    }
    assert(all.take(all.len() as int) == all);
    let ghost summed = choice@;
    assert(summed.take(0) =~= Seq::<AssistantItem>::empty());
    for item in it: choice
        invariant
            it.seq() == summed,
            tool_calls@ == merged_calls(streamed_calls(all), summed.take(it.index() as int)),
    {
        assert(summed.take(it.index() + 1).drop_last() == summed.take(it.index() as int));
        assert(summed.take(it.index() + 1).last() == item);
        match item {
            AssistantItem::ToolCall(c) => {
                if !any_call_has_id(&tool_calls, c.id.as_str()) {
                    tool_calls.push(c);
                }
            },
            _ => {},
        }
    }
    assert(summed.take(summed.len() as int) == summed);
    let text = if buffer.len() > 0 {
        Some(string_of(&buffer))
    } else {
        None
    };
    CompletionOutcome { text, tool_calls }
}

// ---------------------------------------------------------------------------
// Arguments for display
// ---------------------------------------------------------------------------

/// How an argument is shown: a string as it is, cut to 100 bytes; any
/// other value as its JSON text.
pub open spec fn display_value_spec(v: ArgValue) -> Seq<char> {
    match v {
        ArgValue::Str(s) => truncate_spec(s@, 100),
        _ => crate::args::compact_json_of(v),
    }
}

/// How an argument is shown.
pub fn display_value(v: &ArgValue) -> (r: String)
    ensures
        r@ == display_value_spec(*v),
{
    match v {
        ArgValue::Str(s) => truncate_string(s.as_str(), 100),
        _ => v.to_compact(),
    }
}

/// The arguments of a payload for display: each field of an object with
/// the text that shows its value, in the order of the fields. A payload
/// that is no object shows nothing.
pub fn display_args(args: &ArgValue) -> (r: Vec<(String, String)>)
    ensures
        match *args {
            ArgValue::Object(entries) => r@.len() == entries@.len() && forall|i: int|
                0 <= i < r@.len() ==> (#[trigger] r@[i]).0@ == entries@[i].0@ && r@[i].1@
                    == display_value_spec(entries@[i].1),
            _ => r@.len() == 0,
        },
{
    let mut out: Vec<(String, String)> = Vec::new();
    match args {
        ArgValue::Object(entries) => {
            let mut i: usize = 0;
            while i < entries.len()
                invariant
                    i <= entries@.len(),
                    out@.len() == i,
                    forall|j: int|
                        0 <= j < i ==> (#[trigger] out@[j]).0@ == entries@[j].0@ && out@[j].1@
                            == display_value_spec(entries@[j].1),
                decreases entries@.len() - i,
            {
                out.push((entries[i].0.clone(), display_value(&entries[i].1)));
                i += 1;
            }
        },
        _ => {},
    }
    out
}

// ---------------------------------------------------------------------------
// The prompt as text
// ---------------------------------------------------------------------------

/// The text of the tool results of a message, a line each.
pub open spec fn render_results(results: Seq<ToolResultView>) -> Seq<char>
    decreases results.len(),
{
    if results.len() == 0 {
        Seq::empty()
    } else {
        render_results(results.drop_last()) + "tool_result["@ + results.last().call_id + "]: "@
            + results.last().content + "\n"@
    }
}

/// The text of the tool calls of a message, a line each.
pub open spec fn render_calls(calls: Seq<ToolCallView>) -> Seq<char>
    decreases calls.len(),
{
    if calls.len() == 0 {
        Seq::empty()
    } else {
        render_calls(calls.drop_last()) + "tool_call["@ + calls.last().id + "] "@
            + calls.last().name + " "@ + crate::args::compact_json_of(calls.last().arguments) + "\n"@
    }
}

/// The text of one message.
pub open spec fn render_message(m: MessageView) -> Seq<char> {
    match m {
        MessageView::UserText(t) => "user: "@ + t + "\n"@,
        MessageView::ToolResults(results) => render_results(results),
        MessageView::AssistantText(t) => "assistant: "@ + t + "\n"@,
        MessageView::AssistantToolCalls { text, calls } => (match text {
            Some(t) => "assistant: "@ + t + "\n"@,
            None => Seq::empty(),
        }) + render_calls(calls),
    }
}

/// The text of a history: its messages one after the other.
pub open spec fn render_history(history: Seq<MessageView>) -> Seq<char>
    decreases history.len(),
{
    if history.len() == 0 {
        Seq::empty()
    } else {
        render_history(history.drop_last()) + render_message(history.last())
    }
}

/// The prompt that a request with this history stands for, as text: the
/// system prompt on a line, then the history.
pub open spec fn prompt_text_spec(preamble: Seq<char>, history: Seq<MessageView>) -> Seq<char> {
    preamble + "\n"@ + render_history(history)
}

/// Appends the text of one message.
pub fn push_message_text(out: &mut Vec<char>, m: &Message)
    ensures
        final(out)@ == old(out)@ + render_message(m@),
{
    match m {
        Message::UserText(t) => {
            extend_str(out, "user: ");
            extend_str(out, t.as_str());
            extend_str(out, "\n");
            assert(out@ =~= old(out)@ + render_message(m@));
        },
        Message::ToolResults(results) => {
            let mut i: usize = 0;
            let ghost rv = results_view(results@);
            assert(rv.take(0) =~= Seq::<ToolResultView>::empty());
            assert(out@ =~= old(out)@ + render_results(rv.take(0)));
            while i < results.len()
                invariant
                    i <= results@.len(),
                    rv == results_view(results@),
                    out@ == old(out)@ + render_results(rv.take(i as int)),
                decreases results@.len() - i,
            {
                extend_str(out, "tool_result[");
                extend_str(out, results[i].call_id.as_str());
                extend_str(out, "]: ");
                extend_str(out, results[i].content.as_str());
                extend_str(out, "\n");
                assert(rv.take(i + 1).drop_last() == rv.take(i as int));
                assert(rv.take(i + 1).last() == results@[i as int]@);
                assert(out@ =~= old(out)@ + render_results(rv.take(i + 1)));
                i += 1;
            }
            assert(rv.take(results@.len() as int) == rv);
        },
        Message::AssistantText(t) => {
            extend_str(out, "assistant: ");
            extend_str(out, t.as_str());
            extend_str(out, "\n");
            assert(out@ =~= old(out)@ + render_message(m@));
        },
        Message::AssistantToolCalls { text, calls } => {
            match text {
                Some(t) => {
                    extend_str(out, "assistant: ");
                    extend_str(out, t.as_str());
                    extend_str(out, "\n");
                },
                None => {},
            }
            let ghost head = out@;
            let ghost cv = calls_view(calls@);
            let mut i: usize = 0;
            assert(cv.take(0) =~= Seq::<ToolCallView>::empty());
            assert(out@ =~= head + render_calls(cv.take(0)));
            while i < calls.len()
                invariant
                    i <= calls@.len(),
                    cv == calls_view(calls@),
                    out@ == head + render_calls(cv.take(i as int)),
                decreases calls@.len() - i,
            {
                extend_str(out, "tool_call[");
                extend_str(out, calls[i].id.as_str());
                extend_str(out, "] ");
                extend_str(out, calls[i].name.as_str());
                extend_str(out, " ");
                extend_str(out, calls[i].arguments.to_compact().as_str());
                extend_str(out, "\n");
                assert(cv.take(i + 1).drop_last() == cv.take(i as int));
                assert(cv.take(i + 1).last() == calls@[i as int]@);
                assert(out@ =~= head + render_calls(cv.take(i + 1)));
                i += 1;
            }
            assert(cv.take(calls@.len() as int) == cv);
            assert(out@ =~= old(out)@ + render_message(m@));
        },
    }
}

/// The prompt that a request with this history stands for, as text.
pub fn prompt_text(preamble: &str, history: &Vec<Message>) -> (r: String)
    ensures
        r@ == prompt_text_spec(preamble@, history_view(history@)),
{
    let mut out = chars_of(preamble);
    extend_str(&mut out, "\n");
    let ghost hv = history_view(history@);
    let mut i: usize = 0;
    assert(hv.take(0) =~= Seq::<MessageView>::empty());
    assert(out@ =~= preamble@ + "\n"@ + render_history(hv.take(0)));
    while i < history.len()
        invariant
            i <= history@.len(),
            hv == history_view(history@),
            out@ == preamble@ + "\n"@ + render_history(hv.take(i as int)),
        decreases history@.len() - i,
    {
        push_message_text(&mut out, &history[i]);
        assert(hv.take(i + 1).drop_last() == hv.take(i as int));
        assert(hv.take(i + 1).last() == history@[i as int]@);
        assert(out@ =~= preamble@ + "\n"@ + render_history(hv.take(i + 1)));
        i += 1;
    }
    assert(hv.take(history@.len() as int) == hv);
    string_of(&out)
}

} // verus!
