//! The tools of the code intelligence: what they ask of the language
//! server, and how its answers are shown.

use vstd::prelude::*;
use crate::error::{ToolError, ToolErrorView};
use crate::text::{
    chars_of, contains_seq, decimal_spec, extend_chars, extend_str, push_decimal, str_contains,
    string_of, truncate_spec, truncate_string,
};
use crate::tool_args::{
    opt_view, RaCodeActionsArgs, RaCompletionArgs, RaDiagnosticsArgs, RaFindReferencesArgs,
    RaGotoDefinitionArgs, RaHoverArgs, RaRenameArgs, RaSymbolsArgs,
};

verus! {

/// A place in a file as the language server counts: lines and columns
/// from 0.
#[derive(Debug, Clone, Copy, PartialEq, Eq, Structural)]
pub struct Position {
    pub line: u32,
    pub character: u32,
}

/// One less than `n`, and 0 for 0.
pub open spec fn zero_based(n: u32) -> u32 {
    if n == 0 {
        0
    } else {
        (n - 1) as u32
    }
}

/// The place that a line and a column stand for that count from 1. A 0
/// stands for the first line or column, as a 1 does.
pub fn position(line: u32, column: u32) -> (p: Position)
    ensures
        p == (Position { line: zero_based(line), character: zero_based(column) }),
{
    Position {
        line: if line == 0 {
            0
        } else {
            line - 1
        },
        character: if column == 0 {
            0
        } else {
            column - 1
        },
    }
}

/// The error of a tool of the code intelligence where no language server
/// is at hand.
pub fn not_available() -> (e: ToolError)
    ensures
        e@ == ToolErrorView::Other(
            "rust-analyzer is not available (not a Rust project or rust-analyzer not installed)"@,
        ),
{
    ToolError::other(
        "rust-analyzer is not available (not a Rust project or rust-analyzer not installed)",
    )
}

/// The error of a tool of the code intelligence where the language server
/// could not do `what` was asked of it, for the reason `cause`.
pub fn failed(what: &str, cause: &str) -> (e: ToolError)
    ensures
        e@ == ToolErrorView::Other("Failed to "@ + what@ + ": "@ + cause@),
{
    let mut text = chars_of("Failed to ");
    extend_str(&mut text, what);
    extend_str(&mut text, ": ");
    extend_str(&mut text, cause);
    ToolError::other(string_of(&text).as_str())
}

/// The tool that reports the diagnostics of the project.
#[derive(Debug, Default)]
pub struct RaDiagnostics;

/// The tool that finds the definition of a symbol.
#[derive(Debug, Default)]
pub struct RaGotoDefinition;

/// The tool that finds the references to a symbol.
#[derive(Debug, Default)]
pub struct RaFindReferences;

/// The tool that shows what is known of a symbol.
#[derive(Debug, Default)]
pub struct RaHover;

/// The tool that lists symbols.
#[derive(Debug, Default)]
pub struct RaSymbols;

/// The tool that suggests completions.
#[derive(Debug, Default)]
pub struct RaCompletion;

/// The tool that lists the code actions for a range.
#[derive(Debug, Default)]
pub struct RaCodeActions;

/// The tool that renames a symbol.
#[derive(Debug, Default)]
pub struct RaRename;

/// The tool that formats a file.
#[derive(Debug, Default)]
pub struct RaFormat;

impl RaDiagnostics {
    /// The name of the tool.
    pub fn name() -> (r: &'static str)
        ensures
            r@ == "ra_diagnostics"@,
    {
        "ra_diagnostics"
    }
}

impl RaGotoDefinition {
    /// The name of the tool.
    pub fn name() -> (r: &'static str)
        ensures
            r@ == "ra_goto_definition"@,
    {
        "ra_goto_definition"
    }

    /// The place that the call asks about.
    pub fn position(args: &RaGotoDefinitionArgs) -> (p: Position)
        ensures
            p == (Position { line: zero_based(args.line), character: zero_based(args.column) }),
    {
        position(args.line, args.column)
    }
}

impl RaFindReferences {
    /// The name of the tool.
    pub fn name() -> (r: &'static str)
        ensures
            r@ == "ra_find_references"@,
    {
        "ra_find_references"
    }

    /// The place that the call asks about.
    pub fn position(args: &RaFindReferencesArgs) -> (p: Position)
        ensures
            p == (Position { line: zero_based(args.line), character: zero_based(args.column) }),
    {
        position(args.line, args.column)
    }
}

impl RaHover {
    /// The name of the tool.
    pub fn name() -> (r: &'static str)
        ensures
            r@ == "ra_hover"@,
    {
        "ra_hover"
    }

    /// The place that the call asks about.
    pub fn position(args: &RaHoverArgs) -> (p: Position)
        ensures
            p == (Position { line: zero_based(args.line), character: zero_based(args.column) }),
    {
        position(args.line, args.column)
    }
}

impl RaSymbols {
    /// The name of the tool.
    pub fn name() -> (r: &'static str)
        ensures
            r@ == "ra_symbols"@,
    {
        "ra_symbols"
    }
}

impl RaCompletion {
    /// The name of the tool.
    pub fn name() -> (r: &'static str)
        ensures
            r@ == "ra_completion"@,
    {
        "ra_completion"
    }

    /// The place that the call asks about.
    pub fn position(args: &RaCompletionArgs) -> (p: Position)
        ensures
            p == (Position { line: zero_based(args.line), character: zero_based(args.column) }),
    {
        position(args.line, args.column)
    }
}

impl RaCodeActions {
    /// The name of the tool.
    pub fn name() -> (r: &'static str)
        ensures
            r@ == "ra_code_actions"@,
    {
        "ra_code_actions"
    }

    /// The range that the call asks about: from its start to its end,
    /// where the start stands in for a part of the end that the call does
    /// not give.
    pub fn range(args: &RaCodeActionsArgs) -> (r: (Position, Position))
        ensures
            r.0 == (Position {
                line: zero_based(args.start_line),
                character: zero_based(args.start_column),
            }),
            r.1 == (Position {
                line: zero_based(
                    match args.end_line {
                        Some(l) => l,
                        None => args.start_line,
                    },
                ),
                character: zero_based(
                    match args.end_column {
                        Some(c) => c,
                        None => args.start_column,
                    },
                ),
            }),
    {
        let end_line = match args.end_line {
            Some(l) => l,
            None => args.start_line,
        };
        let end_column = match args.end_column {
            Some(c) => c,
            None => args.start_column,
        };
        (position(args.start_line, args.start_column), position(end_line, end_column))
    }
}

impl RaRename {
    /// The name of the tool.
    pub fn name() -> (r: &'static str)
        ensures
            r@ == "ra_rename"@,
    {
        "ra_rename"
    }

    /// The place that the call asks about.
    pub fn position(args: &RaRenameArgs) -> (p: Position)
        ensures
            p == (Position { line: zero_based(args.line), character: zero_based(args.column) }),
    {
        position(args.line, args.column)
    }
}

impl RaFormat {
    /// The name of the tool.
    pub fn name() -> (r: &'static str)
        ensures
            r@ == "ra_format"@,
    {
        "ra_format"
    }
}


// ---------------------------------------------------------------------------
// What the language server answers, as plain values
// ---------------------------------------------------------------------------

/// A place in a file; the line and the character count from 0.
#[derive(Debug, Clone)]
pub struct Location {
    pub path: String,
    pub line: u32,
    pub character: u32,
}

/// How severe a diagnostic is.
#[derive(Debug, Clone, Copy, PartialEq, Eq, Structural)]
pub enum Severity {
    Error,
    Warning,
    Information,
    Hint,
    Unknown,
}

/// What a diagnostic points to besides its own place.
#[derive(Debug, Clone)]
pub struct RelatedInfo {
    pub path: String,
    pub line: u32,
    pub message: String,
}

/// One diagnostic.
#[derive(Debug, Clone)]
pub struct Diagnostic {
    pub severity: Severity,
    pub line: u32,
    pub character: u32,
    pub message: String,
    pub related: Vec<RelatedInfo>,
}

/// The diagnostics of one file.
#[derive(Debug, Clone)]
pub struct FileDiagnostics {
    pub path: String,
    pub diagnostics: Vec<Diagnostic>,
}

/// A piece of what is known of a symbol: plain text, or code in a
/// language.
#[derive(Debug, Clone)]
pub enum MarkedText {
    Plain(String),
    Code { language: String, value: String },
}

/// What is known of a symbol.
#[derive(Debug, Clone)]
pub enum HoverContents {
    Scalar(MarkedText),
    Array(Vec<MarkedText>),
    Markup(String),
}

/// A symbol of a file, with the symbols inside it.
#[derive(Debug)]
pub struct DocumentSymbol {
    pub name: String,
    pub kind: String,
    pub line: u32,
    pub children: Vec<DocumentSymbol>,
}

/// A symbol of the workspace.
#[derive(Debug, Clone)]
pub struct WorkspaceSymbol {
    pub name: String,
    pub kind: String,
    pub path: String,
    pub line: u32,
}

/// A completion that the language server suggests.
#[derive(Debug, Clone)]
pub struct CompletionItem {
    pub label: String,
    pub kind: Option<String>,
    pub detail: Option<String>,
}

/// Something that the language server can do at a place.
#[derive(Debug, Clone)]
pub enum CodeAction {
    Action { title: String, kind: Option<String> },
    Command { title: String, command: String },
}

/// An edit of a text; lines and characters count from 0.
#[derive(Debug, Clone)]
pub struct TextEdit {
    pub start_line: u32,
    pub start_character: u32,
    pub end_line: u32,
    pub end_character: u32,
    pub new_text: String,
}

/// The edits of one file.
#[derive(Debug, Clone)]
pub struct FileEdits {
    pub path: String,
    pub edits: Vec<TextEdit>,
}

/// The changes of documents that a rename brings besides its plain edits.
#[derive(Debug, Clone)]
pub enum DocumentChanges {
    Edits(Vec<FileEdits>),
    Operations,
}

/// What a rename changes.
#[derive(Debug, Clone)]
pub struct WorkspaceEdit {
    pub changes: Option<Vec<FileEdits>>,
    pub document_changes: Option<DocumentChanges>,
}

/// A number that counts from 0, written as one that counts from 1.
pub open spec fn one_based(n: u32) -> Seq<char> {
    decimal_spec((n + 1) as nat)
}

fn push_one_based(out: &mut Vec<char>, n: u32)
    ensures
        final(out)@ == old(out)@ + one_based(n),
{
    push_decimal(out, n as u64 + 1);
}

// ---------------------------------------------------------------------------
// ra_diagnostics
// ---------------------------------------------------------------------------

/// The word for a severity.
pub open spec fn severity_word(s: Severity) -> Seq<char> {
    match s {
        Severity::Error => "ERROR"@,
        Severity::Warning => "WARNING"@,
        Severity::Information => "INFO"@,
        Severity::Hint => "HINT"@,
        Severity::Unknown => "UNKNOWN"@,
    }
}

/// What a diagnostic points to besides its own place, a line each.
pub open spec fn related_text(related: Seq<RelatedInfo>) -> Seq<char>
    decreases related.len(),
{
    if related.len() == 0 {
        Seq::empty()
    } else {
        related_text(related.drop_last()) + "    Related: "@ + related.last().path@ + " (Line "@
            + one_based(related.last().line) + "): "@ + related.last().message@ + "\n"@
    }
}

/// One diagnostic as it is shown.
pub open spec fn diagnostic_text(d: Diagnostic) -> Seq<char> {
    "  ["@ + severity_word(d.severity) + "] Line "@ + one_based(d.line) + ", Column "@
        + one_based(d.character) + ": "@ + d.message@ + "\n"@ + related_text(d.related@)
}

/// The diagnostics of a file as they are shown, one after the other.
pub open spec fn diagnostics_text(ds: Seq<Diagnostic>) -> Seq<char>
    decreases ds.len(),
{
    if ds.len() == 0 {
        Seq::empty()
    } else {
        diagnostics_text(ds.drop_last()) + diagnostic_text(ds.last())
    }
}

/// The number of diagnostics of the given severity.
pub open spec fn count_severity(ds: Seq<Diagnostic>, severity: Severity) -> nat
    decreases ds.len(),
{
    if ds.len() == 0 {
        0
    } else {
        count_severity(ds.drop_last(), severity) + if ds.last().severity == severity {
            1nat
        } else {
            0nat
        }
    }
}

/// Whether the diagnostics of a file are shown: the file has some, and its
/// path holds the filter, if there is one.
pub open spec fn file_shown(file: FileDiagnostics, filter: Option<Seq<char>>) -> bool {
    file.diagnostics@.len() > 0 && match filter {
        Some(f) => contains_seq(file.path@, f),
        None => true,
    }
}

/// The files that are shown, each under its path.
pub open spec fn files_text(files: Seq<FileDiagnostics>, filter: Option<Seq<char>>) -> Seq<char>
    decreases files.len(),
{
    if files.len() == 0 {
        Seq::empty()
    } else if file_shown(files.last(), filter) {
        files_text(files.drop_last(), filter) + "\n"@ + files.last().path@ + ":\n"@
            + diagnostics_text(files.last().diagnostics@)
    } else {
        files_text(files.drop_last(), filter)
    }
}

/// The number of diagnostics of the given severity in the files that are
/// shown.
pub open spec fn files_count(
    files: Seq<FileDiagnostics>,
    filter: Option<Seq<char>>,
    severity: Severity,
) -> nat
    decreases files.len(),
{
    if files.len() == 0 {
        0
    } else {
        files_count(files.drop_last(), filter, severity) + if file_shown(files.last(), filter) {
            count_severity(files.last().diagnostics@, severity)
        } else {
            0nat
        }
    }
}

/// A count as it is shown: counts past what a `u64` holds are shown as the
/// largest `u64`.
pub open spec fn shown_count(n: nat) -> nat {
    if n > u64::MAX {
        u64::MAX as nat
    } else {
        n
    }
}

/// What `ra_diagnostics` gives for the diagnostics of the project.
pub open spec fn diagnostics_report(files: Seq<FileDiagnostics>, filter: Option<Seq<char>>) -> Seq<
    char,
> {
    if files.len() == 0 {
        "No diagnostics found. The project has no errors or warnings."@
    } else if files_text(files, filter).len() == 0 {
        "No diagnostics found for the specified file path."@
    } else {
        "Diagnostics Summary: "@ + decimal_spec(
            shown_count(files_count(files, filter, Severity::Error)),
        ) + " error(s), "@ + decimal_spec(
            shown_count(files_count(files, filter, Severity::Warning)),
        ) + " warning(s)\n"@ + files_text(files, filter)
    }
}

fn severity_name(s: Severity) -> (r: &'static str)
    ensures
        r@ == severity_word(s),
{
    match s {
        Severity::Error => "ERROR",
        Severity::Warning => "WARNING",
        Severity::Information => "INFO",
        Severity::Hint => "HINT",
        Severity::Unknown => "UNKNOWN",
    }
}

fn diagnostic_line(d: &Diagnostic) -> (r: Vec<char>)
    ensures
        r@ == diagnostic_text(*d),
{
    let mut related: Vec<char> = Vec::new();
    let mut i: usize = 0;
    assert(d.related@.take(0) =~= Seq::<RelatedInfo>::empty());
    while i < d.related.len()
        invariant
            i <= d.related@.len(),
            related@ == related_text(d.related@.take(i as int)),
        decreases d.related@.len() - i,
    {
        let info = &d.related[i];
        let mut one = chars_of("    Related: ");
        extend_str(&mut one, info.path.as_str());
        extend_str(&mut one, " (Line ");
        push_one_based(&mut one, info.line);
        extend_str(&mut one, "): ");
        extend_str(&mut one, info.message.as_str());
        extend_str(&mut one, "\n");
        let ghost before = related@;
        extend_chars(&mut related, &one);
        assert(d.related@.take(i + 1).drop_last() == d.related@.take(i as int));
        assert(d.related@.take(i + 1).last() == d.related@[i as int]);
        assert(related@ =~= related_text(d.related@.take(i + 1)));
        i += 1;
    }
    assert(d.related@.take(d.related@.len() as int) == d.related@);
    let mut out = chars_of("  [");
    extend_str(&mut out, severity_name(d.severity));
    extend_str(&mut out, "] Line ");
    push_one_based(&mut out, d.line);
    extend_str(&mut out, ", Column ");
    push_one_based(&mut out, d.character);
    extend_str(&mut out, ": ");
    extend_str(&mut out, d.message.as_str());
    extend_str(&mut out, "\n");
    extend_chars(&mut out, &related);
    out
}

fn count_of(ds: &Vec<Diagnostic>, severity: Severity) -> (n: usize)
    ensures
        n == count_severity(ds@, severity),
{
    let mut n: usize = 0;
    let mut i: usize = 0;
    assert(ds@.take(0) =~= Seq::<Diagnostic>::empty());
    while i < ds.len()
        invariant
            i <= ds@.len(),
            n <= i,
            n == count_severity(ds@.take(i as int), severity),
        decreases ds@.len() - i,
    {
        assert(ds@.take(i + 1).drop_last() == ds@.take(i as int));
        assert(ds@.take(i + 1).last() == ds@[i as int]);
        if ds[i].severity == severity {
            n += 1;
        }
        i += 1;
    }
    assert(ds@.take(ds@.len() as int) == ds@);
    n
}

fn file_text(file: &FileDiagnostics) -> (r: Vec<char>)
    ensures
        r@ == "\n"@ + file.path@ + ":\n"@ + diagnostics_text(file.diagnostics@),
{
    let mut body: Vec<char> = Vec::new();
    let mut i: usize = 0;
    assert(file.diagnostics@.take(0) =~= Seq::<Diagnostic>::empty());
    while i < file.diagnostics.len()
        invariant
            i <= file.diagnostics@.len(),
            body@ == diagnostics_text(file.diagnostics@.take(i as int)),
        decreases file.diagnostics@.len() - i,
    {
        extend_chars(&mut body, &diagnostic_line(&file.diagnostics[i]));
        assert(file.diagnostics@.take(i + 1).drop_last() == file.diagnostics@.take(i as int));
        assert(file.diagnostics@.take(i + 1).last() == file.diagnostics@[i as int]);
        i += 1;
    }
    assert(file.diagnostics@.take(file.diagnostics@.len() as int) == file.diagnostics@);
    let mut out = chars_of("\n");
    extend_str(&mut out, file.path.as_str());
    extend_str(&mut out, ":\n");
    extend_chars(&mut out, &body);
    out
}

fn add_count(total: u64, more: usize, Ghost(n): Ghost<nat>) -> (r: u64)
    requires
        total == shown_count(n),
    ensures
        r == shown_count(n + more as nat),
{
    let more: u64 = more as u64;
    if total > u64::MAX - more {
        u64::MAX
    } else {
        total + more
    }
}

impl RaDiagnostics {
    /// What the tool gives for the diagnostics of the project: those of
    /// the files that the call asks for, under a line that counts the
    /// errors and the warnings among them.
    pub fn render(args: &RaDiagnosticsArgs, files: &Vec<FileDiagnostics>) -> (r: String)
        ensures
            r@ == diagnostics_report(files@, opt_view(args.file_path)),
    {
        if files.len() == 0 {
            return "No diagnostics found. The project has no errors or warnings.".to_owned();
        }
        let ghost filter = opt_view(args.file_path);
        let mut body: Vec<char> = Vec::new();
        let mut errors: u64 = 0;
        let mut warnings: u64 = 0;
        let mut i: usize = 0;
        assert(files@.take(0) =~= Seq::<FileDiagnostics>::empty());
        while i < files.len()
            invariant
                i <= files@.len(),
                filter == opt_view(args.file_path),
                body@ == files_text(files@.take(i as int), filter),
                errors == shown_count(files_count(files@.take(i as int), filter, Severity::Error)),
                warnings == shown_count(
                    files_count(files@.take(i as int), filter, Severity::Warning),
                ),
            decreases files@.len() - i,
        {
            let file = &files[i];
            assert(files@.take(i + 1).drop_last() == files@.take(i as int));
            assert(files@.take(i + 1).last() == files@[i as int]);
            let shown = file.diagnostics.len() > 0 && match &args.file_path {
                Some(f) => str_contains(file.path.as_str(), f.as_str()),
                None => true,
            };
            if shown {
                extend_chars(&mut body, &file_text(file));
                let ghost seen = files@.take(i as int);
                errors = add_count(
                    errors,
                    count_of(&file.diagnostics, Severity::Error),
                    Ghost(files_count(seen, filter, Severity::Error)),
                );
                warnings = add_count(
                    warnings,
                    count_of(&file.diagnostics, Severity::Warning),
                    Ghost(files_count(seen, filter, Severity::Warning)),
                );
                assert(body@ =~= files_text(files@.take(i + 1), filter));
            }
            i += 1;
        }
        assert(files@.take(files@.len() as int) == files@);
        if body.len() == 0 {
            return "No diagnostics found for the specified file path.".to_owned();
        }
        let mut out = chars_of("Diagnostics Summary: ");
        push_decimal(&mut out, errors);
        extend_str(&mut out, " error(s), ");
        push_decimal(&mut out, warnings);
        extend_str(&mut out, " warning(s)\n");
        extend_chars(&mut out, &body);
        string_of(&out)
    }
}


// ---------------------------------------------------------------------------
// ra_goto_definition, ra_find_references
// ---------------------------------------------------------------------------

/// The places of a definition, two lines each.
pub open spec fn definition_lines(places: Seq<Location>) -> Seq<char>
    decreases places.len(),
{
    if places.len() == 0 {
        Seq::empty()
    } else {
        definition_lines(places.drop_last()) + "  File: "@ + places.last().path@ + "\n  Line: "@
            + one_based(places.last().line) + ", Column: "@ + one_based(places.last().character)
            + "\n"@
    }
}

/// What `ra_goto_definition` gives for the places that were found.
pub open spec fn definition_report(places: Seq<Location>) -> Seq<char> {
    if places.len() == 0 {
        "No definition found."@
    } else {
        "Definition(s) found:\n"@ + definition_lines(places)
    }
}

/// The places of the references, numbered from 1, two lines each.
pub open spec fn reference_lines(places: Seq<Location>) -> Seq<char>
    decreases places.len(),
{
    if places.len() == 0 {
        Seq::empty()
    } else {
        reference_lines(places.drop_last()) + decimal_spec(places.len()) + ". File: "@
            + places.last().path@ + "\n   Line: "@ + one_based(places.last().line) + ", Column: "@
            + one_based(places.last().character) + "\n"@
    }
}

/// What `ra_find_references` gives for the places that were found.
pub open spec fn references_report(places: Seq<Location>) -> Seq<char> {
    if places.len() == 0 {
        "No references found."@
    } else {
        "Found "@ + decimal_spec(places.len()) + " reference(s):\n"@ + reference_lines(places)
    }
}

impl RaGotoDefinition {
    /// What the tool gives for the places where the symbol is defined; no
    /// answer of the language server is an empty list.
    pub fn render(places: &Vec<Location>) -> (r: String)
        ensures
            r@ == definition_report(places@),
    {
        if places.len() == 0 {
            return "No definition found.".to_owned();
        }
        let mut out = chars_of("Definition(s) found:\n");
        let mut i: usize = 0;
        assert(places@.take(0) =~= Seq::<Location>::empty());
        while i < places.len()
            invariant
                i <= places@.len(),
                out@ == "Definition(s) found:\n"@ + definition_lines(places@.take(i as int)),
            decreases places@.len() - i,
        {
            let place = &places[i];
            let mut one = chars_of("  File: ");
            extend_str(&mut one, place.path.as_str());
            extend_str(&mut one, "\n  Line: ");
            push_one_based(&mut one, place.line);
            extend_str(&mut one, ", Column: ");
            push_one_based(&mut one, place.character);
            extend_str(&mut one, "\n");
            extend_chars(&mut out, &one);
            assert(places@.take(i + 1).drop_last() == places@.take(i as int));
            assert(places@.take(i + 1).last() == places@[i as int]);
            assert(out@ =~= "Definition(s) found:\n"@ + definition_lines(places@.take(i + 1)));
            i += 1;
        }
        assert(places@.take(places@.len() as int) == places@);
        string_of(&out)
    }
}

impl RaFindReferences {
    /// What the tool gives for the places where the symbol is used; no
    /// answer of the language server is an empty list.
    pub fn render(places: &Vec<Location>) -> (r: String)
        ensures
            r@ == references_report(places@),
    {
        let total = places.len();
        if total == 0 {
            return "No references found.".to_owned();
        }
        let mut out = chars_of("Found ");
        push_decimal(&mut out, total as u64);
        extend_str(&mut out, " reference(s):\n");
        let ghost head = out@;
        let mut i: usize = 0;
        assert(places@.take(0) =~= Seq::<Location>::empty());
        while i < total
            invariant
                i <= total,
                total == places@.len(),
                out@ == head + reference_lines(places@.take(i as int)),
            decreases total - i,
        {
            let place = &places[i];
            let mut one: Vec<char> = Vec::new();
            push_decimal(&mut one, i as u64 + 1);
            extend_str(&mut one, ". File: ");
            extend_str(&mut one, place.path.as_str());
            extend_str(&mut one, "\n   Line: ");
            push_one_based(&mut one, place.line);
            extend_str(&mut one, ", Column: ");
            push_one_based(&mut one, place.character);
            extend_str(&mut one, "\n");
            extend_chars(&mut out, &one);
            assert(places@.take(i + 1).drop_last() == places@.take(i as int));
            assert(places@.take(i + 1).last() == places@[i as int]);
            assert(out@ =~= head + reference_lines(places@.take(i + 1)));
            i += 1;
        }
        assert(places@.take(places@.len() as int) == places@);
        string_of(&out)
    }
}

// ---------------------------------------------------------------------------
// ra_hover
// ---------------------------------------------------------------------------

/// A piece of what is known of a symbol as it is shown: plain text as it
/// is, code inside a fence that names its language.
pub open spec fn marked_text(m: MarkedText) -> Seq<char> {
    match m {
        MarkedText::Plain(s) => s@,
        MarkedText::Code { language, value } => "```"@ + language@ + "\n"@ + value@ + "\n```"@,
    }
}

/// The pieces as they are shown, with an empty line between each two.
pub open spec fn marked_texts(pieces: Seq<MarkedText>) -> Seq<char>
    decreases pieces.len(),
{
    if pieces.len() == 0 {
        Seq::empty()
    } else if pieces.len() == 1 {
        marked_text(pieces[0])
    } else {
        marked_texts(pieces.drop_last()) + "\n\n"@ + marked_text(pieces.last())
    }
}

/// What `ra_hover` gives for what the language server knows.
pub open spec fn hover_report(contents: Option<HoverContents>) -> Seq<char> {
    match contents {
        None => "No hover information available."@,
        Some(HoverContents::Scalar(m)) => marked_text(m),
        Some(HoverContents::Array(pieces)) => marked_texts(pieces@),
        Some(HoverContents::Markup(value)) => value@,
    }
}

fn marked(m: &MarkedText) -> (r: Vec<char>)
    ensures
        r@ == marked_text(*m),
{
    match m {
        MarkedText::Plain(s) => chars_of(s.as_str()),
        MarkedText::Code { language, value } => {
            let mut out = chars_of("```");
            extend_str(&mut out, language.as_str());
            extend_str(&mut out, "\n");
            extend_str(&mut out, value.as_str());
            extend_str(&mut out, "\n```");
            out
        },
    }
}

impl RaHover {
    /// What the tool gives for what the language server knows of the
    /// symbol.
    pub fn render(contents: &Option<HoverContents>) -> (r: String)
        ensures
            r@ == hover_report(*contents),
    {
        match contents {
            None => "No hover information available.".to_owned(),
            Some(HoverContents::Scalar(m)) => string_of(&marked(m)),
            Some(HoverContents::Markup(value)) => value.clone(),
            Some(HoverContents::Array(pieces)) => {
                let mut out: Vec<char> = Vec::new();
                let mut i: usize = 0;
                assert(pieces@.take(0) =~= Seq::<MarkedText>::empty());
                while i < pieces.len()
                    invariant
                        i <= pieces@.len(),
                        out@ == marked_texts(pieces@.take(i as int)),
                    decreases pieces@.len() - i,
                {
                    if i > 0 {
                        extend_str(&mut out, "\n\n");
                    }
                    extend_chars(&mut out, &marked(&pieces[i]));
                    assert(pieces@.take(i + 1).drop_last() == pieces@.take(i as int));
                    assert(pieces@.take(i + 1).last() == pieces@[i as int]);
                    assert(pieces@.take(i + 1)[0] == pieces@[0]);
                    i += 1;
                }
                assert(pieces@.take(pieces@.len() as int) == pieces@);
                string_of(&out)
            },
        }
    }
}


// ---------------------------------------------------------------------------
// ra_symbols
// ---------------------------------------------------------------------------

/// A symbol of a file on a line behind `margin`, and under it the symbols
/// inside it, each two spaces further in.
pub open spec fn symbol_text(symbol: DocumentSymbol, margin: Seq<char>) -> Seq<char>
    decreases symbol,
{
    margin + symbol.name@ + " ("@ + symbol.kind@ + ") - Line "@ + one_based(symbol.line) + "\n"@
        + symbols_text(symbol.children@, margin + "  "@)
}

/// The symbols one after the other, each behind `margin`.
pub open spec fn symbols_text(symbols: Seq<DocumentSymbol>, margin: Seq<char>) -> Seq<char>
    decreases symbols,
{
    if symbols.len() == 0 {
        Seq::empty()
    } else {
        symbols_text(symbols.drop_last(), margin) + symbol_text(symbols.last(), margin)
    }
}

/// What `ra_symbols` gives for the symbols of a file.
pub open spec fn document_symbols_report(symbols: Seq<DocumentSymbol>) -> Seq<char> {
    if symbols.len() == 0 {
        "No symbols found in document."@
    } else {
        "Document symbols:\n"@ + symbols_text(symbols, Seq::empty())
    }
}

/// The symbols of the workspace, numbered from 1, three lines each.
pub open spec fn workspace_symbol_lines(symbols: Seq<WorkspaceSymbol>) -> Seq<char>
    decreases symbols.len(),
{
    if symbols.len() == 0 {
        Seq::empty()
    } else {
        workspace_symbol_lines(symbols.drop_last()) + decimal_spec(symbols.len()) + ". "@
            + symbols.last().name@ + " ("@ + symbols.last().kind@ + ")\n   File: "@
            + symbols.last().path@ + "\n   Line: "@ + one_based(symbols.last().line) + "\n"@
    }
}

/// What `ra_symbols` gives for the symbols of the workspace that answer
/// `query`.
pub open spec fn workspace_symbols_report(
    symbols: Seq<WorkspaceSymbol>,
    query: Seq<char>,
) -> Seq<char> {
    if symbols.len() == 0 {
        "No workspace symbols found for query: '"@ + query + "'"@
    } else {
        "Found "@ + decimal_spec(symbols.len()) + " workspace symbol(s):\n"@
            + workspace_symbol_lines(symbols)
    }
}

impl DocumentSymbol {
    /// Appends the symbol as it is shown behind `margin`, and the symbols
    /// inside it.
    fn write(&self, out: &mut Vec<char>, margin: &Vec<char>)
        ensures
            final(out)@ == old(out)@ + symbol_text(*self, margin@),
        decreases self,
    {
        let mut line: Vec<char> = Vec::new();
        extend_chars(&mut line, margin);
        extend_str(&mut line, self.name.as_str());
        extend_str(&mut line, " (");
        extend_str(&mut line, self.kind.as_str());
        extend_str(&mut line, ") - Line ");
        push_one_based(&mut line, self.line);
        extend_str(&mut line, "\n");
        extend_chars(out, &line);
        let ghost head = out@;
        let mut inner: Vec<char> = Vec::new();
        extend_chars(&mut inner, margin);
        extend_str(&mut inner, "  ");
        let mut i: usize = 0;
        assert(self.children@.take(0) =~= Seq::<DocumentSymbol>::empty());
        while i < self.children.len()
            invariant
                i <= self.children@.len(),
                inner@ == margin@ + "  "@,
                out@ == head + symbols_text(self.children@.take(i as int), inner@),
            decreases self.children@.len() - i,
        {
            proof {
                assert(decreases_to!(*self => self.children));
                assert(decreases_to!(self.children => self.children@));
                assert(decreases_to!(self.children@ => self.children@[i as int]));
            }
            self.children[i].write(out, &inner);
            assert(self.children@.take(i + 1).drop_last() == self.children@.take(i as int));
            assert(self.children@.take(i + 1).last() == self.children@[i as int]);
            i += 1;
        }
        assert(self.children@.take(self.children@.len() as int) == self.children@);
        assert(out@ =~= old(out)@ + symbol_text(*self, margin@));
    }
}

impl RaSymbols {
    /// What the tool gives for the symbols of a file; no answer of the
    /// language server is an empty list.
    pub fn render_document(symbols: &Vec<DocumentSymbol>) -> (r: String)
        ensures
            r@ == document_symbols_report(symbols@),
    {
        if symbols.len() == 0 {
            return "No symbols found in document.".to_owned();
        }
        let mut out = chars_of("Document symbols:\n");
        let margin: Vec<char> = Vec::new();
        let mut i: usize = 0;
        assert(symbols@.take(0) =~= Seq::<DocumentSymbol>::empty());
        while i < symbols.len()
            invariant
                i <= symbols@.len(),
                margin@ == Seq::<char>::empty(),
                out@ == "Document symbols:\n"@ + symbols_text(symbols@.take(i as int), margin@),
            decreases symbols@.len() - i,
        {
            symbols[i].write(&mut out, &margin);
            assert(symbols@.take(i + 1).drop_last() == symbols@.take(i as int));
            assert(symbols@.take(i + 1).last() == symbols@[i as int]);
            i += 1;
        }
        assert(symbols@.take(symbols@.len() as int) == symbols@);
        string_of(&out)
    }

    /// What the tool gives for the symbols of the workspace that answer
    /// `query`; no answer of the language server is an empty list.
    pub fn render_workspace(symbols: &Vec<WorkspaceSymbol>, query: &str) -> (r: String)
        ensures
            r@ == workspace_symbols_report(symbols@, query@),
    {
        let total = symbols.len();
        if total == 0 {
            let mut out = chars_of("No workspace symbols found for query: '");
            extend_str(&mut out, query);
            extend_str(&mut out, "'");
            return string_of(&out);
        }
        let mut out = chars_of("Found ");
        push_decimal(&mut out, total as u64);
        extend_str(&mut out, " workspace symbol(s):\n");
        let ghost head = out@;
        let mut i: usize = 0;
        assert(symbols@.take(0) =~= Seq::<WorkspaceSymbol>::empty());
        while i < total
            invariant
                i <= total,
                total == symbols@.len(),
                out@ == head + workspace_symbol_lines(symbols@.take(i as int)),
            decreases total - i,
        {
            let symbol = &symbols[i];
            let mut one: Vec<char> = Vec::new();
            push_decimal(&mut one, i as u64 + 1);
            extend_str(&mut one, ". ");
            extend_str(&mut one, symbol.name.as_str());
            extend_str(&mut one, " (");
            extend_str(&mut one, symbol.kind.as_str());
            extend_str(&mut one, ")\n   File: ");
            extend_str(&mut one, symbol.path.as_str());
            extend_str(&mut one, "\n   Line: ");
            push_one_based(&mut one, symbol.line);
            extend_str(&mut one, "\n");
            extend_chars(&mut out, &one);
            assert(symbols@.take(i + 1).drop_last() == symbols@.take(i as int));
            assert(symbols@.take(i + 1).last() == symbols@[i as int]);
            assert(out@ =~= head + workspace_symbol_lines(symbols@.take(i + 1)));
            i += 1;
        }
        assert(symbols@.take(symbols@.len() as int) == symbols@);
        string_of(&out)
    }

    /// The query that is put to the workspace; a call without one asks
    /// with the empty text.
    pub fn query(args: &RaSymbolsArgs) -> (r: String)
        ensures
            r@ == match args.query {
                Some(q) => q@,
                None => Seq::<char>::empty(),
            },
    {
        match &args.query {
            Some(q) => q.clone(),
            None => String::new(),
        }
    }
}

// ---------------------------------------------------------------------------
// ra_completion
// ---------------------------------------------------------------------------

/// The number of completions that are shown.
pub const MAX_COMPLETIONS: usize = 20;

/// The kind of a completion as it is shown.
pub open spec fn completion_kind(item: CompletionItem) -> Seq<char> {
    match item.kind {
        Some(k) => k@,
        None => "Unknown"@,
    }
}

/// What is shown of a completion behind its kind: its detail, where it has
/// one that is not empty.
pub open spec fn completion_detail(item: CompletionItem) -> Seq<char> {
    match item.detail {
        Some(d) => if d@.len() > 0 {
            " - "@ + d@
        } else {
            Seq::empty()
        },
        None => Seq::empty(),
    }
}

/// The completions, numbered from 1, a line each.
pub open spec fn completion_lines(items: Seq<CompletionItem>) -> Seq<char>
    decreases items.len(),
{
    if items.len() == 0 {
        Seq::empty()
    } else {
        completion_lines(items.drop_last()) + decimal_spec(items.len()) + ". "@
            + items.last().label@ + " ("@ + completion_kind(items.last()) + ")"@
            + completion_detail(items.last()) + "\n"@
    }
}

/// What `ra_completion` gives for the completions that were suggested: the
/// first twenty, and the number of the others.
pub open spec fn completion_report(items: Seq<CompletionItem>) -> Seq<char> {
    if items.len() == 0 {
        "No completions available."@
    } else if items.len() <= MAX_COMPLETIONS {
        "Found "@ + decimal_spec(items.len()) + " completion(s):\n"@ + completion_lines(items)
    } else {
        "Found "@ + decimal_spec(items.len()) + " completion(s):\n"@ + completion_lines(
            items.take(MAX_COMPLETIONS as int),
        ) + "... and "@ + decimal_spec((items.len() - MAX_COMPLETIONS) as nat) + " more"@
    }
}

impl RaCompletion {
    /// What the tool gives for the completions that the language server
    /// suggests; no answer is an empty list.
    pub fn render(items: &Vec<CompletionItem>) -> (r: String)
        ensures
            r@ == completion_report(items@),
    {
        let total = items.len();
        if total == 0 {
            return "No completions available.".to_owned();
        }
        let shown = if total <= MAX_COMPLETIONS {
            total
        } else {
            MAX_COMPLETIONS
        };
        let mut out = chars_of("Found ");
        push_decimal(&mut out, total as u64);
        extend_str(&mut out, " completion(s):\n");
        let ghost head = out@;
        let ghost first = items@.take(shown as int);
        let mut i: usize = 0;
        assert(first.take(0) =~= Seq::<CompletionItem>::empty());
        while i < shown
            invariant
                i <= shown <= total,
                total == items@.len(),
                first == items@.take(shown as int),
                out@ == head + completion_lines(first.take(i as int)),
            decreases shown - i,
        {
            let item = &items[i];
            let mut one: Vec<char> = Vec::new();
            push_decimal(&mut one, i as u64 + 1);
            extend_str(&mut one, ". ");
            extend_str(&mut one, item.label.as_str());
            extend_str(&mut one, " (");
            match &item.kind {
                Some(k) => extend_str(&mut one, k.as_str()),
                None => extend_str(&mut one, "Unknown"),
            }
            extend_str(&mut one, ")");
            match &item.detail {
                Some(d) => {
                    if d.as_str().unicode_len() > 0 {
                        extend_str(&mut one, " - ");
                        extend_str(&mut one, d.as_str());
                    }
                },
                None => {},
            }
            extend_str(&mut one, "\n");
            extend_chars(&mut out, &one);
            assert(first.take(i + 1).drop_last() == first.take(i as int));
            assert(first.take(i + 1).last() == items@[i as int]);
            assert(out@ =~= head + completion_lines(first.take(i + 1)));
            i += 1;
        }
        assert(first.take(shown as int) == first);
        if total > MAX_COMPLETIONS {
            let mut tail = chars_of("... and ");
            push_decimal(&mut tail, (total - MAX_COMPLETIONS) as u64);
            extend_str(&mut tail, " more");
            extend_chars(&mut out, &tail);
            assert(out@ =~= completion_report(items@));
        } else {
            assert(first == items@);
        }
        string_of(&out)
    }
}


// ---------------------------------------------------------------------------
// ra_code_actions
// ---------------------------------------------------------------------------

/// What is shown of a code action behind its number.
pub open spec fn action_text(action: CodeAction) -> Seq<char> {
    match action {
        CodeAction::Action { title, kind } => title@ + "\n"@ + match kind {
            Some(k) => "   Kind: "@ + k@ + "\n"@,
            None => Seq::empty(),
        },
        CodeAction::Command { title, command } => title@ + " (command: "@ + command@ + ")\n"@,
    }
}

/// The code actions, numbered from 1.
pub open spec fn action_lines(actions: Seq<CodeAction>) -> Seq<char>
    decreases actions.len(),
{
    if actions.len() == 0 {
        Seq::empty()
    } else {
        action_lines(actions.drop_last()) + decimal_spec(actions.len()) + ". "@ + action_text(
            actions.last(),
        )
    }
}

/// What `ra_code_actions` gives for the actions that were offered.
pub open spec fn actions_report(actions: Seq<CodeAction>) -> Seq<char> {
    if actions.len() == 0 {
        "No code actions available."@
    } else {
        "Found "@ + decimal_spec(actions.len()) + " code action(s):\n"@ + action_lines(actions)
    }
}

fn action_line(action: &CodeAction) -> (r: Vec<char>)
    ensures
        r@ == action_text(*action),
{
    match action {
        CodeAction::Action { title, kind } => {
            let mut out = chars_of(title.as_str());
            extend_str(&mut out, "\n");
            match kind {
                Some(k) => {
                    let mut tail = chars_of("   Kind: ");
                    extend_str(&mut tail, k.as_str());
                    extend_str(&mut tail, "\n");
                    extend_chars(&mut out, &tail);
                },
                None => {
                    assert(out@ =~= action_text(*action));
                },
            }
            out
        },
        CodeAction::Command { title, command } => {
            let mut out = chars_of(title.as_str());
            extend_str(&mut out, " (command: ");
            extend_str(&mut out, command.as_str());
            extend_str(&mut out, ")\n");
            out
        },
    }
}

impl RaCodeActions {
    /// What the tool gives for the actions that the language server
    /// offers; no answer is an empty list.
    pub fn render(actions: &Vec<CodeAction>) -> (r: String)
        ensures
            r@ == actions_report(actions@),
    {
        let total = actions.len();
        if total == 0 {
            return "No code actions available.".to_owned();
        }
        let mut out = chars_of("Found ");
        push_decimal(&mut out, total as u64);
        extend_str(&mut out, " code action(s):\n");
        let ghost head = out@;
        let mut i: usize = 0;
        assert(actions@.take(0) =~= Seq::<CodeAction>::empty());
        while i < total
            invariant
                i <= total,
                total == actions@.len(),
                out@ == head + action_lines(actions@.take(i as int)),
            decreases total - i,
        {
            let mut one: Vec<char> = Vec::new();
            push_decimal(&mut one, i as u64 + 1);
            extend_str(&mut one, ". ");
            extend_chars(&mut one, &action_line(&actions[i]));
            extend_chars(&mut out, &one);
            assert(actions@.take(i + 1).drop_last() == actions@.take(i as int));
            assert(actions@.take(i + 1).last() == actions@[i as int]);
            assert(out@ =~= head + action_lines(actions@.take(i + 1)));
            i += 1;
        }
        assert(actions@.take(actions@.len() as int) == actions@);
        string_of(&out)
    }
}

// ---------------------------------------------------------------------------
// ra_format
// ---------------------------------------------------------------------------

/// The number of bytes of an edit's new text that are shown.
pub const MAX_EDIT_TEXT: usize = 100;

/// What is shown of an edit of a formatting behind its number: where it
/// stands, and the start of its new text.
pub open spec fn format_edit_text(edit: TextEdit) -> Seq<char> {
    "Line "@ + one_based(edit.start_line) + "-"@ + one_based(edit.end_line) + ", Column "@
        + one_based(edit.start_character) + "-"@ + one_based(edit.end_character)
        + "\n   New text: "@ + truncate_spec(edit.new_text@, MAX_EDIT_TEXT as nat) + "\n"@
}

/// The edits of a formatting, numbered from 1, two lines each.
pub open spec fn format_lines(edits: Seq<TextEdit>) -> Seq<char>
    decreases edits.len(),
{
    if edits.len() == 0 {
        Seq::empty()
    } else {
        format_lines(edits.drop_last()) + decimal_spec(edits.len()) + ". "@ + format_edit_text(
            edits.last(),
        )
    }
}

/// What `ra_format` gives for the edits that a formatting would make.
pub open spec fn format_report(edits: Option<Vec<TextEdit>>) -> Seq<char> {
    match edits {
        None => "Formatting not available."@,
        Some(edits) => if edits@.len() == 0 {
            "No formatting changes needed (file is already formatted)."@
        } else {
            "Formatting will apply "@ + decimal_spec(edits@.len()) + " edit(s):\n"@
                + format_lines(edits@)
        },
    }
}

fn format_edit(edit: &TextEdit) -> (r: Vec<char>)
    ensures
        r@ == format_edit_text(*edit),
{
    let mut one = chars_of("Line ");
    push_one_based(&mut one, edit.start_line);
    extend_str(&mut one, "-");
    push_one_based(&mut one, edit.end_line);
    extend_str(&mut one, ", Column ");
    push_one_based(&mut one, edit.start_character);
    extend_str(&mut one, "-");
    push_one_based(&mut one, edit.end_character);
    extend_str(&mut one, "\n   New text: ");
    let shown = truncate_string(edit.new_text.as_str(), MAX_EDIT_TEXT);
    extend_str(&mut one, shown.as_str());
    extend_str(&mut one, "\n");
    one
}

impl RaFormat {
    /// What the tool gives for the edits that a formatting would make.
    pub fn render(edits: &Option<Vec<TextEdit>>) -> (r: String)
        ensures
            r@ == format_report(*edits),
    {
        let edits = match edits {
            None => {
                return "Formatting not available.".to_owned();
            },
            Some(edits) => edits,
        };
        let total = edits.len();
        if total == 0 {
            return "No formatting changes needed (file is already formatted).".to_owned();
        }
        let mut out = chars_of("Formatting will apply ");
        push_decimal(&mut out, total as u64);
        extend_str(&mut out, " edit(s):\n");
        let ghost head = out@;
        let mut i: usize = 0;
        assert(edits@.take(0) =~= Seq::<TextEdit>::empty());
        while i < total
            invariant
                i <= total,
                total == edits@.len(),
                out@ == head + format_lines(edits@.take(i as int)),
            decreases total - i,
        {
            let mut one: Vec<char> = Vec::new();
            push_decimal(&mut one, i as u64 + 1);
            extend_str(&mut one, ". ");
            extend_chars(&mut one, &format_edit(&edits[i]));
            extend_chars(&mut out, &one);
            assert(edits@.take(i + 1).drop_last() == edits@.take(i as int));
            assert(edits@.take(i + 1).last() == edits@[i as int]);
            assert(out@ =~= head + format_lines(edits@.take(i + 1)));
            i += 1;
        }
        assert(edits@.take(edits@.len() as int) == edits@);
        string_of(&out)
    }
}

// ---------------------------------------------------------------------------
// ra_rename
// ---------------------------------------------------------------------------

/// The edits of a file under a rename, a line each.
pub open spec fn rename_lines(edits: Seq<TextEdit>) -> Seq<char>
    decreases edits.len(),
{
    if edits.len() == 0 {
        Seq::empty()
    } else {
        rename_lines(edits.drop_last()) + "  Line "@ + one_based(edits.last().start_line)
            + ", Column "@ + one_based(edits.last().start_character) + ": "@
            + edits.last().new_text@ + "\n"@
    }
}

/// The files that a rename changes, each under its path.
pub open spec fn rename_files(files: Seq<FileEdits>) -> Seq<char>
    decreases files.len(),
{
    if files.len() == 0 {
        Seq::empty()
    } else {
        rename_files(files.drop_last()) + "\n"@ + files.last().path@ + ":\n"@ + rename_lines(
            files.last().edits@,
        )
    }
}

/// The number of edits in the files.
pub open spec fn edit_count(files: Seq<FileEdits>) -> nat
    decreases files.len(),
{
    if files.len() == 0 {
        0
    } else {
        edit_count(files.drop_last()) + files.last().edits@.len()
    }
}

/// The plain edits that a rename makes.
pub open spec fn plain_edits(edit: WorkspaceEdit) -> Seq<FileEdits> {
    match edit.changes {
        Some(files) => files@,
        None => Seq::empty(),
    }
}

/// The edits that a rename makes to documents.
pub open spec fn document_edits(edit: WorkspaceEdit) -> Seq<FileEdits> {
    match edit.document_changes {
        Some(DocumentChanges::Edits(files)) => files@,
        _ => Seq::empty(),
    }
}

/// What is shown of a rename's other operations on documents.
pub open spec fn operations_note(edit: WorkspaceEdit) -> Seq<char> {
    match edit.document_changes {
        Some(DocumentChanges::Operations) => "(Contains complex document operations)\n"@,
        _ => Seq::empty(),
    }
}

/// The edits of a rename to `new_name`, file by file.
pub open spec fn rename_body(edit: WorkspaceEdit, new_name: Seq<char>) -> Seq<char> {
    "Rename to '"@ + new_name + "' will affect:\n"@ + rename_files(plain_edits(edit))
        + rename_files(document_edits(edit)) + operations_note(edit)
}

/// The number of edits of a rename.
pub open spec fn rename_count(edit: WorkspaceEdit) -> nat {
    edit_count(plain_edits(edit)) + edit_count(document_edits(edit))
}

/// What `ra_rename` gives for what a rename to `new_name` changes: the
/// number of edits, then the edits file by file.
pub open spec fn rename_report(edit: Option<WorkspaceEdit>, new_name: Seq<char>) -> Seq<char> {
    match edit {
        None => "Rename operation not available (symbol cannot be renamed)."@,
        Some(edit) => "Total changes: "@ + decimal_spec(shown_count(rename_count(edit)))
            + "\n\n"@ + rename_body(edit, new_name),
    }
}

fn rename_file(file: &FileEdits) -> (r: Vec<char>)
    ensures
        r@ == "\n"@ + file.path@ + ":\n"@ + rename_lines(file.edits@),
{
    let mut out = chars_of("\n");
    extend_str(&mut out, file.path.as_str());
    extend_str(&mut out, ":\n");
    let ghost head = out@;
    let mut i: usize = 0;
    assert(file.edits@.take(0) =~= Seq::<TextEdit>::empty());
    while i < file.edits.len()
        invariant
            i <= file.edits@.len(),
            out@ == head + rename_lines(file.edits@.take(i as int)),
        decreases file.edits@.len() - i,
    {
        let edit = &file.edits[i];
        let mut one = chars_of("  Line ");
        push_one_based(&mut one, edit.start_line);
        extend_str(&mut one, ", Column ");
        push_one_based(&mut one, edit.start_character);
        extend_str(&mut one, ": ");
        extend_str(&mut one, edit.new_text.as_str());
        extend_str(&mut one, "\n");
        extend_chars(&mut out, &one);
        assert(file.edits@.take(i + 1).drop_last() == file.edits@.take(i as int));
        assert(file.edits@.take(i + 1).last() == file.edits@[i as int]);
        assert(out@ =~= head + rename_lines(file.edits@.take(i + 1)));
        i += 1;
    }
    assert(file.edits@.take(file.edits@.len() as int) == file.edits@);
    out
}

/// Appends the files as they are shown to `out`, and gives `seen` and the
/// number of their edits together.
fn push_rename_files(
    out: &mut Vec<char>,
    files: &Vec<FileEdits>,
    seen: u64,
    Ghost(before): Ghost<nat>,
) -> (r: u64)
    requires
        seen == shown_count(before),
    ensures
        final(out)@ == old(out)@ + rename_files(files@),
        r == shown_count(before + edit_count(files@)),
{
    let mut total = seen;
    let mut i: usize = 0;
    assert(files@.take(0) =~= Seq::<FileEdits>::empty());
    while i < files.len()
        invariant
            i <= files@.len(),
            out@ == old(out)@ + rename_files(files@.take(i as int)),
            total == shown_count(before + edit_count(files@.take(i as int))),
        decreases files@.len() - i,
    {
        extend_chars(out, &rename_file(&files[i]));
        total = add_count(
            total,
            files[i].edits.len(),
            Ghost(before + edit_count(files@.take(i as int))),
        );
        assert(files@.take(i + 1).drop_last() == files@.take(i as int));
        assert(files@.take(i + 1).last() == files@[i as int]);
        assert(out@ =~= old(out)@ + rename_files(files@.take(i + 1)));
        i += 1;
    }
    assert(files@.take(files@.len() as int) == files@);
    total
}

impl RaRename {
    /// What the tool gives for what the rename changes.
    pub fn render(args: &RaRenameArgs, edit: &Option<WorkspaceEdit>) -> (r: String)
        ensures
            r@ == rename_report(*edit, args.new_name@),
    {
        let edit = match edit {
            None => {
                return "Rename operation not available (symbol cannot be renamed).".to_owned();
            },
            Some(edit) => edit,
        };
        let mut body = chars_of("Rename to '");
        extend_str(&mut body, args.new_name.as_str());
        extend_str(&mut body, "' will affect:\n");
        let ghost head = body@;
        let mut total: u64 = 0;
        match &edit.changes {
            Some(files) => {
                total = push_rename_files(&mut body, files, total, Ghost(0));
            },
            None => {
                assert(body@ =~= head + rename_files(Seq::empty()));
            },
        }
        let ghost plain = edit_count(plain_edits(*edit));
        let ghost mid = body@;
        assert(mid == head + rename_files(plain_edits(*edit)));
        assert(total == shown_count(plain));
        match &edit.document_changes {
            Some(DocumentChanges::Edits(files)) => {
                total = push_rename_files(&mut body, files, total, Ghost(plain));
                assert(body@ =~= mid + rename_files(document_edits(*edit)) + operations_note(
                    *edit,
                ));
            },
            Some(DocumentChanges::Operations) => {
                extend_str(&mut body, "(Contains complex document operations)\n");
                assert(body@ =~= mid + rename_files(document_edits(*edit)) + operations_note(
                    *edit,
                ));
            },
            None => {
                assert(body@ =~= mid + rename_files(document_edits(*edit)) + operations_note(
                    *edit,
                ));
            },
        }
        assert(total == shown_count(rename_count(*edit)));
        assert(body@ == rename_body(*edit, args.new_name@));
        let mut out = chars_of("Total changes: ");
        push_decimal(&mut out, total);
        extend_str(&mut out, "\n\n");
        extend_chars(&mut out, &body);
        string_of(&out)
    }
}

} // verus!
