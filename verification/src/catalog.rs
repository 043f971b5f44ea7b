//! The catalog of tools that the model is told of.

use vstd::prelude::*;
use crate::dispatch::MAX_DEPTH;
use crate::text::{chars_of, decimal_spec, extend_str, push_decimal, string_of};

verus! {

/// The type of an argument of a tool.
#[derive(Debug, Clone, Copy, PartialEq, Eq, Structural)]
pub enum ParamKind {
    Text,
    Integer,
    Boolean,
    TextList,
}

/// One argument of a tool: its name and type, what it is for, whether a
/// call must give it, and what it may hold where that is limited.
#[derive(Debug, Clone)]
pub struct ParamSpec {
    pub name: String,
    pub kind: ParamKind,
    pub description: String,
    pub required: bool,
    pub choices: Vec<String>,
    pub minimum: Option<u64>,
    pub maximum: Option<u64>,
}

/// A tool as the model is told of it.
#[derive(Debug, Clone)]
pub struct ToolDefinition {
    pub name: String,
    pub description: String,
    pub parameters: Vec<ParamSpec>,
}

/// An argument of a tool over character sequences.
pub struct ParamView {
    pub name: Seq<char>,
    pub kind: ParamKind,
    pub description: Seq<char>,
    pub required: bool,
    pub choices: Seq<Seq<char>>,
    pub minimum: Option<u64>,
    pub maximum: Option<u64>,
}

/// A tool over character sequences.
pub struct ToolDefinitionView {
    pub name: Seq<char>,
    pub description: Seq<char>,
    pub parameters: Seq<ParamView>,
}

impl View for ParamSpec {
    type V = ParamView;

    open spec fn view(&self) -> ParamView {
        ParamView {
            name: self.name@,
            kind: self.kind,
            description: self.description@,
            required: self.required,
            choices: crate::text::views(self.choices@),
            minimum: self.minimum,
            maximum: self.maximum,
        }
    }
}

/// The views of a sequence of arguments.
pub open spec fn params_view(params: Seq<ParamSpec>) -> Seq<ParamView> {
    Seq::new(params.len(), |i: int| params[i]@)
}

impl View for ToolDefinition {
    type V = ToolDefinitionView;

    open spec fn view(&self) -> ToolDefinitionView {
        ToolDefinitionView {
            name: self.name@,
            description: self.description@,
            parameters: params_view(self.parameters@),
        }
    }
}

/// The views of a sequence of tools.
pub open spec fn definitions_view(tools: Seq<ToolDefinition>) -> Seq<ToolDefinitionView> {
    Seq::new(tools.len(), |i: int| tools[i]@)
}

/// The note on where relative paths start.
pub open spec fn cwd_note(working_directory: Seq<char>) -> Seq<char> {
    "Relative paths are resolved from: "@ + working_directory
}

/// How the level of an agent is shown against the deepest level.
pub open spec fn depth_note(depth: usize) -> Seq<char> {
    decimal_spec(depth as nat) + "/"@ + decimal_spec(MAX_DEPTH as nat)
}

/// An argument that may hold any value of its type.
pub open spec fn plain_param(
    name: Seq<char>,
    kind: ParamKind,
    description: Seq<char>,
    required: bool,
) -> ParamView {
    ParamView {
        name,
        kind,
        description,
        required,
        choices: Seq::empty(),
        minimum: None,
        maximum: None,
    }
}

/// An argument that may be left out and holds a number between two
/// bounds.
pub open spec fn bounded_param(
    name: Seq<char>,
    description: Seq<char>,
    minimum: u64,
    maximum: u64,
) -> ParamView {
    ParamView {
        name,
        kind: ParamKind::Integer,
        description,
        required: false,
        choices: Seq::empty(),
        minimum: Some(minimum),
        maximum: Some(maximum),
    }
}

/// An argument that holds one or several of a list of names.
pub open spec fn choice_param(
    name: Seq<char>,
    kind: ParamKind,
    description: Seq<char>,
    required: bool,
    choices: Seq<Seq<char>>,
) -> ParamView {
    ParamView { name, kind, description, required, choices, minimum: None, maximum: None }
}

/// The names of the categories of key memories.
pub open spec fn memory_categories_spec() -> Seq<Seq<char>> {
    seq![
        "user_preference"@,
        "project_fact"@,
        "code_pattern"@,
        "problem_solution"@,
        "user_instruction"@,
        "personal_info"@,
        "session_summary"@,
    ]
}

/// The names of the levels of importance.
pub open spec fn importance_levels_spec() -> Seq<Seq<char>> {
    seq!["low"@, "medium"@, "high"@, "critical"@]
}

fn param(name: &str, kind: ParamKind, description: &str, required: bool) -> (p: ParamSpec)
    ensures
        p@ == plain_param(name@, kind, description@, required),
{
    let p = ParamSpec {
        name: name.to_owned(),
        kind,
        description: description.to_owned(),
        required,
        choices: Vec::new(),
        minimum: None,
        maximum: None,
    };
    assert(p@.choices =~= Seq::<Seq<char>>::empty());
    p
}

fn param_between(name: &str, description: &str, minimum: u64, maximum: u64) -> (p: ParamSpec)
    ensures
        p@ == bounded_param(name@, description@, minimum, maximum),
{
    let p = ParamSpec {
        name: name.to_owned(),
        kind: ParamKind::Integer,
        description: description.to_owned(),
        required: false,
        choices: Vec::new(),
        minimum: Some(minimum),
        maximum: Some(maximum),
    };
    assert(p@.choices =~= Seq::<Seq<char>>::empty());
    p
}

fn param_among(
    name: &str,
    kind: ParamKind,
    description: &str,
    required: bool,
    choices: Vec<String>,
) -> (p: ParamSpec)
    ensures
        p@ == choice_param(name@, kind, description@, required, crate::text::views(choices@)),
{
    ParamSpec {
        name: name.to_owned(),
        kind,
        description: description.to_owned(),
        required,
        choices,
        minimum: None,
        maximum: None,
    }
}

fn memory_categories() -> (v: Vec<String>)
    ensures
        crate::text::views(v@) == memory_categories_spec(),
{
    let mut v: Vec<String> = Vec::new();
    v.push("user_preference".to_owned());
    v.push("project_fact".to_owned());
    v.push("code_pattern".to_owned());
    v.push("problem_solution".to_owned());
    v.push("user_instruction".to_owned());
    v.push("personal_info".to_owned());
    v.push("session_summary".to_owned());
    assert(crate::text::views(v@) =~= memory_categories_spec());
    v
}

fn importance_levels() -> (v: Vec<String>)
    ensures
        crate::text::views(v@) == importance_levels_spec(),
{
    let mut v: Vec<String> = Vec::new();
    v.push("low".to_owned());
    v.push("medium".to_owned());
    v.push("high".to_owned());
    v.push("critical".to_owned());
    assert(crate::text::views(v@) =~= importance_levels_spec());
    v
}

/// The tool `read_file` as the model is told of it.
pub open spec fn read_file_definition_spec(working_directory: Seq<char>) -> ToolDefinitionView {
    ToolDefinitionView {
        name: "read_file"@,
        description: "Read the contents of a file. Returns the file content with line numbers. "@ + cwd_note(working_directory),
        parameters: seq![
            plain_param(
                "file_path"@,
                ParamKind::Text,
                "Path to the file (absolute or relative to working directory)"@,
                true,
            ),
            plain_param(
                "offset"@,
                ParamKind::Integer,
                "Optional starting line number (1-indexed)"@,
                false,
            ),
            plain_param(
                "limit"@,
                ParamKind::Integer,
                "Optional number of lines to read"@,
                false,
            ),
        ],
    }
}

fn read_file_definition(working_directory: &str) -> (d: ToolDefinition)
    ensures
        d@ == read_file_definition_spec(working_directory@),
{
    let mut description = chars_of("Read the contents of a file. Returns the file content with line numbers. ");
    let mut note = chars_of("Relative paths are resolved from: ");
    extend_str(&mut note, working_directory);
    crate::text::extend_chars(&mut description, &note);
    let mut parameters: Vec<ParamSpec> = Vec::new();
    parameters.push(
        param("file_path", ParamKind::Text, "Path to the file (absolute or relative to working directory)", true),
    );
    parameters.push(
        param("offset", ParamKind::Integer, "Optional starting line number (1-indexed)", false),
    );
    parameters.push(
        param("limit", ParamKind::Integer, "Optional number of lines to read", false),
    );
    let d = ToolDefinition { name: "read_file".to_owned(), description: string_of(&description), parameters };
    assert(d@.parameters =~= read_file_definition_spec(working_directory@).parameters);
    d
}

/// The tool `write_file` as the model is told of it.
pub open spec fn write_file_definition_spec(working_directory: Seq<char>) -> ToolDefinitionView {
    ToolDefinitionView {
        name: "write_file"@,
        description: "Write content to a file. Creates the file if it doesn't exist, or overwrites if it does. "@ + cwd_note(working_directory),
        parameters: seq![
            plain_param(
                "file_path"@,
                ParamKind::Text,
                "Path to the file (absolute or relative to working directory)"@,
                true,
            ),
            plain_param(
                "content"@,
                ParamKind::Text,
                "The content to write to the file"@,
                true,
            ),
        ],
    }
}

fn write_file_definition(working_directory: &str) -> (d: ToolDefinition)
    ensures
        d@ == write_file_definition_spec(working_directory@),
{
    let mut description = chars_of("Write content to a file. Creates the file if it doesn't exist, or overwrites if it does. ");
    let mut note = chars_of("Relative paths are resolved from: ");
    extend_str(&mut note, working_directory);
    crate::text::extend_chars(&mut description, &note);
    let mut parameters: Vec<ParamSpec> = Vec::new();
    parameters.push(
        param("file_path", ParamKind::Text, "Path to the file (absolute or relative to working directory)", true),
    );
    parameters.push(
        param("content", ParamKind::Text, "The content to write to the file", true),
    );
    let d = ToolDefinition { name: "write_file".to_owned(), description: string_of(&description), parameters };
    assert(d@.parameters =~= write_file_definition_spec(working_directory@).parameters);
    d
}

/// The tool `edit_file` as the model is told of it.
pub open spec fn edit_file_definition_spec(working_directory: Seq<char>) -> ToolDefinitionView {
    ToolDefinitionView {
        name: "edit_file"@,
        description: "Edit a file by replacing exact text matches. "@ + cwd_note(working_directory),
        parameters: seq![
            plain_param(
                "file_path"@,
                ParamKind::Text,
                "Path to the file (absolute or relative to working directory)"@,
                true,
            ),
            plain_param(
                "old_string"@,
                ParamKind::Text,
                "The exact text to find and replace"@,
                true,
            ),
            plain_param(
                "new_string"@,
                ParamKind::Text,
                "The text to replace it with"@,
                true,
            ),
            plain_param(
                "replace_all"@,
                ParamKind::Boolean,
                "Whether to replace all occurrences (default: false)"@,
                false,
            ),
        ],
    }
}

fn edit_file_definition(working_directory: &str) -> (d: ToolDefinition)
    ensures
        d@ == edit_file_definition_spec(working_directory@),
{
    let mut description = chars_of("Edit a file by replacing exact text matches. ");
    let mut note = chars_of("Relative paths are resolved from: ");
    extend_str(&mut note, working_directory);
    crate::text::extend_chars(&mut description, &note);
    let mut parameters: Vec<ParamSpec> = Vec::new();
    parameters.push(
        param("file_path", ParamKind::Text, "Path to the file (absolute or relative to working directory)", true),
    );
    parameters.push(
        param("old_string", ParamKind::Text, "The exact text to find and replace", true),
    );
    parameters.push(
        param("new_string", ParamKind::Text, "The text to replace it with", true),
    );
    parameters.push(
        param("replace_all", ParamKind::Boolean, "Whether to replace all occurrences (default: false)", false),
    );
    let d = ToolDefinition { name: "edit_file".to_owned(), description: string_of(&description), parameters };
    assert(d@.parameters =~= edit_file_definition_spec(working_directory@).parameters);
    d
}

/// The tool `list_dir` as the model is told of it.
pub open spec fn list_dir_definition_spec(working_directory: Seq<char>) -> ToolDefinitionView {
    ToolDefinitionView {
        name: "list_dir"@,
        description: "List the contents of a directory. "@ + cwd_note(working_directory),
        parameters: seq![
            plain_param(
                "path"@,
                ParamKind::Text,
                "Path to the directory (absolute or relative to working directory). Use '.' for current directory."@,
                true,
            ),
        ],
    }
}

fn list_dir_definition(working_directory: &str) -> (d: ToolDefinition)
    ensures
        d@ == list_dir_definition_spec(working_directory@),
{
    let mut description = chars_of("List the contents of a directory. ");
    let mut note = chars_of("Relative paths are resolved from: ");
    extend_str(&mut note, working_directory);
    crate::text::extend_chars(&mut description, &note);
    let mut parameters: Vec<ParamSpec> = Vec::new();
    parameters.push(
        param("path", ParamKind::Text, "Path to the directory (absolute or relative to working directory). Use '.' for current directory.", true),
    );
    let d = ToolDefinition { name: "list_dir".to_owned(), description: string_of(&description), parameters };
    assert(d@.parameters =~= list_dir_definition_spec(working_directory@).parameters);
    d
}

/// The tool `bash` as the model is told of it.
pub open spec fn bash_definition_spec(working_directory: Seq<char>) -> ToolDefinitionView {
    ToolDefinitionView {
        name: "bash"@,
        description: "Execute a bash command and return the output. Can run in background for long-running tasks. Commands run in: "@ + working_directory,
        parameters: seq![
            plain_param(
                "command"@,
                ParamKind::Text,
                "The bash command to execute"@,
                true,
            ),
            plain_param(
                "working_dir"@,
                ParamKind::Text,
                "Optional working directory (defaults to project root)"@,
                false,
            ),
            plain_param(
                "timeout_secs"@,
                ParamKind::Integer,
                "Optional timeout in seconds (default: 600, max recommended: 1800). Increase this for long-running operations like builds, tests, or installations. Ignored if background=true."@,
                false,
            ),
            plain_param(
                "background"@,
                ParamKind::Boolean,
                "Execute in background and return immediately with process ID. Use bash_status/bash_output/bash_kill tools to manage."@,
                false,
            ),
        ],
    }
}

fn bash_definition(working_directory: &str) -> (d: ToolDefinition)
    ensures
        d@ == bash_definition_spec(working_directory@),
{
    let mut description = chars_of("Execute a bash command and return the output. Can run in background for long-running tasks. Commands run in: ");
    extend_str(&mut description, working_directory);
    let mut parameters: Vec<ParamSpec> = Vec::new();
    parameters.push(
        param("command", ParamKind::Text, "The bash command to execute", true),
    );
    parameters.push(
        param("working_dir", ParamKind::Text, "Optional working directory (defaults to project root)", false),
    );
    parameters.push(
        param("timeout_secs", ParamKind::Integer, "Optional timeout in seconds (default: 600, max recommended: 1800). Increase this for long-running operations like builds, tests, or installations. Ignored if background=true.", false),
    );
    parameters.push(
        param("background", ParamKind::Boolean, "Execute in background and return immediately with process ID. Use bash_status/bash_output/bash_kill tools to manage.", false),
    );
    let d = ToolDefinition { name: "bash".to_owned(), description: string_of(&description), parameters };
    assert(d@.parameters =~= bash_definition_spec(working_directory@).parameters);
    d
}

/// The tool `grep` as the model is told of it.
pub open spec fn grep_definition_spec(working_directory: Seq<char>) -> ToolDefinitionView {
    ToolDefinitionView {
        name: "grep"@,
        description: "Search for a pattern in files using ripgrep. "@ + cwd_note(working_directory),
        parameters: seq![
            plain_param(
                "pattern"@,
                ParamKind::Text,
                "The regex pattern to search for"@,
                true,
            ),
            plain_param(
                "path"@,
                ParamKind::Text,
                "File or directory to search (defaults to working directory)"@,
                false,
            ),
            plain_param(
                "ignore_case"@,
                ParamKind::Boolean,
                "Whether to ignore case"@,
                false,
            ),
            plain_param(
                "max_results"@,
                ParamKind::Integer,
                "Maximum number of results"@,
                false,
            ),
        ],
    }
}

fn grep_definition(working_directory: &str) -> (d: ToolDefinition)
    ensures
        d@ == grep_definition_spec(working_directory@),
{
    let mut description = chars_of("Search for a pattern in files using ripgrep. ");
    let mut note = chars_of("Relative paths are resolved from: ");
    extend_str(&mut note, working_directory);
    crate::text::extend_chars(&mut description, &note);
    let mut parameters: Vec<ParamSpec> = Vec::new();
    parameters.push(
        param("pattern", ParamKind::Text, "The regex pattern to search for", true),
    );
    parameters.push(
        param("path", ParamKind::Text, "File or directory to search (defaults to working directory)", false),
    );
    parameters.push(
        param("ignore_case", ParamKind::Boolean, "Whether to ignore case", false),
    );
    parameters.push(
        param("max_results", ParamKind::Integer, "Maximum number of results", false),
    );
    let d = ToolDefinition { name: "grep".to_owned(), description: string_of(&description), parameters };
    assert(d@.parameters =~= grep_definition_spec(working_directory@).parameters);
    d
}

/// The tool `glob` as the model is told of it.
pub open spec fn glob_definition_spec(working_directory: Seq<char>) -> ToolDefinitionView {
    ToolDefinitionView {
        name: "glob"@,
        description: "Find files matching a glob pattern. "@ + cwd_note(working_directory),
        parameters: seq![
            plain_param(
                "pattern"@,
                ParamKind::Text,
                "The glob pattern to match files (e.g., '**/*.rs', 'src/*.txt')"@,
                true,
            ),
            plain_param(
                "base_dir"@,
                ParamKind::Text,
                "Base directory for search (defaults to working directory)"@,
                false,
            ),
        ],
    }
}

fn glob_definition(working_directory: &str) -> (d: ToolDefinition)
    ensures
        d@ == glob_definition_spec(working_directory@),
{
    let mut description = chars_of("Find files matching a glob pattern. ");
    let mut note = chars_of("Relative paths are resolved from: ");
    extend_str(&mut note, working_directory);
    crate::text::extend_chars(&mut description, &note);
    let mut parameters: Vec<ParamSpec> = Vec::new();
    parameters.push(
        param("pattern", ParamKind::Text, "The glob pattern to match files (e.g., '**/*.rs', 'src/*.txt')", true),
    );
    parameters.push(
        param("base_dir", ParamKind::Text, "Base directory for search (defaults to working directory)", false),
    );
    let d = ToolDefinition { name: "glob".to_owned(), description: string_of(&description), parameters };
    assert(d@.parameters =~= glob_definition_spec(working_directory@).parameters);
    d
}

/// The tool `bash_status` as the model is told of it.
pub open spec fn bash_status_definition_spec() -> ToolDefinitionView {
    ToolDefinitionView {
        name: "bash_status"@,
        description: "Check the status of a background bash process. Returns whether the process is running, completed, or failed."@,
        parameters: seq![
            plain_param(
                "process_id"@,
                ParamKind::Text,
                "The process ID returned by bash command with background=true"@,
                true,
            ),
        ],
    }
}

fn bash_status_definition() -> (d: ToolDefinition)
    ensures
        d@ == bash_status_definition_spec(),
{
    let mut description = chars_of("Check the status of a background bash process. Returns whether the process is running, completed, or failed.");
    let mut parameters: Vec<ParamSpec> = Vec::new();
    parameters.push(
        param("process_id", ParamKind::Text, "The process ID returned by bash command with background=true", true),
    );
    let d = ToolDefinition { name: "bash_status".to_owned(), description: string_of(&description), parameters };
    assert(d@.parameters =~= bash_status_definition_spec().parameters);
    d
}

/// The tool `bash_output` as the model is told of it.
pub open spec fn bash_output_definition_spec() -> ToolDefinitionView {
    ToolDefinitionView {
        name: "bash_output"@,
        description: "Get the accumulated stdout and stderr output from a background bash process."@,
        parameters: seq![
            plain_param(
                "process_id"@,
                ParamKind::Text,
                "The process ID returned by bash command with background=true"@,
                true,
            ),
        ],
    }
}

fn bash_output_definition() -> (d: ToolDefinition)
    ensures
        d@ == bash_output_definition_spec(),
{
    let mut description = chars_of("Get the accumulated stdout and stderr output from a background bash process.");
    let mut parameters: Vec<ParamSpec> = Vec::new();
    parameters.push(
        param("process_id", ParamKind::Text, "The process ID returned by bash command with background=true", true),
    );
    let d = ToolDefinition { name: "bash_output".to_owned(), description: string_of(&description), parameters };
    assert(d@.parameters =~= bash_output_definition_spec().parameters);
    d
}

/// The tool `bash_kill` as the model is told of it.
pub open spec fn bash_kill_definition_spec() -> ToolDefinitionView {
    ToolDefinitionView {
        name: "bash_kill"@,
        description: "Terminate a background bash process."@,
        parameters: seq![
            plain_param(
                "process_id"@,
                ParamKind::Text,
                "The process ID returned by bash command with background=true"@,
                true,
            ),
        ],
    }
}

fn bash_kill_definition() -> (d: ToolDefinition)
    ensures
        d@ == bash_kill_definition_spec(),
{
    let mut description = chars_of("Terminate a background bash process.");
    let mut parameters: Vec<ParamSpec> = Vec::new();
    parameters.push(
        param("process_id", ParamKind::Text, "The process ID returned by bash command with background=true", true),
    );
    let d = ToolDefinition { name: "bash_kill".to_owned(), description: string_of(&description), parameters };
    assert(d@.parameters =~= bash_kill_definition_spec().parameters);
    d
}

/// The tool `bash_list` as the model is told of it.
pub open spec fn bash_list_definition_spec() -> ToolDefinitionView {
    ToolDefinitionView {
        name: "bash_list"@,
        description: "List all background bash processes with their IDs, commands, and status."@,
        parameters: Seq::empty(),
    }
}

fn bash_list_definition() -> (d: ToolDefinition)
    ensures
        d@ == bash_list_definition_spec(),
{
    let mut description = chars_of("List all background bash processes with their IDs, commands, and status.");
    let mut parameters: Vec<ParamSpec> = Vec::new();
    let d = ToolDefinition { name: "bash_list".to_owned(), description: string_of(&description), parameters };
    assert(d@.parameters =~= bash_list_definition_spec().parameters);
    d
}

/// The tool `web_fetch` as the model is told of it.
pub open spec fn web_fetch_definition_spec() -> ToolDefinitionView {
    ToolDefinitionView {
        name: "web_fetch"@,
        description: "Fetch content from a URL. Automatically converts HTML to readable text. Returns content with metadata (status, content type, final URL)."@,
        parameters: seq![
            plain_param(
                "url"@,
                ParamKind::Text,
                "The URL to fetch (must start with http:// or https://)"@,
                true,
            ),
            plain_param(
                "size_limit_kb"@,
                ParamKind::Integer,
                "Optional size limit in KB (default: 100KB, max: 500KB)"@,
                false,
            ),
        ],
    }
}

fn web_fetch_definition() -> (d: ToolDefinition)
    ensures
        d@ == web_fetch_definition_spec(),
{
    let mut description = chars_of("Fetch content from a URL. Automatically converts HTML to readable text. Returns content with metadata (status, content type, final URL).");
    let mut parameters: Vec<ParamSpec> = Vec::new();
    parameters.push(
        param("url", ParamKind::Text, "The URL to fetch (must start with http:// or https://)", true),
    );
    parameters.push(
        param("size_limit_kb", ParamKind::Integer, "Optional size limit in KB (default: 100KB, max: 500KB)", false),
    );
    let d = ToolDefinition { name: "web_fetch".to_owned(), description: string_of(&description), parameters };
    assert(d@.parameters =~= web_fetch_definition_spec().parameters);
    d
}

/// The tool `web_search` as the model is told of it.
pub open spec fn web_search_definition_spec() -> ToolDefinitionView {
    ToolDefinitionView {
        name: "web_search"@,
        description: "Search the web using DuckDuckGo. Returns a list of search results with title, URL, and snippet for each result."@,
        parameters: seq![
            plain_param(
                "query"@,
                ParamKind::Text,
                "The search query"@,
                true,
            ),
            plain_param(
                "num_results"@,
                ParamKind::Integer,
                "Number of results to return (default: 5, max: 10)"@,
                false,
            ),
        ],
    }
}

fn web_search_definition() -> (d: ToolDefinition)
    ensures
        d@ == web_search_definition_spec(),
{
    let mut description = chars_of("Search the web using DuckDuckGo. Returns a list of search results with title, URL, and snippet for each result.");
    let mut parameters: Vec<ParamSpec> = Vec::new();
    parameters.push(
        param("query", ParamKind::Text, "The search query", true),
    );
    parameters.push(
        param("num_results", ParamKind::Integer, "Number of results to return (default: 5, max: 10)", false),
    );
    let d = ToolDefinition { name: "web_search".to_owned(), description: string_of(&description), parameters };
    assert(d@.parameters =~= web_search_definition_spec().parameters);
    d
}

/// The tool `math_calc` as the model is told of it.
pub open spec fn math_calc_definition_spec() -> ToolDefinitionView {
    ToolDefinitionView {
        name: "math_calc"@,
        description: "Evaluate mathematical expressions. Supports basic arithmetic (+, -, *, /), exponentiation (^), parentheses, and common mathematical functions (sin, cos, tan, sqrt, log, ln, abs, etc.). Use this tool for any mathematical calculations."@,
        parameters: seq![
            plain_param(
                "expression"@,
                ParamKind::Text,
                "The mathematical expression to evaluate (e.g., '2 + 2', 'sqrt(16)', 'sin(3.14159/2)', '2^10')"@,
                true,
            ),
        ],
    }
}

fn math_calc_definition() -> (d: ToolDefinition)
    ensures
        d@ == math_calc_definition_spec(),
{
    let mut description = chars_of("Evaluate mathematical expressions. Supports basic arithmetic (+, -, *, /), exponentiation (^), parentheses, and common mathematical functions (sin, cos, tan, sqrt, log, ln, abs, etc.). Use this tool for any mathematical calculations.");
    let mut parameters: Vec<ParamSpec> = Vec::new();
    parameters.push(
        param("expression", ParamKind::Text, "The mathematical expression to evaluate (e.g., '2 + 2', 'sqrt(16)', 'sin(3.14159/2)', '2^10')", true),
    );
    let d = ToolDefinition { name: "math_calc".to_owned(), description: string_of(&description), parameters };
    assert(d@.parameters =~= math_calc_definition_spec().parameters);
    d
}

/// The tool `store_key_memory` as the model is told of it.
pub open spec fn store_key_memory_definition_spec() -> ToolDefinitionView {
    ToolDefinitionView {
        name: "store_key_memory"@,
        description: "Store an important piece of information in long-term memory. Use this when you learn something important that should be remembered across sessions, such as user preferences, project facts, code patterns, problem solutions, or personal information. For session continuity, store a session summary before the user ends the conversation."@,
        parameters: seq![
            plain_param(
                "content"@,
                ParamKind::Text,
                "The information to remember. Be concise but complete."@,
                true,
            ),
            choice_param(
                "category"@,
                ParamKind::Text,
                "Category: user_preference (user likes/dislikes), project_fact (tech stack, architecture), code_pattern (common patterns used), problem_solution (how bugs were fixed), user_instruction (explicit instructions for future), personal_info (about the user), session_summary (current work state and next steps for continuity)"@,
                true,
                memory_categories_spec(),
            ),
            choice_param(
                "importance"@,
                ParamKind::Text,
                "Importance level. Critical=must never forget (user preferences), High=very useful (frequent patterns), Medium=useful context, Low=nice to have"@,
                true,
                importance_levels_spec(),
            ),
            plain_param(
                "tags"@,
                ParamKind::TextList,
                "Optional tags for easier retrieval"@,
                false,
            ),
            plain_param(
                "related_files"@,
                ParamKind::TextList,
                "Optional file paths related to this memory"@,
                false,
            ),
        ],
    }
}

fn store_key_memory_definition() -> (d: ToolDefinition)
    ensures
        d@ == store_key_memory_definition_spec(),
{
    let mut description = chars_of("Store an important piece of information in long-term memory. Use this when you learn something important that should be remembered across sessions, such as user preferences, project facts, code patterns, problem solutions, or personal information. For session continuity, store a session summary before the user ends the conversation.");
    let mut parameters: Vec<ParamSpec> = Vec::new();
    parameters.push(
        param("content", ParamKind::Text, "The information to remember. Be concise but complete.", true),
    );
    parameters.push(
        param_among(
            "category",
            ParamKind::Text,
            "Category: user_preference (user likes/dislikes), project_fact (tech stack, architecture), code_pattern (common patterns used), problem_solution (how bugs were fixed), user_instruction (explicit instructions for future), personal_info (about the user), session_summary (current work state and next steps for continuity)",
            true,
            memory_categories(),
        ),
    );
    parameters.push(
        param_among(
            "importance",
            ParamKind::Text,
            "Importance level. Critical=must never forget (user preferences), High=very useful (frequent patterns), Medium=useful context, Low=nice to have",
            true,
            importance_levels(),
        ),
    );
    parameters.push(
        param("tags", ParamKind::TextList, "Optional tags for easier retrieval", false),
    );
    parameters.push(
        param("related_files", ParamKind::TextList, "Optional file paths related to this memory", false),
    );
    let d = ToolDefinition { name: "store_key_memory".to_owned(), description: string_of(&description), parameters };
    assert(d@.parameters =~= store_key_memory_definition_spec().parameters);
    d
}

/// The tool `search_routine_memory` as the model is told of it.
pub open spec fn search_routine_memory_definition_spec() -> ToolDefinitionView {
    ToolDefinitionView {
        name: "search_routine_memory"@,
        description: "Search through past conversation history using semantic search. Use this when the user asks 'What did we discuss about...', 'Remember when we...', or you need context from previous conversations."@,
        parameters: seq![
            plain_param(
                "query"@,
                ParamKind::Text,
                "The search query describing what you're looking for"@,
                true,
            ),
            bounded_param(
                "top_k"@,
                "Number of results to return (default: 5, max: 20)"@,
                1,
                20,
            ),
        ],
    }
}

fn search_routine_memory_definition() -> (d: ToolDefinition)
    ensures
        d@ == search_routine_memory_definition_spec(),
{
    let mut description = chars_of("Search through past conversation history using semantic search. Use this when the user asks 'What did we discuss about...', 'Remember when we...', or you need context from previous conversations.");
    let mut parameters: Vec<ParamSpec> = Vec::new();
    parameters.push(
        param("query", ParamKind::Text, "The search query describing what you're looking for", true),
    );
    parameters.push(param_between("top_k", "Number of results to return (default: 5, max: 20)", 1, 20));
    let d = ToolDefinition { name: "search_routine_memory".to_owned(), description: string_of(&description), parameters };
    assert(d@.parameters =~= search_routine_memory_definition_spec().parameters);
    d
}

/// The tool `search_key_memory` as the model is told of it.
pub open spec fn search_key_memory_definition_spec() -> ToolDefinitionView {
    ToolDefinitionView {
        name: "search_key_memory"@,
        description: "Search through curated important memories (user preferences, project facts, code patterns, etc.). Use this to recall what you've learned about the user, project, or important decisions. Use at the start of conversations to check for relevant context or session summaries."@,
        parameters: seq![
            plain_param(
                "query"@,
                ParamKind::Text,
                "The search query (e.g., 'user coding preferences', 'authentication approach', 'last session')"@,
                true,
            ),
            bounded_param(
                "top_k"@,
                "Number of results to return (default: 5, max: 20)"@,
                1,
                20,
            ),
            choice_param(
                "categories"@,
                ParamKind::TextList,
                "Optional: Filter by specific categories"@,
                false,
                memory_categories_spec(),
            ),
            choice_param(
                "min_importance"@,
                ParamKind::Text,
                "Optional: Only return memories at or above this importance level"@,
                false,
                importance_levels_spec(),
            ),
        ],
    }
}

fn search_key_memory_definition() -> (d: ToolDefinition)
    ensures
        d@ == search_key_memory_definition_spec(),
{
    let mut description = chars_of("Search through curated important memories (user preferences, project facts, code patterns, etc.). Use this to recall what you've learned about the user, project, or important decisions. Use at the start of conversations to check for relevant context or session summaries.");
    let mut parameters: Vec<ParamSpec> = Vec::new();
    parameters.push(
        param("query", ParamKind::Text, "The search query (e.g., 'user coding preferences', 'authentication approach', 'last session')", true),
    );
    parameters.push(param_between("top_k", "Number of results to return (default: 5, max: 20)", 1, 20));
    parameters.push(
        param_among(
            "categories",
            ParamKind::TextList,
            "Optional: Filter by specific categories",
            false,
            memory_categories(),
        ),
    );
    parameters.push(
        param_among(
            "min_importance",
            ParamKind::Text,
            "Optional: Only return memories at or above this importance level",
            false,
            importance_levels(),
        ),
    );
    let d = ToolDefinition { name: "search_key_memory".to_owned(), description: string_of(&description), parameters };
    assert(d@.parameters =~= search_key_memory_definition_spec().parameters);
    d
}

/// The tool `delegate` as the model is told of it.
pub open spec fn delegate_definition_spec(depth: usize) -> ToolDefinitionView {
    ToolDefinitionView {
        name: "delegate"@,
        description: "Spawn an independent sub-agent to work on a separate task. The sub-agent has its own context and can use all tools. Use this to delegate focused tasks that can be completed independently. Current depth: "@ + depth_note(depth),
        parameters: seq![
            plain_param(
                "instructions"@,
                ParamKind::Text,
                "Clear, specific instructions for what the sub-agent should accomplish"@,
                true,
            ),
            plain_param(
                "max_iterations"@,
                ParamKind::Integer,
                "Optional maximum iterations for the sub-agent (default: 100)"@,
                false,
            ),
            plain_param(
                "timeout_secs"@,
                ParamKind::Integer,
                "Optional timeout in seconds (default: 300)"@,
                false,
            ),
            plain_param(
                "preamble_append"@,
                ParamKind::Text,
                "Optional additional content to append to the sub-agent's system prompt. Use this to give the sub-agent specialized context, role, or constraints."@,
                false,
            ),
        ],
    }
}

fn delegate_definition(depth: usize) -> (d: ToolDefinition)
    ensures
        d@ == delegate_definition_spec(depth),
{
    let mut description = chars_of("Spawn an independent sub-agent to work on a separate task. The sub-agent has its own context and can use all tools. Use this to delegate focused tasks that can be completed independently. Current depth: ");
    let mut note: Vec<char> = Vec::new();
    push_decimal(&mut note, depth as u64);
    extend_str(&mut note, "/");
    push_decimal(&mut note, MAX_DEPTH as u64);
    crate::text::extend_chars(&mut description, &note);
    let mut parameters: Vec<ParamSpec> = Vec::new();
    parameters.push(
        param("instructions", ParamKind::Text, "Clear, specific instructions for what the sub-agent should accomplish", true),
    );
    parameters.push(
        param("max_iterations", ParamKind::Integer, "Optional maximum iterations for the sub-agent (default: 100)", false),
    );
    parameters.push(
        param("timeout_secs", ParamKind::Integer, "Optional timeout in seconds (default: 300)", false),
    );
    parameters.push(
        param("preamble_append", ParamKind::Text, "Optional additional content to append to the sub-agent's system prompt. Use this to give the sub-agent specialized context, role, or constraints.", false),
    );
    let d = ToolDefinition { name: "delegate".to_owned(), description: string_of(&description), parameters };
    assert(d@.parameters =~= delegate_definition_spec(depth).parameters);
    d
}

/// The tool `ra_diagnostics` as the model is told of it.
pub open spec fn ra_diagnostics_definition_spec() -> ToolDefinitionView {
    ToolDefinitionView {
        name: "ra_diagnostics"@,
        description: "Get diagnostics (errors and warnings) from rust-analyzer for the current Rust project."@,
        parameters: seq![
            plain_param(
                "file_path"@,
                ParamKind::Text,
                "Optional file path to get diagnostics for"@,
                false,
            ),
        ],
    }
}

fn ra_diagnostics_definition() -> (d: ToolDefinition)
    ensures
        d@ == ra_diagnostics_definition_spec(),
{
    let mut description = chars_of("Get diagnostics (errors and warnings) from rust-analyzer for the current Rust project.");
    let mut parameters: Vec<ParamSpec> = Vec::new();
    parameters.push(
        param("file_path", ParamKind::Text, "Optional file path to get diagnostics for", false),
    );
    let d = ToolDefinition { name: "ra_diagnostics".to_owned(), description: string_of(&description), parameters };
    assert(d@.parameters =~= ra_diagnostics_definition_spec().parameters);
    d
}

/// The tool `ra_goto_definition` as the model is told of it.
pub open spec fn ra_goto_definition_definition_spec() -> ToolDefinitionView {
    ToolDefinitionView {
        name: "ra_goto_definition"@,
        description: "Find the definition of a symbol at a specific position in a Rust file."@,
        parameters: seq![
            plain_param(
                "file_path"@,
                ParamKind::Text,
                "Path to the file"@,
                true,
            ),
            plain_param(
                "line"@,
                ParamKind::Integer,
                "Line number (1-indexed)"@,
                true,
            ),
            plain_param(
                "column"@,
                ParamKind::Integer,
                "Column number (1-indexed)"@,
                true,
            ),
        ],
    }
}

fn ra_goto_definition_definition() -> (d: ToolDefinition)
    ensures
        d@ == ra_goto_definition_definition_spec(),
{
    let mut description = chars_of("Find the definition of a symbol at a specific position in a Rust file.");
    let mut parameters: Vec<ParamSpec> = Vec::new();
    parameters.push(
        param("file_path", ParamKind::Text, "Path to the file", true),
    );
    parameters.push(
        param("line", ParamKind::Integer, "Line number (1-indexed)", true),
    );
    parameters.push(
        param("column", ParamKind::Integer, "Column number (1-indexed)", true),
    );
    let d = ToolDefinition { name: "ra_goto_definition".to_owned(), description: string_of(&description), parameters };
    assert(d@.parameters =~= ra_goto_definition_definition_spec().parameters);
    d
}

/// The tool `ra_find_references` as the model is told of it.
pub open spec fn ra_find_references_definition_spec() -> ToolDefinitionView {
    ToolDefinitionView {
        name: "ra_find_references"@,
        description: "Find all references to a symbol at a specific position in a Rust file."@,
        parameters: seq![
            plain_param(
                "file_path"@,
                ParamKind::Text,
                "Path to the file"@,
                true,
            ),
            plain_param(
                "line"@,
                ParamKind::Integer,
                "Line number (1-indexed)"@,
                true,
            ),
            plain_param(
                "column"@,
                ParamKind::Integer,
                "Column number (1-indexed)"@,
                true,
            ),
            plain_param(
                "include_declaration"@,
                ParamKind::Boolean,
                "Include declaration (default: true)"@,
                false,
            ),
        ],
    }
}

fn ra_find_references_definition() -> (d: ToolDefinition)
    ensures
        d@ == ra_find_references_definition_spec(),
{
    let mut description = chars_of("Find all references to a symbol at a specific position in a Rust file.");
    let mut parameters: Vec<ParamSpec> = Vec::new();
    parameters.push(
        param("file_path", ParamKind::Text, "Path to the file", true),
    );
    parameters.push(
        param("line", ParamKind::Integer, "Line number (1-indexed)", true),
    );
    parameters.push(
        param("column", ParamKind::Integer, "Column number (1-indexed)", true),
    );
    parameters.push(
        param("include_declaration", ParamKind::Boolean, "Include declaration (default: true)", false),
    );
    let d = ToolDefinition { name: "ra_find_references".to_owned(), description: string_of(&description), parameters };
    assert(d@.parameters =~= ra_find_references_definition_spec().parameters);
    d
}

/// The tool `ra_hover` as the model is told of it.
pub open spec fn ra_hover_definition_spec() -> ToolDefinitionView {
    ToolDefinitionView {
        name: "ra_hover"@,
        description: "Get hover information (type, docs) for a symbol at a specific position in a Rust file."@,
        parameters: seq![
            plain_param(
                "file_path"@,
                ParamKind::Text,
                "Path to the file"@,
                true,
            ),
            plain_param(
                "line"@,
                ParamKind::Integer,
                "Line number (1-indexed)"@,
                true,
            ),
            plain_param(
                "column"@,
                ParamKind::Integer,
                "Column number (1-indexed)"@,
                true,
            ),
        ],
    }
}

fn ra_hover_definition() -> (d: ToolDefinition)
    ensures
        d@ == ra_hover_definition_spec(),
{
    let mut description = chars_of("Get hover information (type, docs) for a symbol at a specific position in a Rust file.");
    let mut parameters: Vec<ParamSpec> = Vec::new();
    parameters.push(
        param("file_path", ParamKind::Text, "Path to the file", true),
    );
    parameters.push(
        param("line", ParamKind::Integer, "Line number (1-indexed)", true),
    );
    parameters.push(
        param("column", ParamKind::Integer, "Column number (1-indexed)", true),
    );
    let d = ToolDefinition { name: "ra_hover".to_owned(), description: string_of(&description), parameters };
    assert(d@.parameters =~= ra_hover_definition_spec().parameters);
    d
}

/// The tool `ra_symbols` as the model is told of it.
pub open spec fn ra_symbols_definition_spec() -> ToolDefinitionView {
    ToolDefinitionView {
        name: "ra_symbols"@,
        description: "Get symbols from a Rust file or search workspace symbols."@,
        parameters: seq![
            plain_param(
                "file_path"@,
                ParamKind::Text,
                "Optional file path for document symbols"@,
                false,
            ),
            plain_param(
                "query"@,
                ParamKind::Text,
                "Search query for workspace symbols"@,
                false,
            ),
        ],
    }
}

fn ra_symbols_definition() -> (d: ToolDefinition)
    ensures
        d@ == ra_symbols_definition_spec(),
{
    let mut description = chars_of("Get symbols from a Rust file or search workspace symbols.");
    let mut parameters: Vec<ParamSpec> = Vec::new();
    parameters.push(
        param("file_path", ParamKind::Text, "Optional file path for document symbols", false),
    );
    parameters.push(
        param("query", ParamKind::Text, "Search query for workspace symbols", false),
    );
    let d = ToolDefinition { name: "ra_symbols".to_owned(), description: string_of(&description), parameters };
    assert(d@.parameters =~= ra_symbols_definition_spec().parameters);
    d
}

/// The tool `ra_completion` as the model is told of it.
pub open spec fn ra_completion_definition_spec() -> ToolDefinitionView {
    ToolDefinitionView {
        name: "ra_completion"@,
        description: "Get code completion suggestions at a specific position in a Rust file."@,
        parameters: seq![
            plain_param(
                "file_path"@,
                ParamKind::Text,
                "Path to the file"@,
                true,
            ),
            plain_param(
                "line"@,
                ParamKind::Integer,
                "Line number (1-indexed)"@,
                true,
            ),
            plain_param(
                "column"@,
                ParamKind::Integer,
                "Column number (1-indexed)"@,
                true,
            ),
        ],
    }
}

fn ra_completion_definition() -> (d: ToolDefinition)
    ensures
        d@ == ra_completion_definition_spec(),
{
    let mut description = chars_of("Get code completion suggestions at a specific position in a Rust file.");
    let mut parameters: Vec<ParamSpec> = Vec::new();
    parameters.push(
        param("file_path", ParamKind::Text, "Path to the file", true),
    );
    parameters.push(
        param("line", ParamKind::Integer, "Line number (1-indexed)", true),
    );
    parameters.push(
        param("column", ParamKind::Integer, "Column number (1-indexed)", true),
    );
    let d = ToolDefinition { name: "ra_completion".to_owned(), description: string_of(&description), parameters };
    assert(d@.parameters =~= ra_completion_definition_spec().parameters);
    d
}

/// The tool `ra_code_actions` as the model is told of it.
pub open spec fn ra_code_actions_definition_spec() -> ToolDefinitionView {
    ToolDefinitionView {
        name: "ra_code_actions"@,
        description: "Get available code actions (refactorings, quick fixes) for a range in a Rust file."@,
        parameters: seq![
            plain_param(
                "file_path"@,
                ParamKind::Text,
                "Path to the file"@,
                true,
            ),
            plain_param(
                "start_line"@,
                ParamKind::Integer,
                "Start line (1-indexed)"@,
                true,
            ),
            plain_param(
                "start_column"@,
                ParamKind::Integer,
                "Start column (1-indexed)"@,
                true,
            ),
            plain_param(
                "end_line"@,
                ParamKind::Integer,
                "End line (1-indexed)"@,
                false,
            ),
            plain_param(
                "end_column"@,
                ParamKind::Integer,
                "End column (1-indexed)"@,
                false,
            ),
        ],
    }
}

fn ra_code_actions_definition() -> (d: ToolDefinition)
    ensures
        d@ == ra_code_actions_definition_spec(),
{
    let mut description = chars_of("Get available code actions (refactorings, quick fixes) for a range in a Rust file.");
    let mut parameters: Vec<ParamSpec> = Vec::new();
    parameters.push(
        param("file_path", ParamKind::Text, "Path to the file", true),
    );
    parameters.push(
        param("start_line", ParamKind::Integer, "Start line (1-indexed)", true),
    );
    parameters.push(
        param("start_column", ParamKind::Integer, "Start column (1-indexed)", true),
    );
    parameters.push(
        param("end_line", ParamKind::Integer, "End line (1-indexed)", false),
    );
    parameters.push(
        param("end_column", ParamKind::Integer, "End column (1-indexed)", false),
    );
    let d = ToolDefinition { name: "ra_code_actions".to_owned(), description: string_of(&description), parameters };
    assert(d@.parameters =~= ra_code_actions_definition_spec().parameters);
    d
}

/// The tool `ra_rename` as the model is told of it.
pub open spec fn ra_rename_definition_spec() -> ToolDefinitionView {
    ToolDefinitionView {
        name: "ra_rename"@,
        description: "Rename a symbol at a specific position in a Rust file across the workspace."@,
        parameters: seq![
            plain_param(
                "file_path"@,
                ParamKind::Text,
                "Path to the file"@,
                true,
            ),
            plain_param(
                "line"@,
                ParamKind::Integer,
                "Line number (1-indexed)"@,
                true,
            ),
            plain_param(
                "column"@,
                ParamKind::Integer,
                "Column number (1-indexed)"@,
                true,
            ),
            plain_param(
                "new_name"@,
                ParamKind::Text,
                "New name for the symbol"@,
                true,
            ),
        ],
    }
}

fn ra_rename_definition() -> (d: ToolDefinition)
    ensures
        d@ == ra_rename_definition_spec(),
{
    let mut description = chars_of("Rename a symbol at a specific position in a Rust file across the workspace.");
    let mut parameters: Vec<ParamSpec> = Vec::new();
    parameters.push(
        param("file_path", ParamKind::Text, "Path to the file", true),
    );
    parameters.push(
        param("line", ParamKind::Integer, "Line number (1-indexed)", true),
    );
    parameters.push(
        param("column", ParamKind::Integer, "Column number (1-indexed)", true),
    );
    parameters.push(
        param("new_name", ParamKind::Text, "New name for the symbol", true),
    );
    let d = ToolDefinition { name: "ra_rename".to_owned(), description: string_of(&description), parameters };
    assert(d@.parameters =~= ra_rename_definition_spec().parameters);
    d
}

/// The tool `ra_format` as the model is told of it.
pub open spec fn ra_format_definition_spec() -> ToolDefinitionView {
    ToolDefinitionView {
        name: "ra_format"@,
        description: "Format a Rust file using rust-analyzer's formatter."@,
        parameters: seq![
            plain_param(
                "file_path"@,
                ParamKind::Text,
                "Path to the file to format"@,
                true,
            ),
        ],
    }
}

fn ra_format_definition() -> (d: ToolDefinition)
    ensures
        d@ == ra_format_definition_spec(),
{
    let mut description = chars_of("Format a Rust file using rust-analyzer's formatter.");
    let mut parameters: Vec<ParamSpec> = Vec::new();
    parameters.push(
        param("file_path", ParamKind::Text, "Path to the file to format", true),
    );
    let d = ToolDefinition { name: "ra_format".to_owned(), description: string_of(&description), parameters };
    assert(d@.parameters =~= ra_format_definition_spec().parameters);
    d
}

/// The tools that every agent has, in the order in which the model is told
/// of them.
pub open spec fn base_tools_spec(working_directory: Seq<char>) -> Seq<ToolDefinitionView> {
    seq![
        read_file_definition_spec(working_directory),
        write_file_definition_spec(working_directory),
        edit_file_definition_spec(working_directory),
        list_dir_definition_spec(working_directory),
        bash_definition_spec(working_directory),
        grep_definition_spec(working_directory),
        glob_definition_spec(working_directory),
        bash_status_definition_spec(),
        bash_output_definition_spec(),
        bash_kill_definition_spec(),
        bash_list_definition_spec(),
        web_fetch_definition_spec(),
        web_search_definition_spec(),
        math_calc_definition_spec(),
    ]
}

/// The tools of the long-term memory.
pub open spec fn memory_tools_spec() -> Seq<ToolDefinitionView> {
    seq![
        store_key_memory_definition_spec(),
        search_routine_memory_definition_spec(),
        search_key_memory_definition_spec(),
    ]
}

/// The tools of the code intelligence.
pub open spec fn code_intelligence_tools_spec() -> Seq<ToolDefinitionView> {
    seq![
        ra_diagnostics_definition_spec(),
        ra_goto_definition_definition_spec(),
        ra_find_references_definition_spec(),
        ra_hover_definition_spec(),
        ra_symbols_definition_spec(),
        ra_completion_definition_spec(),
        ra_code_actions_definition_spec(),
        ra_rename_definition_spec(),
        ra_format_definition_spec(),
    ]
}

/// The catalog: the tools that every agent has; those of the long-term
/// memory where a memory is attached; the delegation; and those of the code
/// intelligence where it is available.
pub open spec fn catalog_spec(
    working_directory: Seq<char>,
    memory: bool,
    depth: usize,
    code_intelligence: bool,
) -> Seq<ToolDefinitionView> {
    base_tools_spec(working_directory) + (if memory {
        memory_tools_spec()
    } else {
        Seq::empty()
    }) + seq![delegate_definition_spec(depth)] + (if code_intelligence {
        code_intelligence_tools_spec()
    } else {
        Seq::empty()
    })
}

/// The tools that the model is told of, for an agent at level `depth` that
/// works in `working_directory`.
pub fn get_tool_definitions(
    working_directory: &str,
    memory: bool,
    depth: usize,
    code_intelligence: bool,
) -> (tools: Vec<ToolDefinition>)
    ensures
        definitions_view(tools@) == catalog_spec(
            working_directory@,
            memory,
            depth,
            code_intelligence,
        ),
{
    let mut tools: Vec<ToolDefinition> = Vec::new();
    tools.push(read_file_definition(working_directory));
    tools.push(write_file_definition(working_directory));
    tools.push(edit_file_definition(working_directory));
    tools.push(list_dir_definition(working_directory));
    tools.push(bash_definition(working_directory));
    tools.push(grep_definition(working_directory));
    tools.push(glob_definition(working_directory));
    tools.push(bash_status_definition());
    tools.push(bash_output_definition());
    tools.push(bash_kill_definition());
    tools.push(bash_list_definition());
    tools.push(web_fetch_definition());
    tools.push(web_search_definition());
    tools.push(math_calc_definition());
    assert(definitions_view(tools@) =~= base_tools_spec(working_directory@));
    if memory {
        tools.push(store_key_memory_definition());
        tools.push(search_routine_memory_definition());
        tools.push(search_key_memory_definition());
        assert(definitions_view(tools@) =~= base_tools_spec(working_directory@) + memory_tools_spec());
    }
    let ghost before = definitions_view(tools@);
    tools.push(delegate_definition(depth));
    assert(definitions_view(tools@) =~= before + seq![delegate_definition_spec(depth)]);
    if code_intelligence {
        let ghost before = definitions_view(tools@);
        tools.push(ra_diagnostics_definition());
        tools.push(ra_goto_definition_definition());
        tools.push(ra_find_references_definition());
        tools.push(ra_hover_definition());
        tools.push(ra_symbols_definition());
        tools.push(ra_completion_definition());
        tools.push(ra_code_actions_definition());
        tools.push(ra_rename_definition());
        tools.push(ra_format_definition());
        assert(definitions_view(tools@) =~= before + code_intelligence_tools_spec());
    }
    tools
}

} // verus!
