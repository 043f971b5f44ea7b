//! From a tool's name and payload to the call that is to be made.
//!
//! The payload is checked against the arguments of the tool that the name
//! stands for. What comes out is the call with its typed arguments, ready
//! to be carried out, or the error that goes back to the model as the
//! result of the call.

use vstd::prelude::*;
use crate::args::{optional_str_spec, required_str_spec, optional_bool_spec, optional_uint_spec, ArgValue};
use crate::error::{ToolError, ToolErrorView};
use crate::text::{joined, str_eq};
use crate::tool_args::{
    opt_usize_view, opt_view, BashArgs, BashKillArgs, BashListArgs, BashOutputArgs,
    BashStatusArgs, EditFileArgs, GlobArgs, GrepArgs, ListDirArgs, MathCalcArgs,
    RaCodeActionsArgs, RaCompletionArgs, RaDiagnosticsArgs, RaFindReferencesArgs, RaFormatArgs,
    RaGotoDefinitionArgs, RaHoverArgs, RaRenameArgs, RaSymbolsArgs, ReadFileArgs,
    SearchKeyMemoryArgs, SearchRoutineMemoryArgs, SpawnAgentArgs, StoreKeyMemoryArgs,
    WebFetchArgs, WebSearchArgs, WriteFileArgs,
};

verus! {

/// The deepest level at which an agent may stand; the main agent stands at
/// level 0. An agent at this level cannot delegate.
pub const MAX_DEPTH: usize = 3;

/// A call of a tool with its arguments, checked.
#[derive(Debug)]
pub enum ToolInvocation {
    ReadFile(ReadFileArgs),
    WriteFile(WriteFileArgs),
    EditFile(EditFileArgs),
    ListDir(ListDirArgs),
    Bash(BashArgs),
    Grep(GrepArgs),
    Glob(GlobArgs),
    BashStatus(BashStatusArgs),
    BashOutput(BashOutputArgs),
    BashKill(BashKillArgs),
    BashList(BashListArgs),
    WebFetch(WebFetchArgs),
    WebSearch(WebSearchArgs),
    MathCalc(MathCalcArgs),
    StoreKeyMemory(StoreKeyMemoryArgs),
    SearchRoutineMemory(SearchRoutineMemoryArgs),
    SearchKeyMemory(SearchKeyMemoryArgs),
    SpawnAgent(SpawnAgentArgs),
    RaDiagnostics(RaDiagnosticsArgs),
    RaGotoDefinition(RaGotoDefinitionArgs),
    RaFindReferences(RaFindReferencesArgs),
    RaHover(RaHoverArgs),
    RaSymbols(RaSymbolsArgs),
    RaCompletion(RaCompletionArgs),
    RaCodeActions(RaCodeActionsArgs),
    RaRename(RaRenameArgs),
    RaFormat(RaFormatArgs),
}

impl ToolInvocation {
    /// The name of the tool that the call is for.
    pub open spec fn name_spec(self) -> Seq<char> {
        match self {
            ToolInvocation::ReadFile(_) => "read_file"@,
            ToolInvocation::WriteFile(_) => "write_file"@,
            ToolInvocation::EditFile(_) => "edit_file"@,
            ToolInvocation::ListDir(_) => "list_dir"@,
            ToolInvocation::Bash(_) => "bash"@,
            ToolInvocation::Grep(_) => "grep"@,
            ToolInvocation::Glob(_) => "glob"@,
            ToolInvocation::BashStatus(_) => "bash_status"@,
            ToolInvocation::BashOutput(_) => "bash_output"@,
            ToolInvocation::BashKill(_) => "bash_kill"@,
            ToolInvocation::BashList(_) => "bash_list"@,
            ToolInvocation::WebFetch(_) => "web_fetch"@,
            ToolInvocation::WebSearch(_) => "web_search"@,
            ToolInvocation::MathCalc(_) => "math_calc"@,
            ToolInvocation::StoreKeyMemory(_) => "store_key_memory"@,
            ToolInvocation::SearchRoutineMemory(_) => "search_routine_memory"@,
            ToolInvocation::SearchKeyMemory(_) => "search_key_memory"@,
            ToolInvocation::SpawnAgent(_) => "delegate"@,
            ToolInvocation::RaDiagnostics(_) => "ra_diagnostics"@,
            ToolInvocation::RaGotoDefinition(_) => "ra_goto_definition"@,
            ToolInvocation::RaFindReferences(_) => "ra_find_references"@,
            ToolInvocation::RaHover(_) => "ra_hover"@,
            ToolInvocation::RaSymbols(_) => "ra_symbols"@,
            ToolInvocation::RaCompletion(_) => "ra_completion"@,
            ToolInvocation::RaCodeActions(_) => "ra_code_actions"@,
            ToolInvocation::RaRename(_) => "ra_rename"@,
            ToolInvocation::RaFormat(_) => "ra_format"@,
        }
    }

    /// The name of the tool that the call is for.
    pub fn name(&self) -> (r: &'static str)
        ensures
            r@ == self.name_spec(),
    {
        match self {
            ToolInvocation::ReadFile(_) => "read_file",
            ToolInvocation::WriteFile(_) => "write_file",
            ToolInvocation::EditFile(_) => "edit_file",
            ToolInvocation::ListDir(_) => "list_dir",
            ToolInvocation::Bash(_) => "bash",
            ToolInvocation::Grep(_) => "grep",
            ToolInvocation::Glob(_) => "glob",
            ToolInvocation::BashStatus(_) => "bash_status",
            ToolInvocation::BashOutput(_) => "bash_output",
            ToolInvocation::BashKill(_) => "bash_kill",
            ToolInvocation::BashList(_) => "bash_list",
            ToolInvocation::WebFetch(_) => "web_fetch",
            ToolInvocation::WebSearch(_) => "web_search",
            ToolInvocation::MathCalc(_) => "math_calc",
            ToolInvocation::StoreKeyMemory(_) => "store_key_memory",
            ToolInvocation::SearchRoutineMemory(_) => "search_routine_memory",
            ToolInvocation::SearchKeyMemory(_) => "search_key_memory",
            ToolInvocation::SpawnAgent(_) => "delegate",
            ToolInvocation::RaDiagnostics(_) => "ra_diagnostics",
            ToolInvocation::RaGotoDefinition(_) => "ra_goto_definition",
            ToolInvocation::RaFindReferences(_) => "ra_find_references",
            ToolInvocation::RaHover(_) => "ra_hover",
            ToolInvocation::RaSymbols(_) => "ra_symbols",
            ToolInvocation::RaCompletion(_) => "ra_completion",
            ToolInvocation::RaCodeActions(_) => "ra_code_actions",
            ToolInvocation::RaRename(_) => "ra_rename",
            ToolInvocation::RaFormat(_) => "ra_format",
        }
    }
}

/// The text of the error for a delegation from the deepest level.
pub open spec fn depth_exceeded_text() -> Seq<char> {
    "Maximum agent depth (3) reached. Cannot spawn more sub-agents."@
}

/// The text of the error for a name that stands for no tool.
pub open spec fn unknown_tool_text(name: Seq<char>) -> Seq<char> {
    "Unknown tool: "@ + name
}

/// A string argument with a default: what the payload gives for `key`
/// where it has such a field, and `default` where it has none.
pub open spec fn defaulted(args: ArgValue, key: Seq<char>, default: Seq<char>, got: Option<
    Seq<char>,
>) -> bool {
    if args.has_field(key) {
        optional_str_spec(args, key) == Ok::<_, ToolErrorView>(got)
    } else {
        got == Some(default)
    }
}

/// Whether `a` holds the arguments of `bash` that the payload gives, with
/// `wd` as the working directory where the payload names none.
pub open spec fn bash_read_from(a: BashArgs, args: ArgValue, wd: Seq<char>) -> bool {
    &&& args is Object
    &&& required_str_spec(args, "command"@) == Ok::<_, ToolErrorView>(a.command@)
    &&& defaulted(args, "working_dir"@, wd, opt_view(a.working_dir))
    &&& optional_uint_spec(args, "timeout_secs"@, u64::MAX) == Ok::<_, ToolErrorView>(
        a.timeout_secs,
    )
    &&& optional_bool_spec(args, "background"@) == Ok::<_, ToolErrorView>(a.background)
}

/// Whether `a` holds the arguments of `grep` that the payload gives, with
/// `wd` as the place to search where the payload names none.
pub open spec fn grep_read_from(a: GrepArgs, args: ArgValue, wd: Seq<char>) -> bool {
    &&& args is Object
    &&& required_str_spec(args, "pattern"@) == Ok::<_, ToolErrorView>(a.pattern@)
    &&& defaulted(args, "path"@, wd, opt_view(a.path))
    &&& optional_bool_spec(args, "ignore_case"@) == Ok::<_, ToolErrorView>(a.ignore_case)
    &&& optional_uint_spec(args, "max_results"@, usize::MAX as u64) == Ok::<_, ToolErrorView>(
        opt_usize_view(a.max_results),
    )
}

/// Whether `a` holds the arguments of `glob` that the payload gives, with
/// `wd` as the base directory where the payload names none.
pub open spec fn glob_read_from(a: GlobArgs, args: ArgValue, wd: Seq<char>) -> bool {
    &&& args is Object
    &&& required_str_spec(args, "pattern"@) == Ok::<_, ToolErrorView>(a.pattern@)
    &&& defaulted(args, "base_dir"@, wd, opt_view(a.base_dir))
}

/// What the dispatch of the call `name` with the payload `args` gives, for
/// an agent at level `depth` that works in the directory `wd`.
pub open spec fn dispatched(
    name: Seq<char>,
    args: ArgValue,
    wd: Seq<char>,
    depth: usize,
    r: Result<ToolInvocation, ToolError>,
) -> bool {
    if name == "read_file"@ {
        match r {
            Ok(inv) => inv matches ToolInvocation::ReadFile(a) && a.read_from(args) && ReadFileArgs::fault_of(
                args,
            ) is None,
            Err(e) => ReadFileArgs::fault_of(args) == Some(e@),
        }
    } else if name == "write_file"@ {
        match r {
            Ok(inv) => inv matches ToolInvocation::WriteFile(a) && a.read_from(args) && WriteFileArgs::fault_of(
                args,
            ) is None,
            Err(e) => WriteFileArgs::fault_of(args) == Some(e@),
        }
    } else if name == "edit_file"@ {
        match r {
            Ok(inv) => inv matches ToolInvocation::EditFile(a) && a.read_from(args) && EditFileArgs::fault_of(
                args,
            ) is None,
            Err(e) => EditFileArgs::fault_of(args) == Some(e@),
        }
    } else if name == "list_dir"@ {
        match r {
            Ok(inv) => inv matches ToolInvocation::ListDir(a) && a.read_from(args) && ListDirArgs::fault_of(
                args,
            ) is None,
            Err(e) => ListDirArgs::fault_of(args) == Some(e@),
        }
    } else if name == "bash"@ {
        match r {
            Ok(inv) => inv matches ToolInvocation::Bash(a) && bash_read_from(a, args, wd)
                && BashArgs::fault_of(args) is None,
            Err(e) => BashArgs::fault_of(args) == Some(e@),
        }
    } else if name == "grep"@ {
        match r {
            Ok(inv) => inv matches ToolInvocation::Grep(a) && grep_read_from(a, args, wd)
                && GrepArgs::fault_of(args) is None,
            Err(e) => GrepArgs::fault_of(args) == Some(e@),
        }
    } else if name == "glob"@ {
        match r {
            Ok(inv) => inv matches ToolInvocation::Glob(a) && glob_read_from(a, args, wd)
                && GlobArgs::fault_of(args) is None,
            Err(e) => GlobArgs::fault_of(args) == Some(e@),
        }
    } else if name == "bash_status"@ {
        match r {
            Ok(inv) => inv matches ToolInvocation::BashStatus(a) && a.read_from(args) && BashStatusArgs::fault_of(
                args,
            ) is None,
            Err(e) => BashStatusArgs::fault_of(args) == Some(e@),
        }
    } else if name == "bash_output"@ {
        match r {
            Ok(inv) => inv matches ToolInvocation::BashOutput(a) && a.read_from(args) && BashOutputArgs::fault_of(
                args,
            ) is None,
            Err(e) => BashOutputArgs::fault_of(args) == Some(e@),
        }
    } else if name == "bash_kill"@ {
        match r {
            Ok(inv) => inv matches ToolInvocation::BashKill(a) && a.read_from(args) && BashKillArgs::fault_of(
                args,
            ) is None,
            Err(e) => BashKillArgs::fault_of(args) == Some(e@),
        }
    } else if name == "bash_list"@ {
        match r {
            Ok(inv) => inv matches ToolInvocation::BashList(a) && a.read_from(args) && BashListArgs::fault_of(
                args,
            ) is None,
            Err(e) => BashListArgs::fault_of(args) == Some(e@),
        }
    } else if name == "web_fetch"@ {
        match r {
            Ok(inv) => inv matches ToolInvocation::WebFetch(a) && a.read_from(args) && WebFetchArgs::fault_of(
                args,
            ) is None,
            Err(e) => WebFetchArgs::fault_of(args) == Some(e@),
        }
    } else if name == "web_search"@ {
        match r {
            Ok(inv) => inv matches ToolInvocation::WebSearch(a) && a.read_from(args) && WebSearchArgs::fault_of(
                args,
            ) is None,
            Err(e) => WebSearchArgs::fault_of(args) == Some(e@),
        }
    } else if name == "math_calc"@ {
        match r {
            Ok(inv) => inv matches ToolInvocation::MathCalc(a) && a.read_from(args) && MathCalcArgs::fault_of(
                args,
            ) is None,
            Err(e) => MathCalcArgs::fault_of(args) == Some(e@),
        }
    } else if name == "store_key_memory"@ {
        match r {
            Ok(inv) => inv matches ToolInvocation::StoreKeyMemory(a) && a.read_from(args) && StoreKeyMemoryArgs::fault_of(
                args,
            ) is None,
            Err(e) => StoreKeyMemoryArgs::fault_of(args) == Some(e@),
        }
    } else if name == "search_routine_memory"@ {
        match r {
            Ok(inv) => inv matches ToolInvocation::SearchRoutineMemory(a) && a.read_from(args) && SearchRoutineMemoryArgs::fault_of(
                args,
            ) is None,
            Err(e) => SearchRoutineMemoryArgs::fault_of(args) == Some(e@),
        }
    } else if name == "search_key_memory"@ {
        match r {
            Ok(inv) => inv matches ToolInvocation::SearchKeyMemory(a) && a.read_from(args) && SearchKeyMemoryArgs::fault_of(
                args,
            ) is None,
            Err(e) => SearchKeyMemoryArgs::fault_of(args) == Some(e@),
        }
    } else if name == "delegate"@ {
        if depth >= MAX_DEPTH {
            r matches Err(e) && e@ == ToolErrorView::Other(depth_exceeded_text())
        } else {
            match r {
                Ok(inv) => inv matches ToolInvocation::SpawnAgent(a) && a.read_from(args)
                    && SpawnAgentArgs::fault_of(args) is None,
                Err(e) => SpawnAgentArgs::fault_of(args) == Some(e@),
            }
        }
    } else if name == "ra_diagnostics"@ {
        match r {
            Ok(inv) => inv matches ToolInvocation::RaDiagnostics(a) && a.read_from(args) && RaDiagnosticsArgs::fault_of(
                args,
            ) is None,
            Err(e) => RaDiagnosticsArgs::fault_of(args) == Some(e@),
        }
    } else if name == "ra_goto_definition"@ {
        match r {
            Ok(inv) => inv matches ToolInvocation::RaGotoDefinition(a) && a.read_from(args) && RaGotoDefinitionArgs::fault_of(
                args,
            ) is None,
            Err(e) => RaGotoDefinitionArgs::fault_of(args) == Some(e@),
        }
    } else if name == "ra_find_references"@ {
        match r {
            Ok(inv) => inv matches ToolInvocation::RaFindReferences(a) && a.read_from(args) && RaFindReferencesArgs::fault_of(
                args,
            ) is None,
            Err(e) => RaFindReferencesArgs::fault_of(args) == Some(e@),
        }
    } else if name == "ra_hover"@ {
        match r {
            Ok(inv) => inv matches ToolInvocation::RaHover(a) && a.read_from(args) && RaHoverArgs::fault_of(
                args,
            ) is None,
            Err(e) => RaHoverArgs::fault_of(args) == Some(e@),
        }
    } else if name == "ra_symbols"@ {
        match r {
            Ok(inv) => inv matches ToolInvocation::RaSymbols(a) && a.read_from(args) && RaSymbolsArgs::fault_of(
                args,
            ) is None,
            Err(e) => RaSymbolsArgs::fault_of(args) == Some(e@),
        }
    } else if name == "ra_completion"@ {
        match r {
            Ok(inv) => inv matches ToolInvocation::RaCompletion(a) && a.read_from(args) && RaCompletionArgs::fault_of(
                args,
            ) is None,
            Err(e) => RaCompletionArgs::fault_of(args) == Some(e@),
        }
    } else if name == "ra_code_actions"@ {
        match r {
            Ok(inv) => inv matches ToolInvocation::RaCodeActions(a) && a.read_from(args) && RaCodeActionsArgs::fault_of(
                args,
            ) is None,
            Err(e) => RaCodeActionsArgs::fault_of(args) == Some(e@),
        }
    } else if name == "ra_rename"@ {
        match r {
            Ok(inv) => inv matches ToolInvocation::RaRename(a) && a.read_from(args) && RaRenameArgs::fault_of(
                args,
            ) is None,
            Err(e) => RaRenameArgs::fault_of(args) == Some(e@),
        }
    } else if name == "ra_format"@ {
        match r {
            Ok(inv) => inv matches ToolInvocation::RaFormat(a) && a.read_from(args) && RaFormatArgs::fault_of(
                args,
            ) is None,
            Err(e) => RaFormatArgs::fault_of(args) == Some(e@),
        }
    } else {
        r matches Err(e) && e@ == ToolErrorView::InvalidArguments(unknown_tool_text(name))
    }
}

/// The error that the dispatch of the call `name` with the payload `args`
/// gives for an agent at level `depth`, if it gives one.
pub open spec fn dispatch_fault(name: Seq<char>, args: ArgValue, depth: usize) -> Option<
    ToolErrorView,
> {
    if name == "read_file"@ {
        ReadFileArgs::fault_of(args)
    } else if name == "write_file"@ {
        WriteFileArgs::fault_of(args)
    } else if name == "edit_file"@ {
        EditFileArgs::fault_of(args)
    } else if name == "list_dir"@ {
        ListDirArgs::fault_of(args)
    } else if name == "bash"@ {
        BashArgs::fault_of(args)
    } else if name == "grep"@ {
        GrepArgs::fault_of(args)
    } else if name == "glob"@ {
        GlobArgs::fault_of(args)
    } else if name == "bash_status"@ {
        BashStatusArgs::fault_of(args)
    } else if name == "bash_output"@ {
        BashOutputArgs::fault_of(args)
    } else if name == "bash_kill"@ {
        BashKillArgs::fault_of(args)
    } else if name == "bash_list"@ {
        BashListArgs::fault_of(args)
    } else if name == "web_fetch"@ {
        WebFetchArgs::fault_of(args)
    } else if name == "web_search"@ {
        WebSearchArgs::fault_of(args)
    } else if name == "math_calc"@ {
        MathCalcArgs::fault_of(args)
    } else if name == "store_key_memory"@ {
        StoreKeyMemoryArgs::fault_of(args)
    } else if name == "search_routine_memory"@ {
        SearchRoutineMemoryArgs::fault_of(args)
    } else if name == "search_key_memory"@ {
        SearchKeyMemoryArgs::fault_of(args)
    } else if name == "delegate"@ {
        if depth >= MAX_DEPTH {
            Some(ToolErrorView::Other(depth_exceeded_text()))
        } else {
            SpawnAgentArgs::fault_of(args)
        }
    } else if name == "ra_diagnostics"@ {
        RaDiagnosticsArgs::fault_of(args)
    } else if name == "ra_goto_definition"@ {
        RaGotoDefinitionArgs::fault_of(args)
    } else if name == "ra_find_references"@ {
        RaFindReferencesArgs::fault_of(args)
    } else if name == "ra_hover"@ {
        RaHoverArgs::fault_of(args)
    } else if name == "ra_symbols"@ {
        RaSymbolsArgs::fault_of(args)
    } else if name == "ra_completion"@ {
        RaCompletionArgs::fault_of(args)
    } else if name == "ra_code_actions"@ {
        RaCodeActionsArgs::fault_of(args)
    } else if name == "ra_rename"@ {
        RaRenameArgs::fault_of(args)
    } else if name == "ra_format"@ {
        RaFormatArgs::fault_of(args)
    } else {
        Some(ToolErrorView::InvalidArguments(unknown_tool_text(name)))
    }
}

/// Finds the tool that `name` stands for, checks the payload against its
/// arguments, and gives the call to make. `bash`, `grep` and `glob` work in
/// `working_directory` where the payload names no place. A delegation is
/// refused at the deepest level, whatever the payload holds.
pub fn dispatch_tool(name: &str, args: &ArgValue, working_directory: &str, depth: usize) -> (r:
    Result<ToolInvocation, ToolError>)
    ensures
        dispatched(name@, *args, working_directory@, depth, r),
        match r {
            Ok(call) => dispatch_fault(name@, *args, depth) is None && call.name_spec() == name@,
            Err(e) => dispatch_fault(name@, *args, depth) == Some(e@),
        },
{
    if str_eq(name, "read_file") {
        match ReadFileArgs::parse(args) {
            Ok(a) => Ok(ToolInvocation::ReadFile(a)),
            Err(e) => Err(e),
        }
    } else if str_eq(name, "write_file") {
        match WriteFileArgs::parse(args) {
            Ok(a) => Ok(ToolInvocation::WriteFile(a)),
            Err(e) => Err(e),
        }
    } else if str_eq(name, "edit_file") {
        match EditFileArgs::parse(args) {
            Ok(a) => Ok(ToolInvocation::EditFile(a)),
            Err(e) => Err(e),
        }
    } else if str_eq(name, "list_dir") {
        match ListDirArgs::parse(args) {
            Ok(a) => Ok(ToolInvocation::ListDir(a)),
            Err(e) => Err(e),
        }
    } else if str_eq(name, "bash") {
        match BashArgs::parse(args) {
            Ok(a) => {
                let mut a = a;
                if args.get("working_dir").is_none() {
                    a.working_dir = Some(working_directory.to_owned());
                }
                Ok(ToolInvocation::Bash(a))
            },
            Err(e) => Err(e),
        }
    } else if str_eq(name, "grep") {
        match GrepArgs::parse(args) {
            Ok(a) => {
                let mut a = a;
                if args.get("path").is_none() {
                    a.path = Some(working_directory.to_owned());
                }
                Ok(ToolInvocation::Grep(a))
            },
            Err(e) => Err(e),
        }
    } else if str_eq(name, "glob") {
        match GlobArgs::parse(args) {
            Ok(a) => {
                let mut a = a;
                if args.get("base_dir").is_none() {
                    a.base_dir = Some(working_directory.to_owned());
                }
                Ok(ToolInvocation::Glob(a))
            },
            Err(e) => Err(e),
        }
    } else if str_eq(name, "bash_status") {
        match BashStatusArgs::parse(args) {
            Ok(a) => Ok(ToolInvocation::BashStatus(a)),
            Err(e) => Err(e),
        }
    } else if str_eq(name, "bash_output") {
        match BashOutputArgs::parse(args) {
            Ok(a) => Ok(ToolInvocation::BashOutput(a)),
            Err(e) => Err(e),
        }
    } else if str_eq(name, "bash_kill") {
        match BashKillArgs::parse(args) {
            Ok(a) => Ok(ToolInvocation::BashKill(a)),
            Err(e) => Err(e),
        }
    } else if str_eq(name, "bash_list") {
        match BashListArgs::parse(args) {
            Ok(a) => Ok(ToolInvocation::BashList(a)),
            Err(e) => Err(e),
        }
    } else if str_eq(name, "web_fetch") {
        match WebFetchArgs::parse(args) {
            Ok(a) => Ok(ToolInvocation::WebFetch(a)),
            Err(e) => Err(e),
        }
    } else if str_eq(name, "web_search") {
        match WebSearchArgs::parse(args) {
            Ok(a) => Ok(ToolInvocation::WebSearch(a)),
            Err(e) => Err(e),
        }
    } else if str_eq(name, "math_calc") {
        match MathCalcArgs::parse(args) {
            Ok(a) => Ok(ToolInvocation::MathCalc(a)),
            Err(e) => Err(e),
        }
    } else if str_eq(name, "store_key_memory") {
        match StoreKeyMemoryArgs::parse(args) {
            Ok(a) => Ok(ToolInvocation::StoreKeyMemory(a)),
            Err(e) => Err(e),
        }
    } else if str_eq(name, "search_routine_memory") {
        match SearchRoutineMemoryArgs::parse(args) {
            Ok(a) => Ok(ToolInvocation::SearchRoutineMemory(a)),
            Err(e) => Err(e),
        }
    } else if str_eq(name, "search_key_memory") {
        match SearchKeyMemoryArgs::parse(args) {
            Ok(a) => Ok(ToolInvocation::SearchKeyMemory(a)),
            Err(e) => Err(e),
        }
    } else if str_eq(name, "delegate") {
        if depth >= MAX_DEPTH {
            return Err(
                ToolError::other("Maximum agent depth (3) reached. Cannot spawn more sub-agents."),
            );
        }
        match SpawnAgentArgs::parse(args) {
            Ok(a) => Ok(ToolInvocation::SpawnAgent(a)),
            Err(e) => Err(e),
        }
    } else if str_eq(name, "ra_diagnostics") {
        match RaDiagnosticsArgs::parse(args) {
            Ok(a) => Ok(ToolInvocation::RaDiagnostics(a)),
            Err(e) => Err(e),
        }
    } else if str_eq(name, "ra_goto_definition") {
        match RaGotoDefinitionArgs::parse(args) {
            Ok(a) => Ok(ToolInvocation::RaGotoDefinition(a)),
            Err(e) => Err(e),
        }
    } else if str_eq(name, "ra_find_references") {
        match RaFindReferencesArgs::parse(args) {
            Ok(a) => Ok(ToolInvocation::RaFindReferences(a)),
            Err(e) => Err(e),
        }
    } else if str_eq(name, "ra_hover") {
        match RaHoverArgs::parse(args) {
            Ok(a) => Ok(ToolInvocation::RaHover(a)),
            Err(e) => Err(e),
        }
    } else if str_eq(name, "ra_symbols") {
        match RaSymbolsArgs::parse(args) {
            Ok(a) => Ok(ToolInvocation::RaSymbols(a)),
            Err(e) => Err(e),
        }
    } else if str_eq(name, "ra_completion") {
        match RaCompletionArgs::parse(args) {
            Ok(a) => Ok(ToolInvocation::RaCompletion(a)),
            Err(e) => Err(e),
        }
    } else if str_eq(name, "ra_code_actions") {
        match RaCodeActionsArgs::parse(args) {
            Ok(a) => Ok(ToolInvocation::RaCodeActions(a)),
            Err(e) => Err(e),
        }
    } else if str_eq(name, "ra_rename") {
        match RaRenameArgs::parse(args) {
            Ok(a) => Ok(ToolInvocation::RaRename(a)),
            Err(e) => Err(e),
        }
    } else if str_eq(name, "ra_format") {
        match RaFormatArgs::parse(args) {
            Ok(a) => Ok(ToolInvocation::RaFormat(a)),
            Err(e) => Err(e),
        }
    } else {
        Err(ToolError::InvalidArguments(joined("Unknown tool: ", name)))
    }
}

} // verus!
