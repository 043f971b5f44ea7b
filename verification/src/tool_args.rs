//! The arguments of each tool, and how a payload is checked against them.
//!
//! A payload is accepted where it is an object, every required argument is
//! there with the right type, and every other argument is absent, null or
//! of the right type. Arguments that the tool does not know are passed
//! over. The first argument at fault, in the order of the fields, gives the
//! error.

use vstd::prelude::*;
use crate::args::{
    not_an_object, not_an_object_text, optional_bool,
    optional_bool_spec, optional_str, optional_str_list, optional_str_list_spec,
    optional_str_spec, optional_uint, optional_uint_spec, plain_result, required_str,
    required_str_spec, required_uint, required_uint_spec, wrong_type, wrong_type_text, ArgValue,
};
use crate::error::{ToolError, ToolErrorView};
use crate::text::views;

verus! {

/// The view of a string that may be absent.
pub open spec fn opt_view(o: Option<String>) -> Option<Seq<char>> {
    match o {
        Some(s) => Some(s@),
        None => None,
    }
}

/// The view of a list of strings that may be absent.
pub open spec fn opt_list_view(o: Option<Vec<String>>) -> Option<Seq<Seq<char>>> {
    match o {
        Some(v) => Some(views(v@)),
        None => None,
    }
}

/// A size that may be absent, as an unsigned integer.
pub open spec fn opt_usize_view(o: Option<usize>) -> Option<u64> {
    match o {
        Some(n) => Some(n as u64),
        None => None,
    }
}

/// A 32-bit number that may be absent, as an unsigned integer.
pub open spec fn opt_u32_view(o: Option<u32>) -> Option<u64> {
    match o {
        Some(n) => Some(n as u64),
        None => None,
    }
}

/// What a boolean field with a default gives: the default where the field
/// is missing, and an error where it is anything but a boolean.
pub open spec fn bool_or_spec(args: ArgValue, key: Seq<char>, default: bool) -> Result<
    bool,
    ToolErrorView,
> {
    match args.lookup(key) {
        Some(ArgValue::Bool(b)) => Ok(b),
        None => Ok(default),
        Some(_) => Err(ToolErrorView::InvalidArguments(wrong_type_text(key, "a boolean"@))),
    }
}

/// The boolean that the field `key` holds, or `default` where it is
/// missing.
pub fn bool_or(args: &ArgValue, key: &str, default: bool) -> (r: Result<bool, ToolError>)
    ensures
        plain_result(r) == bool_or_spec(*args, key@, default),
{
    match args.get(key) {
        Some(ArgValue::Bool(b)) => Ok(*b),
        None => Ok(default),
        Some(_) => Err(wrong_type(key, "a boolean")),
    }
}

/// The view of a result that may hold a size.
pub open spec fn opt_usize_result(r: Result<Option<usize>, ToolError>) -> Result<
    Option<u64>,
    ToolErrorView,
> {
    match r {
        Ok(o) => Ok(opt_usize_view(o)),
        Err(e) => Err(e@),
    }
}

/// The view of a result that may hold a 32-bit number.
pub open spec fn opt_u32_result(r: Result<Option<u32>, ToolError>) -> Result<
    Option<u64>,
    ToolErrorView,
> {
    match r {
        Ok(o) => Ok(opt_u32_view(o)),
        Err(e) => Err(e@),
    }
}

/// The view of a result that holds a 32-bit number.
pub open spec fn u32_result(r: Result<u32, ToolError>) -> Result<u64, ToolErrorView> {
    match r {
        Ok(n) => Ok(n as u64),
        Err(e) => Err(e@),
    }
}

/// The size that the field `key` may hold.
pub fn optional_usize(args: &ArgValue, key: &str) -> (r: Result<Option<usize>, ToolError>)
    ensures
        opt_usize_result(r) == optional_uint_spec(*args, key@, usize::MAX as u64),
{
    match optional_uint(args, key, usize::MAX as u64) {
        Ok(Some(n)) => Ok(Some(n as usize)),
        Ok(None) => Ok(None),
        Err(e) => Err(e),
    }
}

/// The 32-bit number that the field `key` may hold.
pub fn optional_u32(args: &ArgValue, key: &str) -> (r: Result<Option<u32>, ToolError>)
    ensures
        opt_u32_result(r) == optional_uint_spec(*args, key@, u32::MAX as u64),
{
    match optional_uint(args, key, u32::MAX as u64) {
        Ok(Some(n)) => Ok(Some(n as u32)),
        Ok(None) => Ok(None),
        Err(e) => Err(e),
    }
}

/// The 32-bit number that the field `key` must hold.
pub fn required_u32(args: &ArgValue, key: &str) -> (r: Result<u32, ToolError>)
    ensures
        u32_result(r) == required_uint_spec(*args, key@, u32::MAX as u64),
{
    match required_uint(args, key, u32::MAX as u64) {
        Ok(n) => Ok(n as u32),
        Err(e) => Err(e),
    }
}

/// Arguments of `read_file`.
#[derive(Debug)]
pub struct ReadFileArgs {
    /// Path of the file to read.
    pub file_path: String,
    /// First line to read, counted from 1.
    pub offset: Option<usize>,
    /// Number of lines to read.
    pub limit: Option<usize>,
}

impl ReadFileArgs {
    /// Whether the payload `args` gives exactly these arguments.
    pub open spec fn read_from(self, args: ArgValue) -> bool {
        let a = self;
        &&& args is Object
        &&& required_str_spec(args, "file_path"@) == Ok::<_, ToolErrorView>(a.file_path@)
        &&& optional_uint_spec(args, "offset"@, usize::MAX as u64) == Ok::<_, ToolErrorView>(opt_usize_view(a.offset))
        &&& optional_uint_spec(args, "limit"@, usize::MAX as u64) == Ok::<_, ToolErrorView>(opt_usize_view(a.limit))
    }

    /// The error that the payload `args` gives, where it is not accepted:
    /// that of the first argument at fault.
    pub open spec fn fault_of(args: ArgValue) -> Option<ToolErrorView> {
        if !(args is Object) {
            Some(ToolErrorView::InvalidArguments(not_an_object_text()))
        } else if required_str_spec(args, "file_path"@) is Err {
            Some(required_str_spec(args, "file_path"@)->Err_0)
        } else if optional_uint_spec(args, "offset"@, usize::MAX as u64) is Err {
            Some(optional_uint_spec(args, "offset"@, usize::MAX as u64)->Err_0)
        } else if optional_uint_spec(args, "limit"@, usize::MAX as u64) is Err {
            Some(optional_uint_spec(args, "limit"@, usize::MAX as u64)->Err_0)
        } else {
            None
        }
    }

    /// Checks a payload and takes the arguments out of it.
    pub fn parse(args: &ArgValue) -> (r: Result<Self, ToolError>)
        ensures
            match r {
                Ok(a) => a.read_from(*args) && Self::fault_of(*args) is None,
                Err(e) => Self::fault_of(*args) == Some(e@),
            },
    {
        if !args.is_object() {
            return Err(not_an_object());
        }
        let file_path = match required_str(args, "file_path") {
            Ok(v) => v,
            Err(e) => {
                return Err(e);
            },
        };
        let offset = match optional_usize(args, "offset") {
            Ok(v) => v,
            Err(e) => {
                return Err(e);
            },
        };
        let limit = match optional_usize(args, "limit") {
            Ok(v) => v,
            Err(e) => {
                return Err(e);
            },
        };
        Ok(ReadFileArgs { file_path, offset, limit })
    }
}

/// Arguments of `write_file`.
#[derive(Debug)]
pub struct WriteFileArgs {
    /// Path of the file to write.
    pub file_path: String,
    /// What to write.
    pub content: String,
}

impl WriteFileArgs {
    /// Whether the payload `args` gives exactly these arguments.
    pub open spec fn read_from(self, args: ArgValue) -> bool {
        let a = self;
        &&& args is Object
        &&& required_str_spec(args, "file_path"@) == Ok::<_, ToolErrorView>(a.file_path@)
        &&& required_str_spec(args, "content"@) == Ok::<_, ToolErrorView>(a.content@)
    }

    /// The error that the payload `args` gives, where it is not accepted:
    /// that of the first argument at fault.
    pub open spec fn fault_of(args: ArgValue) -> Option<ToolErrorView> {
        if !(args is Object) {
            Some(ToolErrorView::InvalidArguments(not_an_object_text()))
        } else if required_str_spec(args, "file_path"@) is Err {
            Some(required_str_spec(args, "file_path"@)->Err_0)
        } else if required_str_spec(args, "content"@) is Err {
            Some(required_str_spec(args, "content"@)->Err_0)
        } else {
            None
        }
    }

    /// Checks a payload and takes the arguments out of it.
    pub fn parse(args: &ArgValue) -> (r: Result<Self, ToolError>)
        ensures
            match r {
                Ok(a) => a.read_from(*args) && Self::fault_of(*args) is None,
                Err(e) => Self::fault_of(*args) == Some(e@),
            },
    {
        if !args.is_object() {
            return Err(not_an_object());
        }
        let file_path = match required_str(args, "file_path") {
            Ok(v) => v,
            Err(e) => {
                return Err(e);
            },
        };
        let content = match required_str(args, "content") {
            Ok(v) => v,
            Err(e) => {
                return Err(e);
            },
        };
        Ok(WriteFileArgs { file_path, content })
    }
}

/// Arguments of `edit_file`.
#[derive(Debug)]
pub struct EditFileArgs {
    /// Path of the file to edit.
    pub file_path: String,
    /// The exact text to find.
    pub old_string: String,
    /// The text to put in its place.
    pub new_string: String,
    /// Whether to replace every occurrence; the first only where absent.
    pub replace_all: Option<bool>,
}

impl EditFileArgs {
    /// Whether the payload `args` gives exactly these arguments.
    pub open spec fn read_from(self, args: ArgValue) -> bool {
        let a = self;
        &&& args is Object
        &&& required_str_spec(args, "file_path"@) == Ok::<_, ToolErrorView>(a.file_path@)
        &&& required_str_spec(args, "old_string"@) == Ok::<_, ToolErrorView>(a.old_string@)
        &&& required_str_spec(args, "new_string"@) == Ok::<_, ToolErrorView>(a.new_string@)
        &&& optional_bool_spec(args, "replace_all"@) == Ok::<_, ToolErrorView>(a.replace_all)
    }

    /// The error that the payload `args` gives, where it is not accepted:
    /// that of the first argument at fault.
    pub open spec fn fault_of(args: ArgValue) -> Option<ToolErrorView> {
        if !(args is Object) {
            Some(ToolErrorView::InvalidArguments(not_an_object_text()))
        } else if required_str_spec(args, "file_path"@) is Err {
            Some(required_str_spec(args, "file_path"@)->Err_0)
        } else if required_str_spec(args, "old_string"@) is Err {
            Some(required_str_spec(args, "old_string"@)->Err_0)
        } else if required_str_spec(args, "new_string"@) is Err {
            Some(required_str_spec(args, "new_string"@)->Err_0)
        } else if optional_bool_spec(args, "replace_all"@) is Err {
            Some(optional_bool_spec(args, "replace_all"@)->Err_0)
        } else {
            None
        }
    }

    /// Checks a payload and takes the arguments out of it.
    pub fn parse(args: &ArgValue) -> (r: Result<Self, ToolError>)
        ensures
            match r {
                Ok(a) => a.read_from(*args) && Self::fault_of(*args) is None,
                Err(e) => Self::fault_of(*args) == Some(e@),
            },
    {
        if !args.is_object() {
            return Err(not_an_object());
        }
        let file_path = match required_str(args, "file_path") {
            Ok(v) => v,
            Err(e) => {
                return Err(e);
            },
        };
        let old_string = match required_str(args, "old_string") {
            Ok(v) => v,
            Err(e) => {
                return Err(e);
            },
        };
        let new_string = match required_str(args, "new_string") {
            Ok(v) => v,
            Err(e) => {
                return Err(e);
            },
        };
        let replace_all = match optional_bool(args, "replace_all") {
            Ok(v) => v,
            Err(e) => {
                return Err(e);
            },
        };
        Ok(EditFileArgs { file_path, old_string, new_string, replace_all })
    }
}

/// Arguments of `list_dir`.
#[derive(Debug)]
pub struct ListDirArgs {
    /// Path of the directory.
    pub path: String,
}

impl ListDirArgs {
    /// Whether the payload `args` gives exactly these arguments.
    pub open spec fn read_from(self, args: ArgValue) -> bool {
        let a = self;
        &&& args is Object
        &&& required_str_spec(args, "path"@) == Ok::<_, ToolErrorView>(a.path@)
    }

    /// The error that the payload `args` gives, where it is not accepted:
    /// that of the first argument at fault.
    pub open spec fn fault_of(args: ArgValue) -> Option<ToolErrorView> {
        if !(args is Object) {
            Some(ToolErrorView::InvalidArguments(not_an_object_text()))
        } else if required_str_spec(args, "path"@) is Err {
            Some(required_str_spec(args, "path"@)->Err_0)
        } else {
            None
        }
    }

    /// Checks a payload and takes the arguments out of it.
    pub fn parse(args: &ArgValue) -> (r: Result<Self, ToolError>)
        ensures
            match r {
                Ok(a) => a.read_from(*args) && Self::fault_of(*args) is None,
                Err(e) => Self::fault_of(*args) == Some(e@),
            },
    {
        if !args.is_object() {
            return Err(not_an_object());
        }
        let path = match required_str(args, "path") {
            Ok(v) => v,
            Err(e) => {
                return Err(e);
            },
        };
        Ok(ListDirArgs { path })
    }
}

/// Arguments of `bash`.
#[derive(Debug)]
pub struct BashArgs {
    /// The command to run.
    pub command: String,
    /// Directory to run it in.
    pub working_dir: Option<String>,
    /// Seconds after which a foreground command is given up; 600 where absent.
    pub timeout_secs: Option<u64>,
    /// Whether to run it in the background.
    pub background: Option<bool>,
}

impl BashArgs {
    /// Whether the payload `args` gives exactly these arguments.
    pub open spec fn read_from(self, args: ArgValue) -> bool {
        let a = self;
        &&& args is Object
        &&& required_str_spec(args, "command"@) == Ok::<_, ToolErrorView>(a.command@)
        &&& optional_str_spec(args, "working_dir"@) == Ok::<_, ToolErrorView>(opt_view(a.working_dir))
        &&& optional_uint_spec(args, "timeout_secs"@, u64::MAX) == Ok::<_, ToolErrorView>(a.timeout_secs)
        &&& optional_bool_spec(args, "background"@) == Ok::<_, ToolErrorView>(a.background)
    }

    /// The error that the payload `args` gives, where it is not accepted:
    /// that of the first argument at fault.
    pub open spec fn fault_of(args: ArgValue) -> Option<ToolErrorView> {
        if !(args is Object) {
            Some(ToolErrorView::InvalidArguments(not_an_object_text()))
        } else if required_str_spec(args, "command"@) is Err {
            Some(required_str_spec(args, "command"@)->Err_0)
        } else if optional_str_spec(args, "working_dir"@) is Err {
            Some(optional_str_spec(args, "working_dir"@)->Err_0)
        } else if optional_uint_spec(args, "timeout_secs"@, u64::MAX) is Err {
            Some(optional_uint_spec(args, "timeout_secs"@, u64::MAX)->Err_0)
        } else if optional_bool_spec(args, "background"@) is Err {
            Some(optional_bool_spec(args, "background"@)->Err_0)
        } else {
            None
        }
    }

    /// Checks a payload and takes the arguments out of it.
    pub fn parse(args: &ArgValue) -> (r: Result<Self, ToolError>)
        ensures
            match r {
                Ok(a) => a.read_from(*args) && Self::fault_of(*args) is None,
                Err(e) => Self::fault_of(*args) == Some(e@),
            },
    {
        if !args.is_object() {
            return Err(not_an_object());
        }
        let command = match required_str(args, "command") {
            Ok(v) => v,
            Err(e) => {
                return Err(e);
            },
        };
        let working_dir = match optional_str(args, "working_dir") {
            Ok(v) => v,
            Err(e) => {
                return Err(e);
            },
        };
        let timeout_secs = match optional_uint(args, "timeout_secs", u64::MAX) {
            Ok(v) => v,
            Err(e) => {
                return Err(e);
            },
        };
        let background = match optional_bool(args, "background") {
            Ok(v) => v,
            Err(e) => {
                return Err(e);
            },
        };
        Ok(BashArgs { command, working_dir, timeout_secs, background })
    }
}

/// Arguments of `grep`.
#[derive(Debug)]
pub struct GrepArgs {
    /// The pattern to search for.
    pub pattern: String,
    /// File or directory to search.
    pub path: Option<String>,
    /// Whether letter case is ignored.
    pub ignore_case: Option<bool>,
    /// Largest number of matches to show.
    pub max_results: Option<usize>,
}

impl GrepArgs {
    /// Whether the payload `args` gives exactly these arguments.
    pub open spec fn read_from(self, args: ArgValue) -> bool {
        let a = self;
        &&& args is Object
        &&& required_str_spec(args, "pattern"@) == Ok::<_, ToolErrorView>(a.pattern@)
        &&& optional_str_spec(args, "path"@) == Ok::<_, ToolErrorView>(opt_view(a.path))
        &&& optional_bool_spec(args, "ignore_case"@) == Ok::<_, ToolErrorView>(a.ignore_case)
        &&& optional_uint_spec(args, "max_results"@, usize::MAX as u64) == Ok::<_, ToolErrorView>(opt_usize_view(a.max_results))
    }

    /// The error that the payload `args` gives, where it is not accepted:
    /// that of the first argument at fault.
    pub open spec fn fault_of(args: ArgValue) -> Option<ToolErrorView> {
        if !(args is Object) {
            Some(ToolErrorView::InvalidArguments(not_an_object_text()))
        } else if required_str_spec(args, "pattern"@) is Err {
            Some(required_str_spec(args, "pattern"@)->Err_0)
        } else if optional_str_spec(args, "path"@) is Err {
            Some(optional_str_spec(args, "path"@)->Err_0)
        } else if optional_bool_spec(args, "ignore_case"@) is Err {
            Some(optional_bool_spec(args, "ignore_case"@)->Err_0)
        } else if optional_uint_spec(args, "max_results"@, usize::MAX as u64) is Err {
            Some(optional_uint_spec(args, "max_results"@, usize::MAX as u64)->Err_0)
        } else {
            None
        }
    }

    /// Checks a payload and takes the arguments out of it.
    pub fn parse(args: &ArgValue) -> (r: Result<Self, ToolError>)
        ensures
            match r {
                Ok(a) => a.read_from(*args) && Self::fault_of(*args) is None,
                Err(e) => Self::fault_of(*args) == Some(e@),
            },
    {
        if !args.is_object() {
            return Err(not_an_object());
        }
        let pattern = match required_str(args, "pattern") {
            Ok(v) => v,
            Err(e) => {
                return Err(e);
            },
        };
        let path = match optional_str(args, "path") {
            Ok(v) => v,
            Err(e) => {
                return Err(e);
            },
        };
        let ignore_case = match optional_bool(args, "ignore_case") {
            Ok(v) => v,
            Err(e) => {
                return Err(e);
            },
        };
        let max_results = match optional_usize(args, "max_results") {
            Ok(v) => v,
            Err(e) => {
                return Err(e);
            },
        };
        Ok(GrepArgs { pattern, path, ignore_case, max_results })
    }
}

/// Arguments of `glob`.
#[derive(Debug)]
pub struct GlobArgs {
    /// The glob pattern.
    pub pattern: String,
    /// Directory the pattern starts from.
    pub base_dir: Option<String>,
}

impl GlobArgs {
    /// Whether the payload `args` gives exactly these arguments.
    pub open spec fn read_from(self, args: ArgValue) -> bool {
        let a = self;
        &&& args is Object
        &&& required_str_spec(args, "pattern"@) == Ok::<_, ToolErrorView>(a.pattern@)
        &&& optional_str_spec(args, "base_dir"@) == Ok::<_, ToolErrorView>(opt_view(a.base_dir))
    }

    /// The error that the payload `args` gives, where it is not accepted:
    /// that of the first argument at fault.
    pub open spec fn fault_of(args: ArgValue) -> Option<ToolErrorView> {
        if !(args is Object) {
            Some(ToolErrorView::InvalidArguments(not_an_object_text()))
        } else if required_str_spec(args, "pattern"@) is Err {
            Some(required_str_spec(args, "pattern"@)->Err_0)
        } else if optional_str_spec(args, "base_dir"@) is Err {
            Some(optional_str_spec(args, "base_dir"@)->Err_0)
        } else {
            None
        }
    }

    /// Checks a payload and takes the arguments out of it.
    pub fn parse(args: &ArgValue) -> (r: Result<Self, ToolError>)
        ensures
            match r {
                Ok(a) => a.read_from(*args) && Self::fault_of(*args) is None,
                Err(e) => Self::fault_of(*args) == Some(e@),
            },
    {
        if !args.is_object() {
            return Err(not_an_object());
        }
        let pattern = match required_str(args, "pattern") {
            Ok(v) => v,
            Err(e) => {
                return Err(e);
            },
        };
        let base_dir = match optional_str(args, "base_dir") {
            Ok(v) => v,
            Err(e) => {
                return Err(e);
            },
        };
        Ok(GlobArgs { pattern, base_dir })
    }
}

/// Arguments of `bash_status`.
#[derive(Debug)]
pub struct BashStatusArgs {
    /// Id of the background process.
    pub process_id: String,
}

impl BashStatusArgs {
    /// Whether the payload `args` gives exactly these arguments.
    pub open spec fn read_from(self, args: ArgValue) -> bool {
        let a = self;
        &&& args is Object
        &&& required_str_spec(args, "process_id"@) == Ok::<_, ToolErrorView>(a.process_id@)
    }

    /// The error that the payload `args` gives, where it is not accepted:
    /// that of the first argument at fault.
    pub open spec fn fault_of(args: ArgValue) -> Option<ToolErrorView> {
        if !(args is Object) {
            Some(ToolErrorView::InvalidArguments(not_an_object_text()))
        } else if required_str_spec(args, "process_id"@) is Err {
            Some(required_str_spec(args, "process_id"@)->Err_0)
        } else {
            None
        }
    }

    /// Checks a payload and takes the arguments out of it.
    pub fn parse(args: &ArgValue) -> (r: Result<Self, ToolError>)
        ensures
            match r {
                Ok(a) => a.read_from(*args) && Self::fault_of(*args) is None,
                Err(e) => Self::fault_of(*args) == Some(e@),
            },
    {
        if !args.is_object() {
            return Err(not_an_object());
        }
        let process_id = match required_str(args, "process_id") {
            Ok(v) => v,
            Err(e) => {
                return Err(e);
            },
        };
        Ok(BashStatusArgs { process_id })
    }
}

/// Arguments of `bash_output`.
#[derive(Debug)]
pub struct BashOutputArgs {
    /// Id of the background process.
    pub process_id: String,
}

impl BashOutputArgs {
    /// Whether the payload `args` gives exactly these arguments.
    pub open spec fn read_from(self, args: ArgValue) -> bool {
        let a = self;
        &&& args is Object
        &&& required_str_spec(args, "process_id"@) == Ok::<_, ToolErrorView>(a.process_id@)
    }

    /// The error that the payload `args` gives, where it is not accepted:
    /// that of the first argument at fault.
    pub open spec fn fault_of(args: ArgValue) -> Option<ToolErrorView> {
        if !(args is Object) {
            Some(ToolErrorView::InvalidArguments(not_an_object_text()))
        } else if required_str_spec(args, "process_id"@) is Err {
            Some(required_str_spec(args, "process_id"@)->Err_0)
        } else {
            None
        }
    }

    /// Checks a payload and takes the arguments out of it.
    pub fn parse(args: &ArgValue) -> (r: Result<Self, ToolError>)
        ensures
            match r {
                Ok(a) => a.read_from(*args) && Self::fault_of(*args) is None,
                Err(e) => Self::fault_of(*args) == Some(e@),
            },
    {
        if !args.is_object() {
            return Err(not_an_object());
        }
        let process_id = match required_str(args, "process_id") {
            Ok(v) => v,
            Err(e) => {
                return Err(e);
            },
        };
        Ok(BashOutputArgs { process_id })
    }
}

/// Arguments of `bash_kill`.
#[derive(Debug)]
pub struct BashKillArgs {
    /// Id of the background process.
    pub process_id: String,
}

impl BashKillArgs {
    /// Whether the payload `args` gives exactly these arguments.
    pub open spec fn read_from(self, args: ArgValue) -> bool {
        let a = self;
        &&& args is Object
        &&& required_str_spec(args, "process_id"@) == Ok::<_, ToolErrorView>(a.process_id@)
    }

    /// The error that the payload `args` gives, where it is not accepted:
    /// that of the first argument at fault.
    pub open spec fn fault_of(args: ArgValue) -> Option<ToolErrorView> {
        if !(args is Object) {
            Some(ToolErrorView::InvalidArguments(not_an_object_text()))
        } else if required_str_spec(args, "process_id"@) is Err {
            Some(required_str_spec(args, "process_id"@)->Err_0)
        } else {
            None
        }
    }

    /// Checks a payload and takes the arguments out of it.
    pub fn parse(args: &ArgValue) -> (r: Result<Self, ToolError>)
        ensures
            match r {
                Ok(a) => a.read_from(*args) && Self::fault_of(*args) is None,
                Err(e) => Self::fault_of(*args) == Some(e@),
            },
    {
        if !args.is_object() {
            return Err(not_an_object());
        }
        let process_id = match required_str(args, "process_id") {
            Ok(v) => v,
            Err(e) => {
                return Err(e);
            },
        };
        Ok(BashKillArgs { process_id })
    }
}

/// Arguments of `bash_list`: none.
#[derive(Debug)]
pub struct BashListArgs {}

impl BashListArgs {
    /// Whether the payload `args` gives exactly these arguments.
    pub open spec fn read_from(self, args: ArgValue) -> bool {
        let a = self;
        &&& args is Object
    }

    /// The error that the payload `args` gives, where it is not accepted:
    /// that of the first argument at fault.
    pub open spec fn fault_of(args: ArgValue) -> Option<ToolErrorView> {
        if !(args is Object) {
            Some(ToolErrorView::InvalidArguments(not_an_object_text()))
        } else {
            None
        }
    }

    /// Checks a payload and takes the arguments out of it.
    pub fn parse(args: &ArgValue) -> (r: Result<Self, ToolError>)
        ensures
            match r {
                Ok(a) => a.read_from(*args) && Self::fault_of(*args) is None,
                Err(e) => Self::fault_of(*args) == Some(e@),
            },
    {
        if !args.is_object() {
            return Err(not_an_object());
        }
        Ok(BashListArgs {  })
    }
}

/// Arguments of `web_fetch`.
#[derive(Debug)]
pub struct WebFetchArgs {
    /// The address to fetch.
    pub url: String,
    /// Largest size of the answer in KB; 100 where absent, at most 500.
    pub size_limit_kb: Option<usize>,
}

impl WebFetchArgs {
    /// Whether the payload `args` gives exactly these arguments.
    pub open spec fn read_from(self, args: ArgValue) -> bool {
        let a = self;
        &&& args is Object
        &&& required_str_spec(args, "url"@) == Ok::<_, ToolErrorView>(a.url@)
        &&& optional_uint_spec(args, "size_limit_kb"@, usize::MAX as u64) == Ok::<_, ToolErrorView>(opt_usize_view(a.size_limit_kb))
    }

    /// The error that the payload `args` gives, where it is not accepted:
    /// that of the first argument at fault.
    pub open spec fn fault_of(args: ArgValue) -> Option<ToolErrorView> {
        if !(args is Object) {
            Some(ToolErrorView::InvalidArguments(not_an_object_text()))
        } else if required_str_spec(args, "url"@) is Err {
            Some(required_str_spec(args, "url"@)->Err_0)
        } else if optional_uint_spec(args, "size_limit_kb"@, usize::MAX as u64) is Err {
            Some(optional_uint_spec(args, "size_limit_kb"@, usize::MAX as u64)->Err_0)
        } else {
            None
        }
    }

    /// Checks a payload and takes the arguments out of it.
    pub fn parse(args: &ArgValue) -> (r: Result<Self, ToolError>)
        ensures
            match r {
                Ok(a) => a.read_from(*args) && Self::fault_of(*args) is None,
                Err(e) => Self::fault_of(*args) == Some(e@),
            },
    {
        if !args.is_object() {
            return Err(not_an_object());
        }
        let url = match required_str(args, "url") {
            Ok(v) => v,
            Err(e) => {
                return Err(e);
            },
        };
        let size_limit_kb = match optional_usize(args, "size_limit_kb") {
            Ok(v) => v,
            Err(e) => {
                return Err(e);
            },
        };
        Ok(WebFetchArgs { url, size_limit_kb })
    }
}

/// Arguments of `web_search`.
#[derive(Debug)]
pub struct WebSearchArgs {
    /// What to search for.
    pub query: String,
    /// Number of results; 5 where absent, at most 10.
    pub num_results: Option<usize>,
}

impl WebSearchArgs {
    /// Whether the payload `args` gives exactly these arguments.
    pub open spec fn read_from(self, args: ArgValue) -> bool {
        let a = self;
        &&& args is Object
        &&& required_str_spec(args, "query"@) == Ok::<_, ToolErrorView>(a.query@)
        &&& optional_uint_spec(args, "num_results"@, usize::MAX as u64) == Ok::<_, ToolErrorView>(opt_usize_view(a.num_results))
    }

    /// The error that the payload `args` gives, where it is not accepted:
    /// that of the first argument at fault.
    pub open spec fn fault_of(args: ArgValue) -> Option<ToolErrorView> {
        if !(args is Object) {
            Some(ToolErrorView::InvalidArguments(not_an_object_text()))
        } else if required_str_spec(args, "query"@) is Err {
            Some(required_str_spec(args, "query"@)->Err_0)
        } else if optional_uint_spec(args, "num_results"@, usize::MAX as u64) is Err {
            Some(optional_uint_spec(args, "num_results"@, usize::MAX as u64)->Err_0)
        } else {
            None
        }
    }

    /// Checks a payload and takes the arguments out of it.
    pub fn parse(args: &ArgValue) -> (r: Result<Self, ToolError>)
        ensures
            match r {
                Ok(a) => a.read_from(*args) && Self::fault_of(*args) is None,
                Err(e) => Self::fault_of(*args) == Some(e@),
            },
    {
        if !args.is_object() {
            return Err(not_an_object());
        }
        let query = match required_str(args, "query") {
            Ok(v) => v,
            Err(e) => {
                return Err(e);
            },
        };
        let num_results = match optional_usize(args, "num_results") {
            Ok(v) => v,
            Err(e) => {
                return Err(e);
            },
        };
        Ok(WebSearchArgs { query, num_results })
    }
}

/// Arguments of `math_calc`.
#[derive(Debug)]
pub struct MathCalcArgs {
    /// The expression to evaluate.
    pub expression: String,
}

impl MathCalcArgs {
    /// Whether the payload `args` gives exactly these arguments.
    pub open spec fn read_from(self, args: ArgValue) -> bool {
        let a = self;
        &&& args is Object
        &&& required_str_spec(args, "expression"@) == Ok::<_, ToolErrorView>(a.expression@)
    }

    /// The error that the payload `args` gives, where it is not accepted:
    /// that of the first argument at fault.
    pub open spec fn fault_of(args: ArgValue) -> Option<ToolErrorView> {
        if !(args is Object) {
            Some(ToolErrorView::InvalidArguments(not_an_object_text()))
        } else if required_str_spec(args, "expression"@) is Err {
            Some(required_str_spec(args, "expression"@)->Err_0)
        } else {
            None
        }
    }

    /// Checks a payload and takes the arguments out of it.
    pub fn parse(args: &ArgValue) -> (r: Result<Self, ToolError>)
        ensures
            match r {
                Ok(a) => a.read_from(*args) && Self::fault_of(*args) is None,
                Err(e) => Self::fault_of(*args) == Some(e@),
            },
    {
        if !args.is_object() {
            return Err(not_an_object());
        }
        let expression = match required_str(args, "expression") {
            Ok(v) => v,
            Err(e) => {
                return Err(e);
            },
        };
        Ok(MathCalcArgs { expression })
    }
}

/// Arguments of `store_key_memory`.
#[derive(Debug)]
pub struct StoreKeyMemoryArgs {
    /// What to remember.
    pub content: String,
    /// Name of the category.
    pub category: String,
    /// Name of the importance level.
    pub importance: String,
    /// Tags to find it by.
    pub tags: Option<Vec<String>>,
    /// Paths of files it is about.
    pub related_files: Option<Vec<String>>,
}

impl StoreKeyMemoryArgs {
    /// Whether the payload `args` gives exactly these arguments.
    pub open spec fn read_from(self, args: ArgValue) -> bool {
        let a = self;
        &&& args is Object
        &&& required_str_spec(args, "content"@) == Ok::<_, ToolErrorView>(a.content@)
        &&& required_str_spec(args, "category"@) == Ok::<_, ToolErrorView>(a.category@)
        &&& required_str_spec(args, "importance"@) == Ok::<_, ToolErrorView>(a.importance@)
        &&& optional_str_list_spec(args, "tags"@) == Ok::<_, ToolErrorView>(opt_list_view(a.tags))
        &&& optional_str_list_spec(args, "related_files"@) == Ok::<_, ToolErrorView>(opt_list_view(a.related_files))
    }

    /// The error that the payload `args` gives, where it is not accepted:
    /// that of the first argument at fault.
    pub open spec fn fault_of(args: ArgValue) -> Option<ToolErrorView> {
        if !(args is Object) {
            Some(ToolErrorView::InvalidArguments(not_an_object_text()))
        } else if required_str_spec(args, "content"@) is Err {
            Some(required_str_spec(args, "content"@)->Err_0)
        } else if required_str_spec(args, "category"@) is Err {
            Some(required_str_spec(args, "category"@)->Err_0)
        } else if required_str_spec(args, "importance"@) is Err {
            Some(required_str_spec(args, "importance"@)->Err_0)
        } else if optional_str_list_spec(args, "tags"@) is Err {
            Some(optional_str_list_spec(args, "tags"@)->Err_0)
        } else if optional_str_list_spec(args, "related_files"@) is Err {
            Some(optional_str_list_spec(args, "related_files"@)->Err_0)
        } else {
            None
        }
    }

    /// Checks a payload and takes the arguments out of it.
    pub fn parse(args: &ArgValue) -> (r: Result<Self, ToolError>)
        ensures
            match r {
                Ok(a) => a.read_from(*args) && Self::fault_of(*args) is None,
                Err(e) => Self::fault_of(*args) == Some(e@),
            },
    {
        if !args.is_object() {
            return Err(not_an_object());
        }
        let content = match required_str(args, "content") {
            Ok(v) => v,
            Err(e) => {
                return Err(e);
            },
        };
        let category = match required_str(args, "category") {
            Ok(v) => v,
            Err(e) => {
                return Err(e);
            },
        };
        let importance = match required_str(args, "importance") {
            Ok(v) => v,
            Err(e) => {
                return Err(e);
            },
        };
        let tags = match optional_str_list(args, "tags") {
            Ok(v) => v,
            Err(e) => {
                return Err(e);
            },
        };
        let related_files = match optional_str_list(args, "related_files") {
            Ok(v) => v,
            Err(e) => {
                return Err(e);
            },
        };
        Ok(StoreKeyMemoryArgs { content, category, importance, tags, related_files })
    }
}

/// Arguments of `search_routine_memory`.
#[derive(Debug)]
pub struct SearchRoutineMemoryArgs {
    /// What to search for.
    pub query: String,
    /// Number of results; 5 where absent, at most 20.
    pub top_k: Option<usize>,
}

impl SearchRoutineMemoryArgs {
    /// Whether the payload `args` gives exactly these arguments.
    pub open spec fn read_from(self, args: ArgValue) -> bool {
        let a = self;
        &&& args is Object
        &&& required_str_spec(args, "query"@) == Ok::<_, ToolErrorView>(a.query@)
        &&& optional_uint_spec(args, "top_k"@, usize::MAX as u64) == Ok::<_, ToolErrorView>(opt_usize_view(a.top_k))
    }

    /// The error that the payload `args` gives, where it is not accepted:
    /// that of the first argument at fault.
    pub open spec fn fault_of(args: ArgValue) -> Option<ToolErrorView> {
        if !(args is Object) {
            Some(ToolErrorView::InvalidArguments(not_an_object_text()))
        } else if required_str_spec(args, "query"@) is Err {
            Some(required_str_spec(args, "query"@)->Err_0)
        } else if optional_uint_spec(args, "top_k"@, usize::MAX as u64) is Err {
            Some(optional_uint_spec(args, "top_k"@, usize::MAX as u64)->Err_0)
        } else {
            None
        }
    }

    /// Checks a payload and takes the arguments out of it.
    pub fn parse(args: &ArgValue) -> (r: Result<Self, ToolError>)
        ensures
            match r {
                Ok(a) => a.read_from(*args) && Self::fault_of(*args) is None,
                Err(e) => Self::fault_of(*args) == Some(e@),
            },
    {
        if !args.is_object() {
            return Err(not_an_object());
        }
        let query = match required_str(args, "query") {
            Ok(v) => v,
            Err(e) => {
                return Err(e);
            },
        };
        let top_k = match optional_usize(args, "top_k") {
            Ok(v) => v,
            Err(e) => {
                return Err(e);
            },
        };
        Ok(SearchRoutineMemoryArgs { query, top_k })
    }
}

/// Arguments of `search_key_memory`.
#[derive(Debug)]
pub struct SearchKeyMemoryArgs {
    /// What to search for.
    pub query: String,
    /// Number of results; 5 where absent, at most 20.
    pub top_k: Option<usize>,
    /// Names of the categories to search in.
    pub categories: Option<Vec<String>>,
    /// Name of the lowest importance level to return.
    pub min_importance: Option<String>,
}

impl SearchKeyMemoryArgs {
    /// Whether the payload `args` gives exactly these arguments.
    pub open spec fn read_from(self, args: ArgValue) -> bool {
        let a = self;
        &&& args is Object
        &&& required_str_spec(args, "query"@) == Ok::<_, ToolErrorView>(a.query@)
        &&& optional_uint_spec(args, "top_k"@, usize::MAX as u64) == Ok::<_, ToolErrorView>(opt_usize_view(a.top_k))
        &&& optional_str_list_spec(args, "categories"@) == Ok::<_, ToolErrorView>(opt_list_view(a.categories))
        &&& optional_str_spec(args, "min_importance"@) == Ok::<_, ToolErrorView>(opt_view(a.min_importance))
    }

    /// The error that the payload `args` gives, where it is not accepted:
    /// that of the first argument at fault.
    pub open spec fn fault_of(args: ArgValue) -> Option<ToolErrorView> {
        if !(args is Object) {
            Some(ToolErrorView::InvalidArguments(not_an_object_text()))
        } else if required_str_spec(args, "query"@) is Err {
            Some(required_str_spec(args, "query"@)->Err_0)
        } else if optional_uint_spec(args, "top_k"@, usize::MAX as u64) is Err {
            Some(optional_uint_spec(args, "top_k"@, usize::MAX as u64)->Err_0)
        } else if optional_str_list_spec(args, "categories"@) is Err {
            Some(optional_str_list_spec(args, "categories"@)->Err_0)
        } else if optional_str_spec(args, "min_importance"@) is Err {
            Some(optional_str_spec(args, "min_importance"@)->Err_0)
        } else {
            None
        }
    }

    /// Checks a payload and takes the arguments out of it.
    pub fn parse(args: &ArgValue) -> (r: Result<Self, ToolError>)
        ensures
            match r {
                Ok(a) => a.read_from(*args) && Self::fault_of(*args) is None,
                Err(e) => Self::fault_of(*args) == Some(e@),
            },
    {
        if !args.is_object() {
            return Err(not_an_object());
        }
        let query = match required_str(args, "query") {
            Ok(v) => v,
            Err(e) => {
                return Err(e);
            },
        };
        let top_k = match optional_usize(args, "top_k") {
            Ok(v) => v,
            Err(e) => {
                return Err(e);
            },
        };
        let categories = match optional_str_list(args, "categories") {
            Ok(v) => v,
            Err(e) => {
                return Err(e);
            },
        };
        let min_importance = match optional_str(args, "min_importance") {
            Ok(v) => v,
            Err(e) => {
                return Err(e);
            },
        };
        Ok(SearchKeyMemoryArgs { query, top_k, categories, min_importance })
    }
}

/// Arguments of `delegate`.
#[derive(Debug)]
pub struct SpawnAgentArgs {
    /// What the sub-agent is to do.
    pub instructions: String,
    /// Largest number of iterations of the sub-agent; 100 where absent.
    pub max_iterations: Option<usize>,
    /// Seconds after which the sub-agent is given up; 300 where absent.
    pub timeout_secs: Option<u64>,
    /// Text to add to the sub-agent's system prompt.
    pub preamble_append: Option<String>,
}

impl SpawnAgentArgs {
    /// Whether the payload `args` gives exactly these arguments.
    pub open spec fn read_from(self, args: ArgValue) -> bool {
        let a = self;
        &&& args is Object
        &&& required_str_spec(args, "instructions"@) == Ok::<_, ToolErrorView>(a.instructions@)
        &&& optional_uint_spec(args, "max_iterations"@, usize::MAX as u64) == Ok::<_, ToolErrorView>(opt_usize_view(a.max_iterations))
        &&& optional_uint_spec(args, "timeout_secs"@, u64::MAX) == Ok::<_, ToolErrorView>(a.timeout_secs)
        &&& optional_str_spec(args, "preamble_append"@) == Ok::<_, ToolErrorView>(opt_view(a.preamble_append))
    }

    /// The error that the payload `args` gives, where it is not accepted:
    /// that of the first argument at fault.
    pub open spec fn fault_of(args: ArgValue) -> Option<ToolErrorView> {
        if !(args is Object) {
            Some(ToolErrorView::InvalidArguments(not_an_object_text()))
        } else if required_str_spec(args, "instructions"@) is Err {
            Some(required_str_spec(args, "instructions"@)->Err_0)
        } else if optional_uint_spec(args, "max_iterations"@, usize::MAX as u64) is Err {
            Some(optional_uint_spec(args, "max_iterations"@, usize::MAX as u64)->Err_0)
        } else if optional_uint_spec(args, "timeout_secs"@, u64::MAX) is Err {
            Some(optional_uint_spec(args, "timeout_secs"@, u64::MAX)->Err_0)
        } else if optional_str_spec(args, "preamble_append"@) is Err {
            Some(optional_str_spec(args, "preamble_append"@)->Err_0)
        } else {
            None
        }
    }

    /// Checks a payload and takes the arguments out of it.
    pub fn parse(args: &ArgValue) -> (r: Result<Self, ToolError>)
        ensures
            match r {
                Ok(a) => a.read_from(*args) && Self::fault_of(*args) is None,
                Err(e) => Self::fault_of(*args) == Some(e@),
            },
    {
        if !args.is_object() {
            return Err(not_an_object());
        }
        let instructions = match required_str(args, "instructions") {
            Ok(v) => v,
            Err(e) => {
                return Err(e);
            },
        };
        let max_iterations = match optional_usize(args, "max_iterations") {
            Ok(v) => v,
            Err(e) => {
                return Err(e);
            },
        };
        let timeout_secs = match optional_uint(args, "timeout_secs", u64::MAX) {
            Ok(v) => v,
            Err(e) => {
                return Err(e);
            },
        };
        let preamble_append = match optional_str(args, "preamble_append") {
            Ok(v) => v,
            Err(e) => {
                return Err(e);
            },
        };
        Ok(SpawnAgentArgs { instructions, max_iterations, timeout_secs, preamble_append })
    }
}

/// Arguments of `ra_diagnostics`.
#[derive(Debug)]
pub struct RaDiagnosticsArgs {
    /// File to report on; the whole project where absent.
    pub file_path: Option<String>,
}

impl RaDiagnosticsArgs {
    /// Whether the payload `args` gives exactly these arguments.
    pub open spec fn read_from(self, args: ArgValue) -> bool {
        let a = self;
        &&& args is Object
        &&& optional_str_spec(args, "file_path"@) == Ok::<_, ToolErrorView>(opt_view(a.file_path))
    }

    /// The error that the payload `args` gives, where it is not accepted:
    /// that of the first argument at fault.
    pub open spec fn fault_of(args: ArgValue) -> Option<ToolErrorView> {
        if !(args is Object) {
            Some(ToolErrorView::InvalidArguments(not_an_object_text()))
        } else if optional_str_spec(args, "file_path"@) is Err {
            Some(optional_str_spec(args, "file_path"@)->Err_0)
        } else {
            None
        }
    }

    /// Checks a payload and takes the arguments out of it.
    pub fn parse(args: &ArgValue) -> (r: Result<Self, ToolError>)
        ensures
            match r {
                Ok(a) => a.read_from(*args) && Self::fault_of(*args) is None,
                Err(e) => Self::fault_of(*args) == Some(e@),
            },
    {
        if !args.is_object() {
            return Err(not_an_object());
        }
        let file_path = match optional_str(args, "file_path") {
            Ok(v) => v,
            Err(e) => {
                return Err(e);
            },
        };
        Ok(RaDiagnosticsArgs { file_path })
    }
}

/// Arguments of `ra_goto_definition`.
#[derive(Debug)]
pub struct RaGotoDefinitionArgs {
    /// Path of the file.
    pub file_path: String,
    /// Line, counted from 1.
    pub line: u32,
    /// Column, counted from 1.
    pub column: u32,
}

impl RaGotoDefinitionArgs {
    /// Whether the payload `args` gives exactly these arguments.
    pub open spec fn read_from(self, args: ArgValue) -> bool {
        let a = self;
        &&& args is Object
        &&& required_str_spec(args, "file_path"@) == Ok::<_, ToolErrorView>(a.file_path@)
        &&& required_uint_spec(args, "line"@, u32::MAX as u64) == Ok::<_, ToolErrorView>(a.line as u64)
        &&& required_uint_spec(args, "column"@, u32::MAX as u64) == Ok::<_, ToolErrorView>(a.column as u64)
    }

    /// The error that the payload `args` gives, where it is not accepted:
    /// that of the first argument at fault.
    pub open spec fn fault_of(args: ArgValue) -> Option<ToolErrorView> {
        if !(args is Object) {
            Some(ToolErrorView::InvalidArguments(not_an_object_text()))
        } else if required_str_spec(args, "file_path"@) is Err {
            Some(required_str_spec(args, "file_path"@)->Err_0)
        } else if required_uint_spec(args, "line"@, u32::MAX as u64) is Err {
            Some(required_uint_spec(args, "line"@, u32::MAX as u64)->Err_0)
        } else if required_uint_spec(args, "column"@, u32::MAX as u64) is Err {
            Some(required_uint_spec(args, "column"@, u32::MAX as u64)->Err_0)
        } else {
            None
        }
    }

    /// Checks a payload and takes the arguments out of it.
    pub fn parse(args: &ArgValue) -> (r: Result<Self, ToolError>)
        ensures
            match r {
                Ok(a) => a.read_from(*args) && Self::fault_of(*args) is None,
                Err(e) => Self::fault_of(*args) == Some(e@),
            },
    {
        if !args.is_object() {
            return Err(not_an_object());
        }
        let file_path = match required_str(args, "file_path") {
            Ok(v) => v,
            Err(e) => {
                return Err(e);
            },
        };
        let line = match required_u32(args, "line") {
            Ok(v) => v,
            Err(e) => {
                return Err(e);
            },
        };
        let column = match required_u32(args, "column") {
            Ok(v) => v,
            Err(e) => {
                return Err(e);
            },
        };
        Ok(RaGotoDefinitionArgs { file_path, line, column })
    }
}

/// Arguments of `ra_find_references`.
#[derive(Debug)]
pub struct RaFindReferencesArgs {
    /// Path of the file.
    pub file_path: String,
    /// Line, counted from 1.
    pub line: u32,
    /// Column, counted from 1.
    pub column: u32,
    /// Whether the declaration counts as a reference; it does where absent.
    pub include_declaration: bool,
}

impl RaFindReferencesArgs {
    /// Whether the payload `args` gives exactly these arguments.
    pub open spec fn read_from(self, args: ArgValue) -> bool {
        let a = self;
        &&& args is Object
        &&& required_str_spec(args, "file_path"@) == Ok::<_, ToolErrorView>(a.file_path@)
        &&& required_uint_spec(args, "line"@, u32::MAX as u64) == Ok::<_, ToolErrorView>(a.line as u64)
        &&& required_uint_spec(args, "column"@, u32::MAX as u64) == Ok::<_, ToolErrorView>(a.column as u64)
        &&& bool_or_spec(args, "include_declaration"@, true) == Ok::<_, ToolErrorView>(a.include_declaration)
    }

    /// The error that the payload `args` gives, where it is not accepted:
    /// that of the first argument at fault.
    pub open spec fn fault_of(args: ArgValue) -> Option<ToolErrorView> {
        if !(args is Object) {
            Some(ToolErrorView::InvalidArguments(not_an_object_text()))
        } else if required_str_spec(args, "file_path"@) is Err {
            Some(required_str_spec(args, "file_path"@)->Err_0)
        } else if required_uint_spec(args, "line"@, u32::MAX as u64) is Err {
            Some(required_uint_spec(args, "line"@, u32::MAX as u64)->Err_0)
        } else if required_uint_spec(args, "column"@, u32::MAX as u64) is Err {
            Some(required_uint_spec(args, "column"@, u32::MAX as u64)->Err_0)
        } else if bool_or_spec(args, "include_declaration"@, true) is Err {
            Some(bool_or_spec(args, "include_declaration"@, true)->Err_0)
        } else {
            None
        }
    }

    /// Checks a payload and takes the arguments out of it.
    pub fn parse(args: &ArgValue) -> (r: Result<Self, ToolError>)
        ensures
            match r {
                Ok(a) => a.read_from(*args) && Self::fault_of(*args) is None,
                Err(e) => Self::fault_of(*args) == Some(e@),
            },
    {
        if !args.is_object() {
            return Err(not_an_object());
        }
        let file_path = match required_str(args, "file_path") {
            Ok(v) => v,
            Err(e) => {
                return Err(e);
            },
        };
        let line = match required_u32(args, "line") {
            Ok(v) => v,
            Err(e) => {
                return Err(e);
            },
        };
        let column = match required_u32(args, "column") {
            Ok(v) => v,
            Err(e) => {
                return Err(e);
            },
        };
        let include_declaration = match bool_or(args, "include_declaration", true) {
            Ok(v) => v,
            Err(e) => {
                return Err(e);
            },
        };
        Ok(RaFindReferencesArgs { file_path, line, column, include_declaration })
    }
}

/// Arguments of `ra_hover`.
#[derive(Debug)]
pub struct RaHoverArgs {
    /// Path of the file.
    pub file_path: String,
    /// Line, counted from 1.
    pub line: u32,
    /// Column, counted from 1.
    pub column: u32,
}

impl RaHoverArgs {
    /// Whether the payload `args` gives exactly these arguments.
    pub open spec fn read_from(self, args: ArgValue) -> bool {
        let a = self;
        &&& args is Object
        &&& required_str_spec(args, "file_path"@) == Ok::<_, ToolErrorView>(a.file_path@)
        &&& required_uint_spec(args, "line"@, u32::MAX as u64) == Ok::<_, ToolErrorView>(a.line as u64)
        &&& required_uint_spec(args, "column"@, u32::MAX as u64) == Ok::<_, ToolErrorView>(a.column as u64)
    }

    /// The error that the payload `args` gives, where it is not accepted:
    /// that of the first argument at fault.
    pub open spec fn fault_of(args: ArgValue) -> Option<ToolErrorView> {
        if !(args is Object) {
            Some(ToolErrorView::InvalidArguments(not_an_object_text()))
        } else if required_str_spec(args, "file_path"@) is Err {
            Some(required_str_spec(args, "file_path"@)->Err_0)
        } else if required_uint_spec(args, "line"@, u32::MAX as u64) is Err {
            Some(required_uint_spec(args, "line"@, u32::MAX as u64)->Err_0)
        } else if required_uint_spec(args, "column"@, u32::MAX as u64) is Err {
            Some(required_uint_spec(args, "column"@, u32::MAX as u64)->Err_0)
        } else {
            None
        }
    }

    /// Checks a payload and takes the arguments out of it.
    pub fn parse(args: &ArgValue) -> (r: Result<Self, ToolError>)
        ensures
            match r {
                Ok(a) => a.read_from(*args) && Self::fault_of(*args) is None,
                Err(e) => Self::fault_of(*args) == Some(e@),
            },
    {
        if !args.is_object() {
            return Err(not_an_object());
        }
        let file_path = match required_str(args, "file_path") {
            Ok(v) => v,
            Err(e) => {
                return Err(e);
            },
        };
        let line = match required_u32(args, "line") {
            Ok(v) => v,
            Err(e) => {
                return Err(e);
            },
        };
        let column = match required_u32(args, "column") {
            Ok(v) => v,
            Err(e) => {
                return Err(e);
            },
        };
        Ok(RaHoverArgs { file_path, line, column })
    }
}

/// Arguments of `ra_symbols`.
#[derive(Debug)]
pub struct RaSymbolsArgs {
    /// File whose symbols are listed.
    pub file_path: Option<String>,
    /// What to search the workspace for.
    pub query: Option<String>,
}

impl RaSymbolsArgs {
    /// Whether the payload `args` gives exactly these arguments.
    pub open spec fn read_from(self, args: ArgValue) -> bool {
        let a = self;
        &&& args is Object
        &&& optional_str_spec(args, "file_path"@) == Ok::<_, ToolErrorView>(opt_view(a.file_path))
        &&& optional_str_spec(args, "query"@) == Ok::<_, ToolErrorView>(opt_view(a.query))
    }

    /// The error that the payload `args` gives, where it is not accepted:
    /// that of the first argument at fault.
    pub open spec fn fault_of(args: ArgValue) -> Option<ToolErrorView> {
        if !(args is Object) {
            Some(ToolErrorView::InvalidArguments(not_an_object_text()))
        } else if optional_str_spec(args, "file_path"@) is Err {
            Some(optional_str_spec(args, "file_path"@)->Err_0)
        } else if optional_str_spec(args, "query"@) is Err {
            Some(optional_str_spec(args, "query"@)->Err_0)
        } else {
            None
        }
    }

    /// Checks a payload and takes the arguments out of it.
    pub fn parse(args: &ArgValue) -> (r: Result<Self, ToolError>)
        ensures
            match r {
                Ok(a) => a.read_from(*args) && Self::fault_of(*args) is None,
                Err(e) => Self::fault_of(*args) == Some(e@),
            },
    {
        if !args.is_object() {
            return Err(not_an_object());
        }
        let file_path = match optional_str(args, "file_path") {
            Ok(v) => v,
            Err(e) => {
                return Err(e);
            },
        };
        let query = match optional_str(args, "query") {
            Ok(v) => v,
            Err(e) => {
                return Err(e);
            },
        };
        Ok(RaSymbolsArgs { file_path, query })
    }
}

/// Arguments of `ra_completion`.
#[derive(Debug)]
pub struct RaCompletionArgs {
    /// Path of the file.
    pub file_path: String,
    /// Line, counted from 1.
    pub line: u32,
    /// Column, counted from 1.
    pub column: u32,
}

impl RaCompletionArgs {
    /// Whether the payload `args` gives exactly these arguments.
    pub open spec fn read_from(self, args: ArgValue) -> bool {
        let a = self;
        &&& args is Object
        &&& required_str_spec(args, "file_path"@) == Ok::<_, ToolErrorView>(a.file_path@)
        &&& required_uint_spec(args, "line"@, u32::MAX as u64) == Ok::<_, ToolErrorView>(a.line as u64)
        &&& required_uint_spec(args, "column"@, u32::MAX as u64) == Ok::<_, ToolErrorView>(a.column as u64)
    }

    /// The error that the payload `args` gives, where it is not accepted:
    /// that of the first argument at fault.
    pub open spec fn fault_of(args: ArgValue) -> Option<ToolErrorView> {
        if !(args is Object) {
            Some(ToolErrorView::InvalidArguments(not_an_object_text()))
        } else if required_str_spec(args, "file_path"@) is Err {
            Some(required_str_spec(args, "file_path"@)->Err_0)
        } else if required_uint_spec(args, "line"@, u32::MAX as u64) is Err {
            Some(required_uint_spec(args, "line"@, u32::MAX as u64)->Err_0)
        } else if required_uint_spec(args, "column"@, u32::MAX as u64) is Err {
            Some(required_uint_spec(args, "column"@, u32::MAX as u64)->Err_0)
        } else {
            None
        }
    }

    /// Checks a payload and takes the arguments out of it.
    pub fn parse(args: &ArgValue) -> (r: Result<Self, ToolError>)
        ensures
            match r {
                Ok(a) => a.read_from(*args) && Self::fault_of(*args) is None,
                Err(e) => Self::fault_of(*args) == Some(e@),
            },
    {
        if !args.is_object() {
            return Err(not_an_object());
        }
        let file_path = match required_str(args, "file_path") {
            Ok(v) => v,
            Err(e) => {
                return Err(e);
            },
        };
        let line = match required_u32(args, "line") {
            Ok(v) => v,
            Err(e) => {
                return Err(e);
            },
        };
        let column = match required_u32(args, "column") {
            Ok(v) => v,
            Err(e) => {
                return Err(e);
            },
        };
        Ok(RaCompletionArgs { file_path, line, column })
    }
}

/// Arguments of `ra_code_actions`.
#[derive(Debug)]
pub struct RaCodeActionsArgs {
    /// Path of the file.
    pub file_path: String,
    /// First line of the range, counted from 1.
    pub start_line: u32,
    /// First column of the range, counted from 1.
    pub start_column: u32,
    /// Last line of the range; the first line where absent.
    pub end_line: Option<u32>,
    /// Last column of the range; the first column where absent.
    pub end_column: Option<u32>,
}

impl RaCodeActionsArgs {
    /// Whether the payload `args` gives exactly these arguments.
    pub open spec fn read_from(self, args: ArgValue) -> bool {
        let a = self;
        &&& args is Object
        &&& required_str_spec(args, "file_path"@) == Ok::<_, ToolErrorView>(a.file_path@)
        &&& required_uint_spec(args, "start_line"@, u32::MAX as u64) == Ok::<_, ToolErrorView>(a.start_line as u64)
        &&& required_uint_spec(args, "start_column"@, u32::MAX as u64) == Ok::<_, ToolErrorView>(a.start_column as u64)
        &&& optional_uint_spec(args, "end_line"@, u32::MAX as u64) == Ok::<_, ToolErrorView>(opt_u32_view(a.end_line))
        &&& optional_uint_spec(args, "end_column"@, u32::MAX as u64) == Ok::<_, ToolErrorView>(opt_u32_view(a.end_column))
    }

    /// The error that the payload `args` gives, where it is not accepted:
    /// that of the first argument at fault.
    pub open spec fn fault_of(args: ArgValue) -> Option<ToolErrorView> {
        if !(args is Object) {
            Some(ToolErrorView::InvalidArguments(not_an_object_text()))
        } else if required_str_spec(args, "file_path"@) is Err {
            Some(required_str_spec(args, "file_path"@)->Err_0)
        } else if required_uint_spec(args, "start_line"@, u32::MAX as u64) is Err {
            Some(required_uint_spec(args, "start_line"@, u32::MAX as u64)->Err_0)
        } else if required_uint_spec(args, "start_column"@, u32::MAX as u64) is Err {
            Some(required_uint_spec(args, "start_column"@, u32::MAX as u64)->Err_0)
        } else if optional_uint_spec(args, "end_line"@, u32::MAX as u64) is Err {
            Some(optional_uint_spec(args, "end_line"@, u32::MAX as u64)->Err_0)
        } else if optional_uint_spec(args, "end_column"@, u32::MAX as u64) is Err {
            Some(optional_uint_spec(args, "end_column"@, u32::MAX as u64)->Err_0)
        } else {
            None
        }
    }

    /// Checks a payload and takes the arguments out of it.
    pub fn parse(args: &ArgValue) -> (r: Result<Self, ToolError>)
        ensures
            match r {
                Ok(a) => a.read_from(*args) && Self::fault_of(*args) is None,
                Err(e) => Self::fault_of(*args) == Some(e@),
            },
    {
        if !args.is_object() {
            return Err(not_an_object());
        }
        let file_path = match required_str(args, "file_path") {
            Ok(v) => v,
            Err(e) => {
                return Err(e);
            },
        };
        let start_line = match required_u32(args, "start_line") {
            Ok(v) => v,
            Err(e) => {
                return Err(e);
            },
        };
        let start_column = match required_u32(args, "start_column") {
            Ok(v) => v,
            Err(e) => {
                return Err(e);
            },
        };
        let end_line = match optional_u32(args, "end_line") {
            Ok(v) => v,
            Err(e) => {
                return Err(e);
            },
        };
        let end_column = match optional_u32(args, "end_column") {
            Ok(v) => v,
            Err(e) => {
                return Err(e);
            },
        };
        Ok(RaCodeActionsArgs { file_path, start_line, start_column, end_line, end_column })
    }
}

/// Arguments of `ra_rename`.
#[derive(Debug)]
pub struct RaRenameArgs {
    /// Path of the file.
    pub file_path: String,
    /// Line, counted from 1.
    pub line: u32,
    /// Column, counted from 1.
    pub column: u32,
    /// The new name of the symbol.
    pub new_name: String,
}

impl RaRenameArgs {
    /// Whether the payload `args` gives exactly these arguments.
    pub open spec fn read_from(self, args: ArgValue) -> bool {
        let a = self;
        &&& args is Object
        &&& required_str_spec(args, "file_path"@) == Ok::<_, ToolErrorView>(a.file_path@)
        &&& required_uint_spec(args, "line"@, u32::MAX as u64) == Ok::<_, ToolErrorView>(a.line as u64)
        &&& required_uint_spec(args, "column"@, u32::MAX as u64) == Ok::<_, ToolErrorView>(a.column as u64)
        &&& required_str_spec(args, "new_name"@) == Ok::<_, ToolErrorView>(a.new_name@)
    }

    /// The error that the payload `args` gives, where it is not accepted:
    /// that of the first argument at fault.
    pub open spec fn fault_of(args: ArgValue) -> Option<ToolErrorView> {
        if !(args is Object) {
            Some(ToolErrorView::InvalidArguments(not_an_object_text()))
        } else if required_str_spec(args, "file_path"@) is Err {
            Some(required_str_spec(args, "file_path"@)->Err_0)
        } else if required_uint_spec(args, "line"@, u32::MAX as u64) is Err {
            Some(required_uint_spec(args, "line"@, u32::MAX as u64)->Err_0)
        } else if required_uint_spec(args, "column"@, u32::MAX as u64) is Err {
            Some(required_uint_spec(args, "column"@, u32::MAX as u64)->Err_0)
        } else if required_str_spec(args, "new_name"@) is Err {
            Some(required_str_spec(args, "new_name"@)->Err_0)
        } else {
            None
        }
    }

    /// Checks a payload and takes the arguments out of it.
    pub fn parse(args: &ArgValue) -> (r: Result<Self, ToolError>)
        ensures
            match r {
                Ok(a) => a.read_from(*args) && Self::fault_of(*args) is None,
                Err(e) => Self::fault_of(*args) == Some(e@),
            },
    {
        if !args.is_object() {
            return Err(not_an_object());
        }
        let file_path = match required_str(args, "file_path") {
            Ok(v) => v,
            Err(e) => {
                return Err(e);
            },
        };
        let line = match required_u32(args, "line") {
            Ok(v) => v,
            Err(e) => {
                return Err(e);
            },
        };
        let column = match required_u32(args, "column") {
            Ok(v) => v,
            Err(e) => {
                return Err(e);
            },
        };
        let new_name = match required_str(args, "new_name") {
            Ok(v) => v,
            Err(e) => {
                return Err(e);
            },
        };
        Ok(RaRenameArgs { file_path, line, column, new_name })
    }
}

/// Arguments of `ra_format`.
#[derive(Debug)]
pub struct RaFormatArgs {
    /// Path of the file.
    pub file_path: String,
}

impl RaFormatArgs {
    /// Whether the payload `args` gives exactly these arguments.
    pub open spec fn read_from(self, args: ArgValue) -> bool {
        let a = self;
        &&& args is Object
        &&& required_str_spec(args, "file_path"@) == Ok::<_, ToolErrorView>(a.file_path@)
    }

    /// The error that the payload `args` gives, where it is not accepted:
    /// that of the first argument at fault.
    pub open spec fn fault_of(args: ArgValue) -> Option<ToolErrorView> {
        if !(args is Object) {
            Some(ToolErrorView::InvalidArguments(not_an_object_text()))
        } else if required_str_spec(args, "file_path"@) is Err {
            Some(required_str_spec(args, "file_path"@)->Err_0)
        } else {
            None
        }
    }

    /// Checks a payload and takes the arguments out of it.
    pub fn parse(args: &ArgValue) -> (r: Result<Self, ToolError>)
        ensures
            match r {
                Ok(a) => a.read_from(*args) && Self::fault_of(*args) is None,
                Err(e) => Self::fault_of(*args) == Some(e@),
            },
    {
        if !args.is_object() {
            return Err(not_an_object());
        }
        let file_path = match required_str(args, "file_path") {
            Ok(v) => v,
            Err(e) => {
                return Err(e);
            },
        };
        Ok(RaFormatArgs { file_path })
    }
}

} // verus!
