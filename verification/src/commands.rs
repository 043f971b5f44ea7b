//! The commands that a user types in place of an instruction.

use vstd::prelude::*;
use crate::danger::str_views;
use crate::git::GitInfo;
use crate::text::{
    chars_of, extend_chars, extend_str, join_spec, joined3, skip_spaces, split_whitespace,
    str_eq, string_of, trim_start_spec, views, words_spec,
};

verus! {

/// What a command leads to.
#[derive(Debug, Clone)]
pub enum CommandResult {
    /// Go on as before.
    Continue,
    /// Leave.
    Exit,
    /// Empty the history.
    ClearHistory,
    /// Show the files that the session wrote.
    ShowFileChanges,
    /// Tell the user something.
    Info(String),
    /// Warn the user of something.
    Warning(String),
    /// Tell the user what went wrong.
    Error(String),
}

/// The commands that are built in.
#[derive(Debug, Clone, Copy, PartialEq, Eq, Structural)]
pub enum BuiltinCommand {
    Help,
    Exit,
    Clear,
    Sessions,
    Save,
    Load,
    Git,
    Changes,
}

/// Whether an input is a command: it begins with `/`, whitespace before it
/// aside.
pub open spec fn is_command_spec(input: Seq<char>) -> bool {
    trim_start_spec(input).len() > 0 && trim_start_spec(input)[0] == '/'
}

/// Whether an input is a command.
pub fn is_command(input: &str) -> (r: bool)
    ensures
        r == is_command_spec(input@),
{
    let v = chars_of(input);
    let a = skip_spaces(&v, 0);
    assert(v@.subrange(0, v@.len() as int) == v@);
    a < v.len() && v[a] == '/'
}

/// The text of the error for an input that is no command.
pub open spec fn not_a_command_text() -> Seq<char> {
    "Commands must start with '/'"@
}

/// The text of the error for a command without a name.
pub open spec fn empty_command_text() -> Seq<char> {
    "Empty command"@
}

/// The name and the arguments of a command: the words of the input after
/// the `/`.
pub open spec fn command_words(input: Seq<char>) -> Seq<Seq<char>> {
    words_spec(trim_start_spec(input).drop_first())
}

/// Takes a command apart: its name and its arguments, or the text of the
/// error for an input that is no command or names none.
pub fn parse_command(input: &str) -> (r: Result<(String, Vec<String>), String>)
    ensures
        match r {
            Ok((name, args)) => is_command_spec(input@) && command_words(input@).len() > 0
                && name@ == command_words(input@)[0] && views(args@) == command_words(
                input@,
            ).drop_first(),
            Err(e) => if !is_command_spec(input@) {
                e@ == not_a_command_text()
            } else {
                command_words(input@).len() == 0 && e@ == empty_command_text()
            },
        },
{
    let v = chars_of(input);
    let a = skip_spaces(&v, 0);
    assert(v@.subrange(0, v@.len() as int) == v@);
    if !(a < v.len() && v[a] == '/') {
        return Err("Commands must start with '/'".to_owned());
    }
    let rest = crate::text::string_of_range(&v, a + 1, v.len());
    assert(rest@ == trim_start_spec(input@).drop_first());
    let mut words = split_whitespace(rest.as_str());
    if words.len() == 0 {
        return Err("Empty command".to_owned());
    }
    let ghost all = views(words@);
    let name = words.remove(0);
    assert(views(words@) =~= all.drop_first());
    Ok((name, words))
}

impl BuiltinCommand {
    /// The command that a name or an alias stands for.
    pub open spec fn named(name: Seq<char>) -> Option<BuiltinCommand> {
        if name == "help"@ {
            Some(BuiltinCommand::Help)
        } else if name == "exit"@ || name == "quit"@ || name == "q"@ {
            Some(BuiltinCommand::Exit)
        } else if name == "clear"@ || name == "cls"@ {
            Some(BuiltinCommand::Clear)
        } else if name == "sessions"@ {
            Some(BuiltinCommand::Sessions)
        } else if name == "save"@ {
            Some(BuiltinCommand::Save)
        } else if name == "load"@ {
            Some(BuiltinCommand::Load)
        } else if name == "git"@ {
            Some(BuiltinCommand::Git)
        } else if name == "changes"@ {
            Some(BuiltinCommand::Changes)
        } else {
            None
        }
    }

    /// The name of the command.
    pub open spec fn name_spec(self) -> Seq<char> {
        match self {
            BuiltinCommand::Help => "help"@,
            BuiltinCommand::Exit => "exit"@,
            BuiltinCommand::Clear => "clear"@,
            BuiltinCommand::Sessions => "sessions"@,
            BuiltinCommand::Save => "save"@,
            BuiltinCommand::Load => "load"@,
            BuiltinCommand::Git => "git"@,
            BuiltinCommand::Changes => "changes"@,
        }
    }

    /// What the command does, in a line.
    pub open spec fn description_spec(self) -> Seq<char> {
        match self {
            BuiltinCommand::Help => "Display this help message"@,
            BuiltinCommand::Exit => "Exit the application"@,
            BuiltinCommand::Clear => "Clear the chat history"@,
            BuiltinCommand::Sessions => "List all saved sessions"@,
            BuiltinCommand::Save => "Save the current session"@,
            BuiltinCommand::Load => "Load a saved session by ID"@,
            BuiltinCommand::Git => "Show git repository status"@,
            BuiltinCommand::Changes => "Show files modified during this session"@,
        }
    }

    /// The command that a name or an alias stands for.
    pub fn resolve(name: &str) -> (r: Option<BuiltinCommand>)
        ensures
            r == Self::named(name@),
    {
        if str_eq(name, "help") {
            Some(BuiltinCommand::Help)
        } else if str_eq(name, "exit") || str_eq(name, "quit") || str_eq(name, "q") {
            Some(BuiltinCommand::Exit)
        } else if str_eq(name, "clear") || str_eq(name, "cls") {
            Some(BuiltinCommand::Clear)
        } else if str_eq(name, "sessions") {
            Some(BuiltinCommand::Sessions)
        } else if str_eq(name, "save") {
            Some(BuiltinCommand::Save)
        } else if str_eq(name, "load") {
            Some(BuiltinCommand::Load)
        } else if str_eq(name, "git") {
            Some(BuiltinCommand::Git)
        } else if str_eq(name, "changes") {
            Some(BuiltinCommand::Changes)
        } else {
            None
        }
    }

    /// The name of the command.
    pub fn name(&self) -> (r: &'static str)
        ensures
            r@ == self.name_spec(),
    {
        match self {
            BuiltinCommand::Help => "help",
            BuiltinCommand::Exit => "exit",
            BuiltinCommand::Clear => "clear",
            BuiltinCommand::Sessions => "sessions",
            BuiltinCommand::Save => "save",
            BuiltinCommand::Load => "load",
            BuiltinCommand::Git => "git",
            BuiltinCommand::Changes => "changes",
        }
    }

    /// What the command does, in a line.
    pub fn description(&self) -> (r: &'static str)
        ensures
            r@ == self.description_spec(),
    {
        match self {
            BuiltinCommand::Help => "Display this help message",
            BuiltinCommand::Exit => "Exit the application",
            BuiltinCommand::Clear => "Clear the chat history",
            BuiltinCommand::Sessions => "List all saved sessions",
            BuiltinCommand::Save => "Save the current session",
            BuiltinCommand::Load => "Load a saved session by ID",
            BuiltinCommand::Git => "Show git repository status",
            BuiltinCommand::Changes => "Show files modified during this session",
        }
    }

    /// The other names of the command.
    pub open spec fn aliases_spec(self) -> Seq<Seq<char>> {
        match self {
            BuiltinCommand::Exit => seq!["quit"@, "q"@],
            BuiltinCommand::Clear => seq!["cls"@],
            _ => Seq::empty(),
        }
    }

    /// What the command does, at length.
    pub open spec fn help_spec(self) -> Seq<char> {
        match self {
            BuiltinCommand::Sessions =>
                "List all saved sessions with their IDs, models, and message counts.\nUse /load <session_id> to resume a session."@,
            BuiltinCommand::Load =>
                "Load a saved session by its ID.\nUsage: /load <session_id>\nYou can find session IDs using the /sessions command."@,
            _ => self.description_spec(),
        }
    }

    /// The commands in the order of their names.
    pub open spec fn listed() -> Seq<BuiltinCommand> {
        seq![
            BuiltinCommand::Changes,
            BuiltinCommand::Clear,
            BuiltinCommand::Exit,
            BuiltinCommand::Git,
            BuiltinCommand::Help,
            BuiltinCommand::Load,
            BuiltinCommand::Save,
            BuiltinCommand::Sessions,
        ]
    }

    /// The command in the list of all commands: its name with its other
    /// names, and under it what it does.
    pub open spec fn entry_spec(self) -> Seq<char> {
        "  /"@ + self.name_spec() + (if self.aliases_spec().len() == 0 {
            Seq::empty()
        } else {
            " (aliases: "@ + join_spec(self.aliases_spec(), ", "@) + ")"@
        }) + "\n      "@ + self.description_spec() + "\n\n"@
    }

    /// The command by itself: its name, its other names, and what it does
    /// at length.
    pub open spec fn detail_spec(self) -> Seq<char> {
        "/"@ + self.name_spec() + (if self.aliases_spec().len() == 0 {
            Seq::empty()
        } else {
            "\nAliases: "@ + join_spec(self.aliases_spec(), ", "@)
        }) + "\n\n"@ + self.help_spec()
    }

    /// The other names of the command.
    pub fn aliases(&self) -> (r: Vec<&'static str>)
        ensures
            str_views(r@) == self.aliases_spec(),
    {
        let r = match self {
            BuiltinCommand::Exit => vec!["quit", "q"],
            BuiltinCommand::Clear => vec!["cls"],
            _ => Vec::new(),
        };
        assert(str_views(r@) =~= self.aliases_spec());
        r
    }

    /// What the command does, at length.
    pub fn help(&self) -> (r: &'static str)
        ensures
            r@ == self.help_spec(),
    {
        match self {
            BuiltinCommand::Sessions =>
                "List all saved sessions with their IDs, models, and message counts.\nUse /load <session_id> to resume a session.",
            BuiltinCommand::Load =>
                "Load a saved session by its ID.\nUsage: /load <session_id>\nYou can find session IDs using the /sessions command.",
            _ => self.description(),
        }
    }

    /// The commands in the order of their names.
    pub fn all() -> (r: Vec<BuiltinCommand>)
        ensures
            r@ == Self::listed(),
    {
        let r = vec![
            BuiltinCommand::Changes,
            BuiltinCommand::Clear,
            BuiltinCommand::Exit,
            BuiltinCommand::Git,
            BuiltinCommand::Help,
            BuiltinCommand::Load,
            BuiltinCommand::Save,
            BuiltinCommand::Sessions,
        ];
        assert(r@ =~= Self::listed());
        r
    }

    /// The other names of the command with commas between.
    fn alias_list(&self) -> (r: Vec<char>)
        ensures
            r@ == join_spec(self.aliases_spec(), ", "@),
    {
        let items = self.aliases();
        let mut out: Vec<char> = Vec::new();
        let mut i: usize = 0;
        while i < items.len()
            invariant
                i <= items@.len(),
                out@ == join_spec(str_views(items@).take(i as int), ", "@),
            decreases items@.len() - i,
        {
            if i > 0 {
                extend_str(&mut out, ", ");
            }
            extend_str(&mut out, items[i]);
            assert(str_views(items@).take(i + 1).drop_last() == str_views(items@).take(i as int));
            i += 1;
        }
        assert(str_views(items@).take(items@.len() as int) == str_views(items@));
        out
    }

    /// The command in the list of all commands.
    fn entry(&self) -> (r: Vec<char>)
        ensures
            r@ == self.entry_spec(),
    {
        let mut out = chars_of("  /");
        extend_str(&mut out, self.name());
        let names = self.alias_list();
        if names.len() > 0 {
            let mut note = chars_of(" (aliases: ");
            extend_chars(&mut note, &names);
            extend_str(&mut note, ")");
            extend_chars(&mut out, &note);
        }
        proof {
            self.lemma_alias_list();
        }
        assert(out@ =~= "  /"@ + self.name_spec() + (if self.aliases_spec().len() == 0 {
            Seq::<char>::empty()
        } else {
            " (aliases: "@ + join_spec(self.aliases_spec(), ", "@) + ")"@
        }));
        extend_str(&mut out, "\n      ");
        extend_str(&mut out, self.description());
        extend_str(&mut out, "\n\n");
        out
    }

    /// The list of the other names is empty just where there are none.
    proof fn lemma_alias_list(self)
        ensures
            (join_spec(self.aliases_spec(), ", "@).len() == 0) == (self.aliases_spec().len() == 0),
    {
        reveal_strlit("quit");
        reveal_strlit("cls");
        reveal_with_fuel(join_spec, 3);
        match self {
            BuiltinCommand::Exit => {
                let a = self.aliases_spec();
                assert(a.drop_last() =~= seq!["quit"@]);
                assert(join_spec(a.drop_last(), ", "@) == "quit"@);
                assert(join_spec(a, ", "@).len() >= 4);
            },
            BuiltinCommand::Clear => {
                assert(join_spec(self.aliases_spec(), ", "@) == "cls"@);
            },
            _ => {},
        }
    }

    /// The command by itself.
    pub fn detail(&self) -> (r: String)
        ensures
            r@ == self.detail_spec(),
    {
        let mut out = chars_of("/");
        extend_str(&mut out, self.name());
        let names = self.alias_list();
        if names.len() > 0 {
            let mut note = chars_of("\nAliases: ");
            extend_chars(&mut note, &names);
            extend_chars(&mut out, &note);
        }
        proof {
            self.lemma_alias_list();
        }
        assert(out@ =~= "/"@ + self.name_spec() + (if self.aliases_spec().len() == 0 {
            Seq::<char>::empty()
        } else {
            "\nAliases: "@ + join_spec(self.aliases_spec(), ", "@)
        }));
        extend_str(&mut out, "\n\n");
        extend_str(&mut out, self.help());
        string_of(&out)
    }

    /// What a command leads to that needs nothing of its surroundings:
    /// leaving, an empty history, and the list of the files that were
    /// written. Any other command leads to nothing by itself.
    pub fn outcome(&self) -> (r: Option<CommandResult>)
        ensures
            match *self {
                BuiltinCommand::Exit => r matches Some(CommandResult::Exit),
                BuiltinCommand::Clear => r matches Some(CommandResult::ClearHistory),
                BuiltinCommand::Changes => r matches Some(CommandResult::ShowFileChanges),
                _ => r is None,
            },
    {
        match self {
            BuiltinCommand::Exit => Some(CommandResult::Exit),
            BuiltinCommand::Clear => Some(CommandResult::ClearHistory),
            BuiltinCommand::Changes => Some(CommandResult::ShowFileChanges),
            _ => None,
        }
    }
}

/// The text of the error for a name that stands for no command.
pub open spec fn unknown_command_text(name: Seq<char>) -> Seq<char> {
    "Unknown command: '"@ + name + "'. Type /help for available commands."@
}

/// What a name that stands for no command leads to.
pub fn unknown_command(name: &str) -> (r: CommandResult)
    ensures
        r matches CommandResult::Error(e) && e@ == unknown_command_text(name@),
{
    CommandResult::Error(joined3("Unknown command: '", name, "'. Type /help for available commands."))
}

/// What the command `git` shows of a repository.
pub open spec fn git_status_text(info: GitInfo) -> Seq<char> {
    "Git repository information:\n\n"@ + match info.branch {
        Some(branch) => "  Branch: "@ + branch@ + "\n  Status: "@ + (if info.is_dirty {
            "dirty (uncommitted changes)"@
        } else {
            "clean"@
        }) + "\n"@,
        None => "  Not a git repository\n"@,
    }
}

/// What the command `git` leads to.
pub fn git_status(info: &GitInfo) -> (r: CommandResult)
    ensures
        r matches CommandResult::Info(text) && text@ == git_status_text(*info),
{
    let head = chars_of("Git repository information:\n\n");
    let mut body: Vec<char> = Vec::new();
    match &info.branch {
        Some(branch) => {
            extend_str(&mut body, "  Branch: ");
            extend_str(&mut body, branch.as_str());
            extend_str(&mut body, "\n  Status: ");
            let ghost a = body@;
            if info.is_dirty {
                extend_str(&mut body, "dirty (uncommitted changes)");
            } else {
                extend_str(&mut body, "clean");
            }
            extend_str(&mut body, "\n");
        },
        None => {
            extend_str(&mut body, "  Not a git repository\n");
            assert(body@ =~= "  Not a git repository\n"@);
        },
    }
    let mut out = head;
    crate::text::extend_chars(&mut out, &body);
    CommandResult::Info(string_of(&out))
}


/// The commands of the list, an entry each.
pub open spec fn entries_spec(commands: Seq<BuiltinCommand>) -> Seq<char>
    decreases commands.len(),
{
    if commands.len() == 0 {
        Seq::empty()
    } else {
        entries_spec(commands.drop_last()) + commands.last().entry_spec()
    }
}

/// The list of all commands.
pub open spec fn overview_spec() -> Seq<char> {
    "Available commands:\n\n"@ + entries_spec(BuiltinCommand::listed())
        + "\nTip: Type /help <command> for detailed help on a specific command."@
}

/// The text of the error for a name of which `help` knows nothing.
pub open spec fn no_help_text(name: Seq<char>) -> Seq<char> {
    "Unknown command: '"@ + name + "'"@
}

/// What the command `help` leads to: without a word behind it the list of
/// all commands, else what is known of the command that the first word
/// names.
pub fn help(args: &Vec<String>) -> (r: CommandResult)
    ensures
        args@.len() == 0 ==> (r matches CommandResult::Info(t) && t@ == overview_spec()),
        args@.len() > 0 ==> match BuiltinCommand::named(args@[0]@) {
            Some(command) => (r matches CommandResult::Info(t) && t@ == command.detail_spec()),
            None => (r matches CommandResult::Error(e) && e@ == no_help_text(args@[0]@)),
        },
{
    if args.len() > 0 {
        return match BuiltinCommand::resolve(args[0].as_str()) {
            Some(command) => CommandResult::Info(command.detail()),
            None => CommandResult::Error(joined3("Unknown command: '", args[0].as_str(), "'")),
        };
    }
    let commands = BuiltinCommand::all();
    let mut out = chars_of("Available commands:\n\n");
    let mut i: usize = 0;
    assert(commands@.take(0) =~= Seq::<BuiltinCommand>::empty());
    while i < commands.len()
        invariant
            i <= commands@.len(),
            out@ == "Available commands:\n\n"@ + entries_spec(commands@.take(i as int)),
        decreases commands@.len() - i,
    {
        extend_chars(&mut out, &commands[i].entry());
        assert(commands@.take(i + 1).drop_last() == commands@.take(i as int));
        assert(commands@.take(i + 1).last() == commands@[i as int]);
        i += 1;
    }
    assert(commands@.take(commands@.len() as int) == commands@);
    extend_str(&mut out, "\nTip: Type /help <command> for detailed help on a specific command.");
    CommandResult::Info(string_of(&out))
}

} // verus!
