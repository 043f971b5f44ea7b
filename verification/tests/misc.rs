use agent_t::changes::{normalize_path, ChangeLedger, FileOperation};
use agent_t::commands::{
    git_status, is_command, parse_command, unknown_command, BuiltinCommand, CommandResult,
};
use agent_t::conversation::{
    collect_choice, collect_stream, display_args, display_value, prompt_text, AssistantItem,
    Message, StreamItem, ToolCall, ToolResult,
};
use agent_t::danger::{
    dangerous_paths, dangerous_patterns, first_containing, is_dangerous_command,
    is_dangerous_path,
};
use agent_t::args::ArgValue;
use agent_t::error::ToolError;
use agent_t::events::{tab_name, ChatMessage, Direction, TabStatus};
use agent_t::git::{count_status, GitInfo};
use agent_t::names::NameMap;
use agent_t::usage::TokenUsage;

#[test]
fn tokens_are_estimated_by_bytes() {
    assert_eq!(TokenUsage::estimate_tokens(""), 0);
    assert_eq!(TokenUsage::estimate_tokens("a"), 1);
    assert_eq!(TokenUsage::estimate_tokens("abcd"), 1);
    assert_eq!(TokenUsage::estimate_tokens("abcde"), 2);
    assert_eq!(TokenUsage::estimate_tokens("\u{e9}\u{e9}\u{e9}"), 2);
    assert_eq!(TokenUsage::estimate_tokens(&"x".repeat(4000)), 1000);
    let mut usage = TokenUsage::default();
    assert_eq!(usage.request_count, 0);
    usage.add_estimated("12345678", "123");
    assert_eq!(
        usage,
        TokenUsage { prompt_tokens: 2, completion_tokens: 1, total_tokens: 3, request_count: 1 }
    );
    usage.add_estimated("", "");
    assert_eq!(
        usage,
        TokenUsage { prompt_tokens: 2, completion_tokens: 1, total_tokens: 3, request_count: 2 }
    );
}

#[test]
fn counters_stop_at_the_largest_number() {
    let mut usage = TokenUsage {
        prompt_tokens: usize::MAX - 1,
        completion_tokens: 5,
        total_tokens: usize::MAX,
        request_count: usize::MAX,
    };
    usage.add_estimated("12345678", "1");
    assert_eq!(usage.prompt_tokens, usize::MAX);
    assert_eq!(usage.completion_tokens, 6);
    assert_eq!(usage.total_tokens, usize::MAX);
    assert_eq!(usage.request_count, usize::MAX);
}

#[test]
fn paths_are_seen_from_the_working_directory() {
    assert_eq!(normalize_path("/work", "a.txt"), "/work/a.txt");
    assert_eq!(normalize_path("/work/", "a.txt"), "/work/a.txt");
    assert_eq!(normalize_path("/work", "/abs/a.txt"), "/abs/a.txt");
    assert_eq!(normalize_path("/work", "sub/dir/a.txt"), "/work/sub/dir/a.txt");
    assert_eq!(normalize_path("", "a.txt"), "a.txt");
    assert_eq!(normalize_path("/work", ""), "/work/");
    assert_eq!(normalize_path("rel", "a"), "rel/a");
}

#[test]
fn the_ledger_keeps_one_record_for_each_path() {
    let mut ledger = ChangeLedger::new();
    assert_eq!(ledger.count(), 0);
    ledger.record("/w", "b.txt", FileOperation::Created, 1);
    ledger.record("/w", "a.txt", FileOperation::Modified, 2);
    ledger.record("/w", "b.txt", FileOperation::Deleted, 3);
    assert_eq!(ledger.count(), 2);
    let summary = ledger.summary();
    assert_eq!(summary[0].path, "/w/a.txt");
    assert_eq!(summary[1].path, "/w/b.txt");
    assert_eq!(summary[1].operation, FileOperation::Deleted);
    assert_eq!(summary[1].timestamp, 3);
    assert_eq!(FileOperation::Created.label(), "created");
    assert_eq!(FileOperation::Modified.label(), "modified");
    assert_eq!(FileOperation::Deleted.label(), "deleted");
    ledger.clear();
    assert_eq!(ledger.count(), 0);
    assert_eq!(ledger.summary().len(), 0);
}

#[test]
fn a_map_of_names() {
    let mut map: NameMap<u32> = NameMap::new();
    assert_eq!(map.len(), 0);
    assert_eq!(map.get("a"), None);
    map.insert("b".to_string(), 2);
    map.insert("a".to_string(), 1);
    map.insert("c".to_string(), 3);
    map.insert("b".to_string(), 20);
    assert_eq!(map.len(), 3);
    assert_eq!(map.get("b"), Some(&20));
    assert!(map.contains_key("a"));
    assert!(!map.contains_key("A"));
    assert_eq!(map.key_at(0), "a");
    assert_eq!(map.key_at(2), "c");
    assert_eq!(*map.value_at(1), 20);
    map.remove("a");
    map.remove("zz");
    assert_eq!(map.len(), 2);
    assert_eq!(map.key_at(0), "b");
    assert_eq!(map.get("a"), None);
    map.clear();
    assert_eq!(map.len(), 0);
}

#[test]
fn dangerous_commands_are_found_by_their_first_pattern() {
    assert_eq!(is_dangerous_command("ls -la"), None);
    assert_eq!(is_dangerous_command(""), None);
    assert_eq!(is_dangerous_command("rm -rf /"), Some("rm -rf"));
    assert_eq!(is_dangerous_command("rm -r dir"), Some("rm -r"));
    assert_eq!(is_dangerous_command("sudo rm x"), Some("sudo rm"));
    assert_eq!(is_dangerous_command("SUDO RM -RF x"), Some("rm -rf"));
    assert_eq!(is_dangerous_command("psql -c 'drop table users'"), Some("DROP TABLE"));
    assert_eq!(is_dangerous_command("echo x > /dev/null"), Some("> /dev/"));
    assert_eq!(is_dangerous_command("Shutdown -h now"), Some("shutdown"));
    assert_eq!(is_dangerous_command("chmod -r 777 ."), Some("chmod -R 777"));
    assert_eq!(is_dangerous_command("del /F /S /Q c:"), Some("del /f /s /q"));
    assert_eq!(is_dangerous_path("/etc/passwd"), Some("/etc/passwd"));
    assert_eq!(is_dangerous_path("/home/u/.ssh/id_rsa"), Some("/.ssh/"));
    assert_eq!(is_dangerous_path("~/.ssh/config"), Some("~/.ssh/"));
    assert_eq!(is_dangerous_path("/dev/null"), Some("/dev/"));
    assert_eq!(is_dangerous_path("/ETC/PASSWD"), None);
    assert_eq!(is_dangerous_path("src/main.rs"), None);
    let needles = vec!["zz".to_string(), "b".to_string(), "ab".to_string(), String::new()];
    assert_eq!(first_containing("abc", &needles), Some(1));
    assert_eq!(first_containing("xyz", &needles), Some(3));
    assert_eq!(first_containing("xyz", &needles[..3].to_vec()), None);
    assert_eq!(first_containing("", &vec![]), None);
    assert_eq!(dangerous_patterns().len(), 32);
    assert_eq!(dangerous_paths().len(), 10);
    for pattern in dangerous_patterns() {
        assert!(is_dangerous_command(pattern).is_some(), "{}", pattern);
    }
    for path in dangerous_paths() {
        assert!(is_dangerous_path(path).is_some(), "{}", path);
    }
}

#[test]
fn errors_have_texts() {
    assert_eq!(ToolError::file_not_found("a").message(), "File not found: a");
    assert_eq!(ToolError::permission_denied("a").message(), "Permission denied: a");
    assert_eq!(ToolError::io("a").message(), "IO error: a");
    assert_eq!(ToolError::invalid_path("a").message(), "Invalid path: a");
    assert_eq!(ToolError::command_failed("a").message(), "Command failed: a");
    assert_eq!(ToolError::CommandTimeout.message(), "Command timeout");
    assert_eq!(ToolError::invalid_arguments("a").message(), "Invalid arguments: a");
    assert_eq!(ToolError::pattern_error("a").message(), "Pattern error: a");
    assert_eq!(ToolError::http_error("a").message(), "HTTP error: a");
    assert_eq!(ToolError::invalid_url("a").message(), "Invalid URL: a");
    assert_eq!(ToolError::network_error("a").message(), "Network error: a");
    assert_eq!(ToolError::other("a").message(), "a");
    assert!(matches!(ToolError::file_not_found("p"), ToolError::FileNotFound(p) if p == "p"));
    assert!(matches!(ToolError::network_error("p"), ToolError::Network(p) if p == "p"));
}

fn call(id: &str, name: &str) -> ToolCall {
    ToolCall { id: id.to_string(), name: name.to_string(), arguments: ArgValue::Object(vec![]) }
}

#[test]
fn an_answer_that_came_whole_is_gathered() {
    let outcome = collect_choice(vec![
        AssistantItem::Text("first".to_string()),
        AssistantItem::ToolCall(call("1", "a")),
        AssistantItem::Other,
        AssistantItem::Text("last".to_string()),
        AssistantItem::ToolCall(call("2", "b")),
    ]);
    assert_eq!(outcome.text, Some("last".to_string()));
    let ids: Vec<&str> = outcome.tool_calls.iter().map(|c| c.id.as_str()).collect();
    assert_eq!(ids, vec!["1", "2"]);
    let nothing = collect_choice(vec![AssistantItem::Other]);
    assert_eq!(nothing.text, None);
    assert_eq!(nothing.tool_calls.len(), 0);
}

#[test]
fn an_answer_that_streamed_is_gathered() {
    let outcome = collect_stream(
        vec![
            StreamItem::Text("Hel".to_string()),
            StreamItem::Other,
            StreamItem::ToolCall(call("1", "a")),
            StreamItem::Text("lo".to_string()),
        ],
        vec![
            AssistantItem::Text("Hello".to_string()),
            AssistantItem::ToolCall(call("1", "a")),
            AssistantItem::ToolCall(call("2", "b")),
            AssistantItem::ToolCall(call("2", "again")),
        ],
    );
    assert_eq!(outcome.text, Some("Hello".to_string()));
    let ids: Vec<(&str, &str)> =
        outcome.tool_calls.iter().map(|c| (c.id.as_str(), c.name.as_str())).collect();
    assert_eq!(ids, vec![("1", "a"), ("2", "b")]);
    let silent = collect_stream(vec![StreamItem::Text(String::new())], vec![]);
    assert_eq!(silent.text, None);
    assert_eq!(silent.tool_calls.len(), 0);
}

#[test]
fn arguments_are_shown_and_prompts_are_written_out() {
    let args = ArgValue::Object(vec![
        ("command".to_string(), ArgValue::Str("ls".to_string())),
        ("background".to_string(), ArgValue::Bool(false)),
        ("tags".to_string(), ArgValue::List(vec![ArgValue::Str("a".to_string())])),
    ]);
    assert_eq!(
        display_args(&args),
        vec![
            ("command".to_string(), "ls".to_string()),
            ("background".to_string(), "false".to_string()),
            ("tags".to_string(), "[\"a\"]".to_string()),
        ]
    );
    assert_eq!(display_args(&ArgValue::Null).len(), 0);
    assert_eq!(display_value(&ArgValue::Str("\u{e9}".repeat(60))), format!("{}...", "\u{e9}".repeat(50)));
    let history = vec![
        Message::UserText("hi".to_string()),
        Message::AssistantToolCalls {
            text: Some("let me look".to_string()),
            calls: vec![ToolCall { id: "c1".to_string(), name: "bash".to_string(), arguments: args }],
        },
        Message::ToolResults(vec![ToolResult { call_id: "c1".to_string(), content: "out".to_string() }]),
        Message::AssistantText("done".to_string()),
    ];
    assert_eq!(
        prompt_text("SYSTEM", &history),
        "SYSTEM\nuser: hi\nassistant: let me look\ntool_call[c1] bash {\"background\":false,\"command\":\"ls\",\"tags\":[\"a\"]}\ntool_result[c1]: out\nassistant: done\n"
    );
    assert_eq!(prompt_text("", &vec![]), "\n");
}

#[test]
fn the_state_of_a_repository() {
    assert_eq!(count_status(""), (0, 0, 0));
    assert_eq!(
        count_status("M  staged.rs\n M unstaged.rs\nMM both.rs\n?? new.rs\nA  added.rs\n D gone.rs\nx\n"),
        (3, 3, 1)
    );
    let none = GitInfo::none();
    assert_eq!(none.summary(), "Not a git repository");
    assert_eq!(none.context_string(), "");
    let clean = GitInfo::from_probe(Some("main\n"), None, Some(""));
    assert!(clean.is_repo);
    assert!(!clean.is_dirty);
    assert_eq!(clean.branch, Some("main".to_string()));
    assert_eq!(clean.summary(), "branch: main (clean)");
    assert_eq!(
        clean.context_string(),
        "Git repository: branch 'main', status: clean (0 staged, 0 modified, 0 untracked files)"
    );
    let dirty = GitInfo::from_probe(Some("\n"), Some("abc1234\n"), Some("M  a\n?? b\n?? c\n"));
    assert_eq!(dirty.branch, Some("(abc1234)".to_string()));
    assert!(dirty.is_dirty);
    assert_eq!(dirty.summary(), "branch: (abc1234) (1 staged, 2 untracked)");
    assert_eq!(
        dirty.context_string(),
        "Git repository: branch '(abc1234)', status: dirty (1 staged, 0 modified, 2 untracked files)"
    );
    let all = GitInfo::from_probe(Some("dev"), None, Some("MM a\n?? b\n"));
    assert_eq!(all.summary(), "branch: dev (1 staged, 1 modified, 1 untracked)");
    let unknown = GitInfo::from_probe(None, Some("abc"), None);
    assert_eq!(unknown.branch, None);
    assert_eq!(unknown.summary(), "branch: unknown (clean)");
    let detached = GitInfo::from_probe(Some(""), None, None);
    assert_eq!(detached.branch, None);
}

#[test]
fn commands_are_taken_apart() {
    assert!(is_command("/help"));
    assert!(is_command("  /exit now"));
    assert!(!is_command("help"));
    assert!(!is_command(""));
    assert!(!is_command("a /b"));
    assert_eq!(parse_command("/load abc  def "), Ok(("load".to_string(), vec!["abc".to_string(), "def".to_string()])));
    assert_eq!(parse_command("  /help"), Ok(("help".to_string(), vec![])));
    assert_eq!(parse_command("/ help"), Ok(("help".to_string(), vec![])));
    assert_eq!(parse_command("help"), Err("Commands must start with '/'".to_string()));
    assert_eq!(parse_command("/"), Err("Empty command".to_string()));
    assert_eq!(parse_command("/   "), Err("Empty command".to_string()));
    assert_eq!(BuiltinCommand::resolve("quit"), Some(BuiltinCommand::Exit));
    assert_eq!(BuiltinCommand::resolve("q"), Some(BuiltinCommand::Exit));
    assert_eq!(BuiltinCommand::resolve("cls"), Some(BuiltinCommand::Clear));
    assert_eq!(BuiltinCommand::resolve("changes"), Some(BuiltinCommand::Changes));
    assert_eq!(BuiltinCommand::resolve("Help"), None);
    assert_eq!(BuiltinCommand::Exit.aliases(), vec!["quit", "q"]);
    assert_eq!(BuiltinCommand::Clear.aliases(), vec!["cls"]);
    assert_eq!(BuiltinCommand::Help.aliases().len(), 0);
    assert_eq!(BuiltinCommand::Load.name(), "load");
    assert_eq!(BuiltinCommand::Load.description(), "Load a saved session by ID");
    assert!(matches!(BuiltinCommand::Exit.outcome(), Some(CommandResult::Exit)));
    assert!(matches!(BuiltinCommand::Clear.outcome(), Some(CommandResult::ClearHistory)));
    assert!(matches!(BuiltinCommand::Changes.outcome(), Some(CommandResult::ShowFileChanges)));
    assert!(BuiltinCommand::Git.outcome().is_none());
    assert!(matches!(
        unknown_command("foo"),
        CommandResult::Error(e) if e == "Unknown command: 'foo'. Type /help for available commands."
    ));
    let info = GitInfo::from_probe(Some("main"), None, Some("?? x\n"));
    assert!(matches!(
        git_status(&info),
        CommandResult::Info(t) if t == "Git repository information:\n\n  Branch: main\n  Status: dirty (uncommitted changes)\n"
    ));
    assert!(matches!(
        git_status(&GitInfo::none()),
        CommandResult::Info(t) if t == "Git repository information:\n\n  Not a git repository\n"
    ));
}

#[test]
fn names_of_tabs() {
    assert_eq!(tab_name("0123456789abcdef"), "Agent-01234567");
    assert_eq!(tab_name("abc"), "Agent-abc");
    assert_eq!(tab_name(""), "Agent-");
    assert_ne!(Direction::Request, Direction::Response);
    assert_ne!(TabStatus::Running, TabStatus::Killed);
    assert!(matches!(ChatMessage::User("x".to_string()), ChatMessage::User(_)));
}

#[test]
fn a_new_key_memory_keeps_what_it_was_given() {
    let make = || {
        agent_t::tools::memory::KeyMemoryChunk::new(
            "use tabs".to_string(),
            agent_t::tools::memory::MemoryCategory::UserPreference,
            agent_t::tools::memory::ImportanceLevel::High,
            vec!["style".to_string()],
            vec!["src/a.rs".to_string()],
            Some("s-1".to_string()),
            1_700_000_000,
        )
    };
    let one = make();
    let two = make();
    assert_eq!(one.content, "use tabs");
    assert_eq!(one.timestamp, 1_700_000_000);
    assert_eq!(one.tags, vec!["style".to_string()]);
    assert_eq!(one.related_files, vec!["src/a.rs".to_string()]);
    assert_eq!(one.session_id.as_deref(), Some("s-1"));
    assert!(!one.memory_id.is_empty());
    assert_ne!(one.memory_id, two.memory_id);
}

#[test]
fn a_message_is_kept_with_its_tags() {
    let chunk = agent_t::tools::memory::RoutineMemoryChunk::of_message(
        None,
        "user",
        "Fix the BUG in src/main.rs",
        "/work",
        "a-model",
        42,
    );
    assert_eq!(chunk.session_id, "unknown");
    assert_eq!(chunk.role, "user");
    assert_eq!(chunk.content, "Fix the BUG in src/main.rs");
    assert_eq!(chunk.working_directory, "/work");
    assert_eq!(chunk.model, "a-model");
    assert_eq!(chunk.timestamp, 42);
    assert_eq!(
        chunk.context_tags,
        agent_t::tools::memory::RoutineMemoryChunk::extract_tags("Fix the BUG in src/main.rs", None)
    );
    assert_eq!(
        chunk.context_tags,
        vec!["file:src/main.rs".to_string(), "fix".to_string(), "bug".to_string()]
    );
    assert!(!chunk.message_id.is_empty());
    let named = agent_t::tools::memory::RoutineMemoryChunk::of_message(Some("s-9"), "assistant", "ok", "/", "m", 0);
    assert_eq!(named.session_id, "s-9");
}

#[test]
fn help_lists_the_commands_by_name() {
    match agent_t::commands::help(&Vec::new()) {
        agent_t::commands::CommandResult::Info(text) => assert_eq!(
            text,
            "Available commands:\n\n\
             \x20 /changes\n      Show files modified during this session\n\n\
             \x20 /clear (aliases: cls)\n      Clear the chat history\n\n\
             \x20 /exit (aliases: quit, q)\n      Exit the application\n\n\
             \x20 /git\n      Show git repository status\n\n\
             \x20 /help\n      Display this help message\n\n\
             \x20 /load\n      Load a saved session by ID\n\n\
             \x20 /save\n      Save the current session\n\n\
             \x20 /sessions\n      List all saved sessions\n\n\
             \nTip: Type /help <command> for detailed help on a specific command."
        ),
        other => panic!("another outcome: {:?}", other),
    }
}

#[test]
fn help_for_one_command_shows_its_other_names() {
    match agent_t::commands::help(&vec!["q".to_string(), "more".to_string()]) {
        agent_t::commands::CommandResult::Info(text) => {
            assert_eq!(text, "/exit\nAliases: quit, q\n\nExit the application")
        }
        other => panic!("another outcome: {:?}", other),
    }
    match agent_t::commands::help(&vec!["load".to_string()]) {
        agent_t::commands::CommandResult::Info(text) => assert_eq!(
            text,
            "/load\n\nLoad a saved session by its ID.\nUsage: /load <session_id>\nYou can find session IDs using the /sessions command."
        ),
        other => panic!("another outcome: {:?}", other),
    }
    match agent_t::commands::help(&vec!["nope".to_string()]) {
        agent_t::commands::CommandResult::Error(text) => {
            assert_eq!(text, "Unknown command: 'nope'")
        }
        other => panic!("another outcome: {:?}", other),
    }
}

#[test]
fn a_simulated_call_is_marked_and_shows_its_payload() {
    assert_eq!(
        agent_t::agent_loop::dry_run_note("bash", "{}"),
        "[DRY RUN] Would execute tool 'bash' with arguments:\n{}"
    );
}

#[test]
fn a_long_text_is_wrapped_with_marks_at_the_ends_of_its_lines() {
    let wrap = ChatMessage::wrap_with_continuation;
    assert_eq!(wrap("hello", 10, 2), vec!["hello"]);
    assert_eq!(wrap("", 10, 2), vec![""]);
    assert_eq!(wrap("", 1, 5), Vec::<String>::new());
    assert_eq!(
        wrap("hello world foo bar", 12, 2),
        vec!["hello worl \\", "  d foo \\", "  bar"]
    );
    assert_eq!(
        wrap("aaaaaaa bbbbbbb ccc", 12, 0),
        vec!["aaaaaaa \\", "bbbbbbb \\", "ccc"]
    );
    // the whitespace before a break is left out, however much there is
    assert_eq!(wrap("a    bcdefghij", 8, 1), vec!["a \\", " bcdef \\", " ghij"]);
    // a whitespace in the first half of a line is no place for a break
    assert_eq!(wrap("a bcdefghij", 8, 1), vec!["a bcde \\", " fghij"]);
    assert_eq!(
        wrap("\u{e9}\u{e9}\u{e9}\u{e9}\u{e9}", 7, 0),
        vec!["\u{e9}\u{e9} \\", "\u{e9}\u{e9} \\", "\u{e9}"]
    );
    assert_eq!(wrap("abc", 1, 0), vec!["a \\", "b \\", "c \\"]);
    for line in wrap(&"word ".repeat(40), 30, 4) {
        assert!(line.len() <= 30, "{:?}", line);
    }
}
