use agent_t::tool_args::{
    BashArgs, MathCalcArgs, RaCodeActionsArgs, RaHoverArgs, SearchKeyMemoryArgs,
    SearchRoutineMemoryArgs, StoreKeyMemoryArgs,
};
use agent_t::tools::code::{not_available, position, Position, RaCodeActions, RaHover, RaRename};
use agent_t::tools::math::MathCalc;
use agent_t::tools::memory::{
    memory_not_enabled, top_k, ImportanceLevel, KeyMemoryHit, MemoryCategory,
    RoutineMemoryChunk, RoutineMemoryHit, SearchKeyMemory, SearchRoutineMemory, StoreKeyMemory,
};
use agent_t::tools::shell::BashCommand;

#[test]
fn what_a_command_printed_is_shown() {
    assert_eq!(BashCommand::render("out\n", "", true, Some(0)), "out\n");
    assert_eq!(BashCommand::render("", "", true, Some(0)), "(no output)");
    assert_eq!(BashCommand::render("", "err", true, Some(0)), "err");
    assert_eq!(BashCommand::render("out", "err", true, Some(0)), "out\n--- stderr ---\nerr");
    assert_eq!(BashCommand::render("out", "", false, Some(2)), "out\n[Exit code: 2]");
    assert_eq!(BashCommand::render("", "", false, None), "(no output)\n[Exit code: -1]");
    assert_eq!(
        BashCommand::render("o", "e", false, Some(-9)),
        "o\n--- stderr ---\ne\n[Exit code: -9]"
    );
    assert_eq!(
        BashCommand::render("", "", false, Some(i32::MIN)),
        "(no output)\n[Exit code: -2147483648]"
    );
    assert_eq!(
        BashCommand::background_started("id-1", "make all"),
        "Background process started with ID: id-1\nCommand: make all\nUse bash_status to check progress, bash_output to get output, or bash_kill to terminate."
    );
    let mut args = BashArgs { command: "ls".to_string(), working_dir: None, timeout_secs: None, background: None };
    assert_eq!(BashCommand::timeout_secs(&args), 600);
    assert!(!BashCommand::in_background(&args));
    args.timeout_secs = Some(5);
    args.background = Some(true);
    assert_eq!(BashCommand::timeout_secs(&args), 5);
    assert!(BashCommand::in_background(&args));
    args.background = Some(false);
    assert!(!BashCommand::in_background(&args));
    assert_eq!(BashCommand::name(), "bash");
}

#[test]
fn expressions_are_evaluated() {
    let calc = |e: &str| MathCalc::call(&MathCalcArgs { expression: e.to_string() });
    assert_eq!(calc("2 + 2").unwrap(), "2 + 2 = 4");
    assert_eq!(calc("2^10").unwrap(), "2^10 = 1024");
    assert_eq!(calc("1 / 4").unwrap(), "1 / 4 = 0.25");
    let e = calc("2 +").unwrap_err().message();
    assert!(e.starts_with("Math evaluation error: "), "{}", e);
    assert!(calc("no_such_function(1)").is_err());
    assert_eq!(
        MathCalc::render("x", Ok("1".to_string())).unwrap(),
        "x = 1"
    );
    assert_eq!(
        MathCalc::render("x", Err("bad".to_string())).unwrap_err().message(),
        "Math evaluation error: bad"
    );
    assert_eq!(MathCalc::name(), "math_calc");
}

#[test]
fn positions_count_from_zero() {
    assert_eq!(position(1, 1), Position { line: 0, character: 0 });
    assert_eq!(position(0, 0), Position { line: 0, character: 0 });
    assert_eq!(position(10, 4), Position { line: 9, character: 3 });
    assert_eq!(position(u32::MAX, 2), Position { line: u32::MAX - 1, character: 1 });
    let hover = RaHoverArgs { file_path: "a.rs".to_string(), line: 3, column: 7 };
    assert_eq!(RaHover::position(&hover), Position { line: 2, character: 6 });
    let range = RaCodeActionsArgs {
        file_path: "a.rs".to_string(),
        start_line: 2,
        start_column: 5,
        end_line: None,
        end_column: Some(9),
    };
    assert_eq!(
        RaCodeActions::range(&range),
        (Position { line: 1, character: 4 }, Position { line: 1, character: 8 })
    );
    assert_eq!(RaRename::name(), "ra_rename");
    assert_eq!(
        not_available().message(),
        "rust-analyzer is not available (not a Rust project or rust-analyzer not installed)"
    );
}

#[test]
fn categories_and_levels_have_names() {
    assert_eq!(MemoryCategory::parse("user_preference"), Some(MemoryCategory::UserPreference));
    assert_eq!(MemoryCategory::parse("session_summary"), Some(MemoryCategory::SessionSummary));
    assert_eq!(MemoryCategory::parse("User_Preference"), None);
    assert_eq!(MemoryCategory::parse(""), None);
    assert_eq!(MemoryCategory::ProblemSolution.label(), "Problem Solution");
    assert_eq!(ImportanceLevel::parse("critical"), Some(ImportanceLevel::Critical));
    assert_eq!(ImportanceLevel::parse("urgent"), None);
    assert_eq!(ImportanceLevel::High.label(), "High");
    assert!(ImportanceLevel::High.at_least(&ImportanceLevel::Medium));
    assert!(ImportanceLevel::High.at_least(&ImportanceLevel::High));
    assert!(!ImportanceLevel::Low.at_least(&ImportanceLevel::Critical));
    assert!(ImportanceLevel::Low < ImportanceLevel::Medium);
    assert!(ImportanceLevel::High < ImportanceLevel::Critical);
    assert_eq!(ImportanceLevel::Critical.rank(), 3);
    assert_eq!(top_k(None), 5);
    assert_eq!(top_k(Some(3)), 3);
    assert_eq!(top_k(Some(0)), 0);
    assert_eq!(top_k(Some(20)), 20);
    assert_eq!(top_k(Some(21)), 20);
    assert_eq!(memory_not_enabled().message(), "Memory not enabled");
}

fn store_args(category: &str, importance: &str) -> StoreKeyMemoryArgs {
    StoreKeyMemoryArgs {
        content: "c".to_string(),
        category: category.to_string(),
        importance: importance.to_string(),
        tags: None,
        related_files: None,
    }
}

#[test]
fn a_memory_is_classified_and_reported() {
    assert_eq!(
        StoreKeyMemory::classify(&store_args("code_pattern", "low")).unwrap(),
        (MemoryCategory::CodePattern, ImportanceLevel::Low)
    );
    assert_eq!(
        StoreKeyMemory::classify(&store_args("nope", "nope")).unwrap_err().message(),
        "Invalid arguments: Invalid category: nope"
    );
    assert_eq!(
        StoreKeyMemory::classify(&store_args("code_pattern", "nope")).unwrap_err().message(),
        "Invalid arguments: Invalid importance: nope"
    );
    assert_eq!(
        StoreKeyMemory::report(MemoryCategory::UserPreference, ImportanceLevel::Critical, "tabs"),
        "\u{2713} Stored User Preference memory (Critical): tabs"
    );
    let long = "x".repeat(61);
    assert_eq!(
        StoreKeyMemory::report(MemoryCategory::ProjectFact, ImportanceLevel::Low, &long),
        format!("\u{2713} Stored Project Fact memory (Low): {}...", "x".repeat(60))
    );
    assert_eq!(
        StoreKeyMemory::store_failed("disk").message(),
        "Failed to store memory: disk"
    );
}

#[test]
fn a_search_of_key_memories_is_prepared_and_shown() {
    let args = SearchKeyMemoryArgs {
        query: "tabs".to_string(),
        top_k: Some(50),
        categories: Some(vec!["code_pattern".to_string(), "personal_info".to_string()]),
        min_importance: Some("high".to_string()),
    };
    let q = SearchKeyMemory::prepare(&args).unwrap();
    assert_eq!(q.query, "tabs");
    assert_eq!(q.top_k, 20);
    assert_eq!(q.categories, Some(vec![MemoryCategory::CodePattern, MemoryCategory::PersonalInfo]));
    assert_eq!(q.min_importance, Some(ImportanceLevel::High));
    let plain = SearchKeyMemoryArgs { query: "q".to_string(), top_k: None, categories: None, min_importance: None };
    let q = SearchKeyMemory::prepare(&plain).unwrap();
    assert_eq!(q.top_k, 5);
    assert_eq!(q.categories, None);
    assert_eq!(q.min_importance, None);
    let bad = SearchKeyMemoryArgs {
        query: "q".to_string(),
        top_k: None,
        categories: Some(vec!["code_pattern".to_string(), "x".to_string(), "y".to_string()]),
        min_importance: Some("z".to_string()),
    };
    assert_eq!(
        SearchKeyMemory::prepare(&bad).unwrap_err().message(),
        "Invalid arguments: Invalid category: x"
    );
    let bad = SearchKeyMemoryArgs {
        query: "q".to_string(),
        top_k: None,
        categories: Some(vec![]),
        min_importance: Some("z".to_string()),
    };
    assert_eq!(
        SearchKeyMemory::prepare(&bad).unwrap_err().message(),
        "Invalid arguments: Invalid importance: z"
    );
    assert_eq!(
        SearchKeyMemory::render("tabs", &vec![]),
        "No relevant memories found for query: 'tabs'"
    );
    let hits = vec![
        KeyMemoryHit {
            timestamp: "2024-01-02 03:04".to_string(),
            category: MemoryCategory::UserPreference,
            importance: ImportanceLevel::Critical,
            score: "0.93".to_string(),
            content: "prefers tabs".to_string(),
            tags: vec!["style".to_string(), "editor".to_string()],
            related_files: vec![],
        },
        KeyMemoryHit {
            timestamp: "2024-01-03 00:00".to_string(),
            category: MemoryCategory::ProjectFact,
            importance: ImportanceLevel::Low,
            score: "0.10".to_string(),
            content: "uses make".to_string(),
            tags: vec![],
            related_files: vec!["Makefile".to_string()],
        },
    ];
    assert_eq!(
        SearchKeyMemory::render("tabs", &hits),
        "Found 2 curated memories:\n\n1. [2024-01-02 03:04] User Preference (Critical) - Relevance: 0.93\n   prefers tabs\n   Tags: style, editor\n   Files: none\n\n2. [2024-01-03 00:00] Project Fact (Low) - Relevance: 0.10\n   uses make\n   Tags: none\n   Files: Makefile\n\n"
    );
    assert_eq!(SearchKeyMemory::search_failed("x").message(), "Memory search failed: x");
}

#[test]
fn a_search_of_past_conversations_is_shown() {
    let args = SearchRoutineMemoryArgs { query: "q".to_string(), top_k: Some(2) };
    assert_eq!(SearchRoutineMemory::top_k(&args), 2);
    assert_eq!(
        SearchRoutineMemory::render("q", &vec![]),
        "No relevant memories found for query: 'q'"
    );
    let hits = vec![RoutineMemoryHit {
        timestamp: "2024-01-02 03:04".to_string(),
        score: "0.50".to_string(),
        model: "m".to_string(),
        content: "y".repeat(201),
        session_id: "0123456789abcdef".to_string(),
        role: "user".to_string(),
        context_tags: vec!["file:a.rs".to_string(), "bug".to_string()],
    }];
    assert_eq!(
        SearchRoutineMemory::render("q", &hits),
        format!(
            "Found 1 relevant conversation memories:\n\n1. [2024-01-02 03:04] (0.50 relevance) m: {}...\n   Session: 01234567, Role: user\n   Tags: file:a.rs, bug\n\n",
            "y".repeat(200)
        )
    );
    let short = vec![RoutineMemoryHit {
        timestamp: "t".to_string(),
        score: "1.00".to_string(),
        model: "m".to_string(),
        content: "c".to_string(),
        session_id: "abc".to_string(),
        role: "assistant".to_string(),
        context_tags: vec![],
    }];
    assert_eq!(
        SearchRoutineMemory::render("q", &short),
        "Found 1 relevant conversation memories:\n\n1. [t] (1.00 relevance) m: c\n   Session: abc, Role: assistant\n   Tags: \n\n"
    );
}

#[test]
fn messages_are_tagged() {
    assert_eq!(
        RoutineMemoryChunk::extract_tags("Fix the BUG in src/main.rs and test lib.py", Some("edit_file")),
        vec!["tool:edit_file", "file:src/main.rs", "file:lib.py", "fix", "bug", "test"]
    );
    assert_eq!(RoutineMemoryChunk::extract_tags("hello there", None), Vec::<String>::new());
    assert_eq!(
        RoutineMemoryChunk::extract_tags("a/b  x.ts\ty.js z.rsx Refactoring features", None),
        vec!["file:a/b", "file:x.ts", "file:y.js", "feature", "refactor"]
    );
    assert_eq!(
        RoutineMemoryChunk::extract_tags("", Some("")),
        vec!["tool:"]
    );
    assert_eq!(
        RoutineMemoryChunk::tags_from("ERROR", "nothing", None),
        Vec::<String>::new()
    );
    assert_eq!(RoutineMemoryChunk::tags_from("x", "an error", None), vec!["error"]);
}

#[test]
fn an_expression_that_is_too_long_is_not_evaluated() {
    let long = format!("1{}", "+1".repeat(500));
    assert_eq!(long.len(), 1001);
    let e = MathCalc::call(&MathCalcArgs { expression: long }).unwrap_err().message();
    assert_eq!(e, "Math evaluation error: expression is longer than 1000 bytes");
    let fits = format!("1{}", "+1".repeat(499));
    assert_eq!(fits.len(), 999);
    assert_eq!(
        MathCalc::call(&MathCalcArgs { expression: fits.clone() }).unwrap(),
        format!("{} = 500", fits)
    );
}
