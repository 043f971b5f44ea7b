use agent_t::args::ArgValue;
use agent_t::catalog::{get_tool_definitions, ParamKind};
use agent_t::dispatch::{dispatch_tool, ToolInvocation, MAX_DEPTH};
use agent_t::tool_args::{BashArgs, BashListArgs, RaFindReferencesArgs, ReadFileArgs, SpawnAgentArgs};

fn s(text: &str) -> ArgValue {
    ArgValue::Str(text.to_string())
}

fn obj(entries: Vec<(&str, ArgValue)>) -> ArgValue {
    ArgValue::Object(entries.into_iter().map(|(k, v)| (k.to_string(), v)).collect())
}

fn error_of(name: &str, args: ArgValue) -> String {
    match dispatch_tool(name, &args, "/w", 0) {
        Err(e) => e.message(),
        Ok(inv) => panic!("dispatched {:?}", inv),
    }
}

#[test]
fn arguments_are_read_by_type() {
    let args = obj(vec![
        ("file_path", s("a.txt")),
        ("offset", ArgValue::UInt(3)),
        ("limit", ArgValue::Null),
        ("extra", ArgValue::Bool(true)),
    ]);
    let parsed = ReadFileArgs::parse(&args).unwrap();
    assert_eq!(parsed.file_path, "a.txt");
    assert_eq!(parsed.offset, Some(3));
    assert_eq!(parsed.limit, None);
    assert!(BashListArgs::parse(&obj(vec![])).is_ok());
    assert!(BashListArgs::parse(&ArgValue::Null).is_err());
    let refs = RaFindReferencesArgs::parse(&obj(vec![
        ("file_path", s("a.rs")),
        ("line", ArgValue::UInt(1)),
        ("column", ArgValue::UInt(2)),
    ]))
    .unwrap();
    assert!(refs.include_declaration);
    let refs = RaFindReferencesArgs::parse(&obj(vec![
        ("file_path", s("a.rs")),
        ("line", ArgValue::UInt(1)),
        ("column", ArgValue::UInt(2)),
        ("include_declaration", ArgValue::Bool(false)),
    ]))
    .unwrap();
    assert!(!refs.include_declaration);
    assert!(RaFindReferencesArgs::parse(&obj(vec![
        ("file_path", s("a.rs")),
        ("line", ArgValue::UInt(1)),
        ("column", ArgValue::UInt(2)),
        ("include_declaration", ArgValue::Null),
    ]))
    .is_err());
    assert!(RaFindReferencesArgs::parse(&obj(vec![
        ("file_path", s("a.rs")),
        ("line", ArgValue::UInt(1u64 << 32)),
        ("column", ArgValue::UInt(2)),
    ]))
    .is_err());
    let delegate = SpawnAgentArgs::parse(&obj(vec![
        ("instructions", s("x")),
        ("max_iterations", ArgValue::UInt(9)),
        ("preamble_append", s("p")),
    ]))
    .unwrap();
    assert_eq!(delegate.max_iterations, Some(9));
    assert_eq!(delegate.timeout_secs, None);
    assert_eq!(delegate.preamble_append, Some("p".to_string()));
}

#[test]
fn the_first_fault_gives_the_error() {
    assert_eq!(
        error_of("edit_file", obj(vec![("new_string", ArgValue::UInt(1))])),
        "Invalid arguments: missing field `file_path`"
    );
    assert_eq!(
        error_of("edit_file", obj(vec![("file_path", s("a")), ("new_string", ArgValue::UInt(1))])),
        "Invalid arguments: missing field `old_string`"
    );
    assert_eq!(
        error_of(
            "edit_file",
            obj(vec![("file_path", s("a")), ("old_string", s("b")), ("new_string", ArgValue::UInt(1))])
        ),
        "Invalid arguments: invalid type for field `new_string`: expected a string"
    );
    assert_eq!(
        error_of(
            "edit_file",
            obj(vec![
                ("file_path", s("a")),
                ("old_string", s("b")),
                ("new_string", s("c")),
                ("replace_all", s("yes"))
            ])
        ),
        "Invalid arguments: invalid type for field `replace_all`: expected a boolean"
    );
    assert_eq!(
        error_of("bash", ArgValue::List(vec![])),
        "Invalid arguments: invalid type: expected an object of named arguments"
    );
    assert_eq!(error_of("Read_File", obj(vec![])), "Invalid arguments: Unknown tool: Read_File");
    assert_eq!(error_of("", obj(vec![])), "Invalid arguments: Unknown tool: ");
}

#[test]
fn the_working_directory_stands_in_where_none_is_named() {
    match dispatch_tool("bash", &obj(vec![("command", s("ls"))]), "/w", 0).unwrap() {
        ToolInvocation::Bash(BashArgs { command, working_dir, timeout_secs, background }) => {
            assert_eq!(command, "ls");
            assert_eq!(working_dir, Some("/w".to_string()));
            assert_eq!(timeout_secs, None);
            assert_eq!(background, None);
        }
        other => panic!("unexpected {:?}", other),
    }
    match dispatch_tool(
        "bash",
        &obj(vec![("command", s("ls")), ("working_dir", s("/elsewhere"))]),
        "/w",
        0,
    )
    .unwrap()
    {
        ToolInvocation::Bash(a) => assert_eq!(a.working_dir, Some("/elsewhere".to_string())),
        other => panic!("unexpected {:?}", other),
    }
    // a place that is named as nothing stays nothing
    match dispatch_tool(
        "grep",
        &obj(vec![("pattern", s("x")), ("path", ArgValue::Null)]),
        "/w",
        0,
    )
    .unwrap()
    {
        ToolInvocation::Grep(a) => assert_eq!(a.path, None),
        other => panic!("unexpected {:?}", other),
    }
    match dispatch_tool("grep", &obj(vec![("pattern", s("x"))]), "/w", 0).unwrap() {
        ToolInvocation::Grep(a) => assert_eq!(a.path, Some("/w".to_string())),
        other => panic!("unexpected {:?}", other),
    }
    match dispatch_tool("glob", &obj(vec![("pattern", s("*"))]), "/w", 0).unwrap() {
        ToolInvocation::Glob(a) => assert_eq!(a.base_dir, Some("/w".to_string())),
        other => panic!("unexpected {:?}", other),
    }
    // no other tool gets a place
    match dispatch_tool("list_dir", &obj(vec![("path", s("."))]), "/w", 0).unwrap() {
        ToolInvocation::ListDir(a) => assert_eq!(a.path, "."),
        other => panic!("unexpected {:?}", other),
    }
}

#[test]
fn delegation_is_refused_at_the_deepest_level_only() {
    let args = obj(vec![("instructions", s("x"))]);
    for depth in 0..MAX_DEPTH {
        assert!(matches!(
            dispatch_tool("delegate", &args, "/w", depth),
            Ok(ToolInvocation::SpawnAgent(_))
        ));
    }
    for depth in [MAX_DEPTH, MAX_DEPTH + 1, usize::MAX] {
        match dispatch_tool("delegate", &args, "/w", depth) {
            Err(e) => assert_eq!(
                e.message(),
                "Maximum agent depth (3) reached. Cannot spawn more sub-agents."
            ),
            Ok(inv) => panic!("dispatched {:?}", inv),
        }
        // the level is looked at before the payload
        assert!(dispatch_tool("delegate", &ArgValue::Null, "/w", depth)
            .unwrap_err()
            .message()
            .starts_with("Maximum agent depth"));
    }
    assert_eq!(
        error_of("delegate", obj(vec![])),
        "Invalid arguments: missing field `instructions`"
    );
}

#[test]
fn every_tool_of_the_catalog_is_dispatched() {
    let tools = get_tool_definitions("/w", true, 0, true);
    assert_eq!(tools.len(), 27);
    for tool in &tools {
        // a payload that gives every argument with a value of its type is accepted
        let entries: Vec<(String, ArgValue)> = tool
            .parameters
            .iter()
            .map(|p| {
                let value = match p.kind {
                    ParamKind::Text => match p.choices.first() {
                        Some(choice) => ArgValue::Str(choice.clone()),
                        None => ArgValue::Str("x".to_string()),
                    },
                    ParamKind::Integer => ArgValue::UInt(1),
                    ParamKind::Boolean => ArgValue::Bool(true),
                    ParamKind::TextList => ArgValue::List(vec![ArgValue::Str("x".to_string())]),
                };
                (p.name.clone(), value)
            })
            .collect();
        let full = ArgValue::Object(entries);
        assert!(dispatch_tool(&tool.name, &full, "/w", 0).is_ok(), "{}", tool.name);
        // one that lacks a required argument is not
        let required = tool.parameters.iter().filter(|p| p.required).count();
        let empty = ArgValue::Object(vec![]);
        assert_eq!(dispatch_tool(&tool.name, &empty, "/w", 0).is_ok(), required == 0, "{}", tool.name);
    }
}

#[test]
fn the_catalog_lists_the_tools_in_order() {
    let names = |memory: bool, ci: bool| -> Vec<String> {
        get_tool_definitions("/w", memory, 1, ci).into_iter().map(|t| t.name).collect()
    };
    let base = vec![
        "read_file", "write_file", "edit_file", "list_dir", "bash", "grep", "glob", "bash_status",
        "bash_output", "bash_kill", "bash_list", "web_fetch", "web_search", "math_calc",
    ];
    let memory = vec!["store_key_memory", "search_routine_memory", "search_key_memory"];
    let ra = vec![
        "ra_diagnostics", "ra_goto_definition", "ra_find_references", "ra_hover", "ra_symbols",
        "ra_completion", "ra_code_actions", "ra_rename", "ra_format",
    ];
    let mut expected: Vec<&str> = base.clone();
    expected.push("delegate");
    assert_eq!(names(false, false), expected);
    let mut expected: Vec<&str> = base.clone();
    expected.extend(memory.iter());
    expected.push("delegate");
    assert_eq!(names(true, false), expected);
    let mut expected: Vec<&str> = base.clone();
    expected.push("delegate");
    expected.extend(ra.iter());
    assert_eq!(names(false, true), expected);
    let mut expected: Vec<&str> = base.clone();
    expected.extend(memory.iter());
    expected.push("delegate");
    expected.extend(ra.iter());
    assert_eq!(names(true, true), expected);
}

#[test]
fn the_catalog_describes_the_tools() {
    let tools = get_tool_definitions("/home/u/p", true, 2, true);
    let find = |name: &str| tools.iter().find(|t| t.name == name).unwrap();
    assert_eq!(
        find("read_file").description,
        "Read the contents of a file. Returns the file content with line numbers. Relative paths are resolved from: /home/u/p"
    );
    assert_eq!(
        find("bash").description,
        "Execute a bash command and return the output. Can run in background for long-running tasks. Commands run in: /home/u/p"
    );
    assert_eq!(find("bash_kill").description, "Terminate a background bash process.");
    assert!(find("delegate").description.ends_with("Current depth: 2/3"));
    let read = find("read_file");
    let signature: Vec<(&str, ParamKind, bool)> =
        read.parameters.iter().map(|p| (p.name.as_str(), p.kind, p.required)).collect();
    assert_eq!(
        signature,
        vec![
            ("file_path", ParamKind::Text, true),
            ("offset", ParamKind::Integer, false),
            ("limit", ParamKind::Integer, false),
        ]
    );
    let store = find("store_key_memory");
    assert_eq!(store.parameters[1].name, "category");
    assert_eq!(store.parameters[1].choices.len(), 7);
    assert_eq!(store.parameters[2].choices, vec!["low", "medium", "high", "critical"]);
    assert_eq!(store.parameters[3].kind, ParamKind::TextList);
    let search = find("search_key_memory");
    assert_eq!(search.parameters[1].minimum, Some(1));
    assert_eq!(search.parameters[1].maximum, Some(20));
    assert_eq!(find("bash_list").parameters.len(), 0);
}

#[test]
fn a_dispatched_call_bears_the_name_of_its_tool() {
    let payload = ArgValue::Object(vec![("expression".to_string(), ArgValue::Str("1+1".to_string()))]);
    let call = dispatch_tool("math_calc", &payload, "/w", 0).unwrap();
    assert_eq!(call.name(), "math_calc");
    let payload = ArgValue::Object(vec![("instructions".to_string(), ArgValue::Str("x".to_string()))]);
    let call = dispatch_tool("delegate", &payload, "/w", 0).unwrap();
    assert_eq!(call.name(), "delegate");
    let call = dispatch_tool("bash_list", &ArgValue::Object(vec![]), "/w", 0).unwrap();
    assert_eq!(call.name(), "bash_list");
}
