use agent_t::agent::{
    build_system_prompt, is_reserved_name, prompt_from_file, validate_name, AgentConfig,
    AgentManager,
};

#[test]
fn test_build_system_prompt_with_file() {
    let config = AgentConfig::new("test", 0);
    let base = "Base prompt";
    let file_content = "File-based additions\nWith multiple lines";

    let result = build_system_prompt(&config, base, Some(file_content));

    assert!(result.contains("Base prompt"));
    assert!(result.contains("File-based additions"));
    assert!(result.contains("With multiple lines"));
    assert!(!result.contains("Agent Identity")); // Should skip agent.json fields
}

#[test]
fn test_build_system_prompt_without_file() {
    let mut config = AgentConfig::new("test", 0);
    config.personality = Some("Friendly".to_string());
    config.description = Some("Test agent".to_string());
    let base = "Base prompt";

    let result = build_system_prompt(&config, base, None);

    assert!(result.contains("Base prompt"));
    assert!(result.contains("Agent Identity"));
    assert!(result.contains("test"));
    assert!(result.contains("Test agent"));
    assert!(result.contains("Friendly"));
}

#[test]
fn test_build_system_prompt_file_precedence() {
    let mut config = AgentConfig::new("test", 0);
    config.system_prompt_additions = Some("JSON additions".to_string());
    config.personality = Some("Friendly".to_string());
    let base = "Base prompt";
    let file_content = "File content";

    let result = build_system_prompt(&config, base, Some(file_content));

    assert!(result.contains("Base prompt"));
    assert!(result.contains("File content"));
    assert!(!result.contains("JSON additions")); // File takes precedence
    assert!(!result.contains("Friendly"));
}

#[test]
fn test_build_system_prompt_system_override_without_file() {
    let mut config = AgentConfig::new("test", 0);
    config.system_prompt_override = Some("Complete override".to_string());
    let base = "Base prompt";

    let result = build_system_prompt(&config, base, None);

    assert_eq!(result, "Complete override");
    assert!(!result.contains("Base prompt"));
}

#[test]
fn test_build_system_prompt_file_over_override() {
    let mut config = AgentConfig::new("test", 0);
    config.system_prompt_override = Some("Complete override".to_string());
    let base = "Base prompt";
    let file_content = "File wins";

    let result = build_system_prompt(&config, base, Some(file_content));

    assert!(result.contains("Base prompt"));
    assert!(result.contains("File wins"));
    assert!(!result.contains("Complete override")); // File takes precedence
}

#[test]
fn system_prompt_exact_text() {
    let mut config = AgentConfig::new("rusty", 7);
    assert_eq!(
        build_system_prompt(&config, "Base", None),
        "Base\n\n# Agent Identity\n\nYou are rusty."
    );
    config.description = Some("a Rust expert".to_string());
    config.personality = Some("terse".to_string());
    config.system_prompt_additions = Some("Always test.".to_string());
    assert_eq!(
        build_system_prompt(&config, "Base", None),
        "Base\n\n# Agent Identity\n\nYou are rusty, a Rust expert.\n\nPersonality: terse\n\nAlways test."
    );
    assert_eq!(build_system_prompt(&config, "Base", Some("F")), "Base\n\nF");
}

#[test]
fn new_config_has_the_defaults() {
    let config = AgentConfig::new("a", 42);
    assert_eq!(config.name, "a");
    assert_eq!(config.created_at, 42);
    assert_eq!(config.last_active, 42);
    assert!(config.memory_enabled);
    assert_eq!(config.max_routine_memories, 10000);
    assert_eq!(config.max_key_memories, 1000);
    assert!(!config.auto_summarize);
    assert_eq!(config.total_conversations, 0);
    assert_eq!(config.total_messages, 0);
    let info = config.info();
    assert_eq!(info.name, "a");
    assert_eq!(info.description, None);
    assert!(info.memory_enabled);
}

#[test]
fn names_are_validated() {
    assert_eq!(validate_name("coder"), Ok(()));
    assert_eq!(validate_name("My-Agent_2"), Ok(()));
    assert_eq!(validate_name(""), Err("Agent name cannot be empty".to_string()));
    assert_eq!(
        validate_name("two words"),
        Err("Agent name must be a single word (letters, numbers, _, -)".to_string())
    );
    assert_eq!(
        validate_name("caf\u{e9}"),
        Err("Agent name must be a single word (letters, numbers, _, -)".to_string())
    );
    assert_eq!(
        validate_name(".."),
        Err("Agent name must be a single word (letters, numbers, _, -)".to_string())
    );
    let fifty = "a".repeat(50);
    assert_eq!(validate_name(&fifty), Ok(()));
    let long = "a".repeat(51);
    assert_eq!(validate_name(&long), Err("Agent name too long (max 50 characters)".to_string()));
    assert_eq!(validate_name("Root"), Err("Agent name 'Root' is reserved".to_string()));
    assert_eq!(validate_name("default"), Err("Agent name 'default' is reserved".to_string()));
    assert_eq!(validate_name("ADMIN"), Err("Agent name 'ADMIN' is reserved".to_string()));
    assert_eq!(validate_name("system"), Err("Agent name 'system' is reserved".to_string()));
    assert_eq!(validate_name("systems"), Ok(()));
    assert!(is_reserved_name(".."));
    assert!(is_reserved_name("root"));
    assert!(!is_reserved_name("Root"));
}

#[test]
fn prompt_files_are_trimmed() {
    assert_eq!(prompt_from_file(None), None);
    assert_eq!(prompt_from_file(Some("")), None);
    assert_eq!(prompt_from_file(Some(" \n\t ")), None);
    assert_eq!(prompt_from_file(Some("\n You are X. \n")), Some("You are X.".to_string()));
}

#[test]
fn agent_paths() {
    let m = AgentManager::new("/home/u/.agent-t/agents".to_string());
    assert_eq!(m.agent_dir("coder"), "/home/u/.agent-t/agents/coder");
    assert_eq!(m.config_path("coder"), "/home/u/.agent-t/agents/coder/agent.json");
    assert_eq!(m.prompt_path("coder"), "/home/u/.agent-t/agents/coder/system_prompt.md");
    let m = AgentManager::new("agents/".to_string());
    assert_eq!(m.agent_dir("x"), "agents/x");
}
