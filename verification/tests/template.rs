use agent_t::template::{project_name, SystemFacts, TemplateContext};

fn facts() -> SystemFacts {
    SystemFacts {
        date: "2024-05-06".to_string(),
        time: "07:08:09 UTC".to_string(),
        datetime: "2024-05-06 07:08:09 UTC".to_string(),
        timezone: "UTC".to_string(),
        username: "user".to_string(),
        hostname: "box".to_string(),
        os: "linux".to_string(),
        arch: "x86_64".to_string(),
        git_branch: Some("main".to_string()),
        git_dirty: false,
    }
}

#[test]
fn test_template_rendering() {
    let ctx = TemplateContext::new("/home/user/project", "qwen3-coder", "test-agent", &facts());

    // Test basic variable replacement
    let template = "Hello {{username}}, working in {{working_dir}}";
    let rendered = ctx.render(template);
    assert!(rendered.contains("working in /home/user/project"));

    // Test model variable
    assert_eq!(ctx.get("model"), Some("qwen3-coder"));

    // Test agent name
    assert_eq!(ctx.get("agent_name"), Some("test-agent"));

    // Test project name extraction
    assert_eq!(ctx.get("project_name"), Some("project"));
}

#[test]
fn test_custom_variables() {
    let mut ctx = TemplateContext::new("/test", "test-model", "test-agent", &facts());
    ctx.set("custom_var", "custom_value");

    let template = "Custom: {{custom_var}}";
    let rendered = ctx.render(template);
    assert_eq!(rendered, "Custom: custom_value");
}

#[test]
fn test_missing_variables() {
    let ctx = TemplateContext::new("/test", "test-model", "test-agent", &facts());

    // Missing variables should remain unchanged
    let template = "Missing: {{nonexistent}}";
    let rendered = ctx.render(template);
    assert_eq!(rendered, "Missing: {{nonexistent}}");
}

#[test]
fn test_time_variables_exist() {
    let ctx = TemplateContext::new("/test", "test-model", "test-agent", &facts());

    // Just verify these exist and aren't empty
    assert!(ctx.get("date").is_some());
    assert!(ctx.get("time").is_some());
    assert!(ctx.get("datetime").is_some());
    assert!(ctx.get("timezone").is_some());

    assert!(!ctx.get("date").unwrap().is_empty());
}

#[test]
fn standard_variables_hold_the_facts() {
    let ctx = TemplateContext::new("/srv/app/", "m", "a", &facts());
    assert_eq!(ctx.get("project_name"), Some("app"));
    assert_eq!(ctx.get("platform"), Some("linux x86_64"));
    assert_eq!(ctx.get("git_branch"), Some("main"));
    assert_eq!(ctx.get("git_status"), Some("clean"));
    assert_eq!(ctx.get("hostname"), Some("box"));
    assert_eq!(ctx.get("nope"), None);
    assert_eq!(
        ctx.render("{{username}}@{{hostname}} {{os}} {{date}} [{{git_branch}}]"),
        "user@box linux 2024-05-06 [main]"
    );
    let mut dirty = facts();
    dirty.git_dirty = true;
    dirty.git_branch = None;
    let ctx = TemplateContext::new("/", "m", "a", &dirty);
    assert_eq!(ctx.get("git_status"), Some("dirty"));
    assert_eq!(ctx.get("git_branch"), Some(""));
    assert_eq!(ctx.get("project_name"), Some("unknown"));
}

#[test]
fn set_overrides_and_render_replaces_every_occurrence() {
    let mut ctx = TemplateContext::empty();
    ctx.set("a", "1");
    ctx.set("b", "2");
    ctx.set("a", "3");
    assert_eq!(ctx.get("a"), Some("3"));
    assert_eq!(ctx.render("{{a}}{{b}}{{a}} {{ a }} {a}"), "323 {{ a }} {a}");
    assert_eq!(ctx.render(""), "");
    assert_eq!(ctx.variables().len(), 2);
}

#[test]
fn project_names() {
    assert_eq!(project_name("/home/user/project"), "project");
    assert_eq!(project_name("relative/dir///"), "dir");
    assert_eq!(project_name("plain"), "plain");
    assert_eq!(project_name(""), "unknown");
    assert_eq!(project_name("/"), "unknown");
    assert_eq!(project_name("/a/."), "a");
    assert_eq!(project_name("a/./"), "a");
    assert_eq!(project_name("/a/b/././/"), "b");
    assert_eq!(project_name("./proj/."), "proj");
    assert_eq!(project_name("/a/.hidden"), ".hidden");
    assert_eq!(project_name("/a/b."), "b.");
    assert_eq!(project_name("."), "unknown");
    assert_eq!(project_name("./"), "unknown");
    assert_eq!(project_name("/."), "unknown");
    assert_eq!(project_name("a/.."), "unknown");
    for path in ["/home/user/project", "relative/dir///", "", "/", "/a/.", "a/./", ".", "./", "/.", "a/..", "/a/.hidden", "..", "./proj/."] {
        let std_name = std::path::Path::new(path)
            .file_name()
            .map(|n| n.to_string_lossy().to_string())
            .unwrap_or_else(|| "unknown".to_string());
        assert_eq!(project_name(path), std_name, "{:?}", path);
    }
    assert_eq!(project_name("/a/.."), "unknown");
    assert_eq!(project_name("."), "unknown");
}
