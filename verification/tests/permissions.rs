use agent_t::permissions::{
    build_permissions, expand_tool_categories, push_category_tools, GrantedPermissions,
};

#[test]
fn test_grant_specific_tools() {
    let perms = GrantedPermissions::new(
        vec!["read_file".to_string(), "bash".to_string()],
        false,
        false,
        false,
    );

    assert!(perms.is_granted("read_file"));
    assert!(perms.is_granted("bash"));
    assert!(!perms.is_granted("write_file"));
}

#[test]
fn test_grant_all() {
    let perms = GrantedPermissions::new(vec![], true, false, false);

    assert!(perms.is_granted("read_file"));
    assert!(perms.is_granted("write_file"));
    assert!(perms.is_granted("bash"));
}

#[test]
fn test_expand_categories() {
    let expanded = expand_tool_categories(vec!["read-only".to_string()]);
    assert!(expanded.contains(&"read_file".to_string()));
    assert!(expanded.contains(&"grep".to_string()));
    assert!(!expanded.contains(&"write_file".to_string()));
}

#[test]
fn grant_all_covers_unlisted_names() {
    let perms = GrantedPermissions::new(vec![], true, false, false);
    assert!(perms.is_granted("no_such_tool"));
    assert!(perms.is_granted(""));
    let all = GrantedPermissions::allow_all();
    assert!(all.is_granted("anything at all"));
    assert!(!all.should_skip_confirmations());
    assert!(!all.is_dry_run());
}

#[test]
fn empty_grants_cover_nothing() {
    let perms = GrantedPermissions::new(vec![], false, false, false);
    assert!(!perms.is_granted("read_file"));
    assert!(!perms.is_granted("bash"));
    assert!(!perms.is_granted(""));
    assert_eq!(perms.summary(), "No tools granted");
}

#[test]
fn yes_grants_all_and_skips_confirmations() {
    let perms = GrantedPermissions::new(vec![], false, true, true);
    assert!(perms.is_granted("write_file"));
    assert!(perms.should_skip_confirmations());
    assert!(perms.is_dry_run());
    assert_eq!(perms.summary(), "All tools granted");
}

#[test]
fn names_are_trimmed_and_lowercased() {
    let perms = GrantedPermissions::new(
        vec!["  Read_File ".to_string(), "BASH".to_string(), "bash".to_string()],
        false,
        false,
        false,
    );
    assert!(perms.is_granted("read_file"));
    assert!(perms.is_granted("READ_FILE"));
    assert!(perms.is_granted("Bash"));
    assert!(!perms.is_granted(" read_file"));
    assert_eq!(perms.summary(), "Granted tools: bash, read_file");
}

#[test]
fn summary_lists_names_in_order() {
    let perms = GrantedPermissions::new(
        vec!["write_file".to_string(), "grep".to_string(), "bash".to_string()],
        false,
        false,
        false,
    );
    assert_eq!(perms.summary(), "Granted tools: bash, grep, write_file");
    let copy = perms.duplicate();
    assert_eq!(copy.summary(), "Granted tools: bash, grep, write_file");
    assert!(copy.is_granted("grep"));
    assert!(!copy.is_granted("glob"));
}

#[test]
fn categories_expand_in_order() {
    let expanded = expand_tool_categories(vec![
        " Write ".to_string(),
        "exec".to_string(),
        "my_tool".to_string(),
    ]);
    assert_eq!(
        expanded,
        vec!["write_file", "edit_file", "store_key_memory", "bash", "bash_kill", "my_tool"]
    );
    let ra = expand_tool_categories(vec!["ra".to_string()]);
    assert_eq!(ra.len(), 9);
    assert_eq!(ra[0], "ra_diagnostics");
    assert_eq!(ra[8], "ra_format");
    let all = expand_tool_categories(vec!["ALL".to_string()]);
    assert_eq!(all.len(), 11 + 3 + 2 + 9 + 2);
    assert_eq!(all[all.len() - 2], "delegate");
    assert_eq!(all[all.len() - 1], "math_calc");
    assert_eq!(expand_tool_categories(vec![]).len(), 0);
}

#[test]
fn a_category_stands_for_its_tools() {
    let mut out = vec!["first".to_string()];
    push_category_tools(&mut out, "exec".to_string());
    push_category_tools(&mut out, "Exec".to_string());
    assert_eq!(out, vec!["first", "bash", "bash_kill", "Exec"]);
}

#[test]
fn built_permissions_expand_categories_and_keep_the_flags() {
    let p = build_permissions(vec!["read-only".to_string(), " Bash ".to_string()], false, false, true);
    assert!(p.is_granted("read_file"));
    assert!(p.is_granted("grep"));
    assert!(p.is_granted("bash"));
    assert!(!p.is_granted("write_file"));
    assert!(!p.should_skip_confirmations());
    assert!(p.is_dry_run());
    let all = build_permissions(Vec::new(), true, false, false);
    assert!(all.is_granted("anything"));
    assert!(!all.should_skip_confirmations());
    let yes = build_permissions(Vec::new(), false, true, false);
    assert!(yes.is_granted("anything"));
    assert!(yes.should_skip_confirmations());
    let none = build_permissions(Vec::new(), false, false, false);
    assert!(!none.is_granted("read_file"));
}
