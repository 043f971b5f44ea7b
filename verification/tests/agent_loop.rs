use agent_t::agent_loop::{
    delegation_result, delegation_timeout_secs, enrich, AgentLoop, CodeChunk, DelegationOutcome,
    LoopAction, LoopEvent, PermissionDecision, Phase, RetrievedChunk, TurnError,
};
use agent_t::args::ArgValue;
use agent_t::changes::FileOperation;
use agent_t::conversation::{CompletionOutcome, Message, ToolCall};
use agent_t::dispatch::ToolInvocation;
use agent_t::error::ToolError;
use agent_t::permissions::GrantedPermissions;
use agent_t::tool_args::SpawnAgentArgs;

fn s(text: &str) -> ArgValue {
    ArgValue::Str(text.to_string())
}

fn obj(entries: Vec<(&str, ArgValue)>) -> ArgValue {
    ArgValue::Object(entries.into_iter().map(|(k, v)| (k.to_string(), v)).collect())
}

fn call(id: &str, name: &str, arguments: ArgValue) -> ToolCall {
    ToolCall { id: id.to_string(), name: name.to_string(), arguments }
}

fn make(permissions: GrantedPermissions, confirm_dangerous: bool, retrieval: bool) -> AgentLoop {
    AgentLoop::new(
        "You are helpful.".to_string(),
        confirm_dangerous,
        false,
        "/work".to_string(),
        4096,
        retrieval,
        false,
        None,
        0,
        permissions,
        "model".to_string(),
    )
}

fn all_granted() -> GrantedPermissions {
    GrantedPermissions::new(vec![], true, false, false)
}

fn text(answer: &str) -> LoopEvent {
    LoopEvent::Completion(Ok(CompletionOutcome {
        text: Some(answer.to_string()),
        tool_calls: vec![],
    }))
}

fn calls(tool_calls: Vec<ToolCall>) -> LoopEvent {
    LoopEvent::Completion(Ok(CompletionOutcome { text: None, tool_calls }))
}

fn start(agent: &mut AgentLoop, input: &str) {
    let action = agent.step(LoopEvent::Start { input: input.to_string() }, 0);
    assert!(matches!(action, LoopAction::CheckCancel), "{:?}", action);
}

fn request(agent: &mut AgentLoop) -> usize {
    match agent.step(LoopEvent::CancelState(false), 0) {
        LoopAction::RequestCompletion { iteration, .. } => iteration,
        other => panic!("unexpected action {:?}", other),
    }
}

fn finish_error(action: LoopAction) -> TurnError {
    match action {
        LoopAction::Finish(Err(e)) => e,
        other => panic!("unexpected action {:?}", other),
    }
}

/// Whether requests to call tools and messages of results take turns in the
/// messages from `from` on, and how many there are of each.
fn alternation(messages: &[Message]) -> (bool, usize, usize) {
    let mut requests = 0;
    let mut answers = 0;
    let mut ok = true;
    let mut open: Option<Vec<String>> = None;
    for m in messages {
        match m {
            Message::AssistantToolCalls { calls, .. } => {
                ok = ok && open.is_none();
                open = Some(calls.iter().map(|c| c.id.clone()).collect());
                requests += 1;
            }
            Message::ToolResults(results) => {
                let ids: Vec<String> = results.iter().map(|r| r.call_id.clone()).collect();
                ok = ok && open == Some(ids);
                open = None;
                answers += 1;
            }
            _ => {
                ok = ok && open.is_none();
            }
        }
    }
    (ok && open.is_none(), requests, answers)
}

#[test]
fn a_text_answer_ends_the_turn() {
    let mut agent = make(all_granted(), true, false);
    assert_eq!(agent.phase(), Phase::Idle);
    assert_eq!(agent.agent_id(), "main");
    start(&mut agent, "hi");
    assert_eq!(agent.phase(), Phase::CheckingCancel);
    assert_eq!(request(&mut agent), 1);
    assert_eq!(agent.phase(), Phase::AwaitingCompletion);
    let action = agent.step(text("hello"), 0);
    assert!(matches!(action, LoopAction::Finish(Ok(ref t)) if t == "hello"));
    assert_eq!(agent.phase(), Phase::Idle);
    assert_eq!(agent.history_len(), 2);
    assert_eq!(agent.iteration_count(), 1);
    assert!(matches!(&agent.messages()[0], Message::UserText(t) if t == "hi"));
    assert!(matches!(&agent.messages()[1], Message::AssistantText(t) if t == "hello"));
}

#[test]
fn tool_calls_and_results_take_turns() {
    let mut agent = make(all_granted(), true, false);
    start(&mut agent, "read two files");
    assert_eq!(request(&mut agent), 1);
    let action = agent.step(
        calls(vec![
            call("c1", "read_file", obj(vec![("file_path", s("a.txt"))])),
            call("c2", "list_dir", obj(vec![("path", s("."))])),
        ]),
        0,
    );
    assert!(matches!(action, LoopAction::Proceed));
    assert_eq!(agent.phase(), Phase::Gating);
    let action = agent.step(LoopEvent::Proceed, 0);
    assert!(
        matches!(action, LoopAction::RunTool(ToolInvocation::ReadFile(ref a)) if a.file_path == "a.txt")
    );
    assert_eq!(agent.phase(), Phase::AwaitingTool);
    let action = agent.step(LoopEvent::ToolFinished { result: Ok("A".to_string()), created: false }, 0);
    assert!(matches!(action, LoopAction::Proceed));
    let action = agent.step(LoopEvent::Proceed, 0);
    assert!(matches!(action, LoopAction::RunTool(ToolInvocation::ListDir(ref a)) if a.path == "."));
    let action = agent.step(
        LoopEvent::ToolFinished { result: Err(ToolError::file_not_found(".")), created: false },
        0,
    );
    assert!(matches!(action, LoopAction::CheckCancel));
    assert_eq!(agent.history_len(), 3);
    match &agent.messages()[2] {
        Message::ToolResults(results) => {
            assert_eq!(results.len(), 2);
            assert_eq!(results[0].call_id, "c1");
            assert_eq!(results[0].content, "A");
            assert_eq!(results[1].call_id, "c2");
            assert_eq!(results[1].content, "Error: File not found: .");
        }
        other => panic!("unexpected message {:?}", other),
    }
    assert_eq!(request(&mut agent), 2);
    let action =
        agent.step(calls(vec![call("c3", "glob", obj(vec![("pattern", s("*.rs"))]))]), 0);
    assert!(matches!(action, LoopAction::Proceed));
    let action = agent.step(LoopEvent::Proceed, 0);
    match action {
        LoopAction::RunTool(ToolInvocation::Glob(a)) => {
            assert_eq!(a.pattern, "*.rs");
            assert_eq!(a.base_dir, Some("/work".to_string()));
        }
        other => panic!("unexpected action {:?}", other),
    }
    let action = agent.step(LoopEvent::ToolFinished { result: Ok("x.rs".to_string()), created: false }, 0);
    assert!(matches!(action, LoopAction::CheckCancel));
    assert_eq!(request(&mut agent), 3);
    let action = agent.step(text("done"), 0);
    assert!(matches!(action, LoopAction::Finish(Ok(ref t)) if t == "done"));
    assert_eq!(agent.iteration_count(), 3);
    assert_eq!(agent.history_len(), 6);
    let (ok, requests, answers) = alternation(agent.messages());
    assert!(ok);
    assert_eq!(requests, 2);
    assert_eq!(answers, 2);
    assert!(matches!(&agent.messages()[0], Message::UserText(_)));
    assert!(matches!(&agent.messages()[5], Message::AssistantText(_)));
}

#[test]
fn a_tool_that_is_not_granted_ends_the_turn() {
    let grants = GrantedPermissions::new(vec!["read_file".to_string()], false, false, false);
    let mut agent = make(grants, true, false);
    start(&mut agent, "go");
    request(&mut agent);
    agent.step(
        calls(vec![
            call("c1", "read_file", obj(vec![("file_path", s("a"))])),
            call("c2", "bash", obj(vec![("command", s("ls"))])),
        ]),
        0,
    );
    let action = agent.step(LoopEvent::Proceed, 0);
    assert!(matches!(action, LoopAction::RunTool(ToolInvocation::ReadFile(_))));
    let action = agent.step(LoopEvent::ToolFinished { result: Ok("A".to_string()), created: false }, 0);
    assert!(matches!(action, LoopAction::Proceed));
    let e = finish_error(agent.step(LoopEvent::Proceed, 0));
    assert!(matches!(e, TurnError::PermissionDenied(ref t) if t == "bash"));
    assert_eq!(
        e.message(),
        "Permission denied: tool 'bash' not granted. Use --grant bash or --grant-all"
    );
    assert_eq!(agent.phase(), Phase::Idle);
    // the history keeps what was appended, and nothing more
    assert_eq!(agent.history_len(), 2);
    // the loop can take another turn
    start(&mut agent, "again");
    assert_eq!(request(&mut agent), 1);
}

#[test]
fn an_empty_grant_set_runs_nothing() {
    let grants = GrantedPermissions::new(vec![], false, false, false);
    let mut agent = make(grants, false, false);
    start(&mut agent, "go");
    request(&mut agent);
    agent.step(calls(vec![call("c1", "math_calc", obj(vec![("expression", s("1"))]))]), 0);
    let e = finish_error(agent.step(LoopEvent::Proceed, 0));
    assert!(matches!(e, TurnError::PermissionDenied(ref t) if t == "math_calc"));
}

fn interactive_agent() -> AgentLoop {
    let mut agent = make(GrantedPermissions::allow_all(), true, false);
    agent.set_interactive(true);
    agent
}

#[test]
fn the_user_is_asked_and_approves_once() {
    let mut agent = interactive_agent();
    start(&mut agent, "go");
    request(&mut agent);
    let long = "x".repeat(150);
    agent.step(
        calls(vec![
            call(
                "c1",
                "write_file",
                obj(vec![("file_path", s("a.txt")), ("content", s(&long)), ("n", ArgValue::UInt(3))]),
            ),
            call("c2", "write_file", obj(vec![("file_path", s("b.txt")), ("content", s("b"))])),
        ]),
        0,
    );
    match agent.step(LoopEvent::Proceed, 0) {
        LoopAction::AskPermission { tool, args } => {
            assert_eq!(tool, "write_file");
            assert_eq!(args.len(), 3);
            assert_eq!(args[0], ("file_path".to_string(), "a.txt".to_string()));
            assert_eq!(args[1].0, "content");
            assert_eq!(args[1].1, format!("{}...", "x".repeat(100)));
            assert_eq!(args[2], ("n".to_string(), "3".to_string()));
        }
        other => panic!("unexpected action {:?}", other),
    }
    assert_eq!(agent.phase(), Phase::AwaitingDecision);
    let action = agent.step(LoopEvent::Decision(Some(PermissionDecision::ApproveOnce)), 0);
    assert!(matches!(action, LoopAction::RunTool(ToolInvocation::WriteFile(_))));
    let action = agent.step(LoopEvent::ToolFinished { result: Ok("ok".to_string()), created: false }, 0);
    assert!(matches!(action, LoopAction::Proceed));
    // approved once only: the next call of the same tool is put to the user again
    let action = agent.step(LoopEvent::Proceed, 0);
    assert!(matches!(action, LoopAction::AskPermission { .. }));
    let e = finish_error(agent.step(LoopEvent::Decision(Some(PermissionDecision::Reject)), 0));
    assert!(matches!(e, TurnError::RejectedByUser));
    assert_eq!(e.message(), "Operation cancelled by user. Please provide new instructions.");
    assert_eq!(agent.phase(), Phase::Idle);
}

#[test]
fn approval_for_good_is_remembered() {
    let mut agent = interactive_agent();
    start(&mut agent, "go");
    request(&mut agent);
    agent.step(
        calls(vec![
            call("c1", "read_file", obj(vec![("file_path", s("a"))])),
            call("c2", "read_file", obj(vec![("file_path", s("b"))])),
            call("c3", "list_dir", obj(vec![("path", s("."))])),
        ]),
        0,
    );
    assert!(matches!(agent.step(LoopEvent::Proceed, 0), LoopAction::AskPermission { .. }));
    let action = agent.step(LoopEvent::Decision(Some(PermissionDecision::ApproveAll)), 0);
    assert!(matches!(action, LoopAction::RunTool(ToolInvocation::ReadFile(_))));
    assert!(matches!(
        agent.step(LoopEvent::ToolFinished { result: Ok("A".to_string()), created: false }, 0),
        LoopAction::Proceed
    ));
    // the same tool runs without a question
    let action = agent.step(LoopEvent::Proceed, 0);
    assert!(matches!(action, LoopAction::RunTool(ToolInvocation::ReadFile(ref a)) if a.file_path == "b"));
    agent.step(LoopEvent::ToolFinished { result: Ok("B".to_string()), created: false }, 0);
    // another tool is still put to the user
    match agent.step(LoopEvent::Proceed, 0) {
        LoopAction::AskPermission { tool, .. } => assert_eq!(tool, "list_dir"),
        other => panic!("unexpected action {:?}", other),
    }
    // a request that got no answer counts as a rejection
    let e = finish_error(agent.step(LoopEvent::Decision(None), 0));
    assert!(matches!(e, TurnError::RejectedByUser));
    // the approval is not handed down to a sub-agent
    let child = agent
        .spawn_child(&SpawnAgentArgs {
            instructions: "x".to_string(),
            max_iterations: None,
            timeout_secs: None,
            preamble_append: None,
        })
        .unwrap();
    let mut child = child;
    start(&mut child, "go");
    request(&mut child);
    child.step(calls(vec![call("c1", "read_file", obj(vec![("file_path", s("a"))]))]), 0);
    assert!(matches!(child.step(LoopEvent::Proceed, 0), LoopAction::AskPermission { .. }));
}

#[test]
fn skipping_confirmations_asks_nothing() {
    let mut agent = make(GrantedPermissions::new(vec![], false, true, false), false, false);
    agent.set_interactive(true);
    start(&mut agent, "go");
    request(&mut agent);
    agent.step(calls(vec![call("c1", "bash", obj(vec![("command", s("ls"))]))]), 0);
    match agent.step(LoopEvent::Proceed, 0) {
        LoopAction::RunTool(ToolInvocation::Bash(a)) => {
            assert_eq!(a.command, "ls");
            assert_eq!(a.working_dir, Some("/work".to_string()));
        }
        other => panic!("unexpected action {:?}", other),
    }
}

#[test]
fn a_dangerous_command_needs_a_confirmation() {
    let mut agent = make(all_granted(), true, false);
    start(&mut agent, "go");
    request(&mut agent);
    agent.step(calls(vec![call("c1", "bash", obj(vec![("command", s("sudo RM -RF /tmp/x"))]))]), 0);
    match agent.step(LoopEvent::Proceed, 0) {
        LoopAction::Confirm { message } => {
            assert_eq!(message, "Dangerous command detected (rm -rf): sudo RM -RF /tmp/x");
        }
        other => panic!("unexpected action {:?}", other),
    }
    assert_eq!(agent.phase(), Phase::AwaitingConfirm);
    let action = agent.step(LoopEvent::Confirmed(Some(true)), 0);
    assert!(matches!(action, LoopAction::RunTool(ToolInvocation::Bash(_))));

    let mut agent = make(all_granted(), true, false);
    start(&mut agent, "go");
    request(&mut agent);
    agent.step(calls(vec![call("c1", "bash", obj(vec![("command", s("reboot"))]))]), 0);
    assert!(matches!(agent.step(LoopEvent::Proceed, 0), LoopAction::Confirm { .. }));
    let e = finish_error(agent.step(LoopEvent::Confirmed(Some(false)), 0));
    assert!(matches!(e, TurnError::DangerousCommandRejected));

    let mut agent = make(all_granted(), true, false);
    start(&mut agent, "go");
    request(&mut agent);
    agent.step(calls(vec![call("c1", "bash", obj(vec![("command", s("reboot"))]))]), 0);
    agent.step(LoopEvent::Proceed, 0);
    let e = finish_error(agent.step(LoopEvent::Confirmed(None), 0));
    assert!(matches!(e, TurnError::DangerousCommandRejected));
}

#[test]
fn danger_is_put_to_the_user_where_one_watches() {
    let mut agent = interactive_agent();
    start(&mut agent, "go");
    request(&mut agent);
    agent.step(calls(vec![call("c1", "bash", obj(vec![("command", s("mkfs /dev/sda"))]))]), 0);
    assert!(matches!(agent.step(LoopEvent::Proceed, 0), LoopAction::AskPermission { .. }));
    // an approval of the tool does not stand for the confirmation
    match agent.step(LoopEvent::Decision(Some(PermissionDecision::ApproveOnce)), 0) {
        LoopAction::Confirm { message } => {
            assert_eq!(message, "Dangerous command detected (mkfs): mkfs /dev/sda");
        }
        other => panic!("unexpected action {:?}", other),
    }
    assert_eq!(agent.phase(), Phase::AwaitingConfirm);
    let e = finish_error(agent.step(LoopEvent::Confirmed(Some(false)), 0));
    assert!(matches!(e, TurnError::DangerousCommandRejected));
    assert_eq!(
        e.message(),
        "Dangerous command rejected by user. Please provide new instructions."
    );
    assert_eq!(agent.phase(), Phase::Idle);

    let mut agent = interactive_agent();
    start(&mut agent, "go");
    request(&mut agent);
    agent.step(
        calls(vec![call(
            "c1",
            "write_file",
            obj(vec![("file_path", s("/etc/passwd")), ("content", s("x"))]),
        )]),
        0,
    );
    agent.step(LoopEvent::Proceed, 0);
    match agent.step(LoopEvent::Decision(Some(PermissionDecision::ApproveAll)), 0) {
        LoopAction::Confirm { message } => {
            assert_eq!(message, "Writing to sensitive path (/etc/passwd): /etc/passwd");
        }
        other => panic!("unexpected action {:?}", other),
    }
    let e = finish_error(agent.step(LoopEvent::Confirmed(None), 0));
    assert!(matches!(e, TurnError::DangerousWriteRejected));
    assert_eq!(
        e.message(),
        "Dangerous write operation rejected by user. Please provide new instructions."
    );

    // a user who confirms lets the call run
    let mut agent = interactive_agent();
    start(&mut agent, "go");
    request(&mut agent);
    agent.step(calls(vec![call("c1", "bash", obj(vec![("command", s("mkfs /dev/sda"))]))]), 0);
    agent.step(LoopEvent::Proceed, 0);
    let action = agent.step(LoopEvent::Decision(Some(PermissionDecision::ApproveOnce)), 0);
    assert!(matches!(action, LoopAction::Confirm { .. }));
    let action = agent.step(LoopEvent::Confirmed(Some(true)), 0);
    assert!(matches!(action, LoopAction::RunTool(ToolInvocation::Bash(_))));
}

#[test]
fn a_write_to_a_sensitive_path_needs_a_confirmation() {
    let mut agent = make(all_granted(), true, false);
    start(&mut agent, "go");
    request(&mut agent);
    agent.step(
        calls(vec![call(
            "c1",
            "write_file",
            obj(vec![("file_path", s("/home/u/.ssh/config")), ("content", s("x"))]),
        )]),
        0,
    );
    match agent.step(LoopEvent::Proceed, 0) {
        LoopAction::Confirm { message } => {
            assert_eq!(message, "Writing to sensitive path (/.ssh/): /home/u/.ssh/config");
        }
        other => panic!("unexpected action {:?}", other),
    }
    // without the check for danger the same call runs at once
    let mut agent = make(all_granted(), false, false);
    start(&mut agent, "go");
    request(&mut agent);
    agent.step(
        calls(vec![call(
            "c1",
            "write_file",
            obj(vec![("file_path", s("/home/u/.ssh/config")), ("content", s("x"))]),
        )]),
        0,
    );
    assert!(matches!(
        agent.step(LoopEvent::Proceed, 0),
        LoopAction::RunTool(ToolInvocation::WriteFile(_))
    ));
}

#[test]
fn a_dry_run_runs_no_tool() {
    let grants = GrantedPermissions::new(vec![], true, false, true);
    let mut agent = make(grants, true, false);
    start(&mut agent, "go");
    request(&mut agent);
    agent.step(
        calls(vec![
            call(
                "c1",
                "write_file",
                obj(vec![("file_path", s("out.txt")), ("content", s("new"))]),
            ),
            call("c2", "bash", obj(vec![("command", s("ls"))])),
        ]),
        0,
    );
    let action = agent.step(LoopEvent::Proceed, 5);
    assert!(matches!(action, LoopAction::Proceed), "{:?}", action);
    let action = agent.step(LoopEvent::Proceed, 6);
    assert!(matches!(action, LoopAction::CheckCancel), "{:?}", action);
    match &agent.messages()[2] {
        Message::ToolResults(results) => {
            assert_eq!(results.len(), 2);
            assert_eq!(
                results[0].content,
                "[DRY RUN] Would execute tool 'write_file' with arguments:\n{\n  \"content\": \"new\",\n  \"file_path\": \"out.txt\"\n}"
            );
            assert!(results[1].content.starts_with("[DRY RUN] Would execute tool 'bash'"));
        }
        other => panic!("unexpected message {:?}", other),
    }
    // nothing was written, so nothing is on record
    assert_eq!(agent.file_changes_count(), 0);
}

#[test]
fn malformed_arguments_go_back_to_the_model() {
    let mut agent = make(all_granted(), true, false);
    start(&mut agent, "go");
    request(&mut agent);
    agent.step(
        calls(vec![
            call("c1", "read_file", obj(vec![("path", s("a"))])),
            call("c2", "no_such_tool", obj(vec![])),
            call("c3", "read_file", s("not an object")),
            call("c4", "read_file", obj(vec![("file_path", s("a")), ("offset", ArgValue::Int(-1))])),
        ]),
        0,
    );
    assert!(matches!(agent.step(LoopEvent::Proceed, 0), LoopAction::Proceed));
    assert!(matches!(agent.step(LoopEvent::Proceed, 0), LoopAction::Proceed));
    assert!(matches!(agent.step(LoopEvent::Proceed, 0), LoopAction::Proceed));
    assert!(matches!(agent.step(LoopEvent::Proceed, 0), LoopAction::CheckCancel));
    match &agent.messages()[2] {
        Message::ToolResults(results) => {
            assert_eq!(results[0].content, "Error: Invalid arguments: missing field `file_path`");
            assert_eq!(results[1].content, "Error: Invalid arguments: Unknown tool: no_such_tool");
            assert_eq!(
                results[2].content,
                "Error: Invalid arguments: invalid type: expected an object of named arguments"
            );
            assert_eq!(
                results[3].content,
                "Error: Invalid arguments: invalid type for field `offset`: expected an unsigned integer in range"
            );
        }
        other => panic!("unexpected message {:?}", other),
    }
    // the turn goes on
    assert_eq!(request(&mut agent), 2);
}

#[test]
fn cancellation_ends_the_turn_and_keeps_the_history() {
    let mut agent = make(all_granted(), true, false);
    start(&mut agent, "go");
    let e = finish_error(agent.step(LoopEvent::CancelState(true), 0));
    assert!(matches!(e, TurnError::Cancelled));
    assert_eq!(e.message(), "Agent execution cancelled by user interrupt");
    assert_eq!(agent.history_len(), 1);
    assert_eq!(agent.phase(), Phase::Idle);

    start(&mut agent, "again");
    request(&mut agent);
    agent.step(calls(vec![call("c1", "read_file", obj(vec![("file_path", s("a"))]))]), 0);
    agent.step(LoopEvent::Proceed, 0);
    agent.step(LoopEvent::ToolFinished { result: Ok("A".to_string()), created: false }, 0);
    let before = agent.history_len();
    let e = finish_error(agent.step(LoopEvent::CancelState(true), 0));
    assert!(matches!(e, TurnError::Cancelled));
    assert_eq!(agent.history_len(), before);
}

#[test]
fn the_iteration_limit_ends_the_turn() {
    let mut agent = make(all_granted(), true, false);
    agent.set_max_iterations(2);
    start(&mut agent, "go");
    for expected in 1..=2 {
        assert_eq!(request(&mut agent), expected);
        agent.step(calls(vec![call("c", "read_file", obj(vec![("file_path", s("a"))]))]), 0);
        agent.step(LoopEvent::Proceed, 0);
        agent.step(LoopEvent::ToolFinished { result: Ok("A".to_string()), created: false }, 0);
    }
    let e = finish_error(agent.step(LoopEvent::CancelState(false), 0));
    assert!(matches!(e, TurnError::IterationLimitExceeded(2)));
    assert_eq!(
        e.message(),
        "Maximum iterations (2) exceeded. The agent may be stuck in a loop."
    );
    assert_eq!(agent.history_len(), 5);
    // the count starts anew with the next turn
    start(&mut agent, "again");
    assert_eq!(request(&mut agent), 1);
    let action = agent.step(text("ok"), 0);
    assert!(matches!(action, LoopAction::Finish(Ok(_))));
    assert_eq!(agent.iteration_count(), 1);

    let mut none = make(all_granted(), true, false);
    none.set_max_iterations(0);
    start(&mut none, "go");
    let e = finish_error(none.step(LoopEvent::CancelState(false), 0));
    assert!(matches!(e, TurnError::IterationLimitExceeded(0)));
}

#[test]
fn a_failed_request_ends_the_turn() {
    let mut agent = make(all_granted(), true, false);
    start(&mut agent, "go");
    request(&mut agent);
    let e = finish_error(agent.step(LoopEvent::Completion(Err("boom".to_string())), 0));
    assert!(matches!(e, TurnError::CompletionFailed { streamed: false, .. }));
    assert_eq!(e.message(), "Completion request failed: boom");
    assert_eq!(agent.history_len(), 1);
    // the loop stays usable
    start(&mut agent, "again");
    request(&mut agent);
    let e = finish_error(agent.step(
        LoopEvent::Completion(Ok(CompletionOutcome { text: None, tool_calls: vec![] })),
        0,
    ));
    assert!(matches!(e, TurnError::EmptyResponse));
    assert_eq!(e.message(), "Unexpected response: no text or tool calls");

    let mut streaming = AgentLoop::new(
        "p".to_string(),
        true,
        true,
        "/w".to_string(),
        1,
        false,
        false,
        None,
        0,
        all_granted(),
        "m".to_string(),
    );
    start(&mut streaming, "go");
    request(&mut streaming);
    let e = finish_error(streaming.step(LoopEvent::Completion(Err("boom".to_string())), 0));
    assert_eq!(e.message(), "Streaming request failed: boom");
}

fn chunk(path: &str, content: &str, score: &str) -> RetrievedChunk {
    RetrievedChunk {
        chunk: CodeChunk {
            file_path: path.to_string(),
            start_line: 3,
            end_line: 9,
            content: content.to_string(),
            language: "rust".to_string(),
        },
        score: score.to_string(),
    }
}

#[test]
fn retrieval_enriches_the_request_and_not_the_history() {
    let mut agent = make(all_granted(), true, true);
    let action = agent.step(LoopEvent::Start { input: "fix it".to_string() }, 0);
    assert!(matches!(action, LoopAction::Retrieve { ref query, limit: 3 } if query == "fix it"));
    assert_eq!(agent.phase(), Phase::Enriching);
    assert_eq!(agent.history_len(), 0);
    let action = agent.step(
        LoopEvent::Retrieved(Some(vec![chunk("src/a.rs", "fn a() {}", "0.91"), chunk("b.rs", "b", "0.50")])),
        0,
    );
    assert!(matches!(action, LoopAction::CheckCancel));
    assert!(matches!(&agent.messages()[0], Message::UserText(t) if t == "fix it"));
    match agent.step(LoopEvent::CancelState(false), 0) {
        LoopAction::RequestCompletion { iteration, enriched_input } => {
            assert_eq!(iteration, 1);
            assert_eq!(
                enriched_input,
                Some(
                    "fix it\n\n[Relevant code context from vector database]:\n\n--- Context 1 (similarity: 0.91) ---\nFile: src/a.rs:3-9\nLanguage: rust\n```\nfn a() {}\n```\n\n--- Context 2 (similarity: 0.50) ---\nFile: b.rs:3-9\nLanguage: rust\n```\nb\n```\n"
                        .to_string()
                )
            );
        }
        other => panic!("unexpected action {:?}", other),
    }
    agent.step(text("ok"), 0);

    // a retrieval that fails, or finds nothing, is passed over
    for found in [None, Some(vec![])] {
        let action = agent.step(LoopEvent::Start { input: "next".to_string() }, 0);
        assert!(matches!(action, LoopAction::Retrieve { .. }));
        agent.step(LoopEvent::Retrieved(found), 0);
        match agent.step(LoopEvent::CancelState(false), 0) {
            LoopAction::RequestCompletion { enriched_input, .. } => assert_eq!(enriched_input, None),
            other => panic!("unexpected action {:?}", other),
        }
        agent.step(text("ok"), 0);
    }
    assert_eq!(enrich("q", &None), None);
}

#[test]
fn each_answer_counts_one_request() {
    let mut agent = make(all_granted(), true, false);
    let before = *agent.get_token_usage();
    assert_eq!(before.request_count, 0);
    assert_eq!(before.total_tokens, 0);
    start(&mut agent, "hi");
    request(&mut agent);
    agent.step(text("hello"), 0);
    let first = *agent.get_token_usage();
    assert_eq!(first.request_count, 1);
    // the prompt is "You are helpful.\nuser: hi\n": 26 bytes, 7 tokens; the answer 5 bytes, 2
    assert_eq!(first.prompt_tokens, 7);
    assert_eq!(first.completion_tokens, 2);
    assert_eq!(first.total_tokens, 9);
    start(&mut agent, "more");
    request(&mut agent);
    agent.step(calls(vec![call("c1", "read_file", obj(vec![("file_path", s("a"))]))]), 0);
    agent.step(LoopEvent::Proceed, 0);
    agent.step(LoopEvent::ToolFinished { result: Ok("A".to_string()), created: false }, 0);
    // a round of tool calls counts nothing
    assert_eq!(*agent.get_token_usage(), first);
    request(&mut agent);
    agent.step(text("done"), 0);
    let second = *agent.get_token_usage();
    assert_eq!(second.request_count, 2);
    assert!(second.total_tokens >= first.total_tokens);
    assert!(second.prompt_tokens >= first.prompt_tokens);
    assert!(second.completion_tokens >= first.completion_tokens);
    assert_eq!(second.total_tokens, second.prompt_tokens + second.completion_tokens);
}

fn write_once(agent: &mut AgentLoop, path: &str, created: bool, now: u64) {
    agent.step(
        calls(vec![call(
            "c",
            "write_file",
            obj(vec![("file_path", s(path)), ("content", s("x"))]),
        )]),
        now,
    );
    let action = agent.step(LoopEvent::Proceed, now);
    assert!(matches!(action, LoopAction::RunTool(ToolInvocation::WriteFile(_))));
    let output = format!("Successfully wrote 1 bytes (1 lines) to {}", path);
    agent.step(LoopEvent::ToolFinished { result: Ok(output), created }, now);
}

#[test]
fn a_second_write_replaces_the_record_of_the_first() {
    let mut agent = make(all_granted(), false, false);
    start(&mut agent, "go");
    request(&mut agent);
    write_once(&mut agent, "a.txt", true, 10);
    assert_eq!(agent.file_changes_count(), 1);
    {
        let changes = agent.get_file_changes_summary();
        assert_eq!(changes[0].path, "/work/a.txt");
        assert_eq!(changes[0].operation, FileOperation::Created);
        assert_eq!(changes[0].timestamp, 10);
    }
    request(&mut agent);
    write_once(&mut agent, "a.txt", false, 20);
    assert_eq!(agent.file_changes_count(), 1);
    {
        let changes = agent.get_file_changes_summary();
        assert_eq!(changes.len(), 1);
        assert_eq!(changes[0].path, "/work/a.txt");
        assert_eq!(changes[0].operation, FileOperation::Modified);
        assert_eq!(changes[0].timestamp, 20);
    }
    // the same file by its absolute path is the same record
    request(&mut agent);
    write_once(&mut agent, "/work/a.txt", false, 30);
    assert_eq!(agent.file_changes_count(), 1);
    request(&mut agent);
    write_once(&mut agent, "/abs/z.txt", true, 40);
    request(&mut agent);
    agent.step(
        calls(vec![call(
            "c",
            "edit_file",
            obj(vec![("file_path", s("b/c.txt")), ("old_string", s("a")), ("new_string", s("b"))]),
        )]),
        50,
    );
    agent.step(LoopEvent::Proceed, 50);
    // an edit makes no file, whatever the driver says
    agent.step(LoopEvent::ToolFinished { result: Ok("Created or not".to_string()), created: true }, 50);
    // a write that failed leaves no record
    request(&mut agent);
    agent.step(
        calls(vec![call(
            "c",
            "write_file",
            obj(vec![("file_path", s("failed.txt")), ("content", s("x"))]),
        )]),
        60,
    );
    agent.step(LoopEvent::Proceed, 60);
    agent.step(
        LoopEvent::ToolFinished {
            result: Err(ToolError::permission_denied("failed.txt")),
            created: true,
        },
        60,
    );
    assert_eq!(agent.file_changes_count(), 3);
    {
        let changes = agent.get_file_changes_summary();
        let paths: Vec<&str> = changes.iter().map(|c| c.path.as_str()).collect();
        assert_eq!(paths, vec!["/abs/z.txt", "/work/a.txt", "/work/b/c.txt"]);
        assert_eq!(changes[0].operation, FileOperation::Created);
        assert_eq!(changes[1].operation, FileOperation::Modified);
        assert_eq!(changes[2].operation, FileOperation::Modified);
    }
    agent.clear_file_changes();
    assert_eq!(agent.file_changes_count(), 0);
}

#[test]
fn events_out_of_turn_change_nothing() {
    let mut agent = make(all_granted(), true, false);
    for event in [
        LoopEvent::Proceed,
        LoopEvent::CancelState(false),
        LoopEvent::Retrieved(None),
        LoopEvent::Decision(Some(PermissionDecision::ApproveAll)),
        LoopEvent::Confirmed(Some(true)),
        LoopEvent::ToolFinished { result: Ok("x".to_string()), created: false },
        text("x"),
    ] {
        assert!(matches!(agent.step(event, 0), LoopAction::Unexpected));
        assert_eq!(agent.phase(), Phase::Idle);
        assert_eq!(agent.history_len(), 0);
    }
    start(&mut agent, "go");
    let action = agent.step(LoopEvent::Start { input: "again".to_string() }, 0);
    assert!(matches!(action, LoopAction::Unexpected));
    assert_eq!(agent.history_len(), 1);
    assert_eq!(agent.phase(), Phase::CheckingCancel);
}

fn delegate_args() -> SpawnAgentArgs {
    SpawnAgentArgs {
        instructions: "do it".to_string(),
        max_iterations: Some(7),
        timeout_secs: None,
        preamble_append: Some("Be brief.".to_string()),
    }
}

#[test]
fn delegation_stops_at_the_deepest_level() {
    let grants = GrantedPermissions::new(vec!["read_file".to_string()], false, false, true);
    let mut main = make(grants, true, true);
    main.set_interactive(true);
    start_with_retrieval(&mut main);
    let first = main.spawn_child(&delegate_args()).unwrap();
    assert_eq!(first.depth(), 1);
    assert_eq!(first.history_len(), 0);
    assert_eq!(first.phase(), Phase::Idle);
    assert_eq!(first.preamble(), "You are helpful.\n\nBe brief.");
    assert_ne!(first.agent_id(), "main");
    assert_eq!(first.file_changes_count(), 0);
    assert_eq!(first.get_token_usage().request_count, 0);
    let second = first.spawn_child(&delegate_args()).unwrap();
    assert_eq!(second.depth(), 2);
    assert_eq!(second.preamble(), "You are helpful.\n\nBe brief.\n\nBe brief.");
    let plain = SpawnAgentArgs {
        instructions: "x".to_string(),
        max_iterations: None,
        timeout_secs: Some(5),
        preamble_append: None,
    };
    let mut third = second.spawn_child(&plain).unwrap();
    assert_eq!(third.depth(), 3);
    assert_eq!(third.preamble(), second.preamble());
    assert_ne!(third.agent_id(), second.agent_id());
    // the chain ends here
    match third.spawn_child(&plain) {
        Err(e) => assert_eq!(
            e.message(),
            "Maximum agent depth (3) reached. Cannot spawn more sub-agents."
        ),
        Ok(_) => panic!("a fourth level was made"),
    }
    // the grants go down the chain: a dry run stays a dry run
    let action = third.step(LoopEvent::Start { input: "go".to_string() }, 0);
    assert!(matches!(action, LoopAction::Retrieve { .. }));
    third.step(LoopEvent::Retrieved(None), 0);
    request(&mut third);
    third.step(calls(vec![call("c1", "bash", obj(vec![("command", s("ls"))]))]), 0);
    let e = finish_error(third.step(LoopEvent::Proceed, 0));
    assert!(matches!(e, TurnError::PermissionDenied(_)));
}

fn start_with_retrieval(agent: &mut AgentLoop) {
    let action = agent.step(LoopEvent::Start { input: "go".to_string() }, 0);
    assert!(matches!(action, LoopAction::Retrieve { .. }));
    agent.step(LoopEvent::Retrieved(None), 0);
    request(agent);
    agent.step(text("ok"), 0);
}

#[test]
fn a_delegate_call_at_the_deepest_level_is_an_error_result() {
    let main = make(all_granted(), false, false);
    let plain = SpawnAgentArgs {
        instructions: "x".to_string(),
        max_iterations: None,
        timeout_secs: None,
        preamble_append: None,
    };
    let a = main.spawn_child(&plain).unwrap();
    let b = a.spawn_child(&plain).unwrap();
    let mut c = b.spawn_child(&plain).unwrap();
    start(&mut c, "go");
    request(&mut c);
    c.step(calls(vec![call("c1", "delegate", obj(vec![("instructions", s("x"))]))]), 0);
    let action = c.step(LoopEvent::Proceed, 0);
    assert!(matches!(action, LoopAction::CheckCancel), "{:?}", action);
    match &c.messages()[2] {
        Message::ToolResults(results) => assert_eq!(
            results[0].content,
            "Error: Maximum agent depth (3) reached. Cannot spawn more sub-agents."
        ),
        other => panic!("unexpected message {:?}", other),
    }
    // one level higher the call is handed out
    let mut b2 = a.spawn_child(&plain).unwrap();
    start(&mut b2, "go");
    request(&mut b2);
    b2.step(
        calls(vec![call(
            "c1",
            "delegate",
            obj(vec![("instructions", s("x")), ("timeout_secs", ArgValue::UInt(9))]),
        )]),
        0,
    );
    match b2.step(LoopEvent::Proceed, 0) {
        LoopAction::RunTool(ToolInvocation::SpawnAgent(args)) => {
            assert_eq!(args.instructions, "x");
            assert_eq!(delegation_timeout_secs(&args), 9);
        }
        other => panic!("unexpected action {:?}", other),
    }
}

#[test]
fn delegation_outcomes() {
    assert_eq!(delegation_timeout_secs(&delegate_args()), 300);
    assert_eq!(
        delegation_result(DelegationOutcome::Completed {
            response: "all done".to_string(),
            files_changed: 2,
            iterations: 5,
        })
        .unwrap(),
        "Sub-agent completed successfully.\nResult: all done\nFiles changed: 2\nIterations used: 5"
    );
    assert_eq!(
        delegation_result(DelegationOutcome::Failed("no luck".to_string()))
            .unwrap_err()
            .message(),
        "Sub-agent failed: no luck"
    );
    assert_eq!(
        delegation_result(DelegationOutcome::TimedOut(300)).unwrap_err().message(),
        "Sub-agent timed out after 300 seconds"
    );
}

#[test]
fn settings_and_history_can_be_reset() {
    let mut agent = make(all_granted(), true, false);
    agent.set_agent_id("worker".to_string());
    assert_eq!(agent.agent_id(), "worker");
    start(&mut agent, "go");
    request(&mut agent);
    agent.step(text("ok"), 0);
    assert_eq!(agent.history_len(), 2);
    agent.clear_history();
    assert_eq!(agent.history_len(), 0);
    assert_eq!(agent.phase(), Phase::Idle);
    // usage and the count of iterations stay
    assert_eq!(agent.get_token_usage().request_count, 1);
    assert_eq!(agent.iteration_count(), 1);
    start(&mut agent, "new");
    agent.clear_history();
    assert_eq!(agent.phase(), Phase::Idle);
    let sub = AgentLoop::new(
        "p".to_string(),
        true,
        false,
        "/w".to_string(),
        1,
        false,
        true,
        Some("session".to_string()),
        2,
        all_granted(),
        "m".to_string(),
    );
    assert!(sub.agent_id().starts_with("agent-"));
    assert!(sub.agent_id().len() > "agent-".len());
    let names: Vec<String> = sub.get_tool_definitions(false).into_iter().map(|t| t.name).collect();
    assert!(names.contains(&"store_key_memory".to_string()));
    assert!(names.contains(&"delegate".to_string()));
    assert!(!names.contains(&"ra_hover".to_string()));
}

#[test]
fn a_write_is_on_record_as_the_driver_found_the_file() {
    let mut agent = make(all_granted(), false, false);
    start(&mut agent, "go");
    request(&mut agent);
    // a new file, written with the report that the write tool gives
    write_once(&mut agent, "new.txt", true, 1);
    request(&mut agent);
    // a file that was there, under a path that holds the word `Created`
    write_once(&mut agent, "Created.txt", false, 2);
    let changes = agent.get_file_changes_summary();
    assert_eq!(changes.len(), 2);
    assert_eq!(changes[0].path, "/work/Created.txt");
    assert_eq!(changes[0].operation, FileOperation::Modified);
    assert_eq!(changes[1].path, "/work/new.txt");
    assert_eq!(changes[1].operation, FileOperation::Created);
}

#[test]
fn the_call_at_hand_is_the_one_that_is_asked_about() {
    let mut agent = make(all_granted(), false, false);
    agent.set_interactive(true);
    assert!(agent.current_call().is_none());
    start(&mut agent, "go");
    assert!(agent.current_call().is_none());
    request(&mut agent);
    agent.step(
        calls(vec![
            call("c1", "write_file", obj(vec![("file_path", s("one.txt")), ("content", s("1"))])),
            call("c2", "write_file", obj(vec![("file_path", s("two.txt")), ("content", s("2"))])),
        ]),
        0,
    );
    assert!(matches!(agent.step(LoopEvent::Proceed, 0), LoopAction::AskPermission { .. }));
    assert_eq!(agent.current_call().unwrap().id, "c1");
    assert_eq!(agent.current_call().unwrap().arguments.get_str("file_path").unwrap(), "one.txt");
    let action = agent.step(LoopEvent::Decision(Some(PermissionDecision::ApproveOnce)), 0);
    assert!(matches!(action, LoopAction::RunTool(_)));
    agent.step(LoopEvent::ToolFinished { result: Ok("ok".to_string()), created: true }, 0);
    assert!(matches!(agent.step(LoopEvent::Proceed, 0), LoopAction::AskPermission { .. }));
    assert_eq!(agent.current_call().unwrap().id, "c2");
    assert_eq!(agent.current_call().unwrap().arguments.get_str("file_path").unwrap(), "two.txt");
}
