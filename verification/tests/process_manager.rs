use agent_t::process_manager::{ProcessManager, ProcessStatus, MAX_OUTPUT_SIZE};
use agent_t::tool_args::{BashKillArgs, BashOutputArgs, BashStatusArgs};
use agent_t::tools::shell::{
    listed_with, shown_start_time, start_time, BashKill, BashList, BashOutput, BashStatus,
};

#[test]
fn a_process_that_succeeds_is_completed() {
    let mut registry = ProcessManager::new();
    let id = registry
        .spawn_background("echo hello".to_string(), None, Some(4242), 1_431_648_000)
        .unwrap();
    assert!(!id.is_empty());
    let info = registry.get_process(&id).unwrap();
    assert_eq!(info.id, id);
    assert_eq!(info.command, "echo hello");
    assert_eq!(info.status, ProcessStatus::Running);
    assert_eq!(info.exit_code, None);
    assert_eq!(info.stdout, "");
    assert_eq!(registry.kill_process(&id), Ok(4242));
    registry.append_stdout(&id, "hello");
    registry.finish(&id, Some(0), true);
    let info = registry.get_process(&id).unwrap();
    assert_eq!(info.status, ProcessStatus::Completed);
    assert_eq!(info.exit_code, Some(0));
    assert!(info.stdout.contains("hello"));
    assert_eq!(info.stdout, "hello\n");
    // a kill of a process that has ended is an error and changes nothing
    assert_eq!(registry.kill_process(&id), Err(format!("Process {} is not running", id)));
    let after = registry.get_process(&id).unwrap();
    assert_eq!(after.status, ProcessStatus::Completed);
    assert_eq!(after.exit_code, Some(0));
    assert_eq!(after.stdout, "hello\n");
}

#[test]
fn a_process_that_fails_is_failed() {
    let mut registry = ProcessManager::new();
    registry.register_new("first".to_string(), "exit 3".to_string(), Some("/tmp".to_string()), Some(77), 0).unwrap();
    registry.append_stderr("first", "bad");
    registry.finish("first", Some(3), false);
    let info = registry.get_process("first").unwrap();
    assert_eq!(info.status, ProcessStatus::Failed);
    assert_eq!(info.exit_code, Some(3));
    assert_eq!(info.stderr, "bad\n");
    assert_eq!(info.working_dir, Some("/tmp".to_string()));
    // once ended, a process stays as it ended
    registry.finish("first", Some(0), true);
    let info = registry.get_process("first").unwrap();
    assert_eq!(info.status, ProcessStatus::Failed);
    assert_eq!(info.exit_code, Some(3));
    // a process that a signal ended has no exit code
    registry.register_new("second".to_string(), "sleep 9".to_string(), None, Some(77), 0).unwrap();
    registry.finish("second", None, false);
    let info = registry.get_process("second").unwrap();
    assert_eq!(info.status, ProcessStatus::Failed);
    assert_eq!(info.exit_code, None);
}

#[test]
fn unknown_ids() {
    let mut registry = ProcessManager::new();
    assert!(registry.get_process("nope").is_none());
    assert_eq!(registry.kill_process("nope"), Err("Process nope not found".to_string()));
    registry.append_stdout("nope", "x");
    registry.append_stderr("nope", "x");
    registry.finish("nope", Some(0), true);
    assert_eq!(registry.list_processes().len(), 0);
}

#[test]
fn buffers_are_capped_and_lose_the_oldest() {
    let mut registry = ProcessManager::new();
    registry.register_new("p".to_string(), "yes".to_string(), None, Some(77), 0).unwrap();
    let line = "0123456789".repeat(100); // 1000 bytes, 1001 with the line feed
    for _ in 0..110 {
        registry.append_stdout("p", &line);
    }
    registry.append_stdout("p", "last line");
    let out = registry.get_process("p").unwrap().stdout;
    assert!(out.len() <= MAX_OUTPUT_SIZE);
    assert_eq!(out.len(), MAX_OUTPUT_SIZE);
    assert!(out.ends_with("last line\n"));
    // the other stream is not touched
    assert_eq!(registry.get_process("p").unwrap().stderr, "");
    // a character is never cut in two
    registry.register_new("q".to_string(), "x".to_string(), None, Some(77), 0).unwrap();
    let wide = "\u{e9}".repeat(MAX_OUTPUT_SIZE / 2); // exactly the cap
    registry.append_stderr("q", &wide);
    let err = registry.get_process("q").unwrap().stderr;
    assert!(err.len() <= MAX_OUTPUT_SIZE);
    assert_eq!(err.len(), MAX_OUTPUT_SIZE - 1);
    assert!(err.ends_with("\u{e9}\n"));
    assert!(err.starts_with("\u{e9}"));
}

#[test]
fn cleanup_takes_old_ended_processes_only() {
    let mut registry = ProcessManager::new();
    registry.register_new("old-running".to_string(), "a".to_string(), None, Some(77), 0).unwrap();
    registry.register_new("old-done".to_string(), "b".to_string(), None, Some(77), 0).unwrap();
    registry.register_new("old-failed".to_string(), "c".to_string(), None, Some(77), 10).unwrap();
    registry.register_new("young-done".to_string(), "d".to_string(), None, Some(77), 950).unwrap();
    registry.register_new("edge".to_string(), "e".to_string(), None, Some(77), 900).unwrap();
    registry.finish("old-done", Some(0), true);
    registry.finish("old-failed", Some(1), false);
    registry.finish("young-done", Some(0), true);
    registry.finish("edge", Some(0), true);
    registry.cleanup_old_processes(1000, 100);
    let ids: Vec<String> = registry.list_processes().into_iter().map(|p| p.id).collect();
    assert_eq!(ids, vec!["old-running", "young-done"]);
    registry.cleanup_old_processes(i64::MAX, 0);
    let ids: Vec<String> = registry.list_processes().into_iter().map(|p| p.id).collect();
    assert_eq!(ids, vec!["old-running"]);
    registry.cleanup_old_processes(i64::MIN, i64::MIN);
    assert_eq!(registry.list_processes().len(), 1);
}

#[test]
fn the_tools_show_what_the_registry_knows() {
    let mut registry = ProcessManager::new();
    assert_eq!(BashList::call(&registry), "No background processes running.");
    registry.register_new("b".to_string(), "make".to_string(), None, Some(77), 1_431_648_000).unwrap();
    registry.register_new("a".to_string(), "cargo test".to_string(), None, Some(77), 0).unwrap();
    let status = BashStatus::call(&registry, &BashStatusArgs { process_id: "b".to_string() });
    assert_eq!(
        status.unwrap(),
        "Process ID: b\nCommand: make\nStatus: Running\nStart time: 2015-05-15 00:00:00 UTC"
    );
    let output = BashOutput::call(&registry, &BashOutputArgs { process_id: "b".to_string() });
    assert_eq!(output.unwrap(), "(no output yet)\n[Process b - still running]");
    registry.append_stdout("b", "compiling");
    registry.append_stderr("b", "warning: x");
    registry.finish("b", Some(2), false);
    let status = BashStatus::call(&registry, &BashStatusArgs { process_id: "b".to_string() });
    assert_eq!(
        status.unwrap(),
        "Process ID: b\nCommand: make\nStatus: Failed\nStart time: 2015-05-15 00:00:00 UTC\nExit code: 2"
    );
    let output = BashOutput::call(&registry, &BashOutputArgs { process_id: "b".to_string() });
    assert_eq!(
        output.unwrap(),
        "=== STDOUT ===\ncompiling\n\n=== STDERR ===\nwarning: x\n\n\n[Process b - failed] [Exit code: 2]"
    );
    assert_eq!(
        BashList::call(&registry),
        "Background processes (2)\n\nID: a\nCommand: cargo test\nStatus: Running\nStarted: 1970-01-01 00:00:00 UTC\n\nID: b\nCommand: make\nStatus: Failed\nStarted: 2015-05-15 00:00:00 UTC\nExit code: 2\n\n"
    );
    assert_eq!(
        BashStatus::call(&registry, &BashStatusArgs { process_id: "zz".to_string() })
            .unwrap_err()
            .message(),
        "Process zz not found. It may have been cleaned up or the ID is incorrect."
    );
    assert!(BashOutput::call(&registry, &BashOutputArgs { process_id: "zz".to_string() }).is_err());
    assert_eq!(
        BashKill::check(&registry, &BashKillArgs { process_id: "a".to_string() }).unwrap(),
        77
    );
    assert_eq!(
        BashKill::check(&registry, &BashKillArgs { process_id: "b".to_string() })
            .unwrap_err()
            .message(),
        "Process b is not running"
    );
    assert_eq!(
        BashKill::check(&registry, &BashKillArgs { process_id: "zz".to_string() })
            .unwrap_err()
            .message(),
        "Process zz not found"
    );
    assert_eq!(
        BashKill::sent(&BashKillArgs { process_id: "a".to_string() }),
        "Process a termination signal sent. Use bash_status to verify termination."
    );
    // a start time that no date stands for is shown as it is
    registry.register_new("far".to_string(), "x".to_string(), None, Some(77), i64::MAX).unwrap();
    let status = BashStatus::call(&registry, &BashStatusArgs { process_id: "far".to_string() });
    assert!(status.unwrap().ends_with("Start time: 9223372036854775807"));
}

#[test]
fn start_times_are_shown() {
    assert_eq!(start_time(0), "1970-01-01 00:00:00 UTC");
    assert_eq!(start_time(-1), "1969-12-31 23:59:59 UTC");
    assert_eq!(start_time(1_700_000_000), "2023-11-14 22:13:20 UTC");
    assert_eq!(start_time(i64::MIN), "-9223372036854775808");
    assert_eq!(shown_start_time(5, Some("then".to_string())), "then");
    assert_eq!(shown_start_time(-5, None), "-5");
    let mut registry = ProcessManager::new();
    registry.register_new("p".to_string(), "c".to_string(), None, Some(77), 0).unwrap();
    let p = registry.get_process("p").unwrap();
    assert_eq!(listed_with(&p, "T"), "ID: p\nCommand: c\nStatus: Running\nStarted: T\n\n");
    assert_eq!(
        BashStatus::render_with(&p, "T"),
        "Process ID: p\nCommand: c\nStatus: Running\nStart time: T"
    );
}

#[test]
fn a_kill_names_the_process_of_the_record() {
    let mut registry = ProcessManager::new();
    registry.register_new("one".to_string(), "sleep 60".to_string(), None, Some(101), 0).unwrap();
    registry.register_new("two".to_string(), "sleep 60".to_string(), None, Some(202), 0).unwrap();
    registry.register_new("lost".to_string(), "sleep 60".to_string(), None, None, 0).unwrap();
    assert_eq!(registry.kill_process("one"), Ok(101));
    assert_eq!(registry.kill_process("two"), Ok(202));
    assert_eq!(
        registry.kill_process("lost"),
        Err("Failed to kill process: the system id of process lost is not known".to_string())
    );
    // asking changes nothing; the record changes when the end is reported
    assert_eq!(registry.get_process("one").unwrap().status, ProcessStatus::Running);
    assert_eq!(registry.get_process("one").unwrap().pid, Some(101));
    registry.finish("one", None, false);
    assert_eq!(registry.get_process("one").unwrap().status, ProcessStatus::Failed);
    assert_eq!(registry.kill_process("one"), Err("Process one is not running".to_string()));
    assert_eq!(registry.get_process("one").unwrap().status, ProcessStatus::Failed);
    assert_eq!(registry.get_process("two").unwrap().status, ProcessStatus::Running);
}

#[test]
fn a_spawn_adds_one_record_under_a_new_id() {
    let mut registry = ProcessManager::new();
    registry.register_new("kept".to_string(), "sleep 1".to_string(), None, Some(1), 5).unwrap();
    registry.append_stdout("kept", "line");
    let mut ids = Vec::new();
    for n in 0..20u32 {
        let id = registry.spawn_background("echo hello".to_string(), None, Some(100 + n), 9).unwrap();
        assert!(!ids.contains(&id));
        assert_ne!(id, "kept");
        ids.push(id);
    }
    assert_eq!(registry.list_processes().len(), 21);
    let kept = registry.get_process("kept").unwrap();
    assert_eq!(kept.stdout, "line\n");
    assert_eq!(kept.pid, Some(1));
    let last = registry.get_process(&ids[19]).unwrap();
    assert_eq!(last.command, "echo hello");
    assert_eq!(last.working_dir, None);
    assert_eq!(last.status, ProcessStatus::Running);
    assert_eq!(last.stdout, "");
    assert_eq!(last.stderr, "");
    assert_eq!(last.exit_code, None);
    assert_eq!(last.pid, Some(119));
    assert_eq!(last.start_time, 9);
}

#[test]
fn an_id_on_record_is_refused() {
    let mut registry = ProcessManager::new();
    assert_eq!(
        registry.register_new("a".to_string(), "sleep 1".to_string(), None, Some(5), 1),
        Ok("a".to_string())
    );
    registry.finish("a", Some(0), true);
    assert_eq!(
        registry.register_new("a".to_string(), "other".to_string(), None, Some(6), 2),
        Err("Failed to spawn process: the id drawn for it is taken".to_string())
    );
    let kept = registry.get_process("a").unwrap();
    assert_eq!(kept.command, "sleep 1");
    assert_eq!(kept.status, ProcessStatus::Completed);
    assert_eq!(kept.pid, Some(5));
    assert_eq!(registry.list_processes().len(), 1);
    // a registry without records takes whatever id is drawn
    let mut empty = ProcessManager::new();
    assert!(empty.spawn_background("echo hello".to_string(), None, Some(7), 3).is_ok());
}
