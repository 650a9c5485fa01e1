use agentic::bridge::{
    complete, new_stream, settle_reply, BridgeError, PendingCall, PendingCalls, Reply,
};
use agentic::protocol::ToolResultParams;
use agentic::sandbox::{
    run_result, sandbox_root, status_from_outcome, CappedOutput, JobTable, RunError, RunOutcome,
    SandboxError, SandboxJob, SandboxRunKind, SandboxStatus, ScriptLanguage,
};
use serde_json::Value;

fn outcome(exit_code: Option<i32>, timed_out: bool) -> RunOutcome {
    RunOutcome {
        stdout: "hi\n".to_owned(),
        stderr: String::new(),
        exit_code,
        duration_ms: 12,
        timed_out,
        stdout_truncated: false,
        stderr_truncated: false,
    }
}

#[test]
fn capped_output_keeps_the_first_bytes() {
    let mut c = CappedOutput::new(5);
    c.absorb(b"abc");
    c.absorb(b"defg");
    c.absorb(b"");
    let (kept, truncated) = c.finish();
    assert_eq!(kept, b"abcde".to_vec());
    assert!(truncated);
    let mut c = CappedOutput::new(5);
    c.absorb(b"ab");
    c.absorb(b"cde");
    let (kept, truncated) = c.finish();
    assert_eq!(kept, b"abcde".to_vec());
    assert!(!truncated);
}

#[test]
fn capture_does_not_depend_on_chunking() {
    let whole = b"0123456789".to_vec();
    for split in 0..=whole.len() {
        let mut c = CappedOutput::new(7);
        c.absorb(&whole[..split]);
        c.absorb(&whole[split..]);
        let (kept, truncated) = c.finish();
        assert_eq!(kept, whole[..7].to_vec());
        assert!(truncated);
    }
}

#[test]
fn status_follows_the_outcome() {
    assert_eq!(status_from_outcome(&outcome(Some(0), false)), SandboxStatus::Succeeded);
    assert_eq!(status_from_outcome(&outcome(Some(3), false)), SandboxStatus::Failed);
    assert_eq!(status_from_outcome(&outcome(None, false)), SandboxStatus::Failed);
    assert_eq!(status_from_outcome(&outcome(Some(0), true)), SandboxStatus::TimedOut);
    let r = run_result("job".to_owned(), "/w/job".to_owned(), outcome(Some(0), false));
    assert_eq!(r.status, SandboxStatus::Succeeded);
    assert_eq!(r.stdout, "hi\n");
    assert_eq!(r.duration_ms, 12);
    assert_eq!(sandbox_root("/w"), "/w/.agent-tools/sandbox");
    assert_eq!(SandboxRunKind::PythonScript.language(), ScriptLanguage::Python);
    assert_eq!(SandboxRunKind::ShellScript.language(), ScriptLanguage::Shell);
    assert_eq!(ScriptLanguage::Python.program_and_args(), ("python3", "-"));
    assert_eq!(ScriptLanguage::Shell.program_and_args(), ("sh", "-s"));
}

#[test]
fn job_table_records_each_stage() {
    let mut t = JobTable::new();
    assert!(t.snapshot("a").is_none());
    t.insert(SandboxJob::queued("a".to_owned(), SandboxRunKind::PythonScript, "/w/a".to_owned()));
    let s = t.snapshot("a").expect("queued");
    assert_eq!(s.status, SandboxStatus::Queued);
    assert!(s.started_at_secs.is_none());
    t.start("a", 100);
    let s = t.snapshot("a").expect("running");
    assert_eq!(s.status, SandboxStatus::Running);
    assert_eq!(s.started_at_secs, Some(100));
    let r = run_result("a".to_owned(), "/w/a".to_owned(), outcome(Some(0), false));
    t.finish("a", r, 105);
    let s = t.snapshot("a").expect("done");
    assert_eq!(s.status, SandboxStatus::Succeeded);
    assert_eq!(s.finished_at_secs, Some(105));
    assert_eq!(s.result.map(|r| r.stdout), Some("hi\n".to_owned()));
    t.insert(SandboxJob::queued("b".to_owned(), SandboxRunKind::ShellScript, "/w/b".to_owned()));
    t.fail("b", "boom".to_owned(), 7);
    let s = t.snapshot("b").expect("failed");
    assert_eq!(s.status, SandboxStatus::Failed);
    assert_eq!(s.error, Some("boom".to_owned()));
    t.start("missing", 1);
    assert!(t.snapshot("missing").is_none());
}

#[test]
fn error_texts() {
    assert_eq!(
        RunError::Spawn { program: "python3".to_owned(), error: "not found".to_owned() }.message(),
        "failed to spawn 'python3': not found"
    );
    assert_eq!(RunError::Io("pipe".to_owned()).message(), "io error: pipe");
    assert_eq!(RunError::CwdMissing("/x".to_owned()).message(), "scratch cwd missing: /x");
    assert_eq!(
        SandboxError::CreateRoot("denied".to_owned()).message(),
        "create sandbox root failed: denied"
    );
    assert_eq!(SandboxError::Run("bad".to_owned()).message(), "bad");
    assert_eq!(BridgeError::TimedOut.message(), "local tool timed out");
    assert_eq!(BridgeError::ClientDisconnected.message(), "local tool client disconnected");
}

fn params(secret: &str, output: Option<Value>, error: Option<&str>) -> ToolResultParams {
    ToolResultParams {
        stream_id: "s".to_owned(),
        stream_secret: secret.to_owned(),
        invocation_id: "i".to_owned(),
        output,
        error: error.map(|e| e.to_owned()),
    }
}

fn waiting() -> PendingCalls {
    let mut calls = PendingCalls::new();
    calls.insert(PendingCall {
        stream_id: "s".to_owned(),
        invocation_id: "i".to_owned(),
        stream_secret: "secret".to_owned(),
        ticket: 9,
    });
    calls
}

#[test]
fn posted_results_reach_the_waiting_call() {
    let mut calls = waiting();
    let (ticket, result, ack) = complete(&mut calls, params("secret", Some(Value::Bool(true)), None))
        .expect("accepted");
    assert_eq!(ticket, 9);
    assert_eq!(result, Ok(Value::Bool(true)));
    assert!(ack.accepted);
    assert_eq!(
        complete(&mut calls, params("secret", Some(Value::Null), None)).err(),
        Some("unknown or expired tool invocation".to_owned())
    );
    let mut calls = waiting();
    let (_, result, _) = complete(&mut calls, params("secret", Some(Value::Null), Some("e")))
        .expect("accepted");
    assert_eq!(result, Err("e".to_owned()));
    let mut calls = waiting();
    let (_, result, _) = complete(&mut calls, params("secret", None, None)).expect("accepted");
    assert_eq!(result, Err("tool result did not include output or error".to_owned()));
    let mut calls = waiting();
    assert_eq!(
        complete(&mut calls, params("wrong", Some(Value::Null), None)).err(),
        Some("invalid stream secret".to_owned())
    );
    assert!(calls.remove("s", "i").is_none());
}

#[test]
fn waits_settle_by_what_came_back() {
    assert!(matches!(settle_reply(Reply::TimedOut), Err(BridgeError::TimedOut)));
    assert!(matches!(settle_reply(Reply::Dropped), Err(BridgeError::ClientDisconnected)));
    assert_eq!(settle_reply(Reply::Answered(Ok(Value::Null))).ok(), Some(Value::Null));
    match settle_reply(Reply::Answered(Err("no".to_owned()))) {
        Err(BridgeError::Rejected(m)) => assert_eq!(m, "no"),
        _ => panic!("expected a rejection"),
    }
}

#[test]
fn new_streams_are_uuids() {
    let a = new_stream();
    assert_eq!(a.stream_id.len(), 36);
    assert_eq!(a.stream_secret.len(), 36);
    assert_ne!(a.stream_id, a.stream_secret);
    assert!(uuid::Uuid::parse_str(&a.stream_id).is_ok());
}

#[test]
fn finished_run_snapshot_carries_its_result() {
    let mut t = JobTable::new();
    t.begin("j1".to_owned(), SandboxRunKind::PythonScript, "/w/j1".to_owned(), 40);
    let s = t.snapshot("j1").expect("running");
    assert_eq!(s.status, SandboxStatus::Running);
    assert_eq!(s.started_at_secs, Some(40));
    assert!(s.finished_at_secs.is_none());
    let r = t
        .record_outcome("j1".to_owned(), "/w/j1".to_owned(), Ok(outcome(Some(0), false)), 45)
        .ok()
        .expect("ran");
    assert_eq!(r.job_id, "j1");
    assert_eq!(r.status, SandboxStatus::Succeeded);
    let s = t.snapshot("j1").expect("done");
    assert_eq!(s.job_id, r.job_id);
    assert_eq!(s.status, SandboxStatus::Succeeded);
    assert_eq!(s.started_at_secs, Some(40));
    assert_eq!(s.finished_at_secs, Some(45));
    assert!(s.error.is_none());
    let kept = s.result.expect("result");
    assert_eq!(kept.stdout, r.stdout);
    assert_eq!(kept.cwd, "/w/j1");
    assert!(t.snapshot("other").is_none());
}

#[test]
fn failed_run_records_the_error() {
    let mut t = JobTable::new();
    t.begin("j2".to_owned(), SandboxRunKind::ShellScript, "/w/j2".to_owned(), 1);
    let e = t
        .record_outcome("j2".to_owned(), "/w/j2".to_owned(), Err(RunError::Io("closed".to_owned())), 2)
        .err()
        .expect("failed");
    assert_eq!(e.message(), "io error: closed");
    let s = t.snapshot("j2").expect("failed");
    assert_eq!(s.status, SandboxStatus::Failed);
    assert_eq!(s.error, Some("io error: closed".to_owned()));
    assert_eq!(s.finished_at_secs, Some(2));
    assert!(s.result.is_none());
}

#[test]
fn new_streams_carry_the_version_four_marks() {
    for _ in 0..8 {
        let a = new_stream();
        for t in [&a.stream_id, &a.stream_secret] {
            let chars: Vec<char> = t.chars().collect();
            assert_eq!(chars[14], '4');
            assert!(matches!(chars[19], '8' | '9' | 'a' | 'b'));
        }
    }
}
