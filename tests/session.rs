use codex_transport::config::CodexConfig;
use codex_transport::protocol::{decode_event, decode_lines};
use codex_transport::session::{exit_action, CodexClient, ExitAction, ExitObservation};

fn config() -> CodexConfig {
    CodexConfig {
        working_directory: String::new(),
        model: "gpt-4".to_string(),
        provider: "openai".to_string(),
        use_oss: false,
        custom_args: None,
        approval_policy: String::new(),
        sandbox_mode: "workspace-write".to_string(),
        codex_path: None,
        api_key: None,
        connection: None,
    }
}

fn drain(client: &mut CodexClient) -> String {
    let mut out = String::new();
    while let Some(line) = client.next_outbound() {
        out.push_str(&line);
    }
    out
}

#[test]
fn user_input_line_carries_one_text_item() {
    let mut client = CodexClient::new("s1".to_string(), config());
    let id = client.send_user_input("hello".to_string());
    assert_eq!(id.len(), 36);
    let line = client.next_outbound().expect("a pending line");
    assert_eq!(
        line,
        format!(
            "{{\"id\":\"{}\",\"op\":{{\"type\":\"user_input\",\"items\":[{{\"type\":\"text\",\"text\":\"hello\"}}]}}}}\n",
            id
        )
    );
    let v: serde_json::Value = serde_json::from_str(line.trim_end()).unwrap();
    assert_eq!(v["op"]["type"], "user_input");
    assert_eq!(v["op"]["items"].as_array().unwrap().len(), 1);
    assert_eq!(v["op"]["items"][0]["text"], "hello");
    assert!(client.next_outbound().is_none());
}

#[test]
fn exec_approval_denied_line() {
    let mut client = CodexClient::new("s1".to_string(), config());
    let id = client.send_exec_approval("abc".to_string(), false);
    let line = client.next_outbound().unwrap();
    assert_eq!(
        line,
        format!(
            "{{\"id\":\"{}\",\"op\":{{\"type\":\"exec_approval\",\"id\":\"abc\",\"decision\":\"deny\"}}}}\n",
            id
        )
    );
}

#[test]
fn patch_approval_allowed_line() {
    let mut client = CodexClient::new("s1".to_string(), config());
    let id = client.send_patch_approval("p7".to_string(), true);
    let line = client.next_outbound().unwrap();
    assert_eq!(
        line,
        format!(
            "{{\"id\":\"{}\",\"op\":{{\"type\":\"patch_approval\",\"id\":\"p7\",\"decision\":\"allow\"}}}}\n",
            id
        )
    );
}

#[test]
fn text_with_quotes_is_escaped() {
    let mut client = CodexClient::new("s1".to_string(), config());
    client.send_user_input("say \"hi\"\n".to_string());
    let line = client.next_outbound().unwrap();
    assert!(line.contains("\"text\":\"say \\\"hi\\\"\\n\""));
    let v: serde_json::Value = serde_json::from_str(line.trim_end()).unwrap();
    assert_eq!(v["op"]["items"][0]["text"], "say \"hi\"\n");
}

#[test]
fn outbound_bytes_keep_call_order() {
    let mut client = CodexClient::new("s1".to_string(), config());
    let a = client.send_user_input("one".to_string());
    let b = client.interrupt();
    let c = client.send_exec_approval("x".to_string(), true);
    let out = drain(&mut client);
    let lines: Vec<&str> = out.split_terminator('\n').collect();
    assert_eq!(lines.len(), 3);
    assert!(out.ends_with('\n'));
    assert!(lines[0].starts_with(&format!("{{\"id\":\"{}\"", a)));
    assert_eq!(lines[1], format!("{{\"id\":\"{}\",\"op\":{{\"type\":\"interrupt\"}}}}", b));
    assert!(lines[2].starts_with(&format!("{{\"id\":\"{}\"", c)));
    assert_ne!(a, b);
    assert_ne!(b, c);
}

#[test]
fn active_until_closed() {
    let mut client = CodexClient::new("s1".to_string(), config());
    assert!(client.is_active());
    assert_eq!(client.session_id(), "s1");
    assert!(client.close_session());
    assert!(!client.is_active());
}

#[test]
fn close_enqueues_shutdown_last() {
    let mut client = CodexClient::new("s1".to_string(), config());
    client.send_user_input("hi".to_string());
    assert!(client.close_session());
    assert!(!client.writer_done());
    let out = drain(&mut client);
    let lines: Vec<&str> = out.split_terminator('\n').collect();
    assert_eq!(lines.len(), 2);
    let v: serde_json::Value = serde_json::from_str(lines[1]).unwrap();
    assert_eq!(v["op"]["type"], "shutdown");
    assert!(client.writer_done());
}

#[test]
fn second_close_has_nothing_to_act_on() {
    let mut client = CodexClient::new("s1".to_string(), config());
    assert!(client.close_session());
    drain(&mut client);
    assert!(!client.shutdown());
    assert!(client.next_outbound().is_none());
}

#[test]
fn sends_after_close_are_dropped() {
    let mut client = CodexClient::new("s1".to_string(), config());
    client.close_session();
    drain(&mut client);
    client.send_user_input("late".to_string());
    assert!(client.next_outbound().is_none());
}

#[test]
fn only_observed_exit_spares_the_kill() {
    assert_eq!(exit_action(ExitObservation::Exited), ExitAction::Reaped);
    assert_eq!(exit_action(ExitObservation::StillRunning), ExitAction::Kill);
    assert_eq!(exit_action(ExitObservation::PollFailed), ExitAction::Kill);
}

#[test]
fn malformed_lines_are_dropped() {
    let lines = vec![
        "{\"id\":\"1\",\"msg\":{\"type\":\"task_started\"}}".to_string(),
        "not json".to_string(),
        "{\"id\":\"2\",\"msg\":{\"type\":\"agent_message\",\"message\":\"hi\"}}".to_string(),
        "{\"broken\":".to_string(),
    ];
    let events = decode_lines(&lines);
    assert_eq!(events.len(), 2);
    assert_eq!(events[0].line, lines[0]);
    assert_eq!(events[1].line, lines[2]);
    assert_eq!(events[1].value["msg"]["message"], "hi");
}

#[test]
fn single_line_decoding() {
    assert!(decode_event(&"garbage".to_string()).is_none());
    assert!(decode_event(&"{\"id\":\"7\"}".to_string()).is_none());
    assert!(decode_event(&"{\"id\":7,\"msg\":{\"type\":\"x\"}}".to_string()).is_none());
    assert!(decode_event(&"[1,2]".to_string()).is_none());
    let e = decode_event(&"{\"id\":\"7\",\"msg\":{\"type\":\"task_complete\"}}".to_string()).unwrap();
    assert_eq!(e.id, "7");
    assert_eq!(e.tag, "task_complete");
    assert_eq!(e.value["id"], "7");
}

#[test]
fn untagged_lines_are_dropped_between_events() {
    let lines = vec![
        "{\"id\":\"1\",\"msg\":{\"type\":\"a\"}}".to_string(),
        "{\"id\":\"2\"}".to_string(),
        "{\"id\":\"3\",\"msg\":{\"type\":\"b\"}}".to_string(),
    ];
    let events = decode_lines(&lines);
    assert_eq!(events.len(), 2);
    assert_eq!(events[0].tag, "a");
    assert_eq!(events[1].tag, "b");
}

#[test]
fn failed_write_ends_activity() {
    let mut client = CodexClient::new("s1".to_string(), config());
    client.send_user_input("x".to_string());
    client.mark_write_failed();
    assert!(!client.is_active());
    assert!(client.next_outbound().is_some());
    client.send_user_input("y".to_string());
    assert!(client.next_outbound().is_none());
    assert!(client.close_session());
}

#[test]
fn shutdown_matches_close() {
    let mut a = CodexClient::new("s1".to_string(), config());
    let mut b = CodexClient::new("s1".to_string(), config());
    assert_eq!(a.close_session(), b.shutdown());
    assert_eq!(a.is_active(), b.is_active());
    let la = drain(&mut a);
    let lb = drain(&mut b);
    assert_eq!(la.len(), lb.len());
    assert!(lb.contains("\"type\":\"shutdown\""));
}
