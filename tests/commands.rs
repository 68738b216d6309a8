use codex_transport::commands::{
    classify_finished, classify_probe, local_command, LocalProcess, ProbeError, ProbeOutcome,
    ProfileConfig, ProviderConfig, SpawnError, SshProcess,
};
use codex_transport::config::{CodexConfig, ConnectionConfig};

fn base() -> CodexConfig {
    CodexConfig {
        working_directory: String::new(),
        model: "gpt-4".to_string(),
        provider: "openai".to_string(),
        use_oss: false,
        custom_args: None,
        approval_policy: String::new(),
        sandbox_mode: "workspace-write".to_string(),
        codex_path: Some("/opt/bin/codex".to_string()),
        api_key: None,
        connection: None,
    }
}

fn s(v: &[&str]) -> Vec<String> {
    v.iter().map(|x| x.to_string()).collect()
}

fn conn(user: &str, port: Option<u16>, key: Option<&str>) -> ConnectionConfig {
    ConnectionConfig {
        host: "example.org".to_string(),
        user: user.to_string(),
        port,
        key_path: key.map(|k| k.to_string()),
    }
}

#[test]
fn openai_overrides_in_order() {
    let plan = local_command(&base(), None, &None, &None).unwrap();
    assert_eq!(plan.program, "/opt/bin/codex");
    assert_eq!(
        plan.args,
        s(&[
            "proto",
            "-c",
            "model_provider=openai",
            "-c",
            "model=gpt-4",
            "-c",
            "sandbox_mode=workspace-write",
            "-c",
            "show_raw_agent_reasoning=true",
        ])
    );
    assert!(plan.env.is_none());
    assert_eq!(plan.cwd, Some(String::new()));
}

#[test]
fn full_local_invocation() {
    let mut c = base();
    c.approval_policy = "on-request".to_string();
    c.sandbox_mode = "something-else".to_string();
    c.working_directory = "/work".to_string();
    c.custom_args = Some(s(&["--verbose"]));
    c.api_key = Some("k".to_string());
    c.provider = "gemini".to_string();
    c.model = String::new();
    let plan = local_command(&c, None, &None, &None).unwrap();
    assert_eq!(
        plan.args,
        s(&[
            "proto",
            "-c",
            "model_provider=gemini",
            "-c",
            "approval_policy=on-request",
            "-c",
            "sandbox_mode=workspace-write",
            "-c",
            "show_raw_agent_reasoning=true",
            "-c",
            "cwd=/work",
            "--verbose",
        ])
    );
    assert_eq!(plan.env, Some(("GEMINI_API_KEY".to_string(), "k".to_string())));
    assert_eq!(plan.cwd, Some("/work".to_string()));
}

#[test]
fn discovered_executable_and_missing_one() {
    let mut c = base();
    c.codex_path = None;
    let plan = local_command(&c, Some("/usr/local/bin/codex".to_string()), &None, &None).unwrap();
    assert_eq!(plan.program, "/usr/local/bin/codex");
    let err = LocalProcess::command(&c, None, &None, &None).unwrap_err();
    assert_eq!(err, SpawnError::ExecutableNotFound);
    assert_eq!(err.message(), "Could not find codex executable");
}

#[test]
fn registry_provider_and_profile() {
    let mut c = base();
    c.provider = "OpenRouter".to_string();
    c.api_key = Some("secret".to_string());
    c.use_oss = true;
    c.sandbox_mode = "read-only".to_string();
    let providers = Some(vec![(
        "openrouter".to_string(),
        ProviderConfig {
            name: "OpenRouter".to_string(),
            base_url: "https://openrouter.ai/api/v1".to_string(),
            env_key: "OR_KEY".to_string(),
        },
    )]);
    let profiles = Some(vec![("openrouter".to_string(), ProfileConfig { model: "m1".to_string() })]);
    let plan = local_command(&c, None, &providers, &profiles).unwrap();
    assert_eq!(
        plan.args,
        s(&[
            "proto",
            "-c",
            "model_provider=OpenRouter",
            "-c",
            "base_url=https://openrouter.ai/api/v1",
            "-c",
            "model=m1",
            "-c",
            "sandbox_mode=read-only",
            "-c",
            "show_raw_agent_reasoning=true",
        ])
    );
    assert_eq!(plan.env, Some(("OR_KEY".to_string(), "secret".to_string())));
}

#[test]
fn unknown_provider_with_registry() {
    let mut c = base();
    c.provider = "mine".to_string();
    c.use_oss = true;
    c.api_key = Some("k".to_string());
    c.sandbox_mode = "danger-full-access".to_string();
    let providers = Some(vec![]);
    let plan = local_command(&c, None, &providers, &Some(vec![])).unwrap();
    assert_eq!(
        plan.args,
        s(&[
            "proto",
            "-c",
            "model_provider=oss",
            "-c",
            "model=gpt-4",
            "-c",
            "sandbox_mode=danger-full-access",
            "-c",
            "show_raw_agent_reasoning=true",
        ])
    );
    assert_eq!(plan.env, Some(("OPENAI_API_KEY".to_string(), "k".to_string())));
    let no_profiles = local_command(&c, None, &providers, &None).unwrap();
    assert_eq!(no_profiles.args, plan.args);
}

#[test]
fn registry_without_entry_falls_back_to_table() {
    let mut c = base();
    c.provider = "ollama".to_string();
    c.api_key = Some("k2".to_string());
    let providers = Some(vec![(
        "gemini".to_string(),
        ProviderConfig { name: "Gemini".to_string(), base_url: String::new(), env_key: "G".to_string() },
    )]);
    let plan = local_command(&c, None, &providers, &None).unwrap();
    assert_eq!(plan.env, Some(("OLLAMA_API_KEY".to_string(), "k2".to_string())));
}

#[test]
fn registry_hit_without_profiles_uses_configured_model() {
    let mut c = base();
    c.provider = "Gemini".to_string();
    c.sandbox_mode = String::new();
    let providers = Some(vec![(
        "gemini".to_string(),
        ProviderConfig { name: "gemini".to_string(), base_url: String::new(), env_key: String::new() },
    )]);
    let plan = local_command(&c, None, &providers, &None).unwrap();
    assert_eq!(
        plan.args,
        s(&["proto", "-c", "model_provider=gemini", "-c", "model=gpt-4", "-c", "show_raw_agent_reasoning=true"])
    );
}

#[test]
fn empty_provider_and_key() {
    let mut c = base();
    c.provider = String::new();
    c.sandbox_mode = String::new();
    c.api_key = Some(String::new());
    let plan = local_command(&c, None, &None, &None).unwrap();
    assert_eq!(plan.args, s(&["proto", "-c", "model=gpt-4", "-c", "show_raw_agent_reasoning=true"]));
    assert!(plan.env.is_none());
    c.api_key = Some("k".to_string());
    c.provider = "unknown".to_string();
    let plan = local_command(&c, None, &None, &None).unwrap();
    assert_eq!(plan.env, Some(("OPENAI_API_KEY".to_string(), "k".to_string())));
}

#[test]
fn remote_invocation() {
    let mut c = base();
    c.custom_args = Some(s(&["--x"]));
    c.connection = Some(conn("alice", Some(2222), Some("/k/id")));
    let plan = SshProcess::command(&c).unwrap();
    assert_eq!(plan.program, "/usr/bin/ssh");
    assert_eq!(
        plan.args,
        s(&["-T", "-o", "BatchMode=yes", "-p", "2222", "-i", "/k/id", "alice@example.org", "codex", "--x", "proto"])
    );
    c.connection = Some(conn("", None, Some("")));
    let plan = SshProcess::command(&c).unwrap();
    assert_eq!(plan.args, s(&["-T", "-o", "BatchMode=yes", "example.org", "codex", "--x", "proto"]));
}

#[test]
fn remote_needs_connection() {
    let err = SshProcess::command(&base()).unwrap_err();
    assert_eq!(err, SpawnError::MissingConnection);
    assert_eq!(err.message(), "missing connection config");
}

#[test]
fn probe_invocation() {
    let plan = SshProcess::test_connection(&conn("bob", Some(22), None));
    assert_eq!(plan.args, s(&["-T", "-o", "BatchMode=yes", "-p", "22", "bob@example.org", "echo", "ok"]));
}

#[test]
fn probe_classification() {
    let ok = ProbeOutcome::Finished { success: true, stdout: " ok\n".to_string(), stderr: String::new() };
    assert_eq!(classify_probe(&ok), Ok("ok".to_string()));
    let denied = ProbeOutcome::Finished {
        success: false,
        stdout: String::new(),
        stderr: "bob@host: Permission Denied (publickey).".to_string(),
    };
    assert_eq!(classify_probe(&denied), Err(ProbeError::PermissionDenied));
    let unreachable = ProbeOutcome::Finished {
        success: false,
        stdout: String::new(),
        stderr: "ssh: connect to host 10.255.255.1 port 22: No route to host".to_string(),
    };
    assert_eq!(classify_probe(&unreachable), Err(ProbeError::Unreachable));
    assert_eq!(classify_probe(&ProbeOutcome::TimedOut), Err(ProbeError::Timeout));
    assert_eq!(classify_probe(&ProbeOutcome::LaunchFailed), Err(ProbeError::Unreachable));
    let wrong_token = ProbeOutcome::Finished { success: true, stdout: "nope".to_string(), stderr: String::new() };
    assert_eq!(classify_probe(&wrong_token), Err(ProbeError::Unreachable));
    assert_eq!(ProbeError::Timeout.message(), "timeout");
    assert_eq!(ProbeError::PermissionDenied.message(), "permission denied (publickey)");
    assert_eq!(ProbeError::Unreachable.message(), "host unreachable");
}

#[test]
fn finished_probe_from_prepared_texts() {
    assert_eq!(classify_finished(true, &"ok".to_string(), &String::new()), Ok("ok".to_string()));
    assert_eq!(
        classify_finished(false, &"ok".to_string(), &"permission denied".to_string()),
        Err(ProbeError::PermissionDenied)
    );
    assert_eq!(
        classify_finished(false, &String::new(), &"Permission denied".to_string()),
        Err(ProbeError::Unreachable)
    );
}
