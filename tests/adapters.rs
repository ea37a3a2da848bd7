use acp_client::{
    Agent, CodexAgent, CodexApprovalMode, GeminiAgent, GeminiOutputFormat, KiroAgent, MockAgent, TimeSpan,
};

#[test]
fn codex_test_default_agent() {
    let agent = CodexAgent::new();
    assert_eq!(agent.name(), "codex");
    let args = agent.chat_args();
    assert!(args.contains(&"-q".to_string()));
    assert!(args.contains(&"--approval-mode".to_string()));
}

#[test]
fn codex_test_with_model() {
    let agent = CodexAgent::new().with_model("gpt-4");
    let args = agent.chat_args();
    assert!(args.contains(&"-m".to_string()));
    assert!(args.contains(&"gpt-4".to_string()));
}

#[test]
fn test_full_auto_mode() {
    let agent = CodexAgent::new().with_approval_mode(CodexApprovalMode::FullAuto);
    let args = agent.chat_args();
    assert!(args.contains(&"full-auto".to_string()));
}

#[test]
fn codex_test_json_output() {
    let agent = CodexAgent::new().with_json_output(true);
    let args = agent.chat_args();
    assert!(args.contains(&"--json".to_string()));
}

#[test]
fn test_environment_vars() {
    let agent = CodexAgent::new();
    let env = agent.environment();
    assert!(env.iter().any(|(k, v)| k == "CODEX_QUIET_MODE" && v == "1"));
}

#[test]
fn codex_args_in_order() {
    let agent = CodexAgent::with_cli_path("/bin/codex")
        .with_model("o3")
        .with_approval_mode(CodexApprovalMode::AutoEdit)
        .with_json_output(true);
    assert_eq!(agent.cli_path(), "/bin/codex");
    assert_eq!(agent.chat_args(), vec!["-q", "--approval-mode", "auto-edit", "-m", "o3", "--json"]);
    assert_eq!(agent.acp_args(), agent.chat_args());
    assert_eq!(agent.session_init_delay(), TimeSpan::zero());
    assert_eq!(agent.post_prompt_delay(), TimeSpan::from_millis(100));
    assert!(!agent.requires_mcp_servers());
}

#[test]
fn codex_configured_defaults() {
    let agent = CodexAgent::configured(None, Some("o4".to_string()));
    assert_eq!(agent.cli_path(), "codex");
    assert_eq!(agent.chat_args(), vec!["-q", "--approval-mode", "suggest", "-m", "o4"]);
}

#[test]
fn gemini_test_default_agent() {
    let agent = GeminiAgent::new();
    assert_eq!(agent.name(), "gemini");
    let args = agent.chat_args();
    assert!(args.contains(&"-p".to_string()));
}

#[test]
fn gemini_test_with_model() {
    let agent = GeminiAgent::new().with_model("gemini-2.5-flash");
    let args = agent.chat_args();
    assert!(args.contains(&"-m".to_string()));
    assert!(args.contains(&"gemini-2.5-flash".to_string()));
}

#[test]
fn gemini_test_json_output() {
    let agent = GeminiAgent::new().with_output_format(GeminiOutputFormat::Json);
    let args = agent.chat_args();
    assert!(args.contains(&"--output-format".to_string()));
    assert!(args.contains(&"json".to_string()));
}

#[test]
fn test_include_directories() {
    let agent = GeminiAgent::new().include_directory("./src").include_directory("./lib");
    let args = agent.chat_args();
    assert!(args.contains(&"--include-directories".to_string()));
    assert!(args.contains(&"./src,./lib".to_string()));
}

#[test]
fn test_no_acp() {
    let agent = GeminiAgent::new();
    assert!(!agent.requires_mcp_servers());
}

#[test]
fn gemini_args_in_order() {
    let agent = GeminiAgent::with_cli_path("gem")
        .with_model("pro")
        .with_output_format(GeminiOutputFormat::StreamJson)
        .with_include_directories(vec!["a".to_string(), "b".to_string(), "c".to_string()]);
    assert_eq!(
        agent.chat_args(),
        vec!["-p", "-m", "pro", "--output-format", "stream-json", "--include-directories", "a,b,c"]
    );
    let plain = GeminiAgent::with_cli_path("gem");
    assert_eq!(plain.chat_args(), vec!["-p"]);
    assert_eq!(plain.environment(), Vec::<(String, String)>::new());
}

#[test]
fn kiro_test_default_agent() {
    let agent = KiroAgent::new();
    assert_eq!(agent.name(), "kiro");
    assert!(agent.acp_args().contains(&"acp".to_string()));
}

#[test]
fn test_with_mode() {
    let agent = KiroAgent::new().with_mode("kiro_default");
    let args = agent.acp_args();
    assert!(args.contains(&"--agent".to_string()));
    assert!(args.contains(&"kiro_default".to_string()));
}

#[test]
fn test_strip_ansi_codes() {
    let input = "\x1b[32mHello\x1b[0m World";
    let output = KiroAgent::new().process_response(input);
    assert_eq!(output, "Hello World");
}

#[test]
fn strip_removes_osc_and_carriage_returns() {
    let agent = CodexAgent::new();
    assert_eq!(agent.process_response("\x1b]0;title\x07line one\r\nline two"), "line one\nline two");
    assert_eq!(agent.process_response(""), "");
}

#[test]
fn kiro_args_in_order() {
    let agent = KiroAgent::with_cli_path("/opt/kiro").with_mode("dev");
    assert_eq!(agent.cli_path(), "/opt/kiro");
    assert_eq!(agent.acp_args(), vec!["acp", "--agent", "dev"]);
    assert_eq!(agent.chat_args(), vec!["chat", "--no-interactive", "--agent", "dev"]);
    assert_eq!(agent.session_init_delay(), TimeSpan::from_secs(2));
    assert_eq!(agent.post_prompt_delay(), TimeSpan::from_millis(500));
    assert!(agent.requires_mcp_servers());
    let configured = KiroAgent::configured(Some("k".to_string()), None);
    assert_eq!(configured.cli_path(), "k");
    assert_eq!(configured.acp_args(), vec!["acp"]);
}

#[test]
fn test_mock_agent() {
    let agent = MockAgent::new();
    assert_eq!(agent.name(), "mock");
    assert_eq!(agent.cli_path(), "echo");
}

#[test]
fn test_with_custom_response() {
    let agent = MockAgent::new().with_response("Custom response");
    let args = agent.chat_args();
    assert_eq!(args[0], "Custom response");
}

#[test]
fn test_no_delays() {
    let agent = MockAgent::new();
    assert_eq!(agent.session_init_delay(), TimeSpan::zero());
    assert_eq!(agent.post_prompt_delay(), TimeSpan::zero());
}

#[test]
fn mock_keeps_text() {
    let agent = MockAgent::new().with_name("tester");
    assert_eq!(agent.name(), "tester");
    assert_eq!(agent.acp_args(), vec!["mock-acp"]);
    assert_eq!(agent.process_response("\x1b[1mkept\x1b[0m"), "\x1b[1mkept\x1b[0m");
}
