use acp_client::{
    AcpClient, AcpConnection, Action, AgentConfig, Error, ErrorKind, Event, Exchange, KiroAgent, Message,
    MockAgent, ResponseCollector, Role, Stage, TimeSpan, Update,
};

/// Drives an exchange through a successful protocol path that collects `text`.
fn run_protocol_path(client: &AcpClient<MockAgent>, prompt: &str, text: &str) -> (Exchange, Action) {
    let (mut ex, action) = client.start_prompt(prompt);
    assert!(matches!(action, Action::Spawn(_)));
    let action = client.advance(&mut ex, Event::Spawned);
    assert!(matches!(action, Action::Initialize));
    let action = client.advance(&mut ex, Event::Initialized);
    assert!(matches!(action, Action::CreateSession(None)));
    let action = client.advance(&mut ex, Event::SessionCreated("remote-1".to_string()));
    match &action {
        Action::SendPrompt(id, text, timeout) => {
            assert_eq!(id, "remote-1");
            assert_eq!(text, prompt);
            assert_eq!(*timeout, TimeSpan::from_secs(120));
        }
        other => panic!("unexpected action {:?}", other),
    }
    let action = client.advance(&mut ex, Event::PromptCompleted);
    assert!(matches!(action, Action::Collect));
    let mut collector = ResponseCollector::new();
    collector.observe(&Update::TextChunk(text.to_string()));
    let action = client.advance(&mut ex, Event::Collected(collector.get()));
    (ex, action)
}

#[test]
fn client_test_create_session() {
    let agent = MockAgent::new();
    let config = AgentConfig::new("mock-cli");
    let mut client = AcpClient::new(agent, config);

    let session = client.create_session(None);
    assert!(!session.id.is_empty());
}

#[test]
fn test_create_session_with_prompt() {
    let agent = MockAgent::new();
    let config = AgentConfig::new("mock-cli");
    let mut client = AcpClient::new(agent, config);

    let session = client.create_session(Some("Be helpful".into()));
    assert_eq!(session.system_prompt, Some("Be helpful".into()));
}

#[test]
fn chat_with_streamed_answer() {
    let mut client = AcpClient::new(MockAgent::new(), AgentConfig::new("mock-cli"));
    let session = client.create_session(Some("Be concise".to_string()));
    let (pending, prompt) = client.begin_chat(&session.id, "2+2?").unwrap();
    let system_at = prompt.find("System: Be concise").unwrap();
    let user_at = prompt.find("User: 2+2?").unwrap();
    assert!(system_at < user_at);
    assert_eq!(client.sessions().get(&session.id).unwrap().messages.len(), 1);

    let (ex, action) = run_protocol_path(&client, &prompt, "4");
    assert_eq!(ex.stage, Stage::Done);
    let outcome = match action {
        Action::Finish(outcome) => outcome,
        other => panic!("unexpected action {:?}", other),
    };
    assert_eq!(client.finish_chat(pending, outcome), Ok("4".to_string()));

    let stored = client.sessions().get(&session.id).unwrap();
    assert_eq!(stored.messages.len(), 3);
    assert_eq!(stored.messages[0].role, Role::System);
    assert_eq!(stored.messages[1].role, Role::User);
    assert_eq!(stored.messages[1].content, "2+2?");
    assert_eq!(stored.messages[2].role, Role::Assistant);
    assert_eq!(stored.messages[2].content, "4");
}

#[test]
fn empty_text_falls_back_once() {
    let client = AcpClient::new(MockAgent::new(), AgentConfig::new("mock-cli"));
    let (mut ex, action) = run_protocol_path(&client, "question", "");
    let mut fallback_runs = 0;
    match &action {
        Action::RunFallback(command, input, timeout) => {
            fallback_runs += 1;
            assert_eq!(command.program, "echo");
            assert_eq!(command.args, vec!["Mock response"]);
            assert_eq!(input, "question");
            assert_eq!(*timeout, TimeSpan::from_secs(120));
        }
        other => panic!("unexpected action {:?}", other),
    }
    assert_eq!(ex.stage, Stage::FallingBack);
    let action = client.advance(&mut ex, Event::FallbackOutput(b"42".to_vec()));
    assert!(matches!(action, Action::Finish(Ok(ref t)) if t == "42"));
    assert_eq!(fallback_runs, 1);
}

#[test]
fn non_empty_text_skips_fallback() {
    let client = AcpClient::new(MockAgent::new(), AgentConfig::new("mock-cli"));
    let (_, action) = run_protocol_path(&client, "q", "answer");
    assert!(matches!(action, Action::Finish(Ok(ref t)) if t == "answer"));
}

#[test]
fn blank_fallback_output_is_a_protocol_error() {
    let client = AcpClient::new(MockAgent::new(), AgentConfig::new("mock-cli"));
    let (mut ex, _) = run_protocol_path(&client, "q", "");
    let action = client.advance(&mut ex, Event::FallbackOutput(b"  \n\t ".to_vec()));
    match action {
        Action::Finish(Err(e)) => {
            assert_eq!(e.kind(), ErrorKind::Protocol);
            assert_eq!(e, Error::Protocol("Empty response from agent".to_string()));
        }
        other => panic!("unexpected action {:?}", other),
    }
}

#[test]
fn fallback_output_is_cleaned_and_lossy() {
    let agent = KiroAgent::new();
    let config = AgentConfig::new("kiro-cli");
    let (mut ex, _) = Exchange::start(&agent, &config, "p");
    ex.stage = Stage::FallingBack;
    let action = ex.step(&agent, &config, Event::FallbackOutput(b"\x1b[1mok\xff\x1b[0m".to_vec()));
    assert!(matches!(action, Action::Finish(Ok(ref t)) if t == "ok\u{fffd}"));
}

#[test]
fn timeouts_fail_and_store_nothing() {
    let mut client = AcpClient::new(MockAgent::new(), AgentConfig::new("mock-cli"));
    let session = client.create_session(None);
    let (pending, prompt) = client.begin_chat(&session.id, "slow?").unwrap();

    let (mut ex, _) = client.start_prompt(&prompt);
    client.advance(&mut ex, Event::Spawned);
    client.advance(&mut ex, Event::Initialized);
    client.advance(&mut ex, Event::SessionCreated("r".to_string()));
    let action = client.advance(&mut ex, Event::PromptTimedOut);
    let outcome = match action {
        Action::Finish(o) => o,
        other => panic!("unexpected action {:?}", other),
    };
    assert_eq!(outcome, Err(Error::Timeout));

    let (mut ex2, _) = run_protocol_path(&client, &prompt, "");
    let action = client.advance(&mut ex2, Event::FallbackTimedOut);
    assert!(matches!(action, Action::Finish(Err(Error::Timeout))));

    assert_eq!(client.finish_chat(pending, outcome), Err(Error::Timeout));
    assert_eq!(client.sessions().get(&session.id).unwrap().messages.len(), 0);
}

#[test]
fn failures_carry_their_category() {
    let client = AcpClient::new(MockAgent::new(), AgentConfig::new("mock-cli"));
    let (mut ex, _) = client.start_prompt("p");
    let action = client.advance(&mut ex, Event::SpawnFailed("no such file".to_string()));
    assert!(matches!(action, Action::Finish(Err(Error::Spawn(ref m))) if m == "no such file"));

    let (mut ex, _) = client.start_prompt("p");
    client.advance(&mut ex, Event::Spawned);
    let action = client.advance(&mut ex, Event::InitializeFailed("bad version".to_string()));
    assert!(matches!(action, Action::Finish(Err(Error::Protocol(ref m))) if m == "Initialize failed: bad version"));

    let (mut ex, _) = client.start_prompt("p");
    client.advance(&mut ex, Event::Spawned);
    client.advance(&mut ex, Event::Initialized);
    let action = client.advance(&mut ex, Event::SessionFailed("denied".to_string()));
    assert!(matches!(action, Action::Finish(Err(Error::Session(ref m))) if m == "Session creation failed: denied"));

    let (mut ex, _) = client.start_prompt("p");
    client.advance(&mut ex, Event::Spawned);
    client.advance(&mut ex, Event::Initialized);
    client.advance(&mut ex, Event::SessionCreated("r".to_string()));
    let action = client.advance(&mut ex, Event::PromptFailed("oops".to_string()));
    assert!(matches!(action, Action::Finish(Err(Error::Protocol(ref m))) if m == "Prompt failed: oops"));

    let (mut ex, _) = client.start_prompt("p");
    let action = client.advance(&mut ex, Event::PipeFailed("Failed to get stdin".to_string()));
    assert!(matches!(action, Action::Finish(Err(Error::Connection(_)))));
    assert!(!ex.accepts(&Event::Spawned));
}

#[test]
fn delays_of_the_agent_are_honoured() {
    let agent = KiroAgent::new().with_mode("m");
    let config = AgentConfig::new("kiro-cli")
        .with_mode("fast")
        .with_args(vec!["--x".to_string()])
        .with_working_dir("/work")
        .with_timeout(TimeSpan::from_secs(5));
    let (mut ex, action) = Exchange::start(&agent, &config, "p");
    match &action {
        Action::Spawn(c) => {
            assert_eq!(c.program, "kiro-cli");
            assert_eq!(c.args, vec!["acp", "--agent", "m", "--agent", "fast", "--x"]);
            assert_eq!(c.working_dir.as_deref(), Some("/work"));
        }
        other => panic!("unexpected action {:?}", other),
    }
    ex.step(&agent, &config, Event::Spawned);
    let action = ex.step(&agent, &config, Event::Initialized);
    assert!(matches!(action, Action::CreateSession(Some(ref d)) if d == "/work"));
    let action = ex.step(&agent, &config, Event::SessionCreated("s".to_string()));
    assert!(matches!(action, Action::Sleep(d) if d == TimeSpan::from_secs(2)));
    let action = ex.step(&agent, &config, Event::Slept);
    assert!(matches!(action, Action::SendPrompt(_, _, t) if t == TimeSpan::from_secs(5)));
    let action = ex.step(&agent, &config, Event::PromptCompleted);
    assert!(matches!(action, Action::Sleep(d) if d == TimeSpan::from_millis(500)));
    let action = ex.step(&agent, &config, Event::Slept);
    assert!(matches!(action, Action::Collect));
    let action = ex.step(&agent, &config, Event::Collected("\x1b[31mred\x1b[0m".to_string()));
    assert!(matches!(action, Action::Finish(Ok(ref t)) if t == "red"));
    let c = AcpConnection::command(&agent, &AgentConfig::new("x"));
    assert_eq!(c.args, vec!["acp", "--agent", "m"]);
}

#[test]
fn completion_prompt_uses_lowercase_roles() {
    let messages = vec![Message::system("rules"), Message::user("hi")];
    assert_eq!(AcpClient::<MockAgent>::completion_prompt(&messages), "system: rules\n\nuser: hi");
}

#[test]
fn chat_on_missing_session_fails() {
    let client = AcpClient::new(MockAgent::new(), AgentConfig::default());
    let err = client.begin_chat("nope", "hi").unwrap_err();
    assert_eq!(err, Error::SessionNotFound("nope".to_string()));
    assert_eq!(client.config().cli_path, "acp-agent");
    assert_eq!(client.config().timeout.as_millis(), 120_000);
}

#[test]
fn test_response_collector() {
    let mut collector = ResponseCollector::new();
    assert!(collector.is_empty());

    collector.append("Hello");
    collector.append(" World");

    assert_eq!(collector.get(), "Hello World");
    assert!(!collector.is_empty());

    collector.clear();
    assert!(collector.is_empty());
}

#[test]
fn collector_keeps_only_text_chunks() {
    let mut collector = ResponseCollector::new();
    collector.observe(&Update::ThoughtChunk);
    collector.observe(&Update::TextChunk("a".to_string()));
    collector.observe(&Update::Other);
    collector.observe(&Update::TextChunk("b".to_string()));
    assert_eq!(collector.get(), "ab");
}

#[test]
fn error_descriptions() {
    assert_eq!(Error::spawn("x").describe(), "Failed to spawn agent CLI: x");
    assert_eq!(Error::connection("x").describe(), "Connection error: x");
    assert_eq!(Error::session("x").describe(), "Session error: x");
    assert_eq!(Error::protocol("x").describe(), "Protocol error: x");
    assert_eq!(Error::Timeout.describe(), "Timeout waiting for response");
    assert_eq!(Error::NotConnected.describe(), "Not connected");
    assert_eq!(Error::agent_not_found("x").describe(), "Agent not found: x");
    assert_eq!(Error::session_not_found("x").kind(), ErrorKind::SessionNotFound);
}
