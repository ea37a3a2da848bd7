use acp_client::{ErrorKind, Message, Role, Session, SessionService};

#[test]
fn test_session_creation() {
    let session = Session::new();
    assert!(!session.id.is_empty());
    assert!(session.messages.is_empty());
}

#[test]
fn test_session_with_system_prompt() {
    let session = Session::with_system_prompt("You are helpful");
    assert_eq!(session.messages.len(), 1);
    assert_eq!(session.messages[0].role, Role::System);
    assert_eq!(session.messages[0].content, "You are helpful");
}

#[test]
fn test_add_messages() {
    let mut session = Session::new();
    session.add_user_message("Hello");
    session.add_assistant_message("Hi there!");

    assert_eq!(session.messages.len(), 2);
    assert_eq!(session.messages[0].role, Role::User);
    assert_eq!(session.messages[1].role, Role::Assistant);
}

#[test]
fn test_build_prompt() {
    let mut session = Session::with_system_prompt("Be helpful");
    session.add_user_message("Hello");
    session.add_assistant_message("Hi!");

    let prompt = session.build_prompt();
    assert!(prompt.contains("System: Be helpful"));
    assert!(prompt.contains("User: Hello"));
    assert!(prompt.contains("Assistant: Hi!"));
}

#[test]
fn build_prompt_exact_text() {
    let mut session = Session::with_system_prompt("Be helpful");
    session.add_user_message("Hello");
    assert_eq!(session.build_prompt(), "System: Be helpful\n\nUser: Hello");
    assert_eq!(Session::new().build_prompt(), "");
}

#[test]
fn add_message_keeps_time_order() {
    let mut session = Session::new();
    let before = session.updated_at;
    session.add_message(Message::user("x"));
    assert!(session.updated_at >= before);
    assert!(session.updated_at >= session.created_at);
    assert_eq!(session.message_count(), 1);
    assert!(!session.is_empty());
}

#[test]
fn last_messages_takes_the_tail() {
    let mut session = Session::new();
    session.add_user_message("a");
    session.add_user_message("b");
    session.add_user_message("c");
    let tail = session.last_messages(2);
    assert_eq!(tail.len(), 2);
    assert_eq!(tail[0].content, "b");
    assert_eq!(tail[1].content, "c");
    assert_eq!(session.last_messages(10).len(), 3);
    assert_eq!(session.last_messages(0).len(), 0);
}

#[test]
fn metadata_set_and_get() {
    let mut session = Session::new().with_title("t");
    assert_eq!(session.title.as_deref(), Some("t"));
    assert!(session.get_metadata("k").is_none());
    session.set_metadata("k", serde_json::Value::Bool(true));
    session.set_metadata("k", serde_json::Value::from(3));
    session.set_metadata("j", serde_json::Value::Null);
    assert_eq!(session.get_metadata("k"), Some(&serde_json::Value::from(3)));
    assert_eq!(session.get_metadata("j"), Some(&serde_json::Value::Null));
    assert_eq!(session.metadata.entries().len(), 2);
}

#[test]
fn role_names_and_parsing() {
    assert_eq!(Role::System.as_str(), "system");
    assert_eq!(Role::Assistant.label(), "Assistant");
    assert_eq!(Role::parse("USER"), Ok(Role::User));
    assert_eq!("Assistant".parse::<Role>(), Ok(Role::Assistant));
    assert_eq!(Role::parse("robot"), Err("Unknown role: robot".to_string()));
    let m = Message::assistant("hi").with_name("bot");
    assert_eq!(m.name.as_deref(), Some("bot"));
}

#[test]
fn session_service_test_create_session() {
    let mut service = SessionService::new();
    let session = service.create(None);
    assert!(!session.id.is_empty());
}

#[test]
fn test_create_with_system_prompt() {
    let mut service = SessionService::new();
    let session = service.create(Some("Be helpful".into()));
    assert_eq!(session.system_prompt, Some("Be helpful".into()));
}

#[test]
fn test_get_session() {
    let mut service = SessionService::new();
    let session = service.create(None);
    let retrieved = service.get(&session.id).unwrap();
    assert_eq!(retrieved.id, session.id);
}

#[test]
fn test_session_not_found() {
    let service = SessionService::new();
    let result = service.get("nonexistent");
    assert!(result.is_err());
}

#[test]
fn test_list_sessions() {
    let mut service = SessionService::new();
    service.create(None);
    service.create(None);
    let sessions = service.list();
    assert_eq!(sessions.len(), 2);
}

#[test]
fn test_delete_session() {
    let mut service = SessionService::new();
    let session = service.create(None);
    let id = session.id.clone();
    service.delete(&id).unwrap();
    assert!(!service.contains(&id));
}

#[test]
fn created_ids_are_distinct_and_not_empty() {
    let mut service = SessionService::new();
    let mut ids: Vec<String> = Vec::new();
    for _ in 0..20 {
        let s = service.create(None);
        assert!(!s.id.is_empty());
        assert!(!ids.contains(&s.id));
        ids.push(s.id);
    }
    assert_eq!(service.count(), 20);
}

#[test]
fn missing_id_fails_everywhere() {
    let mut service = SessionService::new();
    let mut ghost = Session::new();
    ghost.id = "missing".to_string();
    assert_eq!(service.get("missing").unwrap_err().kind(), ErrorKind::SessionNotFound);
    assert_eq!(service.update(ghost).unwrap_err().kind(), ErrorKind::SessionNotFound);
    assert_eq!(service.delete("missing").unwrap_err().kind(), ErrorKind::SessionNotFound);
    let err = service.add_message("missing", Message::user("x")).unwrap_err();
    assert_eq!(err.describe(), "Session not found: missing");
    assert_eq!(service.count(), 0);
}

#[test]
fn add_message_grows_by_one() {
    let mut service = SessionService::new();
    let s = service.create(Some("sys".to_string()));
    let before = service.get(&s.id).unwrap();
    service.add_message(&s.id, Message::user("hello")).unwrap();
    let after = service.get(&s.id).unwrap();
    assert_eq!(after.messages.len(), before.messages.len() + 1);
    assert_eq!(after.messages[1].content, "hello");
    assert!(after.updated_at >= before.updated_at);
}

#[test]
fn create_update_get_round_trip() {
    let mut service = SessionService::new();
    let mut s = service.create(None);
    s.title = Some("renamed".to_string());
    s.add_user_message("kept");
    service.update(s.clone()).unwrap();
    let back = service.get(&s.id).unwrap();
    assert_eq!(back.title.as_deref(), Some("renamed"));
    assert_eq!(back.messages.len(), 1);
    assert_eq!(back.messages[0].content, "kept");
    assert_eq!(back.updated_at, s.updated_at);
}

#[test]
fn get_or_create_and_clear() {
    let mut service = SessionService::new();
    let s = service.create_with_title("hello", None);
    assert_eq!(s.title.as_deref(), Some("hello"));
    assert_eq!(service.get(&s.id).unwrap().title.as_deref(), Some("hello"));
    let same = service.get_or_create(&s.id);
    assert_eq!(same.id, s.id);
    let fresh = service.get_or_create("unknown-id");
    assert_ne!(fresh.id, "unknown-id");
    assert_eq!(service.count(), 2);
    service.clear();
    assert_eq!(service.count(), 0);
    assert!(service.list().is_empty());
}
