use group_chat::agent::{agent_not_found, key_deletion_result, key_to_store, Agent, KeyDeletion};
use group_chat::session::{
    check_deletable, claim_result, message_at, new_message, new_session, next_position,
    next_round_number, session_at,
    now_unix, reorder_positions, session_not_found, timestamp_from_seconds, validate_mode,
};

fn is_v4_text(s: &str) -> bool {
    let b = s.as_bytes();
    b.len() == 36
        && b[8] == b'-'
        && b[13] == b'-'
        && b[18] == b'-'
        && b[23] == b'-'
        && b[14] == b'4'
        && matches!(b[19], b'8' | b'9' | b'a' | b'b')
        && s.chars().all(|c| c == '-' || c.is_ascii_digit() || ('a'..='f').contains(&c))
}

#[test]
fn clock_gives_a_recent_time() {
    let t = now_unix().unwrap();
    assert!(t > 1_600_000_000);
}

#[test]
fn new_session_defaults() {
    let s = new_session("Rust vs Go".to_string()).unwrap();
    assert_eq!(s.topic, "Rust vs Go");
    assert_eq!(s.mode, "sequential");
    assert_eq!(s.status, "idle");
    assert!(is_v4_text(&s.id), "{}", s.id);
    assert!(s.created_at > 0);
    let t = new_session("Rust vs Go".to_string()).unwrap();
    assert_ne!(s.id, t.id);
}

#[test]
fn new_message_fields() {
    let m = new_message("s1", Some("a1"), 3, "hi", None).unwrap();
    assert_eq!(m.session_id, "s1");
    assert_eq!(m.agent_id.as_deref(), Some("a1"));
    assert_eq!(m.round_number, 3);
    assert_eq!(m.content, "hi");
    assert_eq!(m.refers_to, None);
    assert!(is_v4_text(&m.id), "{}", m.id);
    let u = new_message("s1", None, 1, "q", Some("a2")).unwrap();
    assert_eq!(u.agent_id, None);
    assert_eq!(u.refers_to.as_deref(), Some("a2"));
}

#[test]
fn only_two_modes_are_valid() {
    assert!(validate_mode("sequential").is_ok());
    assert!(validate_mode("mention").is_ok());
    assert_eq!(
        validate_mode("chaos").unwrap_err(),
        "invalid mode \"chaos\" (expected \"sequential\" or \"mention\")"
    );
    assert!(validate_mode("").is_err());
}

#[test]
fn running_or_missing_sessions_cannot_be_deleted() {
    assert_eq!(check_deletable("s9", None).unwrap_err(), "session s9 not found");
    assert_eq!(
        check_deletable("s9", Some("running")).unwrap_err(),
        "session is running, cannot delete it right now"
    );
    assert!(check_deletable("s9", Some("idle")).is_ok());
    assert!(check_deletable("s9", Some("awaiting_user")).is_ok());
    assert_eq!(session_not_found("x"), "session x not found");
}

#[test]
fn claim_needs_a_changed_row() {
    assert_eq!(claim_result(0).unwrap_err(), "session is already running a round");
    assert!(claim_result(1).is_ok());
}

#[test]
fn new_agent_speaks_last() {
    assert_eq!(next_position(None), Some(0));
    assert_eq!(next_position(Some(0)), Some(1));
    assert_eq!(next_position(Some(4)), Some(5));
    assert_eq!(next_position(Some(i64::MAX)), None);
}

#[test]
fn round_numbers_start_at_one() {
    assert_eq!(next_round_number(None), Some(1));
    assert_eq!(next_round_number(Some(1)), Some(2));
    assert_eq!(next_round_number(Some(i64::MAX)), None);
}

#[test]
fn reorder_assigns_indices() {
    let ids = vec!["c".to_string(), "a".to_string(), "b".to_string()];
    let r = reorder_positions(&ids);
    assert_eq!(
        r,
        vec![(0, "c".to_string()), (1, "a".to_string()), (2, "b".to_string())]
    );
    assert!(reorder_positions(&vec![]).is_empty());
}

#[test]
fn api_key_only_replaced_when_given() {
    assert_eq!(key_to_store(Some("sk-1".to_string())), Some("sk-1".to_string()));
    assert_eq!(key_to_store(Some(String::new())), None);
    assert_eq!(key_to_store(None), None);
}

#[test]
fn missing_key_is_not_an_error() {
    assert!(key_deletion_result(KeyDeletion::Deleted).is_ok());
    assert!(key_deletion_result(KeyDeletion::NoEntry).is_ok());
    assert_eq!(key_deletion_result(KeyDeletion::Failed("locked".into())).unwrap_err(), "locked");
}

#[test]
fn agent_lookup_error_and_copy() {
    assert_eq!(agent_not_found("a7"), "agent a7 not found");
    let a = Agent {
        id: "a1".into(),
        name: "Alice".into(),
        provider: "openai".into(),
        model: "gpt-4o".into(),
        system_prompt: Some("p".into()),
        temperature_bits: 0.5f64.to_bits(),
        color: Some("#fff".into()),
        created_at: 5,
    };
    let b = a.duplicate();
    assert_eq!(b.id, a.id);
    assert_eq!(b.system_prompt, a.system_prompt);
    assert_eq!(f64::from_bits(b.temperature_bits), 0.5);
    assert_eq!(b.color, a.color);
}

#[test]
fn clock_readings_become_timestamps() {
    assert_eq!(timestamp_from_seconds(Some(1_700_000_000)), Some(1_700_000_000));
    assert_eq!(timestamp_from_seconds(Some(0)), Some(0));
    assert_eq!(timestamp_from_seconds(Some(i64::MAX as u64)), Some(i64::MAX));
    assert_eq!(timestamp_from_seconds(Some(i64::MAX as u64 + 1)), None);
    assert_eq!(timestamp_from_seconds(None), None);
}

#[test]
fn session_record_takes_id_and_clock_reading() {
    let s = session_at("topic".to_string(), "id-1".to_string(), Some(1_700_000_123)).unwrap();
    assert_eq!(s.id, "id-1");
    assert_eq!(s.topic, "topic");
    assert_eq!(s.mode, "sequential");
    assert_eq!(s.status, "idle");
    assert_eq!(s.created_at, 1_700_000_123);
    assert!(session_at("topic".to_string(), "id-1".to_string(), None).is_none());
}

#[test]
fn message_record_takes_id_and_clock_reading() {
    let m = message_at("s1", Some("a1"), 4, "hi", Some("a2"), "id-2".to_string(), Some(77)).unwrap();
    assert_eq!(m.id, "id-2");
    assert_eq!(m.session_id, "s1");
    assert_eq!(m.agent_id.as_deref(), Some("a1"));
    assert_eq!(m.round_number, 4);
    assert_eq!(m.content, "hi");
    assert_eq!(m.refers_to.as_deref(), Some("a2"));
    assert_eq!(m.created_at, 77);
    assert!(message_at("s1", None, 1, "q", None, "id-3".to_string(), None).is_none());
}
