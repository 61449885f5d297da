use group_chat::agent::Agent;
use group_chat::chat::{
    build_history_for, effective_system_prompt, find_mention_target, strip_self_label,
    REMOVED_AGENT_LABEL, SEQUENTIAL_MODE_GUIDELINES,
};
use group_chat::providers::Role;
use group_chat::session::Message;

fn msg(agent_id: Option<&str>, content: &str) -> Message {
    Message {
        id: "id".into(),
        session_id: "s".into(),
        agent_id: agent_id.map(str::to_string),
        round_number: 1,
        content: content.into(),
        refers_to: None,
        created_at: 0,
    }
}

fn agent(system_prompt: Option<&str>) -> Agent {
    Agent {
        id: "a1".into(),
        name: "Alice".into(),
        provider: "openai".into(),
        model: "gpt-4o".into(),
        system_prompt: system_prompt.map(str::to_string),
        temperature_bits: 0.7f64.to_bits(),
        color: None,
        created_at: 0,
    }
}

fn names() -> Vec<(String, String)> {
    vec![
        ("a1".to_string(), "Alice".to_string()),
        ("a2".to_string(), "Bob".to_string()),
    ]
}

#[test]
fn own_messages_are_assistant_and_unprefixed() {
    let history = [msg(None, "topic?"), msg(Some("a1"), "my take")];
    let out = build_history_for("a1", &history, &names());
    assert_eq!(out[1].role, Role::Assistant);
    assert_eq!(out[1].content, "my take");
}

#[test]
fn user_and_other_agents_are_user_role_with_labels() {
    let history = [msg(None, "topic?"), msg(Some("a1"), "alice says"), msg(Some("a2"), "bob says")];
    let out = build_history_for("a2", &history, &names());
    assert_eq!(out[0].role, Role::User);
    assert_eq!(out[0].content, "[User]: topic?");
    assert_eq!(out[1].role, Role::User);
    assert_eq!(out[1].content, "[Alice]: alice says");
    assert_eq!(out[2].role, Role::Assistant);
    assert_eq!(out[2].content, "bob says");
}

#[test]
fn unknown_author_gets_fallback_label() {
    let history = [msg(Some("gone"), "hello")];
    let out = build_history_for("a1", &history, &names());
    assert_eq!(out[0].content, format!("[{REMOVED_AGENT_LABEL}]: hello"));
}

#[test]
fn sequential_mode_appends_guidelines_after_existing_prompt() {
    let result = effective_system_prompt(&agent(Some("You are a pirate.")), "sequential").unwrap();
    assert!(result.starts_with("You are a pirate.\n\n"));
    assert!(result.contains("group discussion round"));
}

#[test]
fn sequential_mode_with_no_own_prompt_is_just_the_guidelines() {
    let result = effective_system_prompt(&agent(None), "sequential").unwrap();
    assert_eq!(result, SEQUENTIAL_MODE_GUIDELINES);
}

#[test]
fn non_sequential_mode_leaves_the_prompt_untouched() {
    assert_eq!(
        effective_system_prompt(&agent(Some("You are a pirate.")), "mention"),
        Some("You are a pirate.".to_string())
    );
    assert_eq!(effective_system_prompt(&agent(None), "mention"), None);
}

fn agent_with_id(id: &str, name: &str) -> Agent {
    Agent {
        id: id.into(),
        name: name.into(),
        provider: "openai".into(),
        model: "gpt-4o".into(),
        system_prompt: None,
        temperature_bits: 0.7f64.to_bits(),
        color: None,
        created_at: 0,
    }
}

#[test]
fn finds_mention_target_in_roster() {
    let roster = vec![agent_with_id("a1", "Alice"), agent_with_id("a2", "Bob")];
    let found = find_mention_target(&roster, "a2").unwrap();
    assert_eq!(found.name, "Bob");
}

#[test]
fn rejects_mention_target_not_in_roster() {
    let roster = vec![agent_with_id("a1", "Alice")];
    let err = find_mention_target(&roster, "gone").unwrap_err();
    assert!(err.contains("gone"));

    let empty: Vec<Agent> = vec![];
    assert!(find_mention_target(&empty, "a1").is_err());
}

#[test]
fn strips_only_own_leading_label() {
    assert_eq!(strip_self_label("[Alice]: hi", "Alice"), "hi");
    assert_eq!(strip_self_label("[Alice]：hi", "Alice"), "hi");
    assert_eq!(strip_self_label("  [Alice]:   hi  ", "Alice"), "hi");
    assert_eq!(strip_self_label("[Bob]: hi", "Alice"), "[Bob]: hi");
    assert_eq!(strip_self_label("I said [Alice]: hi", "Alice"), "I said [Alice]: hi");
    assert_eq!(strip_self_label("[Alice]:", "Alice"), "");
}

// ---------------------------------------------------------------------
// Further cases

#[test]
fn later_name_entry_overrides_earlier_one() {
    let names = vec![
        ("a1".to_string(), "Alice".to_string()),
        ("a1".to_string(), "Alicia".to_string()),
    ];
    let out = build_history_for("a2", &[msg(Some("a1"), "hi")], &names);
    assert_eq!(out[0].content, "[Alicia]: hi");
}

#[test]
fn empty_transcript_gives_empty_history() {
    let out = build_history_for("a1", &[], &names());
    assert!(out.is_empty());
}

#[test]
fn removed_agent_label_text() {
    assert_eq!(REMOVED_AGENT_LABEL, "已移除的Agent");
}

#[test]
fn guidelines_follow_blank_line_exactly() {
    let result = effective_system_prompt(&agent(Some("P")), "sequential").unwrap();
    assert_eq!(result, format!("P\n\n{SEQUENTIAL_MODE_GUIDELINES}"));
}

#[test]
fn unknown_mode_leaves_prompt_untouched() {
    assert_eq!(effective_system_prompt(&agent(Some("P")), "other"), Some("P".to_string()));
}

#[test]
fn strip_keeps_other_text_and_trims_unicode_space() {
    assert_eq!(strip_self_label("\u{3000}hello\u{a0}", "Alice"), "hello");
    assert_eq!(strip_self_label("[Alice]x hi", "Alice"), "[Alice]x hi");
    assert_eq!(strip_self_label("[Alice]: [Alice]: hi", "Alice"), "[Alice]: hi");
    assert_eq!(strip_self_label("[Ali]: hi", "Alice"), "[Ali]: hi");
    assert_eq!(strip_self_label("   ", "Alice"), "");
}

#[test]
fn mention_target_is_first_match() {
    let roster = vec![agent_with_id("a1", "Alice"), agent_with_id("a1", "Other")];
    assert_eq!(find_mention_target(&roster, "a1").unwrap().name, "Alice");
    let err = find_mention_target(&roster, "zz").unwrap_err();
    assert_eq!(err, "agent zz is not in this session's roster");
}
