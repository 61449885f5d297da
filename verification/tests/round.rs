use group_chat::agent::Agent;
use group_chat::providers::Role;
use group_chat::round::{Round, RoundAction, RoundEvent};
use group_chat::session::{Message, Session};

fn agent(id: &str, name: &str, prompt: Option<&str>) -> Agent {
    Agent {
        id: id.into(),
        name: name.into(),
        provider: "openai".into(),
        model: "m".into(),
        system_prompt: prompt.map(str::to_string),
        temperature_bits: 0.7f64.to_bits(),
        color: None,
        created_at: 0,
    }
}

fn session(mode: &str) -> Session {
    Session {
        id: "s1".into(),
        topic: "t".into(),
        mode: mode.into(),
        status: "idle".into(),
        created_at: 0,
    }
}

fn message(agent_id: Option<&str>, content: &str) -> Message {
    Message {
        id: "m".into(),
        session_id: "s1".into(),
        agent_id: agent_id.map(str::to_string),
        round_number: 1,
        content: content.into(),
        refers_to: None,
        created_at: 0,
    }
}

fn names() -> Vec<(String, String)> {
    vec![("a1".into(), "Alice".into()), ("a2".into(), "Bob".into())]
}

fn finish(a: RoundAction) -> (bool, Result<(), String>) {
    match a {
        RoundAction::Finish { round_complete, result } => (round_complete, result),
        other => panic!("expected Finish, got {:?}", other),
    }
}

/// Drive a sequential round up to the first history load.
fn claimed_round(roster: Vec<Agent>) -> Round {
    let (mut r, a) = Round::sequential("s1".into(), "  what now?  ");
    assert!(matches!(a, RoundAction::LoadSession));
    let a = r.step(RoundEvent::SessionLoaded(Ok(session("sequential"))));
    assert!(matches!(a, RoundAction::LoadRoster));
    let a = r.step(RoundEvent::RosterLoaded(Ok(roster)));
    assert!(matches!(a, RoundAction::Claim));
    let a = r.step(RoundEvent::Claimed(Ok(1)));
    assert!(matches!(a, RoundAction::LoadHighestRound));
    let a = r.step(RoundEvent::HighestRoundLoaded(Ok(Some(2))));
    match a {
        RoundAction::StoreMessage(d) => {
            assert_eq!(d.agent_id, None);
            assert_eq!(d.round_number, 3);
            assert_eq!(d.content, "what now?");
            assert_eq!(d.refers_to, None);
        }
        other => panic!("unexpected {:?}", other),
    }
    let a = r.step(RoundEvent::MessageStored(Ok(())));
    assert!(matches!(a, RoundAction::LoadNames));
    let a = r.step(RoundEvent::NamesLoaded(Ok(names())));
    assert!(matches!(a, RoundAction::LoadHistory));
    r
}

#[test]
fn sequential_round_asks_every_agent_in_order() {
    let mut r = claimed_round(vec![agent("a1", "Alice", Some("P")), agent("a2", "Bob", None)]);
    let mut history = vec![message(None, "what now?")];

    // Alice's turn.
    let a = r.step(RoundEvent::HistoryLoaded(Ok(history.clone())));
    match a {
        RoundAction::RequestReply(q) => {
            assert_eq!(q.agent.id, "a1");
            assert_eq!(q.messages.len(), 1);
            assert_eq!(q.messages[0].role, Role::User);
            assert_eq!(q.messages[0].content, "[User]: what now?");
            let p = q.system_prompt.unwrap();
            assert!(p.starts_with("P\n\n"));
        }
        other => panic!("unexpected {:?}", other),
    }
    let a = r.step(RoundEvent::ReplyReceived(Ok(" [Alice]: Rust. ".into())));
    match a {
        RoundAction::StoreMessage(d) => {
            assert_eq!(d.agent_id.as_deref(), Some("a1"));
            assert_eq!(d.round_number, 3);
            assert_eq!(d.content, "Rust.");
        }
        other => panic!("unexpected {:?}", other),
    }
    let a = r.step(RoundEvent::MessageStored(Ok(())));
    assert!(matches!(a, RoundAction::LoadHistory));
    history.push(message(Some("a1"), "Rust."));

    // Bob's turn sees Alice's reply.
    let a = r.step(RoundEvent::HistoryLoaded(Ok(history.clone())));
    match a {
        RoundAction::RequestReply(q) => {
            assert_eq!(q.agent.id, "a2");
            assert_eq!(q.messages[1].content, "[Alice]: Rust.");
            assert_eq!(q.messages[1].role, Role::User);
        }
        other => panic!("unexpected {:?}", other),
    }
    let a = r.step(RoundEvent::ReplyReceived(Ok("Go.".into())));
    assert!(matches!(a, RoundAction::StoreMessage(_)));
    let a = r.step(RoundEvent::MessageStored(Ok(())));
    assert!(matches!(a, RoundAction::Release));
    let (complete, result) = finish(r.step(RoundEvent::Released(Ok(()))));
    assert!(complete);
    assert!(result.is_ok());
    // Finished rounds ignore anything further.
    assert!(matches!(r.step(RoundEvent::ErrorReported), RoundAction::Ignore));
}

#[test]
fn failing_agent_is_reported_and_round_goes_on() {
    let mut r = claimed_round(vec![agent("a1", "Alice", None), agent("a2", "Bob", None)]);
    let a = r.step(RoundEvent::HistoryLoaded(Ok(vec![])));
    assert!(matches!(a, RoundAction::RequestReply(_)));
    let a = r.step(RoundEvent::ReplyReceived(Err("provider returned HTTP 401: no".into())));
    match a {
        RoundAction::ReportError(e) => {
            assert_eq!(e.session_id, "s1");
            assert_eq!(e.round_number, 3);
            assert_eq!(e.agent_id, "a1");
            assert_eq!(e.agent_name, "Alice");
            assert_eq!(e.error, "provider returned HTTP 401: no");
        }
        other => panic!("unexpected {:?}", other),
    }
    let a = r.step(RoundEvent::ErrorReported);
    assert!(matches!(a, RoundAction::LoadHistory));
    let a = r.step(RoundEvent::HistoryLoaded(Ok(vec![])));
    match a {
        RoundAction::RequestReply(q) => assert_eq!(q.agent.id, "a2"),
        other => panic!("unexpected {:?}", other),
    }
    // An empty (or label-only) reply counts as a failure too.
    let a = r.step(RoundEvent::ReplyReceived(Ok("[Bob]:  ".into())));
    match a {
        RoundAction::ReportError(e) => assert_eq!(e.error, "provider returned an empty reply"),
        other => panic!("unexpected {:?}", other),
    }
    let a = r.step(RoundEvent::ErrorReported);
    assert!(matches!(a, RoundAction::Release));
    let (complete, result) = finish(r.step(RoundEvent::Released(Ok(()))));
    assert!(complete);
    assert!(result.is_ok());
}

#[test]
fn storage_failure_after_claim_still_releases() {
    let mut r = claimed_round(vec![agent("a1", "Alice", None)]);
    let a = r.step(RoundEvent::HistoryLoaded(Err("disk I/O error".into())));
    assert!(matches!(a, RoundAction::Release));
    let (complete, result) = finish(r.step(RoundEvent::Released(Err("also broken".into()))));
    assert!(complete);
    assert_eq!(result.unwrap_err(), "disk I/O error");
}

#[test]
fn release_failure_is_reported() {
    let mut r = claimed_round(vec![agent("a1", "Alice", None)]);
    let _ = r.step(RoundEvent::HistoryLoaded(Ok(vec![])));
    let _ = r.step(RoundEvent::ReplyReceived(Ok("ok".into())));
    let a = r.step(RoundEvent::MessageStored(Ok(())));
    assert!(matches!(a, RoundAction::Release));
    let (complete, result) = finish(r.step(RoundEvent::Released(Err("locked".into()))));
    assert!(complete);
    assert_eq!(result.unwrap_err(), "locked");
}

#[test]
fn empty_message_is_refused_at_once() {
    let (_, a) = Round::sequential("s1".into(), " \n ");
    let (complete, result) = finish(a);
    assert!(!complete);
    assert_eq!(result.unwrap_err(), "message is empty");
}

#[test]
fn wrong_mode_is_refused() {
    let (mut r, _) = Round::sequential("s1".into(), "hi");
    let (complete, result) = finish(r.step(RoundEvent::SessionLoaded(Ok(session("mention")))));
    assert!(!complete);
    assert_eq!(
        result.unwrap_err(),
        "session is in \"mention\" mode, run_sequential_round only works in \"sequential\" mode"
    );
    let (mut m, _) = Round::mention("s1".into(), "a1".into(), "hi");
    let (_, result) = finish(m.step(RoundEvent::SessionLoaded(Ok(session("sequential")))));
    assert_eq!(
        result.unwrap_err(),
        "session is in \"sequential\" mode, run_mention_round only works in \"mention\" mode"
    );
}

#[test]
fn missing_session_is_refused() {
    let (mut r, _) = Round::sequential("s1".into(), "hi");
    let (complete, result) = finish(r.step(RoundEvent::SessionLoaded(Err("session s1 not found".into()))));
    assert!(!complete);
    assert_eq!(result.unwrap_err(), "session s1 not found");
}

#[test]
fn empty_roster_is_refused() {
    let (mut r, _) = Round::sequential("s1".into(), "hi");
    let _ = r.step(RoundEvent::SessionLoaded(Ok(session("sequential"))));
    let (complete, result) = finish(r.step(RoundEvent::RosterLoaded(Ok(vec![]))));
    assert!(!complete);
    assert_eq!(result.unwrap_err(), "session has no agents, add at least one before sending");
}

#[test]
fn running_session_cannot_start_another_round() {
    let (mut r, _) = Round::sequential("s1".into(), "hi");
    let _ = r.step(RoundEvent::SessionLoaded(Ok(session("sequential"))));
    let _ = r.step(RoundEvent::RosterLoaded(Ok(vec![agent("a1", "Alice", None)])));
    let (complete, result) = finish(r.step(RoundEvent::Claimed(Ok(0))));
    assert!(!complete);
    assert_eq!(result.unwrap_err(), "session is already running a round");
}

#[test]
fn mention_round_only_asks_the_target() {
    let (mut r, _) = Round::mention("s1".into(), "a2".into(), "Bob, why?");
    let _ = r.step(RoundEvent::SessionLoaded(Ok(session("mention"))));
    let a = r.step(RoundEvent::RosterLoaded(Ok(vec![
        agent("a1", "Alice", None),
        agent("a2", "Bob", Some("P")),
    ])));
    assert!(matches!(a, RoundAction::Claim));
    let _ = r.step(RoundEvent::Claimed(Ok(1)));
    match r.step(RoundEvent::HighestRoundLoaded(Ok(None))) {
        RoundAction::StoreMessage(d) => {
            assert_eq!(d.round_number, 1);
            assert_eq!(d.refers_to.as_deref(), Some("a2"));
            assert_eq!(d.content, "Bob, why?");
        }
        other => panic!("unexpected {:?}", other),
    }
    let _ = r.step(RoundEvent::MessageStored(Ok(())));
    let _ = r.step(RoundEvent::NamesLoaded(Ok(names())));
    match r.step(RoundEvent::HistoryLoaded(Ok(vec![message(Some("a1"), "x")]))) {
        RoundAction::RequestReply(q) => {
            assert_eq!(q.agent.id, "a2");
            // Mention mode: the agent's own prompt, untouched.
            assert_eq!(q.system_prompt.as_deref(), Some("P"));
            assert_eq!(q.messages[0].content, "[Alice]: x");
        }
        other => panic!("unexpected {:?}", other),
    }
    let _ = r.step(RoundEvent::ReplyReceived(Ok("Because.".into())));
    let a = r.step(RoundEvent::MessageStored(Ok(())));
    assert!(matches!(a, RoundAction::Release));
}

#[test]
fn mention_of_agent_off_roster_is_refused() {
    let (mut r, _) = Round::mention("s1".into(), "gone".into(), "hi");
    let _ = r.step(RoundEvent::SessionLoaded(Ok(session("mention"))));
    let (complete, result) = finish(r.step(RoundEvent::RosterLoaded(Ok(vec![agent("a1", "A", None)]))));
    assert!(!complete);
    assert_eq!(result.unwrap_err(), "agent gone is not in this session's roster");
}

#[test]
fn out_of_turn_events_are_ignored() {
    let (mut r, _) = Round::sequential("s1".into(), "hi");
    assert!(matches!(r.step(RoundEvent::Released(Ok(()))), RoundAction::Ignore));
    assert!(matches!(r.step(RoundEvent::ErrorReported), RoundAction::Ignore));
    let a = r.step(RoundEvent::SessionLoaded(Ok(session("sequential"))));
    assert!(matches!(a, RoundAction::LoadRoster));
}
