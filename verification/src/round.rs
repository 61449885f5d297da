//! One discussion round, driven step by step.
//!
//! A round alternates database work, provider calls and event emission
//! with decisions. The decisions live here, as a state machine: the caller
//! performs the [`RoundAction`] it is handed, reports how that went as a
//! [`RoundEvent`], and gets the next action back, until [`RoundAction::Finish`].
//!
//! In a sequential round every agent on the roster replies, one at a time
//! in roster order, each seeing everything said before it; in a mention
//! round only the mentioned agent replies. One agent failing does not stop
//! the round, and once the session has been claimed for the round it is
//! always released again, however the round ends.

use vstd::prelude::*;
use crate::agent::Agent;
use crate::chat::{
    build_history_for, effective_prompt, effective_system_prompt, first_index_of, history_role,
    history_text, not_in_roster, not_in_roster_text, roster_index, strip_self_label,
    strip_self_label_text,
};
use crate::providers::{ChatMessage, Role};
use crate::session::{Message, Session, MODE_MENTION, MODE_SEQUENTIAL};
use crate::text::{opt_view, same_text, trim, trim_seq};

verus! {

// ---------------------------------------------------------------------
// Executable types

/// Which kind of round is run.
#[derive(Debug, Clone)]
pub enum RoundKind {
    /// Every agent on the roster replies, in roster order.
    Sequential,
    /// Only the agent with this id replies; it must be on the roster.
    Mention { target_agent_id: String },
}

/// Where a round stands: which action's outcome it waits for.
#[derive(Debug, Clone, Copy, PartialEq, Eq, Structural)]
pub enum Stage {
    LoadingSession,
    LoadingRoster,
    Claiming,
    LoadingRoundNumber,
    StoringUserMessage,
    LoadingNames,
    LoadingHistory,
    AwaitingReply,
    StoringReply,
    ReportingError,
    Releasing,
    Done,
}

/// The state of one round.
#[derive(Debug)]
pub struct Round {
    pub kind: RoundKind,
    pub session_id: String,
    /// The user's message, trimmed.
    pub user_message: String,
    pub stage: Stage,
    /// The session's mode, once loaded.
    pub mode: String,
    /// The agents that reply this round, in speaking order.
    pub speakers: Vec<Agent>,
    /// Agent id -> name, for labelling the transcript.
    pub agent_names: Vec<(String, String)>,
    /// The round's number, once computed.
    pub round_number: i64,
    /// Index into `speakers` of the agent whose turn it is.
    pub turn: usize,
    /// The first error since the session was claimed, if any.
    pub outcome: Result<(), String>,
}

/// A message to be stored (the caller adds a fresh id and the current
/// time, see [`crate::session::new_message`]).
#[derive(Debug, Clone)]
pub struct MessageDraft {
    pub agent_id: Option<String>,
    pub round_number: i64,
    pub content: String,
    pub refers_to: Option<String>,
}

/// One agent's turn: what to send to its provider.
#[derive(Debug, Clone)]
pub struct ReplyRequest {
    pub agent: Agent,
    pub system_prompt: Option<String>,
    pub messages: Vec<ChatMessage>,
}

/// Payload of the `agent-error` event: one agent's turn failed, so the
/// round moves on without a reply from it. Never stored as a message.
#[derive(Debug, Clone)]
pub struct AgentError {
    pub session_id: String,
    pub round_number: i64,
    pub agent_id: String,
    pub agent_name: String,
    pub error: String,
}

/// What the caller is to do next.
#[derive(Debug)]
pub enum RoundAction {
    /// Load the session row; answer with [`RoundEvent::SessionLoaded`]
    /// (a missing session is an error).
    LoadSession,
    /// Load the roster's agents in position order; answer with
    /// [`RoundEvent::RosterLoaded`].
    LoadRoster,
    /// Atomically set the session's status to "running" unless it already
    /// is; answer with [`RoundEvent::Claimed`] and the number of rows
    /// changed.
    Claim,
    /// Load the highest round number among the session's messages; answer
    /// with [`RoundEvent::HighestRoundLoaded`].
    LoadHighestRound,
    /// Store this message and, once stored, emit `message-added` with it;
    /// answer with [`RoundEvent::MessageStored`].
    StoreMessage(MessageDraft),
    /// Load every agent's id and name; answer with
    /// [`RoundEvent::NamesLoaded`].
    LoadNames,
    /// Load the session's messages in order; answer with
    /// [`RoundEvent::HistoryLoaded`].
    LoadHistory,
    /// Ask the agent's provider for a reply (with the agent's stored API
    /// key); answer with [`RoundEvent::ReplyReceived`].
    RequestReply(ReplyRequest),
    /// Emit `agent-error` with this payload; answer with
    /// [`RoundEvent::ErrorReported`].
    ReportError(AgentError),
    /// Set the session's status to "awaiting_user"; answer with
    /// [`RoundEvent::Released`].
    Release,
    /// The round is over: emit `round-complete` if `round_complete`, and
    /// return `result` to the caller of the round.
    Finish { round_complete: bool, result: Result<(), String> },
    /// The event did not fit the round's stage; nothing changed.
    Ignore,
}

/// How the last action went.
#[derive(Debug)]
pub enum RoundEvent {
    SessionLoaded(Result<Session, String>),
    RosterLoaded(Result<Vec<Agent>, String>),
    Claimed(Result<u64, String>),
    HighestRoundLoaded(Result<Option<i64>, String>),
    MessageStored(Result<(), String>),
    NamesLoaded(Result<Vec<(String, String)>, String>),
    HistoryLoaded(Result<Vec<Message>, String>),
    /// The provider's raw reply text, or why there is none.
    ReplyReceived(Result<String, String>),
    ErrorReported,
    Released(Result<(), String>),
}

// ---------------------------------------------------------------------
// Views

pub enum KindView {
    Sequential,
    Mention(Seq<char>),
}

pub struct RoundView {
    pub kind: KindView,
    pub session_id: Seq<char>,
    pub user_message: Seq<char>,
    pub stage: Stage,
    pub mode: Seq<char>,
    pub speakers: Seq<Agent>,
    pub agent_names: Seq<(String, String)>,
    pub round_number: i64,
    pub turn: int,
    pub outcome: Result<(), Seq<char>>,
}

pub enum ActionView {
    LoadSession,
    LoadRoster,
    Claim,
    LoadHighestRound,
    StoreMessage {
        agent_id: Option<Seq<char>>,
        round_number: i64,
        content: Seq<char>,
        refers_to: Option<Seq<char>>,
    },
    LoadNames,
    LoadHistory,
    RequestReply {
        agent: Agent,
        system_prompt: Option<Seq<char>>,
        messages: Seq<(Role, Seq<char>)>,
    },
    ReportError {
        session_id: Seq<char>,
        round_number: i64,
        agent_id: Seq<char>,
        agent_name: Seq<char>,
        error: Seq<char>,
    },
    Release,
    Finish { round_complete: bool, result: Result<(), Seq<char>> },
    Ignore,
}

pub enum EventView {
    SessionLoaded(Result<Session, Seq<char>>),
    RosterLoaded(Result<Seq<Agent>, Seq<char>>),
    Claimed(Result<u64, Seq<char>>),
    HighestRoundLoaded(Result<Option<i64>, Seq<char>>),
    MessageStored(Result<(), Seq<char>>),
    NamesLoaded(Result<Seq<(String, String)>, Seq<char>>),
    HistoryLoaded(Result<Seq<Message>, Seq<char>>),
    ReplyReceived(Result<Seq<char>, Seq<char>>),
    ErrorReported,
    Released(Result<(), Seq<char>>),
}

pub open spec fn unit_result_view(r: Result<(), String>) -> Result<(), Seq<char>> {
    match r {
        Ok(()) => Ok(()),
        Err(e) => Err(e@),
    }
}

pub open spec fn chat_view(m: ChatMessage) -> (Role, Seq<char>) {
    (m.role, m.content@)
}

impl View for Round {
    type V = RoundView;

    open spec fn view(&self) -> RoundView {
        RoundView {
            kind: match self.kind {
                RoundKind::Sequential => KindView::Sequential,
                RoundKind::Mention { target_agent_id } => KindView::Mention(target_agent_id@),
            },
            session_id: self.session_id@,
            user_message: self.user_message@,
            stage: self.stage,
            mode: self.mode@,
            speakers: self.speakers@,
            agent_names: self.agent_names@,
            round_number: self.round_number,
            turn: self.turn as int,
            outcome: unit_result_view(self.outcome),
        }
    }
}

impl View for RoundAction {
    type V = ActionView;

    open spec fn view(&self) -> ActionView {
        match self {
            RoundAction::LoadSession => ActionView::LoadSession,
            RoundAction::LoadRoster => ActionView::LoadRoster,
            RoundAction::Claim => ActionView::Claim,
            RoundAction::LoadHighestRound => ActionView::LoadHighestRound,
            RoundAction::StoreMessage(d) => ActionView::StoreMessage {
                agent_id: opt_view(d.agent_id),
                round_number: d.round_number,
                content: d.content@,
                refers_to: opt_view(d.refers_to),
            },
            RoundAction::LoadNames => ActionView::LoadNames,
            RoundAction::LoadHistory => ActionView::LoadHistory,
            RoundAction::RequestReply(q) => ActionView::RequestReply {
                agent: q.agent,
                system_prompt: opt_view(q.system_prompt),
                messages: q.messages@.map_values(|m: ChatMessage| chat_view(m)),
            },
            RoundAction::ReportError(e) => ActionView::ReportError {
                session_id: e.session_id@,
                round_number: e.round_number,
                agent_id: e.agent_id@,
                agent_name: e.agent_name@,
                error: e.error@,
            },
            RoundAction::Release => ActionView::Release,
            RoundAction::Finish { round_complete, result } => ActionView::Finish {
                round_complete: *round_complete,
                result: unit_result_view(*result),
            },
            RoundAction::Ignore => ActionView::Ignore,
        }
    }
}

impl View for RoundEvent {
    type V = EventView;

    open spec fn view(&self) -> EventView {
        match self {
            RoundEvent::SessionLoaded(r) => EventView::SessionLoaded(
                match r {
                    Ok(s) => Ok(*s),
                    Err(e) => Err(e@),
                },
            ),
            RoundEvent::RosterLoaded(r) => EventView::RosterLoaded(
                match r {
                    Ok(v) => Ok(v@),
                    Err(e) => Err(e@),
                },
            ),
            RoundEvent::Claimed(r) => EventView::Claimed(
                match r {
                    Ok(n) => Ok(*n),
                    Err(e) => Err(e@),
                },
            ),
            RoundEvent::HighestRoundLoaded(r) => EventView::HighestRoundLoaded(
                match r {
                    Ok(h) => Ok(*h),
                    Err(e) => Err(e@),
                },
            ),
            RoundEvent::MessageStored(r) => EventView::MessageStored(unit_result_view(*r)),
            RoundEvent::NamesLoaded(r) => EventView::NamesLoaded(
                match r {
                    Ok(v) => Ok(v@),
                    Err(e) => Err(e@),
                },
            ),
            RoundEvent::HistoryLoaded(r) => EventView::HistoryLoaded(
                match r {
                    Ok(v) => Ok(v@),
                    Err(e) => Err(e@),
                },
            ),
            RoundEvent::ReplyReceived(r) => EventView::ReplyReceived(
                match r {
                    Ok(t) => Ok(t@),
                    Err(e) => Err(e@),
                },
            ),
            RoundEvent::ErrorReported => EventView::ErrorReported,
            RoundEvent::Released(r) => EventView::Released(unit_result_view(*r)),
        }
    }
}


// ---------------------------------------------------------------------
// The transition, over views

pub open spec fn empty_message_text() -> Seq<char> {
    "message is empty"@
}

pub open spec fn no_agents_text() -> Seq<char> {
    "session has no agents, add at least one before sending"@
}

pub open spec fn already_running_text() -> Seq<char> {
    "session is already running a round"@
}

pub open spec fn round_number_range_text() -> Seq<char> {
    "round number out of range"@
}

pub open spec fn empty_reply_text() -> Seq<char> {
    "provider returned an empty reply"@
}

/// The error for a round started in a session of the wrong mode.
pub open spec fn wrong_mode_text(kind: KindView, mode: Seq<char>) -> Seq<char> {
    match kind {
        KindView::Sequential => "session is in \""@ + mode
            + "\" mode, run_sequential_round only works in \"sequential\" mode"@,
        KindView::Mention(_) => "session is in \""@ + mode
            + "\" mode, run_mention_round only works in \"mention\" mode"@,
    }
}

/// The mode a kind of round runs in.
pub open spec fn kind_mode(kind: KindView) -> Seq<char> {
    match kind {
        KindView::Sequential => MODE_SEQUENTIAL@,
        KindView::Mention(_) => MODE_MENTION@,
    }
}

/// Stages in which the session is claimed for the round and must be
/// released before the round ends.
pub open spec fn is_claimed_stage(stage: Stage) -> bool {
    match stage {
        Stage::LoadingRoundNumber | Stage::StoringUserMessage | Stage::LoadingNames
        | Stage::LoadingHistory | Stage::AwaitingReply | Stage::StoringReply
        | Stage::ReportingError => true,
        _ => false,
    }
}

/// Stages in which some speaker's turn is under way.
pub open spec fn is_turn_stage(stage: Stage) -> bool {
    match stage {
        Stage::LoadingHistory | Stage::AwaitingReply | Stage::StoringReply
        | Stage::ReportingError => true,
        _ => false,
    }
}

/// The round ends before claiming the session: nothing to release, no
/// `round-complete`.
pub open spec fn give_up(s: RoundView, e: Seq<char>) -> (RoundView, ActionView) {
    (
        RoundView { stage: Stage::Done, ..s },
        ActionView::Finish { round_complete: false, result: Err(e) },
    )
}

/// Something failed after the claim: remember the error and release.
pub open spec fn abort(s: RoundView, e: Seq<char>) -> (RoundView, ActionView) {
    (RoundView { stage: Stage::Releasing, outcome: Err(e), ..s }, ActionView::Release)
}

/// Start turn `turn`, or release once every speaker has had one.
pub open spec fn begin_turn(s: RoundView, turn: int) -> (RoundView, ActionView) {
    if turn < s.speakers.len() {
        (RoundView { stage: Stage::LoadingHistory, turn, ..s }, ActionView::LoadHistory)
    } else {
        (RoundView { stage: Stage::Releasing, turn, ..s }, ActionView::Release)
    }
}

/// The transcript as agent `current` is shown it.
pub open spec fn history_view(
    current: Seq<char>,
    messages: Seq<Message>,
    names: Seq<(String, String)>,
) -> Seq<(Role, Seq<char>)> {
    Seq::new(
        messages.len(),
        |k: int| (history_role(messages[k], current), history_text(messages[k], current, names)),
    )
}

/// Report that the current speaker's turn failed with `error`.
pub open spec fn report(s: RoundView, error: Seq<char>) -> (RoundView, ActionView) {
    let agent = s.speakers[s.turn];
    (
        RoundView { stage: Stage::ReportingError, ..s },
        ActionView::ReportError {
            session_id: s.session_id,
            round_number: s.round_number,
            agent_id: agent.id@,
            agent_name: agent.name@,
            error,
        },
    )
}

/// The first roster position of the agent `id`, if it is on the roster.
pub open spec fn target_index(roster: Seq<Agent>, id: Seq<char>) -> Option<int> {
    if exists|i: int| first_index_of(roster, id, i) {
        Some(choose|i: int| first_index_of(roster, id, i))
    } else {
        None
    }
}

/// The state before the first step: the user's message trimmed; an empty
/// message ends the round at once.
pub open spec fn start(kind: KindView, session_id: Seq<char>, raw_message: Seq<char>) -> (
    RoundView,
    ActionView,
) {
    let s = RoundView {
        kind,
        session_id,
        user_message: trim_seq(raw_message),
        stage: Stage::LoadingSession,
        mode: Seq::empty(),
        speakers: Seq::empty(),
        agent_names: Seq::empty(),
        round_number: 0,
        turn: 0,
        outcome: Ok(()),
    };
    if trim_seq(raw_message).len() == 0 {
        give_up(s, empty_message_text())
    } else {
        (s, ActionView::LoadSession)
    }
}

/// One step of a round: the next state and action after event `e`.
pub open spec fn next(s: RoundView, e: EventView) -> (RoundView, ActionView) {
    match (s.stage, e) {
        (Stage::LoadingSession, EventView::SessionLoaded(r)) => match r {
            Err(err) => give_up(s, err),
            Ok(session) => if session.mode@ != kind_mode(s.kind) {
                give_up(s, wrong_mode_text(s.kind, session.mode@))
            } else {
                (RoundView { stage: Stage::LoadingRoster, mode: session.mode@, ..s }, ActionView::LoadRoster)
            },
        },
        (Stage::LoadingRoster, EventView::RosterLoaded(r)) => match r {
            Err(err) => give_up(s, err),
            Ok(roster) => match s.kind {
                KindView::Sequential => if roster.len() == 0 {
                    give_up(s, no_agents_text())
                } else {
                    (RoundView { stage: Stage::Claiming, speakers: roster, ..s }, ActionView::Claim)
                },
                KindView::Mention(target) => match target_index(roster, target) {
                    None => give_up(s, not_in_roster_text(target)),
                    Some(i) => (
                        RoundView { stage: Stage::Claiming, speakers: seq![roster[i]], ..s },
                        ActionView::Claim,
                    ),
                },
            },
        },
        (Stage::Claiming, EventView::Claimed(r)) => match r {
            Err(err) => give_up(s, err),
            Ok(rows) => if rows == 0 {
                give_up(s, already_running_text())
            } else {
                (RoundView { stage: Stage::LoadingRoundNumber, ..s }, ActionView::LoadHighestRound)
            },
        },
        (Stage::LoadingRoundNumber, EventView::HighestRoundLoaded(r)) => match r {
            Err(err) => abort(s, err),
            Ok(highest) => {
                let n: int = match highest {
                    None => 1,
                    Some(h) => h + 1,
                };
                if n > i64::MAX {
                    abort(s, round_number_range_text())
                } else {
                    (
                        RoundView {
                            stage: Stage::StoringUserMessage,
                            round_number: n as i64,
                            ..s
                        },
                        ActionView::StoreMessage {
                            agent_id: None,
                            round_number: n as i64,
                            content: s.user_message,
                            refers_to: match s.kind {
                                KindView::Sequential => None,
                                KindView::Mention(target) => Some(target),
                            },
                        },
                    )
                }
            },
        },
        (Stage::StoringUserMessage, EventView::MessageStored(r)) => match r {
            Err(err) => abort(s, err),
            Ok(()) => (RoundView { stage: Stage::LoadingNames, ..s }, ActionView::LoadNames),
        },
        (Stage::LoadingNames, EventView::NamesLoaded(r)) => match r {
            Err(err) => abort(s, err),
            Ok(names) => begin_turn(RoundView { agent_names: names, ..s }, 0),
        },
        (Stage::LoadingHistory, EventView::HistoryLoaded(r)) => if s.turn < s.speakers.len() {
            match r {
                Err(err) => abort(s, err),
                Ok(history) => {
                    let agent = s.speakers[s.turn];
                    (
                        RoundView { stage: Stage::AwaitingReply, ..s },
                        ActionView::RequestReply {
                            agent,
                            system_prompt: effective_prompt(opt_view(agent.system_prompt), s.mode),
                            messages: history_view(agent.id@, history, s.agent_names),
                        },
                    )
                },
            }
        } else {
            (s, ActionView::Ignore)
        },
        (Stage::AwaitingReply, EventView::ReplyReceived(r)) => if s.turn < s.speakers.len() {
            match r {
                Err(err) => report(s, err),
                Ok(raw) => {
                    let agent = s.speakers[s.turn];
                    let reply = strip_self_label_text(raw, agent.name@);
                    if reply.len() == 0 {
                        report(s, empty_reply_text())
                    } else {
                        (
                            RoundView { stage: Stage::StoringReply, ..s },
                            ActionView::StoreMessage {
                                agent_id: Some(agent.id@),
                                round_number: s.round_number,
                                content: reply,
                                refers_to: None,
                            },
                        )
                    }
                },
            }
        } else {
            (s, ActionView::Ignore)
        },
        (Stage::StoringReply, EventView::MessageStored(r)) => if s.turn < s.speakers.len() {
            match r {
                Err(err) => abort(s, err),
                Ok(()) => begin_turn(s, s.turn + 1),
            }
        } else {
            (s, ActionView::Ignore)
        },
        (Stage::ReportingError, EventView::ErrorReported) => if s.turn < s.speakers.len() {
            begin_turn(s, s.turn + 1)
        } else {
            (s, ActionView::Ignore)
        },
        (Stage::Releasing, EventView::Released(r)) => (
            RoundView { stage: Stage::Done, ..s },
            ActionView::Finish {
                round_complete: true,
                result: match s.outcome {
                    Err(first) => Err(first),
                    Ok(()) => r,
                },
            },
        ),
        _ => (s, ActionView::Ignore),
    }
}


// ---------------------------------------------------------------------
// The transition, executed

proof fn lemma_first_index_unique(roster: Seq<Agent>, id: Seq<char>, i: int, j: int)
    requires
        first_index_of(roster, id, i),
        first_index_of(roster, id, j),
    ensures
        i == j,
{
    if i < j {
        assert(roster[i].id@ != id);
    }
    if j < i {
        assert(roster[j].id@ != id);
    }
}

pub open spec fn kind_view(k: RoundKind) -> KindView {
    match k {
        RoundKind::Sequential => KindView::Sequential,
        RoundKind::Mention { target_agent_id } => KindView::Mention(target_agent_id@),
    }
}

fn wrong_mode(kind: &RoundKind, mode: &str) -> (r: String)
    ensures
        r@ == wrong_mode_text(kind_view(*kind), mode@),
{
    let mut s = String::from_str("session is in \"");
    s.append(mode);
    match kind {
        RoundKind::Sequential => s.append(
            "\" mode, run_sequential_round only works in \"sequential\" mode",
        ),
        RoundKind::Mention { .. } => s.append(
            "\" mode, run_mention_round only works in \"mention\" mode",
        ),
    }
    s
}

impl Round {
    /// Set up a round of `kind` in session `session_id` for the user's
    /// message, and name the first action.
    pub fn begin(kind: RoundKind, session_id: String, user_message: &str) -> (r: (Round, RoundAction))
        ensures
            (r.0@, r.1@) == start(kind_view(kind), session_id@, user_message@),
    {
        let msg = trim(user_message);
        let empty = msg.as_str().is_empty();
        let mut round = Round {
            kind,
            session_id,
            user_message: msg,
            stage: Stage::LoadingSession,
            mode: String::new(),
            speakers: Vec::new(),
            agent_names: Vec::new(),
            round_number: 0,
            turn: 0,
            outcome: Ok(()),
        };
        assert(round@.speakers =~= Seq::<Agent>::empty());
        assert(round@.agent_names =~= Seq::<(String, String)>::empty());
        if empty {
            let a = round.give_up(String::from_str("message is empty"));
            (round, a)
        } else {
            (round, RoundAction::LoadSession)
        }
    }

    /// A sequential round: every agent on the roster replies in turn.
    pub fn sequential(session_id: String, user_message: &str) -> (r: (Round, RoundAction))
        ensures
            (r.0@, r.1@) == start(KindView::Sequential, session_id@, user_message@),
    {
        Round::begin(RoundKind::Sequential, session_id, user_message)
    }

    /// A mention round: only agent `target_agent_id` replies.
    pub fn mention(session_id: String, target_agent_id: String, user_message: &str) -> (r: (
        Round,
        RoundAction,
    ))
        ensures
            (r.0@, r.1@) == start(KindView::Mention(target_agent_id@), session_id@, user_message@),
    {
        Round::begin(RoundKind::Mention { target_agent_id }, session_id, user_message)
    }

    fn give_up(&mut self, e: String) -> (a: RoundAction)
        ensures
            (final(self)@, a@) == give_up(old(self)@, e@),
    {
        self.stage = Stage::Done;
        RoundAction::Finish { round_complete: false, result: Err(e) }
    }

    fn abort(&mut self, e: String) -> (a: RoundAction)
        ensures
            (final(self)@, a@) == abort(old(self)@, e@),
    {
        self.stage = Stage::Releasing;
        self.outcome = Err(e);
        RoundAction::Release
    }

    fn begin_turn(&mut self, turn: usize) -> (a: RoundAction)
        ensures
            (final(self)@, a@) == begin_turn(old(self)@, turn as int),
    {
        self.turn = turn;
        if turn < self.speakers.len() {
            self.stage = Stage::LoadingHistory;
            RoundAction::LoadHistory
        } else {
            self.stage = Stage::Releasing;
            RoundAction::Release
        }
    }

    fn report(&mut self, error: String) -> (a: RoundAction)
        requires
            old(self).turn < old(self).speakers@.len(),
        ensures
            (final(self)@, a@) == report(old(self)@, error@),
    {
        self.stage = Stage::ReportingError;
        let agent = &self.speakers[self.turn];
        RoundAction::ReportError(
            AgentError {
                session_id: self.session_id.clone(),
                round_number: self.round_number,
                agent_id: agent.id.clone(),
                agent_name: agent.name.clone(),
                error,
            },
        )
    }

    fn on_session(&mut self, r: Result<Session, String>) -> (a: RoundAction)
        requires
            old(self).stage == Stage::LoadingSession,
        ensures
            (final(self)@, a@) == next(
                old(self)@,
                EventView::SessionLoaded(
                    match r {
                        Ok(s) => Ok(s),
                        Err(e) => Err(e@),
                    },
                ),
            ),
    {
        match r {
            Err(e) => self.give_up(e),
            Ok(session) => {
                let expected = match &self.kind {
                    RoundKind::Sequential => MODE_SEQUENTIAL,
                    RoundKind::Mention { .. } => MODE_MENTION,
                };
                if !same_text(session.mode.as_str(), expected) {
                    let e = wrong_mode(&self.kind, session.mode.as_str());
                    self.give_up(e)
                } else {
                    self.stage = Stage::LoadingRoster;
                    self.mode = session.mode;
                    RoundAction::LoadRoster
                }
            },
        }
    }

    fn on_roster(&mut self, r: Result<Vec<Agent>, String>) -> (a: RoundAction)
        requires
            old(self).stage == Stage::LoadingRoster,
        ensures
            (final(self)@, a@) == next(
                old(self)@,
                EventView::RosterLoaded(
                    match r {
                        Ok(v) => Ok(v@),
                        Err(e) => Err(e@),
                    },
                ),
            ),
    {
        match r {
            Err(e) => self.give_up(e),
            Ok(mut roster) => {
                match &self.kind {
                    RoundKind::Sequential => {
                        if roster.len() == 0 {
                            self.give_up(
                                String::from_str(
                                    "session has no agents, add at least one before sending",
                                ),
                            )
                        } else {
                            self.stage = Stage::Claiming;
                            self.speakers = roster;
                            RoundAction::Claim
                        }
                    },
                    RoundKind::Mention { target_agent_id } => {
                        let ghost old_roster = roster@;
                        match roster_index(roster.as_slice(), target_agent_id.as_str()) {
                            None => {
                                let e = not_in_roster(target_agent_id.as_str());
                                self.give_up(e)
                            },
                            Some(i) => {
                                proof {
                                    let c = choose|j: int|
                                        first_index_of(old_roster, target_agent_id@, j);
                                    lemma_first_index_unique(
                                        old_roster,
                                        target_agent_id@,
                                        i as int,
                                        c,
                                    );
                                }
                                let target = roster.swap_remove(i);
                                let mut speakers: Vec<Agent> = Vec::new();
                                speakers.push(target);
                                assert(speakers@ =~= seq![old_roster[i as int]]);
                                self.stage = Stage::Claiming;
                                self.speakers = speakers;
                                RoundAction::Claim
                            },
                        }
                    },
                }
            },
        }
    }

    fn on_claim(&mut self, r: Result<u64, String>) -> (a: RoundAction)
        requires
            old(self).stage == Stage::Claiming,
        ensures
            (final(self)@, a@) == next(
                old(self)@,
                EventView::Claimed(
                    match r {
                        Ok(n) => Ok(n),
                        Err(e) => Err(e@),
                    },
                ),
            ),
    {
        match r {
            Err(e) => self.give_up(e),
            Ok(rows) => match crate::session::claim_result(rows) {
                Err(e) => self.give_up(e),
                Ok(()) => {
                    self.stage = Stage::LoadingRoundNumber;
                    RoundAction::LoadHighestRound
                },
            },
        }
    }

    fn on_highest_round(&mut self, r: Result<Option<i64>, String>) -> (a: RoundAction)
        requires
            old(self).stage == Stage::LoadingRoundNumber,
        ensures
            (final(self)@, a@) == next(
                old(self)@,
                EventView::HighestRoundLoaded(
                    match r {
                        Ok(h) => Ok(h),
                        Err(e) => Err(e@),
                    },
                ),
            ),
    {
        match r {
            Err(e) => self.abort(e),
            Ok(highest) => match crate::session::next_round_number(highest) {
                None => self.abort(String::from_str("round number out of range")),
                Some(n) => {
                    let refers_to = match &self.kind {
                        RoundKind::Sequential => None,
                        RoundKind::Mention { target_agent_id } => Some(target_agent_id.clone()),
                    };
                    self.stage = Stage::StoringUserMessage;
                    self.round_number = n;
                    RoundAction::StoreMessage(
                        MessageDraft {
                            agent_id: None,
                            round_number: n,
                            content: self.user_message.clone(),
                            refers_to,
                        },
                    )
                },
            },
        }
    }

    fn on_user_stored(&mut self, r: Result<(), String>) -> (a: RoundAction)
        requires
            old(self).stage == Stage::StoringUserMessage,
        ensures
            (final(self)@, a@) == next(old(self)@, EventView::MessageStored(unit_result_view(r))),
    {
        match r {
            Err(e) => self.abort(e),
            Ok(()) => {
                self.stage = Stage::LoadingNames;
                RoundAction::LoadNames
            },
        }
    }

    fn on_names(&mut self, r: Result<Vec<(String, String)>, String>) -> (a: RoundAction)
        requires
            old(self).stage == Stage::LoadingNames,
        ensures
            (final(self)@, a@) == next(
                old(self)@,
                EventView::NamesLoaded(
                    match r {
                        Ok(v) => Ok(v@),
                        Err(e) => Err(e@),
                    },
                ),
            ),
    {
        match r {
            Err(e) => self.abort(e),
            Ok(names) => {
                self.agent_names = names;
                self.begin_turn(0)
            },
        }
    }

    fn on_history(&mut self, r: Result<Vec<Message>, String>) -> (a: RoundAction)
        requires
            old(self).stage == Stage::LoadingHistory,
        ensures
            (final(self)@, a@) == next(
                old(self)@,
                EventView::HistoryLoaded(
                    match r {
                        Ok(v) => Ok(v@),
                        Err(e) => Err(e@),
                    },
                ),
            ),
    {
        if self.turn >= self.speakers.len() {
            return RoundAction::Ignore;
        }
        match r {
            Err(e) => self.abort(e),
            Ok(history) => {
                let agent = self.speakers[self.turn].duplicate();
                let system_prompt = effective_system_prompt(&agent, self.mode.as_str());
                let messages = build_history_for(
                    agent.id.as_str(),
                    history.as_slice(),
                    self.agent_names.as_slice(),
                );
                proof {
                    assert(messages@.map_values(|m: ChatMessage| chat_view(m)) =~= history_view(
                        agent.id@,
                        history@,
                        self.agent_names@,
                    ));
                }
                self.stage = Stage::AwaitingReply;
                RoundAction::RequestReply(ReplyRequest { agent, system_prompt, messages })
            },
        }
    }

    fn on_reply(&mut self, r: Result<String, String>) -> (a: RoundAction)
        requires
            old(self).stage == Stage::AwaitingReply,
        ensures
            (final(self)@, a@) == next(
                old(self)@,
                EventView::ReplyReceived(
                    match r {
                        Ok(t) => Ok(t@),
                        Err(e) => Err(e@),
                    },
                ),
            ),
    {
        if self.turn >= self.speakers.len() {
            return RoundAction::Ignore;
        }
        match r {
            Err(e) => self.report(e),
            Ok(raw) => {
                let reply = strip_self_label(raw.as_str(), self.speakers[self.turn].name.as_str());
                if reply.as_str().is_empty() {
                    self.report(String::from_str("provider returned an empty reply"))
                } else {
                    let agent_id = self.speakers[self.turn].id.clone();
                    self.stage = Stage::StoringReply;
                    RoundAction::StoreMessage(
                        MessageDraft {
                            agent_id: Some(agent_id),
                            round_number: self.round_number,
                            content: reply,
                            refers_to: None,
                        },
                    )
                }
            },
        }
    }

    fn on_reply_stored(&mut self, r: Result<(), String>) -> (a: RoundAction)
        requires
            old(self).stage == Stage::StoringReply,
        ensures
            (final(self)@, a@) == next(old(self)@, EventView::MessageStored(unit_result_view(r))),
    {
        if self.turn >= self.speakers.len() {
            return RoundAction::Ignore;
        }
        match r {
            Err(e) => self.abort(e),
            Ok(()) => {
                let t = self.turn + 1;
                self.begin_turn(t)
            },
        }
    }

    fn on_error_reported(&mut self) -> (a: RoundAction)
        requires
            old(self).stage == Stage::ReportingError,
        ensures
            (final(self)@, a@) == next(old(self)@, EventView::ErrorReported),
    {
        if self.turn >= self.speakers.len() {
            return RoundAction::Ignore;
        }
        let t = self.turn + 1;
        self.begin_turn(t)
    }

    fn on_released(&mut self, r: Result<(), String>) -> (a: RoundAction)
        requires
            old(self).stage == Stage::Releasing,
        ensures
            (final(self)@, a@) == next(old(self)@, EventView::Released(unit_result_view(r))),
    {
        self.stage = Stage::Done;
        let result = match &self.outcome {
            Err(first) => Err(first.clone()),
            Ok(()) => r,
        };
        RoundAction::Finish { round_complete: true, result }
    }

    /// Advance the round by the outcome of the last action, and name the
    /// next action. An event that does not answer the round's pending
    /// action changes nothing and yields [`RoundAction::Ignore`].
    pub fn step(&mut self, event: RoundEvent) -> (a: RoundAction)
        ensures
            (final(self)@, a@) == next(old(self)@, event@),
    {
        match event {
            RoundEvent::SessionLoaded(r) => if self.stage == Stage::LoadingSession {
                self.on_session(r)
            } else {
                RoundAction::Ignore
            },
            RoundEvent::RosterLoaded(r) => if self.stage == Stage::LoadingRoster {
                self.on_roster(r)
            } else {
                RoundAction::Ignore
            },
            RoundEvent::Claimed(r) => if self.stage == Stage::Claiming {
                self.on_claim(r)
            } else {
                RoundAction::Ignore
            },
            RoundEvent::HighestRoundLoaded(r) => if self.stage == Stage::LoadingRoundNumber {
                self.on_highest_round(r)
            } else {
                RoundAction::Ignore
            },
            RoundEvent::MessageStored(r) => if self.stage == Stage::StoringUserMessage {
                self.on_user_stored(r)
            } else if self.stage == Stage::StoringReply {
                self.on_reply_stored(r)
            } else {
                RoundAction::Ignore
            },
            RoundEvent::NamesLoaded(r) => if self.stage == Stage::LoadingNames {
                self.on_names(r)
            } else {
                RoundAction::Ignore
            },
            RoundEvent::HistoryLoaded(r) => if self.stage == Stage::LoadingHistory {
                self.on_history(r)
            } else {
                RoundAction::Ignore
            },
            RoundEvent::ReplyReceived(r) => if self.stage == Stage::AwaitingReply {
                self.on_reply(r)
            } else {
                RoundAction::Ignore
            },
            RoundEvent::ErrorReported => if self.stage == Stage::ReportingError {
                self.on_error_reported()
            } else {
                RoundAction::Ignore
            },
            RoundEvent::Released(r) => if self.stage == Stage::Releasing {
                self.on_released(r)
            } else {
                RoundAction::Ignore
            },
        }
    }
}


// ---------------------------------------------------------------------
// Laws of a round

/// The state invariant of a round.
pub open spec fn wf(s: RoundView) -> bool {
    &&& 0 <= s.turn <= s.speakers.len()
    &&& is_turn_stage(s.stage) ==> s.turn < s.speakers.len()
    &&& is_claimed_stage(s.stage) ==> s.outcome is Ok
    &&& (s.stage == Stage::LoadingSession || s.stage == Stage::LoadingRoster || s.stage
        == Stage::Claiming) ==> s.turn == 0 && s.outcome is Ok
    &&& (s.stage == Stage::Releasing && s.outcome is Ok) ==> s.turn == s.speakers.len()
}

/// Stages from the claim on: the speakers are fixed and the session will
/// be released.
pub open spec fn is_speaking_phase(stage: Stage) -> bool {
    is_claimed_stage(stage) || stage == Stage::Releasing || stage == Stage::Done
}

/// Index of the next speaker to be asked for a reply.
pub open spec fn next_speaker(s: RoundView) -> int {
    match s.stage {
        Stage::LoadingHistory | Stage::Releasing | Stage::Done => s.turn,
        Stage::AwaitingReply | Stage::StoringReply | Stage::ReportingError => s.turn + 1,
        _ => 0,
    }
}

/// Every round starts in a state that satisfies the invariant.
pub proof fn lemma_start_wf(kind: KindView, session_id: Seq<char>, raw_message: Seq<char>)
    ensures
        wf(start(kind, session_id, raw_message).0),
{
}

/// Every step keeps the invariant.
pub proof fn lemma_next_wf(s: RoundView, e: EventView)
    requires
        wf(s),
    ensures
        wf(next(s, e).0),
{
    match e {
        EventView::SessionLoaded(_) => {},
        EventView::RosterLoaded(_) => {},
        EventView::Claimed(_) => {},
        EventView::HighestRoundLoaded(_) => {},
        EventView::MessageStored(_) => {},
        EventView::NamesLoaded(_) => {},
        EventView::HistoryLoaded(_) => {},
        EventView::ReplyReceived(_) => {},
        EventView::ErrorReported => {},
        EventView::Released(_) => {},
    }
}

/// The session is claimed exactly when the claim changed a row; once
/// claimed the round enters its speaking phase with the speakers fixed.
pub proof fn lemma_claim(s: RoundView, e: EventView)
    requires
        s.stage == Stage::Claiming,
        e matches EventView::Claimed(Ok(rows)) && rows > 0,
    ensures
        next(s, e).0 == (RoundView { stage: Stage::LoadingRoundNumber, ..s }),
        next(s, e).1 == ActionView::LoadHighestRound,
{
}

/// Before the session is claimed, a round never releases the session and
/// never announces `round-complete`: it either goes on or gives up.
pub proof fn lemma_no_release_before_claim(s: RoundView, e: EventView)
    requires
        s.stage == Stage::LoadingSession || s.stage == Stage::LoadingRoster || s.stage
            == Stage::Claiming,
    ensures
        next(s, e).1 != ActionView::Release,
        next(s, e).1 matches ActionView::Finish { round_complete, .. } ==> !round_complete,
        next(s, e).0.stage != Stage::Releasing,
        !is_claimed_stage(next(s, e).0.stage) || next(s, e).0.stage == Stage::LoadingRoundNumber,
{
}

/// A mention round gives the turn to the mentioned agent only, found by
/// id on the roster; an agent not on the roster is refused.
pub proof fn lemma_mention_target(s: RoundView, roster: Seq<Agent>)
    requires
        s.stage == Stage::LoadingRoster,
        s.kind is Mention,
    ensures
        ({
            let target = s.kind->Mention_0;
            let (s2, a) = next(s, EventView::RosterLoaded(Ok(roster)));
            if exists|i: int| first_index_of(roster, target, i) {
                exists|i: int|
                    first_index_of(roster, target, i) && s2.speakers == seq![roster[i]]
                        && a == ActionView::Claim
            } else {
                a == ActionView::Finish {
                    round_complete: false,
                    result: Err(not_in_roster_text(target)),
                }
            }
        }),
{
}

/// After the claim, any failure of the round's own storage work (loading
/// the round number, storing a message, loading names or history) stops
/// the round and releases the session, remembering the error.
pub proof fn lemma_failure_after_claim_releases(s: RoundView, e: EventView, err: Seq<char>)
    requires
        wf(s),
        match s.stage {
            Stage::LoadingRoundNumber => e == EventView::HighestRoundLoaded(Err(err)),
            Stage::StoringUserMessage | Stage::StoringReply => e == EventView::MessageStored(
                Err(err),
            ),
            Stage::LoadingNames => e == EventView::NamesLoaded(Err(err)),
            Stage::LoadingHistory => e == EventView::HistoryLoaded(Err(err)),
            _ => false,
        },
    ensures
        next(s, e).0 == (RoundView { stage: Stage::Releasing, outcome: Err(err), ..s }),
        next(s, e).1 == ActionView::Release,
{
}

/// Releasing ends the round: `round-complete` is announced, and the result
/// is the first error of the round if there was one, else the release's.
pub proof fn lemma_release_finishes(s: RoundView, r: Result<(), Seq<char>>)
    requires
        s.stage == Stage::Releasing,
    ensures
        next(s, EventView::Released(r)).0.stage == Stage::Done,
        next(s, EventView::Released(r)).1 == (ActionView::Finish {
            round_complete: true,
            result: match s.outcome {
                Err(first) => Err(first),
                Ok(()) => r,
            },
        }),
{
}

/// A finished round stays finished.
pub proof fn lemma_done_is_final(s: RoundView, e: EventView)
    requires
        s.stage == Stage::Done,
    ensures
        next(s, e) == (s, ActionView::Ignore),
{
}

/// The agent whose turn it is gets the whole transcript as it stands, in
/// its own view, with its effective system prompt.
pub proof fn lemma_reply_request(s: RoundView, history: Seq<Message>)
    requires
        wf(s),
        s.stage == Stage::LoadingHistory,
    ensures
        ({
            let agent = s.speakers[s.turn];
            next(s, EventView::HistoryLoaded(Ok(history))) == (
                RoundView { stage: Stage::AwaitingReply, ..s },
                ActionView::RequestReply {
                    agent,
                    system_prompt: effective_prompt(opt_view(agent.system_prompt), s.mode),
                    messages: history_view(agent.id@, history, s.agent_names),
                },
            )
        }),
{
}

/// One agent failing (no reply, or an empty one) does not stop the round:
/// the failure is reported for that agent and never stored, and then the
/// next agent's turn begins (or the session is released after the last).
pub proof fn lemma_failed_reply_moves_on(s: RoundView, r: Result<Seq<char>, Seq<char>>)
    requires
        wf(s),
        s.stage == Stage::AwaitingReply,
        match r {
            Err(_) => true,
            Ok(raw) => strip_self_label_text(raw, s.speakers[s.turn].name@).len() == 0,
        },
    ensures
        ({
            let agent = s.speakers[s.turn];
            let (s2, a) = next(s, EventView::ReplyReceived(r));
            let (s3, a3) = next(s2, EventView::ErrorReported);
            &&& a == ActionView::ReportError {
                session_id: s.session_id,
                round_number: s.round_number,
                agent_id: agent.id@,
                agent_name: agent.name@,
                error: match r {
                    Err(err) => err,
                    Ok(_) => empty_reply_text(),
                },
            }
            &&& s3 == begin_turn(s, s.turn + 1).0
            &&& a3 == begin_turn(s, s.turn + 1).1
            &&& s3.outcome == s.outcome
        }),
{
}

/// A usable reply is stored, cleaned of the agent's own label, under the
/// agent's id and the round's number; once stored, the next agent's turn
/// begins (or the session is released after the last).
pub proof fn lemma_reply_stored_moves_on(s: RoundView, raw: Seq<char>)
    requires
        wf(s),
        s.stage == Stage::AwaitingReply,
        strip_self_label_text(raw, s.speakers[s.turn].name@).len() > 0,
    ensures
        ({
            let agent = s.speakers[s.turn];
            let (s2, a) = next(s, EventView::ReplyReceived(Ok(raw)));
            let (s3, a3) = next(s2, EventView::MessageStored(Ok(())));
            &&& a == ActionView::StoreMessage {
                agent_id: Some(agent.id@),
                round_number: s.round_number,
                content: strip_self_label_text(raw, agent.name@),
                refers_to: None,
            }
            &&& s3 == begin_turn(s, s.turn + 1).0
            &&& a3 == begin_turn(s, s.turn + 1).1
        }),
{
}


/// The state reached and the actions named when a round in state `s` is
/// fed the events `evs` in order.
pub open spec fn run(s: RoundView, evs: Seq<EventView>) -> (RoundView, Seq<ActionView>)
    decreases evs.len(),
{
    if evs.len() == 0 {
        (s, Seq::empty())
    } else {
        let (s1, a) = next(s, evs[0]);
        let (s2, acts) = run(s1, evs.drop_first());
        (s2, seq![a] + acts)
    }
}

/// The agents asked for a reply by `acts`, in order.
pub open spec fn asked(acts: Seq<ActionView>) -> Seq<Agent>
    decreases acts.len(),
{
    if acts.len() == 0 {
        Seq::empty()
    } else {
        match acts[0] {
            ActionView::RequestReply { agent, .. } => seq![agent] + asked(acts.drop_first()),
            _ => asked(acts.drop_first()),
        }
    }
}

/// `acts` finish the round successfully: `round-complete` and no error.
pub open spec fn finished_ok(acts: Seq<ActionView>) -> bool
    decreases acts.len(),
{
    acts.len() > 0 && (acts[0] == (ActionView::Finish { round_complete: true, result: Ok(()) })
        || finished_ok(acts.drop_first()))
}

proof fn lemma_step_speaking(s: RoundView, e: EventView)
    requires
        wf(s),
        is_speaking_phase(s.stage),
    ensures
        ({
            let (s2, a) = next(s, e);
            &&& wf(s2)
            &&& is_speaking_phase(s2.stage)
            &&& s2.speakers == s.speakers
            &&& 0 <= next_speaker(s) <= s.speakers.len()
            &&& s.outcome is Err ==> s2.outcome is Err
            &&& a is RequestReply ==> next_speaker(s) < s.speakers.len() && a->agent
                == s.speakers[next_speaker(s)] && next_speaker(s2) == next_speaker(s) + 1
            &&& !(a is RequestReply) ==> (s2.outcome is Err || next_speaker(s2) == next_speaker(s))
            &&& a == (ActionView::Finish { round_complete: true, result: Ok(()) }) ==> (s.outcome is Ok
                && next_speaker(s) == s.speakers.len())
        }),
{
    lemma_next_wf(s, e);
    match e {
        EventView::SessionLoaded(_) => {},
        EventView::RosterLoaded(_) => {},
        EventView::Claimed(_) => {},
        EventView::HighestRoundLoaded(_) => {},
        EventView::MessageStored(_) => {},
        EventView::NamesLoaded(_) => {},
        EventView::HistoryLoaded(_) => {},
        EventView::ReplyReceived(_) => {},
        EventView::ErrorReported => {},
        EventView::Released(_) => {},
    }
}

/// Once the session is claimed, agents are asked for replies strictly one
/// at a time in speaking order, each at most once: whatever happens, the
/// agents asked from state `s` on are the next speakers in order. And a
/// round that finishes without error has asked every remaining speaker;
/// for a sequential round claimed with its roster, that is every agent on
/// the roster, in roster order.
pub proof fn lemma_speakers_in_order(s: RoundView, evs: Seq<EventView>)
    requires
        wf(s),
        is_speaking_phase(s.stage),
    ensures
        ({
            let acts = run(s, evs).1;
            let k = asked(acts).len();
            &&& next_speaker(s) + k <= s.speakers.len()
            &&& asked(acts) == s.speakers.subrange(next_speaker(s), next_speaker(s) + k)
            &&& finished_ok(acts) ==> s.outcome is Ok && next_speaker(s) + k == s.speakers.len()
            &&& (s.stage == Stage::Releasing || s.stage == Stage::Done) ==> k == 0
        }),
    decreases evs.len(),
{
    lemma_step_speaking(s, if evs.len() > 0 { evs[0] } else { EventView::ErrorReported });
    if evs.len() == 0 {
        assert(s.speakers.subrange(next_speaker(s), next_speaker(s)) =~= Seq::<Agent>::empty());
    } else {
        let (s1, a) = next(s, evs[0]);
        let (s2, rest) = run(s1, evs.drop_first());
        lemma_speakers_in_order(s1, evs.drop_first());
        let acts = seq![a] + rest;
        assert(acts.drop_first() =~= rest);
        assert(acts[0] == a);
        let p = next_speaker(s);
        let kr = asked(rest).len();
        assert(run(s, evs) == (s2, acts));
        if a is RequestReply {
            assert(asked(acts) =~= seq![s.speakers[p]] + asked(rest));
            assert(asked(acts) =~= s.speakers.subrange(p, p + 1 + kr));
        } else {
            assert(asked(acts) == asked(rest));
            if s1.outcome is Err {
                assert(s1.stage == Stage::Releasing || s1.stage == Stage::Done);
                assert(kr == 0);
                assert(asked(acts) =~= s.speakers.subrange(p, p));
            }
        }
        if finished_ok(acts) {
            if a == (ActionView::Finish { round_complete: true, result: Ok(()) }) {
                assert(s.stage == Stage::Releasing);
            } else {
                assert(finished_ok(rest));
            }
        }
    }
}


/// A sequential round asks the agents of its roster for replies in roster
/// order, each at most once, and one that finishes without error has asked
/// every agent on the roster exactly once.
pub proof fn lemma_sequential_round_asks_roster(
    s: RoundView,
    roster: Seq<Agent>,
    rows: u64,
    evs: Seq<EventView>,
)
    requires
        wf(s),
        s.stage == Stage::LoadingRoster,
        s.kind is Sequential,
        roster.len() > 0,
        rows > 0,
    ensures
        ({
            let s1 = next(s, EventView::RosterLoaded(Ok(roster))).0;
            let s2 = next(s1, EventView::Claimed(Ok(rows))).0;
            let acts = run(s2, evs).1;
            &&& asked(acts) == roster.subrange(0, asked(acts).len() as int)
            &&& finished_ok(acts) ==> asked(acts) == roster
        }),
{
    let s1 = next(s, EventView::RosterLoaded(Ok(roster))).0;
    let s2 = next(s1, EventView::Claimed(Ok(rows))).0;
    assert(s2.speakers == roster);
    lemma_speakers_in_order(s2, evs);
    let acts = run(s2, evs).1;
    if finished_ok(acts) {
        assert(roster.subrange(0, roster.len() as int) =~= roster);
    }
}

/// The round number of every message stored after the user's own (all of
/// the round's replies) is the round's number, which no longer changes.
pub proof fn lemma_round_number_shared(s: RoundView, e: EventView)
    requires
        wf(s),
        is_speaking_phase(s.stage),
        s.stage != Stage::LoadingRoundNumber,
    ensures
        next(s, e).0.round_number == s.round_number,
        next(s, e).1 matches ActionView::StoreMessage { round_number, .. } ==> round_number
            == s.round_number,
{
    match e {
        EventView::SessionLoaded(_) => {},
        EventView::RosterLoaded(_) => {},
        EventView::Claimed(_) => {},
        EventView::HighestRoundLoaded(_) => {},
        EventView::MessageStored(_) => {},
        EventView::NamesLoaded(_) => {},
        EventView::HistoryLoaded(_) => {},
        EventView::ReplyReceived(_) => {},
        EventView::ErrorReported => {},
        EventView::Released(_) => {},
    }
}

/// The round's number is one past the session's highest so far (1 for the
/// first round), and the user's message is stored first under it: with no
/// author, its content the trimmed message, and (in a mention round)
/// referring to the mentioned agent.
pub proof fn lemma_user_message_opens_round(s: RoundView, highest: Option<i64>)
    requires
        s.stage == Stage::LoadingRoundNumber,
        highest matches Some(h) ==> h < i64::MAX,
    ensures
        ({
            let n: int = match highest {
                None => 1,
                Some(h) => h + 1,
            };
            let (s2, a) = next(s, EventView::HighestRoundLoaded(Ok(highest)));
            &&& s2.round_number == n
            &&& a == (ActionView::StoreMessage {
                agent_id: None,
                round_number: n as i64,
                content: s.user_message,
                refers_to: match s.kind {
                    KindView::Sequential => None,
                    KindView::Mention(target) => Some(target),
                },
            })
        }),
{
}


/// In `acts`, a `Release` comes before any `Finish`.
pub open spec fn released_before_finish(acts: Seq<ActionView>) -> bool
    decreases acts.len(),
{
    if acts.len() == 0 {
        true
    } else if acts[0] is Finish {
        false
    } else if acts[0] == ActionView::Release {
        true
    } else {
        released_before_finish(acts.drop_first())
    }
}

/// Every `Finish` in `acts` announces `round-complete`.
pub open spec fn finishes_complete(acts: Seq<ActionView>) -> bool
    decreases acts.len(),
{
    if acts.len() == 0 {
        true
    } else {
        (acts[0] matches ActionView::Finish { round_complete, .. } ==> round_complete)
            && finishes_complete(acts.drop_first())
    }
}

/// Once the session has been claimed for a round, the round cannot end
/// without releasing it first, and it always ends by announcing
/// `round-complete`, however the round went.
pub proof fn lemma_claimed_round_always_released(s: RoundView, evs: Seq<EventView>)
    requires
        wf(s),
        is_speaking_phase(s.stage),
    ensures
        finishes_complete(run(s, evs).1),
        is_claimed_stage(s.stage) ==> released_before_finish(run(s, evs).1),
    decreases evs.len(),
{
    if evs.len() > 0 {
        let (s1, a) = next(s, evs[0]);
        lemma_step_speaking(s, evs[0]);
        lemma_claimed_round_always_released(s1, evs.drop_first());
        let rest = run(s1, evs.drop_first()).1;
        let acts = seq![a] + rest;
        assert(acts.drop_first() =~= rest);
        assert(acts[0] == a);
        assert(run(s, evs).1 == acts);
        if is_claimed_stage(s.stage) {
            match evs[0] {
                EventView::SessionLoaded(_) => {},
                EventView::RosterLoaded(_) => {},
                EventView::Claimed(_) => {},
                EventView::HighestRoundLoaded(_) => {},
                EventView::MessageStored(_) => {},
                EventView::NamesLoaded(_) => {},
                EventView::HistoryLoaded(_) => {},
                EventView::ReplyReceived(_) => {},
                EventView::ErrorReported => {},
                EventView::Released(_) => {},
            }
            assert(!(a is Finish));
            assert(a != ActionView::Release ==> is_claimed_stage(s1.stage));
        }
        if a is Finish {
            assert(s.stage == Stage::Releasing);
        }
    }
}


/// Loading the session only checks its mode against the kind of round: a
/// session of the right mode goes on to its roster whatever its status
/// (a session that finished a round is "awaiting_user"); refusing a
/// session that is already running is the claim's job alone.
pub proof fn lemma_session_status_not_checked(s: RoundView, session: Session)
    requires
        s.stage == Stage::LoadingSession,
        (s.kind is Sequential && session.mode@ == "sequential"@) || (s.kind is Mention
            && session.mode@ == "mention"@),
    ensures
        next(s, EventView::SessionLoaded(Ok(session))).0 == (RoundView {
            stage: Stage::LoadingRoster,
            mode: session.mode@,
            ..s
        }),
        next(s, EventView::SessionLoaded(Ok(session))).1 == ActionView::LoadRoster,
{
}

/// Two loaded sessions of the same mode lead a round to the same step,
/// whatever their status, topic or creation time.
pub proof fn lemma_session_status_irrelevant(s: RoundView, a: Session, b: Session)
    requires
        a.mode@ == b.mode@,
    ensures
        next(s, EventView::SessionLoaded(Ok(a))) == next(s, EventView::SessionLoaded(Ok(b))),
{
}

} // verus!
