//! How a session's shared transcript is shown to the agent about to speak,
//! how its system prompt is put together, and how its reply is cleaned up.

use vstd::prelude::*;
use crate::agent::Agent;
use crate::providers::{ChatMessage, Role};
use crate::session::{Message, MODE_SEQUENTIAL};
use crate::text::opt_view;
use crate::text::{
    chars_of, lemma_trim_fixed, lemma_trim_seq_shape, lemma_trim_start_suffix, same_text,
    skip_white_backward, skip_white_forward, trim_seq, trim_start_seq,
};

verus! {

/// Label prefixed to the user's messages in every agent's view of the
/// transcript.
pub const USER_LABEL: &'static str = "User";

/// Label for a message whose author has since been deleted from the agents.
pub const REMOVED_AGENT_LABEL: &'static str = "已移除的Agent";

/// Appended to each agent's own system prompt while the session is in
/// sequential mode, so replies stay short enough to read as a live
/// back-and-forth instead of everyone writing an essay in turn.
pub const SEQUENTIAL_MODE_GUIDELINES: &'static str = "You are in a group discussion round. Please follow these rules:
- Other speakers' messages are prefixed with a [Name]: label; do not add a label to your own reply
- Keep your answer under 200 words and give your core judgement and reasons directly, without pleasantries or repeating what was already said
- If your view basically matches what has already been said, say in one sentence which specific point of whom you agree with instead of arguing it again
- If the earlier messages miss an angle, or say something you disagree with, point it out clearly and explain why
- Do not summarise or restate the question itself
- If the question needs a detailed argument, only note that there is room for deeper analysis here; the user can then call on you by name to expand";

// ---------------------------------------------------------------------
// Transcript -> one agent's view

/// The name of agent `id` in the id -> name list `names`; a later entry
/// overrides an earlier one with the same id.
pub open spec fn lookup_name(names: Seq<(String, String)>, id: Seq<char>) -> Option<Seq<char>>
    decreases names.len(),
{
    if names.len() == 0 {
        None
    } else if names.last().0@ == id {
        Some(names.last().1@)
    } else {
        lookup_name(names.drop_last(), id)
    }
}

/// The label a message is shown under: "User" for the user, the author's
/// name for an agent, or the removed-agent label for an unknown author.
pub open spec fn speaker_label(m: Message, names: Seq<(String, String)>) -> Seq<char> {
    match m.agent_id {
        Some(id) => match lookup_name(names, id@) {
            Some(n) => n,
            None => REMOVED_AGENT_LABEL@,
        },
        None => USER_LABEL@,
    }
}

/// `m` was written by the agent `current`.
pub open spec fn is_own_message(m: Message, current: Seq<char>) -> bool {
    m.agent_id matches Some(id) && id@ == current
}

/// `"[label]: content"`.
pub open spec fn labelled_text(label: Seq<char>, content: Seq<char>) -> Seq<char> {
    "["@ + label + "]: "@ + content
}

/// The role message `m` is presented under to agent `current`.
pub open spec fn history_role(m: Message, current: Seq<char>) -> Role {
    if is_own_message(m, current) {
        Role::Assistant
    } else {
        Role::User
    }
}

/// The text message `m` is presented with to agent `current`.
pub open spec fn history_text(
    m: Message,
    current: Seq<char>,
    names: Seq<(String, String)>,
) -> Seq<char> {
    if is_own_message(m, current) {
        m.content@
    } else {
        labelled_text(speaker_label(m, names), m.content@)
    }
}

/// `out` is the transcript `messages` as agent `current` is shown it.
pub open spec fn is_history_for(
    out: Seq<ChatMessage>,
    current: Seq<char>,
    messages: Seq<Message>,
    names: Seq<(String, String)>,
) -> bool {
    &&& out.len() == messages.len()
    &&& forall|k: int|
        0 <= k < messages.len() ==> (#[trigger] out[k]).role == history_role(messages[k], current)
            && out[k].content@ == history_text(messages[k], current, names)
}

fn find_name<'a>(names: &'a [(String, String)], id: &str) -> (r: Option<&'a String>)
    ensures
        match r {
            Some(n) => lookup_name(names@, id@) == Some(n@),
            None => lookup_name(names@, id@) is None,
        },
{
    let mut i = names.len();
    assert(names@.take(i as int) =~= names@);
    while i > 0
        invariant
            i <= names@.len(),
            lookup_name(names@, id@) == lookup_name(names@.take(i as int), id@),
        decreases i,
    {
        let ghost t = names@.take(i as int);
        assert(t.last() == names@[i - 1]);
        assert(t.drop_last() =~= names@.take(i - 1));
        if same_text(names[i - 1].0.as_str(), id) {
            return Some(&names[i - 1].1);
        }
        i = i - 1;
    }
    None
}

fn labelled(label: &str, content: &str) -> (r: String)
    ensures
        r@ == labelled_text(label@, content@),
{
    let mut s = String::from_str("[");
    s.append(label);
    s.append("]: ");
    s.append(content);
    s
}

/// Turn the session transcript into the message list for the agent
/// `current_agent_id` that is about to speak.
///
/// - Messages that agent wrote itself become `assistant` turns, content
///   untouched.
/// - Everything else (the user, every other agent) becomes a `user` turn,
///   its content prefixed with the speaker's label: `[User]: ...` for the
///   user, `[<agent name>]: ...` for another agent, and the removed-agent
///   label for an author no longer in `agent_names`.
pub fn build_history_for(
    current_agent_id: &str,
    messages: &[Message],
    agent_names: &[(String, String)],
) -> (r: Vec<ChatMessage>)
    ensures
        is_history_for(r@, current_agent_id@, messages@, agent_names@),
{
    let mut out: Vec<ChatMessage> = Vec::new();
    let mut i: usize = 0;
    while i < messages.len()
        invariant
            i <= messages@.len(),
            out@.len() == i,
            forall|k: int|
                0 <= k < i ==> (#[trigger] out@[k]).role == history_role(
                    messages@[k],
                    current_agent_id@,
                ) && out@[k].content@ == history_text(messages@[k], current_agent_id@, agent_names@),
        decreases messages@.len() - i,
    {
        let m = &messages[i];
        let entry = match &m.agent_id {
            Some(id) => {
                if same_text(id.as_str(), current_agent_id) {
                    ChatMessage { role: Role::Assistant, content: m.content.clone() }
                } else {
                    let content = match find_name(agent_names, id.as_str()) {
                        Some(name) => labelled(name.as_str(), m.content.as_str()),
                        None => labelled(REMOVED_AGENT_LABEL, m.content.as_str()),
                    };
                    ChatMessage { role: Role::User, content }
                }
            },
            None => ChatMessage {
                role: Role::User,
                content: labelled(USER_LABEL, m.content.as_str()),
            },
        };
        out.push(entry);
        i = i + 1;
    }
    out
}

// ---------------------------------------------------------------------
// System prompt

/// The system prompt actually sent for one turn: the agent's own prompt
/// unmodified, with the sequential-mode guidelines appended (after a blank
/// line) only while the session is in sequential mode.
pub open spec fn effective_prompt(own: Option<Seq<char>>, mode: Seq<char>) -> Option<Seq<char>> {
    if mode != MODE_SEQUENTIAL@ {
        own
    } else {
        Some(
            match own {
                Some(base) => base + "\n\n"@ + SEQUENTIAL_MODE_GUIDELINES@,
                None => SEQUENTIAL_MODE_GUIDELINES@,
            },
        )
    }
}

/// The system prompt actually sent for one of `agent`'s turns in a session
/// whose mode is `mode`.
pub fn effective_system_prompt(agent: &Agent, mode: &str) -> (r: Option<String>)
    ensures
        opt_view(r) == effective_prompt(opt_view(agent.system_prompt), mode@),
{
    if !same_text(mode, MODE_SEQUENTIAL) {
        return crate::agent::copy_opt_string(&agent.system_prompt);
    }
    match &agent.system_prompt {
        Some(base) => {
            let mut s = base.clone();
            s.append("\n\n");
            s.append(SEQUENTIAL_MODE_GUIDELINES);
            Some(s)
        },
        None => Some(String::from_str(SEQUENTIAL_MODE_GUIDELINES)),
    }
}

// ---------------------------------------------------------------------
// Reply clean-up

/// `[name]` followed by `colon`.
pub open spec fn self_label(name: Seq<char>, colon: char) -> Seq<char> {
    seq!['['] + name + seq![']', colon]
}

/// A reply with surrounding white space removed and, when it starts with
/// the speaker's own label `[name]:` or `[name]：` (full-width colon), that
/// one label and the white space after it removed too.
pub open spec fn strip_self_label_text(reply: Seq<char>, name: Seq<char>) -> Seq<char> {
    let t = trim_seq(reply);
    let ascii = self_label(name, ':');
    let wide = self_label(name, '：');
    if ascii.is_prefix_of(t) {
        trim_start_seq(t.skip(ascii.len() as int))
    } else if wide.is_prefix_of(t) {
        trim_start_seq(t.skip(wide.len() as int))
    } else {
        t
    }
}

/// A cleaned reply is a trailing part of the trimmed reply, and is itself
/// already trimmed: no white space is left at either end.
pub proof fn lemma_stripped_reply_is_trimmed(reply: Seq<char>, name: Seq<char>)
    ensures
        strip_self_label_text(reply, name).is_suffix_of(trim_seq(reply)),
        trim_seq(strip_self_label_text(reply, name)) == strip_self_label_text(reply, name),
{
    let t = trim_seq(reply);
    lemma_trim_seq_shape(reply);
    let r = strip_self_label_text(reply, name);
    let ascii = self_label(name, ':');
    let wide = self_label(name, '：');
    if ascii.is_prefix_of(t) || wide.is_prefix_of(t) {
        let l = if ascii.is_prefix_of(t) { ascii.len() } else { wide.len() };
        let x = t.skip(l as int);
        assert(r == trim_start_seq(x));
        lemma_trim_start_suffix(x);
        assert(r =~= t.subrange(t.len() - r.len(), t.len() as int)) by {
            assert(r =~= x.subrange(x.len() - r.len(), x.len() as int));
        }
        if r.len() > 0 {
            assert(r.last() == t.last());
        }
        lemma_trim_fixed(r);
    } else {
        assert(t =~= t.subrange(0, t.len() as int));
    }
}

fn label_at(c: &Vec<char>, a: usize, b: usize, name: &Vec<char>, colon: char) -> (r: bool)
    requires
        a <= b <= c@.len(),
    ensures
        r == self_label(name@, colon).is_prefix_of(c@.subrange(a as int, b as int)),
{
    let ghost t = c@.subrange(a as int, b as int);
    let ghost l = self_label(name@, colon);
    let n = name.len();
    if n > b - a || b - a - n < 3 {
        return false;
    }
    if c[a] != '[' {
        assert(t[0] != l[0]);
        return false;
    }
    let mut k: usize = 0;
    while k < n
        invariant
            k <= n == name@.len(),
            a <= b <= c@.len(),
            n + 3 <= b - a,
            t == c@.subrange(a as int, b as int),
            l == self_label(name@, colon),
            forall|j: int| 0 <= j < k ==> c@[a + 1 + j] == name@[j],
        decreases n - k,
    {
        if c[a + 1 + k] != name[k] {
            assert(t[1 + k] != l[1 + k]);
            return false;
        }
        k = k + 1;
    }
    if c[a + 1 + n] != ']' {
        assert(t[1 + n] != l[1 + n]);
        return false;
    }
    if c[a + 2 + n] != colon {
        assert(t[2 + n] != l[2 + n]);
        return false;
    }
    assert(l =~= t.subrange(0, l.len() as int));
    true
}

/// Because every other speaker shows up as `[Name]: ...` in the history,
/// models tend to imitate it and begin their own reply with `[TheirName]:`.
/// Drop that one leading self-label (and the surrounding white space) so it
/// doesn't end up in the stored transcript.
pub fn strip_self_label(reply: &str, agent_name: &str) -> (r: String)
    ensures
        r@ == strip_self_label_text(reply@, agent_name@),
{
    let c = chars_of(reply);
    let len = c.len();
    let a = skip_white_forward(&c, 0, len);
    let b = skip_white_backward(&c, a, len);
    assert(c@.subrange(0, len as int) =~= c@);
    let ghost t = c@.subrange(a as int, b as int);
    assert(t == trim_seq(reply@));
    let name = chars_of(agent_name);
    if label_at(&c, a, b, &name, ':') {
        let start = a + name.len() + 3;
        assert(t.skip(self_label(name@, ':').len() as int) =~= c@.subrange(start as int, b as int));
        let a2 = skip_white_forward(&c, start, b);
        return reply.substring_char(a2, b).to_owned();
    }
    if label_at(&c, a, b, &name, '：') {
        let start = a + name.len() + 3;
        assert(t.skip(self_label(name@, '：').len() as int) =~= c@.subrange(start as int, b as int));
        let a2 = skip_white_forward(&c, start, b);
        return reply.substring_char(a2, b).to_owned();
    }
    reply.substring_char(a, b).to_owned()
}

// ---------------------------------------------------------------------
// Mention target

/// `i` is the first roster position holding the agent `id`.
pub open spec fn first_index_of(roster: Seq<Agent>, id: Seq<char>, i: int) -> bool {
    &&& 0 <= i < roster.len()
    &&& roster[i].id@ == id
    &&& forall|j: int| 0 <= j < i ==> (#[trigger] roster[j]).id@ != id
}

/// The error reported when a mention names an agent that is not on the
/// session's roster.
pub open spec fn not_in_roster_text(id: Seq<char>) -> Seq<char> {
    "agent "@ + id + " is not in this session's roster"@
}

/// The position of agent `id` on the roster (the first, should it appear
/// twice), if it is there.
pub fn roster_index(roster: &[Agent], id: &str) -> (r: Option<usize>)
    ensures
        match r {
            Some(i) => first_index_of(roster@, id@, i as int),
            None => forall|j: int| 0 <= j < roster@.len() ==> (#[trigger] roster@[j]).id@ != id@,
        },
{
    let mut i: usize = 0;
    while i < roster.len()
        invariant
            i <= roster@.len(),
            forall|j: int| 0 <= j < i ==> (#[trigger] roster@[j]).id@ != id@,
        decreases roster@.len() - i,
    {
        if same_text(roster[i].id.as_str(), id) {
            return Some(i);
        }
        i = i + 1;
    }
    None
}

/// The error reported when a mention names an agent that is not on the
/// session's roster.
pub fn not_in_roster(id: &str) -> (r: String)
    ensures
        r@ == not_in_roster_text(id@),
{
    let mut s = String::from_str("agent ");
    s.append(id);
    s.append(" is not in this session's roster");
    s
}

/// Look up `target_agent_id` in the session's current roster, so a mention
/// round can't be aimed at an agent that was since removed from it.
pub fn find_mention_target<'a>(roster: &'a [Agent], target_agent_id: &str) -> (r: Result<
    &'a Agent,
    String,
>)
    ensures
        match r {
            Ok(a) => exists|i: int| first_index_of(roster@, target_agent_id@, i) && roster@[i] == *a,
            Err(e) => e@ == not_in_roster_text(target_agent_id@) && forall|j: int|
                0 <= j < roster@.len() ==> (#[trigger] roster@[j]).id@ != target_agent_id@,
        },
{
    match roster_index(roster, target_agent_id) {
        Some(i) => Ok(&roster[i]),
        None => Err(not_in_roster(target_agent_id)),
    }
}


// ---------------------------------------------------------------------
// Laws

/// How each message is shown to the agent about to speak: a message the
/// user wrote is always a user turn reading `[User]: <content>`, whatever
/// it refers to; a message is an assistant turn exactly when that agent
/// wrote it, and then its content is untouched; another agent's message is
/// a user turn labelled with that agent's name (or the removed-agent label).
pub proof fn lemma_history_presentation(
    out: Seq<ChatMessage>,
    current: Seq<char>,
    messages: Seq<Message>,
    names: Seq<(String, String)>,
    k: int,
)
    requires
        is_history_for(out, current, messages, names),
        0 <= k < messages.len(),
    ensures
        out.len() == messages.len(),
        messages[k].agent_id is None ==> out[k].role == Role::User && out[k].content@ == "[User]: "@
            + messages[k].content@,
        (out[k].role == Role::Assistant) <==> (messages[k].agent_id matches Some(id) && id@
            == current),
        messages[k].agent_id matches Some(id) ==> (id@ == current ==> out[k].content@
            == messages[k].content@),
        messages[k].agent_id matches Some(id) ==> (id@ != current ==> out[k].role == Role::User
            && out[k].content@ == "["@ + (match lookup_name(names, id@) {
            Some(n) => n,
            None => "已移除的Agent"@,
        }) + "]: "@ + messages[k].content@),
{
    let m = messages[k];
    assert(out[k].role == history_role(m, current));
    reveal_strlit("[User]: ");
    reveal_strlit("[");
    reveal_strlit("User");
    reveal_strlit("]: ");
    assert("["@ + "User"@ + "]: "@ =~= "[User]: "@);
}

/// Cleaning a reply: when the trimmed reply starts with the agent's own
/// label `[name]` followed by `:` or `：`, the result is the rest of the
/// trimmed reply after that label, with its leading white space removed,
/// whatever else the reply holds; otherwise the result is the trimmed
/// reply itself.
pub proof fn lemma_strip_self_label(reply: Seq<char>, name: Seq<char>)
    ensures
        ({
            let t = trim_seq(reply);
            let n = name.len() as int;
            let labelled = t.len() >= n + 3 && t[0] == '[' && t.subrange(1, n + 1) == name && t[n
                + 1] == ']' && (t[n + 2] == ':' || t[n + 2] == '：');
            &&& labelled ==> strip_self_label_text(reply, name) == trim_start_seq(t.skip(n + 3))
            &&& !labelled ==> strip_self_label_text(reply, name) == t
        }),
{
    let t = trim_seq(reply);
    let n = name.len() as int;
    let ascii = self_label(name, ':');
    let wide = self_label(name, '：');
    assert(ascii.len() == n + 3);
    assert(wide.len() == n + 3);
    let labelled = t.len() >= n + 3 && t[0] == '[' && t.subrange(1, n + 1) == name && t[n + 1]
        == ']' && (t[n + 2] == ':' || t[n + 2] == '：');
    if ascii.is_prefix_of(t) {
        assert(t[0] == ascii[0]);
        assert(t.subrange(1, n + 1) =~= name) by {
            assert forall|j: int| 0 <= j < n implies t.subrange(1, n + 1)[j] == name[j] by {
                assert(t[1 + j] == ascii[1 + j]);
            }
        }
        assert(t[n + 1] == ascii[n + 1]);
        assert(t[n + 2] == ascii[n + 2]);
    } else if wide.is_prefix_of(t) {
        assert(t[0] == wide[0]);
        assert(t.subrange(1, n + 1) =~= name) by {
            assert forall|j: int| 0 <= j < n implies t.subrange(1, n + 1)[j] == name[j] by {
                assert(t[1 + j] == wide[1 + j]);
            }
        }
        assert(t[n + 1] == wide[n + 1]);
        assert(t[n + 2] == wide[n + 2]);
    } else if labelled {
        if t[n + 2] == ':' {
            assert(ascii =~= t.subrange(0, n + 3)) by {
                assert forall|j: int| 1 <= j < n + 1 implies ascii[j] == t[j] by {
                    assert(t.subrange(1, n + 1)[j - 1] == t[j]);
                }
            }
        } else {
            assert(wide =~= t.subrange(0, n + 3)) by {
                assert forall|j: int| 1 <= j < n + 1 implies wide[j] == t[j] by {
                    assert(t.subrange(1, n + 1)[j - 1] == t[j]);
                }
            }
        }
    }
}

/// The system prompt of a turn: in sequential mode it always ends with
/// the sequential-mode guidelines, preceded by the agent's own prompt and a
/// blank line when it has one (whatever its length), and is just the
/// guidelines otherwise; in any other mode it is the agent's own prompt,
/// unchanged.
pub proof fn lemma_prompt_in_mode(own: Option<Seq<char>>, mode: Seq<char>)
    ensures
        mode == "sequential"@ ==> (effective_prompt(own, mode) matches Some(p) && {
            let g = SEQUENTIAL_MODE_GUIDELINES@;
            &&& p.len() >= g.len()
            &&& p.subrange(p.len() - g.len(), p.len() as int) == g
            &&& match own {
                Some(base) => p.len() == base.len() + 2 + g.len() && p.subrange(
                    0,
                    base.len() as int,
                ) == base && p.subrange(base.len() as int, base.len() + 2int) == "\n\n"@,
                None => p == g,
            }
        }),
        mode != "sequential"@ ==> effective_prompt(own, mode) == own,
{
    let g = SEQUENTIAL_MODE_GUIDELINES@;
    if mode == "sequential"@ {
        let p = effective_prompt(own, mode)->0;
        reveal_strlit("\n\n");
        match own {
            Some(base) => {
                assert(p =~= base + "\n\n"@ + g);
                assert(p.subrange(p.len() - g.len(), p.len() as int) =~= g);
                assert(p.subrange(0, base.len() as int) =~= base);
                assert(p.subrange(base.len() as int, base.len() + 2int) =~= "\n\n"@);
            },
            None => {
                assert(p.subrange(p.len() - g.len(), p.len() as int) =~= g);
            },
        }
    }
}

} // verus!
