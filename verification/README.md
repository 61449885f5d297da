# group_chat

The verified core of a desktop "multi-agent group chat": several configured
AI agents discuss a topic with the user, either all in turn (sequential
mode) or one at a time when called by name (mention mode).

## Layout

- `src/` — the library, verified with Verus.
  - `text.rs`: white-space trimming, text equality, decimal notation, all
    stated over `Seq<char>`.
  - `providers.rs`: roles and chat messages; which endpoint and request
    shape each provider name stands for; reading a provider's HTTP reply
    back into a reply text or a `ProviderError`, and that error's message.
  - `agent.rs`: the agent record and the API-key bookkeeping rules.
  - `session.rs`: sessions and messages, fresh ids and timestamps, and the
    rules of the session commands (modes, deletion, claiming, roster
    positions, round numbers).
  - `chat.rs`: how the transcript is shown to the agent about to speak,
    its effective system prompt, cleaning a reply of the agent's own
    label, and finding a mentioned agent on the roster.
  - `round.rs`: a discussion round as a state machine, the transition as a
    spec function, and the laws proved of it (turn order, fault tolerance,
    release of the session).
- `tests/` — executable tests of the library.
- `app/` — the Tauri shell: commands, SQLite queries, HTTP and the OS
  credential store; it performs the actions the round machine names.
