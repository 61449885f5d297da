//! Configured AI agents and the bookkeeping around their API keys.

use vstd::prelude::*;

verus! {

/// One configured AI agent. Everything except the API key is persisted in
/// the database; the API key itself lives in the OS credential manager,
/// keyed by `id`.
#[derive(Debug, Clone)]
pub struct Agent {
    pub id: String,
    pub name: String,
    /// "openai" | "anthropic" | "deepseek" | "qwen" | ... kept free-form so
    /// new providers need no schema change.
    pub provider: String,
    pub model: String,
    pub system_prompt: Option<String>,
    /// The sampling temperature: the bit pattern of its `f64` value
    /// (`f64::to_bits`), carried through unchanged to the provider call.
    pub temperature_bits: u64,
    pub color: Option<String>,
    /// Unix timestamp (seconds since epoch).
    pub created_at: i64,
}

/// A field-for-field copy of an optional string.
pub fn copy_opt_string(o: &Option<String>) -> (r: Option<String>)
    ensures
        r == *o,
{
    match o {
        Some(s) => Some(s.clone()),
        None => None,
    }
}

impl Agent {
    /// A field-for-field copy of this agent.
    pub fn duplicate(&self) -> (r: Agent)
        ensures
            r == *self,
    {
        Agent {
            id: self.id.clone(),
            name: self.name.clone(),
            provider: self.provider.clone(),
            model: self.model.clone(),
            system_prompt: copy_opt_string(&self.system_prompt),
            temperature_bits: self.temperature_bits,
            color: copy_opt_string(&self.color),
            created_at: self.created_at,
        }
    }
}

/// The API key an agent update stores: only a key that is given and not
/// empty replaces the stored one, so editing the other fields never forces
/// the user to re-enter their key.
pub fn key_to_store(api_key: Option<String>) -> (r: Option<String>)
    ensures
        match api_key {
            Some(k) => if k@.len() > 0 {
                r == Some(k)
            } else {
                r is None
            },
            None => r is None,
        },
{
    match api_key {
        Some(k) => {
            if k.as_str().unicode_len() > 0 {
                Some(k)
            } else {
                None
            }
        },
        None => None,
    }
}

/// How an attempt to delete an agent's stored API key came out.
#[derive(Debug, Clone)]
pub enum KeyDeletion {
    Deleted,
    /// There was no stored key for the agent.
    NoEntry,
    /// The credential store failed, with its description of the failure.
    Failed(String),
}

/// The result of deleting an agent's API key: not having an entry to
/// delete is not an error.
pub fn key_deletion_result(outcome: KeyDeletion) -> (r: Result<(), String>)
    ensures
        match outcome {
            KeyDeletion::Failed(e) => r == Err::<(), String>(e),
            _ => r is Ok,
        },
{
    match outcome {
        KeyDeletion::Deleted => Ok(()),
        KeyDeletion::NoEntry => Ok(()),
        KeyDeletion::Failed(e) => Err(e),
    }
}

/// The error reported when no agent has the given id.
pub fn agent_not_found(agent_id: &str) -> (r: String)
    ensures
        r@ == "agent "@ + agent_id@ + " not found"@,
{
    let mut s = String::from_str("agent ");
    s.append(agent_id);
    s.append(" not found");
    s
}

} // verus!
