//! The session store adapter: the per-conversation state, its defined
//! default, and the two store keys each conversation uses.

use vstd::prelude::*;
use crate::strutil::{spec_decimal, u64_decimal};

verus! {

/// Per-conversation state: the one-shot continuity-reset flag and the persona
/// prompt steering the completion backend. Both live in an external key-value
/// store; a conversation that was never written reads as the default below.
pub struct SessionState {
    pub continuity_reset: bool,
    pub persona_prompt: String,
}

/// Spec-level image of a `SessionState`.
#[verifier::ext_equal]
pub struct SessionStateView {
    pub continuity_reset: bool,
    pub persona_prompt: Seq<char>,
}

impl View for SessionState {
    type V = SessionStateView;

    open spec fn view(&self) -> SessionStateView {
        SessionStateView {
            continuity_reset: self.continuity_reset,
            persona_prompt: self.persona_prompt@,
        }
    }
}

/// Resolve the two raw store reads of a conversation into its state: a
/// missing entry means no pending reset and an empty persona, never an error.
pub fn resolve_session(stored_reset: Option<bool>, stored_persona: Option<String>) -> (state:
    SessionState)
    ensures
        state.continuity_reset == (stored_reset == Some(true)),
        state@.persona_prompt == (match stored_persona {
            Some(p) => p@,
            None => Seq::<char>::empty(),
        }),
{
    let continuity_reset = match stored_reset {
        Some(b) => b,
        None => false,
    };
    let persona_prompt = match stored_persona {
        Some(p) => p,
        None => String::new(),
    };
    SessionState { continuity_reset, persona_prompt }
}

/// Store key of a conversation's continuity flag: the decimal conversation
/// id, exactly as the transport prints it.
pub fn continuity_key(conversation_id: u64) -> (k: String)
    ensures
        k@ == spec_decimal(conversation_id as nat),
{
    u64_decimal(conversation_id)
}

/// Store key of a conversation's persona prompt: the decimal conversation id
/// followed by the fixed `:system_prompt` suffix.
pub fn persona_key(conversation_id: u64) -> (k: String)
    ensures
        k@ == spec_decimal(conversation_id as nat) + ":system_prompt"@,
{
    let mut k = u64_decimal(conversation_id);
    k.append(":system_prompt");
    k
}

} // verus!
