use vstd::prelude::*;

verus! {

/// One dictation kept in history, as the local store and the backend hand it
/// out.
#[derive(Debug, Clone, PartialEq, Eq)]
pub struct DictationEntry {
    pub id: String,
    pub raw_text: String,
    pub cleaned_text: String,
    pub provider: String,
    pub duration_ms: i64,
    pub created_at: String,
}

/// The user's cleanup profile.
#[derive(Debug, Clone, PartialEq, Eq)]
pub struct Profile {
    pub custom_words: String,
    pub context_prompt: String,
    pub writing_style: String,
}

} // verus!
