use vstd::prelude::*;

verus! {

/// The fixed instructions that open every cleanup prompt.
pub open spec fn base_instructions() -> Seq<char> {
    "You are a text cleanup assistant for voice dictation. Fix grammar, punctuation, and remove filler words (um, uh, like, you know). Preserve the speaker's meaning and tone. Return ONLY the cleaned text, nothing else."@
}

/// A labelled section appended to the prompt, or nothing when its text is empty.
pub open spec fn section(label: Seq<char>, text: Seq<char>) -> Seq<char> {
    if text.len() == 0 {
        Seq::empty()
    } else {
        label + text
    }
}

/// The system prompt for local cleanup: the instructions, then the user's
/// context and writing style when they are given.
pub open spec fn system_prompt(context_prompt: Seq<char>, writing_style: Seq<char>) -> Seq<char> {
    base_instructions() + section("\n\nContext: "@, context_prompt) + section(
        "\n\nWriting style: "@,
        writing_style,
    )
}

/// Builds the system prompt handed to the local cleanup model.
pub fn build_system_prompt(context_prompt: &str, writing_style: &str) -> (r: String)
    ensures
        r@ == system_prompt(context_prompt@, writing_style@),
{
    let mut prompt = String::from_str(
        "You are a text cleanup assistant for voice dictation. Fix grammar, punctuation, and remove filler words (um, uh, like, you know). Preserve the speaker's meaning and tone. Return ONLY the cleaned text, nothing else.",
    );
    if !context_prompt.is_empty() {
        prompt.append("\n\nContext: ");
        prompt.append(context_prompt);
    }
    if !writing_style.is_empty() {
        prompt.append("\n\nWriting style: ");
        prompt.append(writing_style);
    }
    prompt
}

} // verus!
