use vstd::prelude::*;

verus! {

/// The percent-encoding of a text, as `urlencoding::encode` gives it.
pub uninterp spec fn url_encoded(s: Seq<char>) -> Seq<char>;

/// Relies on `urlencoding::encode`: every UTF-8 byte but ASCII letters,
/// digits and `-._~` percent-encoded; the result depends on the text alone.
#[verifier::external_body]
fn url_encode(s: &str) -> (r: String)
    ensures
        r@ == url_encoded(s@),
{
    urlencoding::encode(s).into_owned()
}

/// The `Authorization` header value for a session credential.
pub fn bearer(session_token: &str) -> (r: String)
    ensures
        r@ == "Bearer "@ + session_token@,
{
    let mut r = String::from_str("Bearer ");
    r.append(session_token);
    r
}

/// The backend path that searches history for `query`.
pub fn history_search_path(query: &str) -> (r: String)
    ensures
        r@ == "/api/history?q="@ + url_encoded(query@),
{
    let encoded = url_encode(query);
    let mut r = String::from_str("/api/history?q=");
    r.append(encoded.as_str());
    r
}

/// The backend path of one history entry.
pub fn history_entry_path(id: &str) -> (r: String)
    ensures
        r@ == "/api/history/"@ + id@,
{
    let mut r = String::from_str("/api/history/");
    r.append(id);
    r
}

/// The SQL `LIKE` pattern that finds `query` anywhere in a text.
pub fn like_pattern(query: &str) -> (r: String)
    ensures
        r@ == "%"@ + query@ + "%"@,
{
    let mut r = String::from_str("%");
    r.append(query);
    r.append("%");
    r
}

/// The cleaned text from a chat-completion answer: the first choice's
/// content, or the raw text when the answer has no choice.
pub fn first_choice_or(contents: &Vec<String>, raw_text: &str) -> (r: String)
    ensures
        contents@.len() > 0 ==> r == contents@[0],
        contents@.len() == 0 ==> r@ == raw_text@,
{
    if contents.len() > 0 {
        contents[0].clone()
    } else {
        String::from_str(raw_text)
    }
}

/// The shell command that installs a supported helper tool, by its name.
pub open spec fn install_command_of(name: Seq<char>) -> Option<Seq<char>> {
    if name == "whisper-cpp"@ {
        Some("brew install whisper-cpp"@)
    } else if name == "ollama"@ {
        Some("curl -fsSL https://ollama.ai/install.sh | sh"@)
    } else {
        None
    }
}

/// The shell command that installs `name`, or `None` for an unknown tool.
pub fn install_command(name: &String) -> (r: Option<String>)
    ensures
        match install_command_of(name@) {
            Some(c) => r is Some && r->0@ == c,
            None => r is None,
        },
{
    let whisper = String::from_str("whisper-cpp");
    let ollama = String::from_str("ollama");
    if *name == whisper {
        Some(String::from_str("brew install whisper-cpp"))
    } else if *name == ollama {
        Some(String::from_str("curl -fsSL https://ollama.ai/install.sh | sh"))
    } else {
        None
    }
}

} // verus!
