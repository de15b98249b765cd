use parrot::{
    bearer, build_system_prompt, first_choice_or, history_entry_path, history_search_path,
    install_command, is_blank, like_pattern,
};

const BASE: &str = "You are a text cleanup assistant for voice dictation. Fix grammar, punctuation, and remove filler words (um, uh, like, you know). Preserve the speaker's meaning and tone. Return ONLY the cleaned text, nothing else.";

#[test]
fn prompt_without_profile_is_the_instructions() {
    assert_eq!(build_system_prompt("", ""), BASE);
}

#[test]
fn prompt_with_context_and_style() {
    assert_eq!(
        build_system_prompt("medical", "formal"),
        format!("{}\n\nContext: medical\n\nWriting style: formal", BASE)
    );
    assert_eq!(build_system_prompt("", "terse"), format!("{}\n\nWriting style: terse", BASE));
}

#[test]
fn blank_text_detection() {
    assert!(is_blank(""));
    assert!(is_blank(" \t\r\n\u{a0}\u{3000}"));
    assert!(!is_blank("  a "));
}

#[test]
fn search_path_percent_encodes_the_query() {
    assert_eq!(history_search_path("a b&c"), "/api/history?q=a%20b%26c");
    assert_eq!(history_search_path("plain"), "/api/history?q=plain");
}

#[test]
fn small_request_pieces() {
    assert_eq!(bearer("abc"), "Bearer abc");
    assert_eq!(history_entry_path("id-1"), "/api/history/id-1");
    assert_eq!(like_pattern("cat"), "%cat%");
}

#[test]
fn first_choice_or_raw() {
    assert_eq!(first_choice_or(&vec!["a".to_string(), "b".to_string()], "raw"), "a");
    assert_eq!(first_choice_or(&Vec::new(), "raw"), "raw");
}

#[test]
fn install_commands() {
    assert_eq!(install_command(&"whisper-cpp".to_string()), Some("brew install whisper-cpp".to_string()));
    assert_eq!(
        install_command(&"ollama".to_string()),
        Some("curl -fsSL https://ollama.ai/install.sh | sh".to_string())
    );
    assert_eq!(install_command(&"vim".to_string()), None);
}
