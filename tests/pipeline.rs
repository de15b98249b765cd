use parrot::{
    parse_mode, select_backend, Action, Backend, CleanupRequest, Event, Lifecycle, Mode,
    PipelineError, PipelineResult, PipelineRun, PipelineSettings, Profile, Stage,
};

fn settings(mode: Option<&str>, token: Option<&str>) -> PipelineSettings {
    PipelineSettings {
        mode: mode.map(|s| s.to_string()),
        session_token: token.map(|s| s.to_string()),
        api_key: None,
        llm_model: None,
        llm_api_key: Some("user-key".to_string()),
    }
}

fn profile() -> Profile {
    Profile {
        custom_words: "[]".to_string(),
        context_prompt: "meeting notes".to_string(),
        writing_style: String::new(),
    }
}

fn started(mode: Option<&str>, token: Option<&str>) -> PipelineRun {
    let (run, act) = PipelineRun::begin(&settings(mode, token), &profile(), 1200).unwrap();
    assert_eq!(act.lifecycle(), Some(Lifecycle::TranscriptionStarted));
    run
}

#[test]
fn cloud_without_credential_fails_before_any_call() {
    let r = PipelineRun::begin(&settings(Some("cloud"), None), &profile(), 10);
    assert!(matches!(r, Err(PipelineError::Config)));
}

#[test]
fn unknown_mode_is_a_config_error() {
    let r = PipelineRun::begin(&settings(Some("hybrid"), Some("t")), &profile(), 10);
    assert!(matches!(r, Err(PipelineError::Config)));
    assert_eq!(parse_mode(&Some("hybrid".to_string())), Err(PipelineError::Config));
}

#[test]
fn mode_defaults_to_local() {
    assert_eq!(parse_mode(&None), Ok(Mode::Local));
    assert_eq!(parse_mode(&Some("cloud".to_string())), Ok(Mode::Cloud));
    let (run, act) = PipelineRun::begin(&settings(None, None), &profile(), 5).unwrap();
    assert_eq!(run.mode, Mode::Local);
    assert_eq!(
        act,
        Action::Transcribe { mode: Mode::Local, session_token: None, api_key: None }
    );
}

#[test]
fn failed_transcription_ends_the_run() {
    let mut run = started(Some("local"), None);
    assert_eq!(run.step(Event::Transcribed(None)), Action::Fail(PipelineError::Transcription));
    assert_eq!(run.stage, Stage::Finished);
}

#[test]
fn blank_transcript_short_circuits_to_empty_result() {
    let mut run = started(Some("local"), None);
    let act = run.step(Event::Transcribed(Some("  \n\t ".to_string())));
    assert_eq!(
        act,
        Action::Finish(PipelineResult {
            raw_text: String::new(),
            cleaned_text: String::new(),
            pasted: false
        })
    );
    assert_eq!(run.stage, Stage::Finished);
}

#[test]
fn local_run_goes_through_every_stage() {
    let mut run = started(Some("local"), None);
    let act = run.step(Event::Transcribed(Some("um hello there".to_string())));
    let id = match act {
        Action::SaveEntry { mode, session_token, id, raw_text, duration_ms } => {
            assert_eq!(mode, Mode::Local);
            assert_eq!(session_token, None);
            assert_eq!(raw_text, "um hello there");
            assert_eq!(duration_ms, 1200);
            assert_eq!(id.chars().count(), 36);
            id
        }
        other => panic!("unexpected {:?}", other),
    };
    let act = run.step(Event::EntrySaved(true));
    assert_eq!(act.lifecycle(), Some(Lifecycle::CleanupStarted));
    match act {
        Action::Cleanup(CleanupRequest::Local { model, system_prompt, text }) => {
            assert_eq!(model, "llama3.2");
            assert!(system_prompt.ends_with("\n\nContext: meeting notes"));
            assert_eq!(text, "um hello there");
        }
        other => panic!("unexpected {:?}", other),
    }
    let act = run.step(Event::Cleaned(Some("Hello there.".to_string())));
    assert_eq!(
        act,
        Action::SaveCleaned {
            mode: Mode::Local,
            session_token: None,
            id,
            cleaned_text: "Hello there.".to_string()
        }
    );
    assert_eq!(run.step(Event::CleanedSaved), Action::Deliver("Hello there.".to_string()));
    let act = run.step(Event::Delivered(true));
    assert_eq!(act.lifecycle(), Some(Lifecycle::PipelineComplete));
    assert_eq!(
        act,
        Action::Finish(PipelineResult {
            raw_text: "um hello there".to_string(),
            cleaned_text: "Hello there.".to_string(),
            pasted: true
        })
    );
}

#[test]
fn failed_cleanup_falls_back_to_raw_text() {
    let mut run = started(Some("local"), None);
    run.step(Event::Transcribed(Some("hello world".to_string())));
    run.step(Event::EntrySaved(true));
    assert_eq!(run.step(Event::Cleaned(None)), Action::Deliver("hello world".to_string()));
    assert_eq!(
        run.step(Event::Delivered(true)),
        Action::Finish(PipelineResult {
            raw_text: "hello world".to_string(),
            cleaned_text: "hello world".to_string(),
            pasted: true
        })
    );
}

#[test]
fn empty_cleanup_delivers_raw_text() {
    let mut run = started(Some("local"), None);
    run.step(Event::Transcribed(Some("raw words".to_string())));
    run.step(Event::EntrySaved(true));
    run.step(Event::Cleaned(Some(String::new())));
    assert_eq!(run.step(Event::CleanedSaved), Action::Deliver("raw words".to_string()));
    assert_eq!(
        run.step(Event::Delivered(false)),
        Action::Finish(PipelineResult {
            raw_text: "raw words".to_string(),
            cleaned_text: String::new(),
            pasted: false
        })
    );
}

#[test]
fn local_entry_failure_does_not_abort() {
    let mut run = started(Some("local"), None);
    run.step(Event::Transcribed(Some("text".to_string())));
    assert!(matches!(run.step(Event::EntrySaved(false)), Action::Cleanup(_)));
}

#[test]
fn cloud_entry_failure_is_fatal() {
    let mut run = started(Some("cloud"), Some("tok"));
    run.step(Event::Transcribed(Some("text".to_string())));
    assert_eq!(run.step(Event::EntrySaved(false)), Action::Fail(PipelineError::Persist));
}

#[test]
fn cloud_cleanup_carries_credential_and_key() {
    let mut run = started(Some("cloud"), Some("tok"));
    match run.step(Event::Transcribed(Some("text".to_string()))) {
        Action::SaveEntry { mode, session_token, .. } => {
            assert_eq!(mode, Mode::Cloud);
            assert_eq!(session_token, Some("tok".to_string()));
        }
        other => panic!("unexpected {:?}", other),
    }
    assert_eq!(
        run.step(Event::EntrySaved(true)),
        Action::Cleanup(CleanupRequest::Cloud {
            session_token: "tok".to_string(),
            api_key: Some("user-key".to_string()),
            text: "text".to_string()
        })
    );
}

#[test]
fn run_expects_only_the_next_report() {
    let run = started(Some("local"), None);
    assert!(run.expects(&Event::Transcribed(None)));
    assert!(!run.expects(&Event::Delivered(true)));
}

#[test]
fn backend_follows_mode_and_credential() {
    assert_eq!(select_backend(&None, &None), Ok(Backend::Local));
    assert_eq!(
        select_backend(&Some("cloud".to_string()), &Some("t".to_string())),
        Ok(Backend::Cloud("t".to_string()))
    );
    assert_eq!(select_backend(&Some("cloud".to_string()), &None), Err(PipelineError::Config));
    assert_eq!(select_backend(&Some("x".to_string()), &None), Err(PipelineError::Config));
}
