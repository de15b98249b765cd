use vstd::prelude::*;

use crate::history::Profile;
use crate::prompt::{build_system_prompt, system_prompt};
use crate::text::{is_blank, is_blank_text};

verus! {

/// Where transcription, cleanup and history go.
#[derive(Debug, Clone, Copy, PartialEq, Eq, Structural)]
pub enum Mode {
    /// Local inference servers and the local store.
    Local,
    /// The backend, which needs a session credential.
    Cloud,
}

/// Failures that end a pipeline run.
#[derive(Debug, Clone, Copy, PartialEq, Eq, Structural)]
pub enum PipelineError {
    /// Unknown mode, or cloud mode without a session credential.
    Config,
    /// The transcription service failed; the text is lost.
    Transcription,
    /// The backend refused the new history entry in cloud mode.
    Persist,
}

/// The text of an optional setting.
pub open spec fn opt_text(o: Option<String>) -> Option<Seq<char>> {
    match o {
        Some(s) => Some(s@),
        None => None,
    }
}

/// The mode a stored setting selects: local when unset, `None` when unknown.
pub open spec fn mode_of(setting: Option<Seq<char>>) -> Option<Mode> {
    match setting {
        None => Some(Mode::Local),
        Some(s) => if s == "local"@ {
            Some(Mode::Local)
        } else if s == "cloud"@ {
            Some(Mode::Cloud)
        } else {
            None
        },
    }
}

/// Reads the mode setting; an unknown value is a configuration error.
pub fn parse_mode(setting: &Option<String>) -> (r: Result<Mode, PipelineError>)
    ensures
        match mode_of(opt_text(*setting)) {
            Some(m) => r == Ok::<Mode, PipelineError>(m),
            None => r == Err::<Mode, PipelineError>(PipelineError::Config),
        },
{
    match setting {
        None => Ok(Mode::Local),
        Some(s) => {
            let local = String::from_str("local");
            let cloud = String::from_str("cloud");
            if *s == local {
                Ok(Mode::Local)
            } else if *s == cloud {
                Ok(Mode::Cloud)
            } else {
                Err(PipelineError::Config)
            }
        },
    }
}

/// Where history and profile requests go for a mode setting and credential.
#[derive(Debug, Clone, PartialEq, Eq)]
pub enum Backend {
    Local,
    Cloud(String),
}

/// Picks the store for history and profile requests: the local one, or the
/// backend with the session credential, which cloud mode requires.
pub fn select_backend(mode: &Option<String>, session_token: &Option<String>) -> (r: Result<
    Backend,
    PipelineError,
>)
    ensures
        match mode_of(opt_text(*mode)) {
            None => r == Err::<Backend, PipelineError>(PipelineError::Config),
            Some(Mode::Local) => r == Ok::<Backend, PipelineError>(Backend::Local),
            Some(Mode::Cloud) => match *session_token {
                Some(t) => r == Ok::<Backend, PipelineError>(Backend::Cloud(t)),
                None => r == Err::<Backend, PipelineError>(PipelineError::Config),
            },
        },
{
    match parse_mode(mode) {
        Err(e) => Err(e),
        Ok(Mode::Local) => Ok(Backend::Local),
        Ok(Mode::Cloud) => match session_token {
            Some(t) => Ok(Backend::Cloud(t.clone())),
            None => Err(PipelineError::Config),
        },
    }
}

fn copy_opt(o: &Option<String>) -> (r: Option<String>)
    ensures
        r == *o,
{
    match o {
        Some(s) => Some(s.clone()),
        None => None,
    }
}

/// The settings a run reads.
#[derive(Debug, Clone, PartialEq, Eq)]
pub struct PipelineSettings {
    pub mode: Option<String>,
    pub session_token: Option<String>,
    pub api_key: Option<String>,
    pub llm_model: Option<String>,
    pub llm_api_key: Option<String>,
}

/// What a run produces.
#[derive(Debug, Clone, PartialEq, Eq)]
pub struct PipelineResult {
    pub raw_text: String,
    pub cleaned_text: String,
    pub pasted: bool,
}

/// A result with no text that was not delivered.
pub open spec fn is_empty_result(r: PipelineResult) -> bool {
    r.raw_text@.len() == 0 && r.cleaned_text@.len() == 0 && !r.pasted
}

/// What the cleanup service is asked to do.
#[derive(Debug, Clone, PartialEq, Eq)]
pub enum CleanupRequest {
    /// The local model, its system prompt, and the text.
    Local { model: String, system_prompt: String, text: String },
    /// The backend, with the session credential and the user's own key if set.
    Cloud { session_token: String, api_key: Option<String>, text: String },
}

/// The work a run asks its caller to do next.
#[derive(Debug, Clone, PartialEq, Eq)]
pub enum Action {
    /// Transcribe the recording with this mode's service.
    Transcribe { mode: Mode, session_token: Option<String>, api_key: Option<String> },
    /// Store a new history entry holding the raw text.
    SaveEntry {
        mode: Mode,
        session_token: Option<String>,
        id: String,
        raw_text: String,
        duration_ms: u64,
    },
    /// Clean the raw text up.
    Cleanup(CleanupRequest),
    /// Put the cleaned text in the history entry; failure is ignored.
    SaveCleaned { mode: Mode, session_token: Option<String>, id: String, cleaned_text: String },
    /// Copy the text to the clipboard and paste it.
    Deliver(String),
    /// The run is over with this result.
    Finish(PipelineResult),
    /// The run is over with this error.
    Fail(PipelineError),
}

/// What the caller reports after doing an action.
#[derive(Debug, Clone, PartialEq, Eq)]
pub enum Event {
    /// The transcript, or `None` when the service failed.
    Transcribed(Option<String>),
    /// Whether the new history entry was stored.
    EntrySaved(bool),
    /// The cleaned text, or `None` when cleanup failed.
    Cleaned(Option<String>),
    /// The cleaned-text update was attempted.
    CleanedSaved,
    /// Whether the paste went through.
    Delivered(bool),
}

/// Notifications for the surrounding UI.
#[derive(Debug, Clone, Copy, PartialEq, Eq, Structural)]
pub enum Lifecycle {
    TranscriptionStarted,
    CleanupStarted,
    PipelineComplete,
}

/// Where a run stands: which report it waits for.
#[derive(Debug, Clone, Copy, PartialEq, Eq, Structural)]
pub enum Stage {
    AwaitTranscript,
    AwaitEntry,
    AwaitCleanup,
    AwaitCleanedUpdate,
    AwaitDelivery,
    Finished,
}

/// Whether a run at `stage` takes `event` next.
pub open spec fn awaits(stage: Stage, event: Event) -> bool {
    match (stage, event) {
        (Stage::AwaitTranscript, Event::Transcribed(_)) => true,
        (Stage::AwaitEntry, Event::EntrySaved(_)) => true,
        (Stage::AwaitCleanup, Event::Cleaned(_)) => true,
        (Stage::AwaitCleanedUpdate, Event::CleanedSaved) => true,
        (Stage::AwaitDelivery, Event::Delivered(_)) => true,
        _ => false,
    }
}

/// The local model to use: the configured one, else the default.
pub open spec fn local_model(setting: Option<Seq<char>>) -> Seq<char> {
    match setting {
        Some(m) => m,
        None => "llama3.2"@,
    }
}

/// The text to deliver: the cleaned text unless it is empty.
pub open spec fn delivery_text(raw: Seq<char>, cleaned: Seq<char>) -> Seq<char> {
    if cleaned.len() == 0 {
        raw
    } else {
        cleaned
    }
}

/// One dictation run: transcription, a history entry, cleanup, delivery.
pub struct PipelineRun {
    pub mode: Mode,
    pub session_token: Option<String>,
    pub api_key: Option<String>,
    pub llm_model: Option<String>,
    pub llm_api_key: Option<String>,
    pub context_prompt: String,
    pub writing_style: String,
    pub duration_ms: u64,
    pub entry_id: String,
    pub raw_text: String,
    pub cleaned_text: String,
    pub stage: Stage,
}

/// The cleanup request that `run` makes for its raw text.
pub open spec fn cleanup_request_ok(run: PipelineRun, req: CleanupRequest) -> bool {
    match req {
        CleanupRequest::Local { model, system_prompt: p, text } => {
            &&& run.mode == Mode::Local
            &&& model@ == local_model(opt_text(run.llm_model))
            &&& p@ == system_prompt(run.context_prompt@, run.writing_style@)
            &&& text == run.raw_text
        },
        CleanupRequest::Cloud { session_token, api_key, text } => {
            &&& run.mode == Mode::Cloud
            &&& run.session_token == Some(session_token)
            &&& api_key == run.llm_api_key
            &&& text == run.raw_text
        },
    }
}

/// `b` has the settings of `a`.
pub open spec fn same_settings(a: PipelineRun, b: PipelineRun) -> bool {
    &&& b.mode == a.mode
    &&& b.session_token == a.session_token
    &&& b.api_key == a.api_key
    &&& b.llm_model == a.llm_model
    &&& b.llm_api_key == a.llm_api_key
    &&& b.context_prompt == a.context_prompt
    &&& b.writing_style == a.writing_style
    &&& b.duration_ms == a.duration_ms
}

/// What a run does on a transcript once it has an entry id.
pub open spec fn transcript_post(
    pre: PipelineRun,
    text: String,
    id: String,
    post: PipelineRun,
    act: Action,
) -> bool {
    &&& same_settings(pre, post)
    &&& if is_blank_text(text@) {
        &&& post.stage == Stage::Finished
        &&& act is Finish
        &&& is_empty_result(act->Finish_0)
    } else {
        &&& post.stage == Stage::AwaitEntry
        &&& post.raw_text == text
        &&& post.entry_id == id
        &&& act == Action::SaveEntry {
            mode: pre.mode,
            session_token: pre.session_token,
            id,
            raw_text: text,
            duration_ms: pre.duration_ms,
        }
    }
}

/// How one report moves a run and what it asks for next.
pub open spec fn step_post(pre: PipelineRun, event: Event, post: PipelineRun, act: Action) -> bool {
    &&& same_settings(pre, post)
    &&& match event {
        Event::Transcribed(None) => post.stage == Stage::Finished && act == Action::Fail(
            PipelineError::Transcription,
        ),
        Event::Transcribed(Some(t)) => {
            &&& (!is_blank_text(t@) ==> post.entry_id@.len() == 36)
            &&& transcript_post(pre, t, post.entry_id, post, act)
        },
        Event::EntrySaved(saved) => if !saved && pre.mode == Mode::Cloud {
            post.stage == Stage::Finished && act == Action::Fail(PipelineError::Persist)
        } else {
            &&& post.stage == Stage::AwaitCleanup
            &&& post.raw_text == pre.raw_text
            &&& post.entry_id == pre.entry_id
            &&& act is Cleanup
            &&& cleanup_request_ok(pre, act->Cleanup_0)
        },
        Event::Cleaned(Some(c)) => {
            &&& post.stage == Stage::AwaitCleanedUpdate
            &&& post.raw_text == pre.raw_text
            &&& post.entry_id == pre.entry_id
            &&& post.cleaned_text == c
            &&& act == Action::SaveCleaned {
                mode: pre.mode,
                session_token: pre.session_token,
                id: pre.entry_id,
                cleaned_text: c,
            }
        },
        Event::Cleaned(None) => {
            &&& post.stage == Stage::AwaitDelivery
            &&& post.raw_text == pre.raw_text
            &&& post.entry_id == pre.entry_id
            &&& post.cleaned_text == pre.raw_text
            &&& act == Action::Deliver(pre.raw_text)
        },
        Event::CleanedSaved => {
            &&& post.stage == Stage::AwaitDelivery
            &&& post.raw_text == pre.raw_text
            &&& post.entry_id == pre.entry_id
            &&& post.cleaned_text == pre.cleaned_text
            &&& act is Deliver
            &&& act->Deliver_0@ == delivery_text(pre.raw_text@, pre.cleaned_text@)
        },
        Event::Delivered(pasted) => {
            &&& post.stage == Stage::Finished
            &&& act == Action::Finish(
                PipelineResult {
                    raw_text: pre.raw_text,
                    cleaned_text: pre.cleaned_text,
                    pasted,
                },
            )
        },
    }
}

/// A blank transcript, in either mode, ends the run at once with an empty
/// result: no history entry, no cleanup and no delivery is asked for.
pub proof fn lemma_blank_transcript_skips_services(
    r0: PipelineRun,
    text: String,
    r1: PipelineRun,
    act: Action,
)
    requires
        r0.stage == Stage::AwaitTranscript,
        is_blank_text(text@),
        step_post(r0, Event::Transcribed(Some(text)), r1, act),
    ensures
        r1.stage == Stage::Finished,
        act is Finish,
        is_empty_result(act->Finish_0),
{
}

/// A failed cleanup does not fail the run: the raw text is delivered, and
/// the result holds it as both the raw and the cleaned text.
pub proof fn lemma_failed_cleanup_falls_back_to_raw(
    r0: PipelineRun,
    r1: PipelineRun,
    a1: Action,
    pasted: bool,
    r2: PipelineRun,
    a2: Action,
)
    requires
        r0.stage == Stage::AwaitCleanup,
        step_post(r0, Event::Cleaned(None), r1, a1),
        step_post(r1, Event::Delivered(pasted), r2, a2),
    ensures
        a1 == Action::Deliver(r0.raw_text),
        a2 == Action::Finish(
            PipelineResult { raw_text: r0.raw_text, cleaned_text: r0.raw_text, pasted },
        ),
{
}

/// Relies on `uuid::Uuid::new_v4` and its `Display`, the hyphenated form of
/// 36 characters. The value is random.
#[verifier::external_body]
fn new_entry_id() -> (r: String)
    ensures
        r@.len() == 36,
{
    uuid::Uuid::new_v4().to_string()
}

impl PipelineRun {
    /// Cloud mode carries its session credential.
    pub open spec fn wf(&self) -> bool {
        self.mode == Mode::Cloud ==> self.session_token is Some
    }

    /// Starts a run for a recording of `duration_ms`. An unknown mode, or
    /// cloud mode without a session credential, fails with `Config` before
    /// any service is asked for anything. Otherwise the first action is to
    /// transcribe.
    pub fn begin(settings: &PipelineSettings, profile: &Profile, duration_ms: u64) -> (r: Result<
        (PipelineRun, Action),
        PipelineError,
    >)
        ensures
            mode_of(opt_text(settings.mode)) is None ==> r == Err::<
                (PipelineRun, Action),
                PipelineError,
            >(PipelineError::Config),
            mode_of(opt_text(settings.mode)) == Some(Mode::Cloud) && settings.session_token is None
                ==> r == Err::<(PipelineRun, Action), PipelineError>(PipelineError::Config),
            r is Ok <==> mode_of(opt_text(settings.mode)) is Some && !(mode_of(
                opt_text(settings.mode),
            ) == Some(Mode::Cloud) && settings.session_token is None),
            r matches Ok((run, act)) ==> {
                &&& run.wf()
                &&& run.stage == Stage::AwaitTranscript
                &&& Some(run.mode) == mode_of(opt_text(settings.mode))
                &&& run.session_token == settings.session_token
                &&& run.api_key == settings.api_key
                &&& run.llm_model == settings.llm_model
                &&& run.llm_api_key == settings.llm_api_key
                &&& run.context_prompt == profile.context_prompt
                &&& run.writing_style == profile.writing_style
                &&& run.duration_ms == duration_ms
                &&& act == Action::Transcribe {
                    mode: run.mode,
                    session_token: settings.session_token,
                    api_key: settings.api_key,
                }
            },
    {
        let mode = match parse_mode(&settings.mode) {
            Ok(m) => m,
            Err(e) => {
                return Err(e);
            },
        };
        if mode == Mode::Cloud && settings.session_token.is_none() {
            return Err(PipelineError::Config);
        }
        let run = PipelineRun {
            mode,
            session_token: copy_opt(&settings.session_token),
            api_key: copy_opt(&settings.api_key),
            llm_model: copy_opt(&settings.llm_model),
            llm_api_key: copy_opt(&settings.llm_api_key),
            context_prompt: profile.context_prompt.clone(),
            writing_style: profile.writing_style.clone(),
            duration_ms,
            entry_id: String::new(),
            raw_text: String::new(),
            cleaned_text: String::new(),
            stage: Stage::AwaitTranscript,
        };
        let act = Action::Transcribe {
            mode,
            session_token: copy_opt(&settings.session_token),
            api_key: copy_opt(&settings.api_key),
        };
        Ok((run, act))
    }

    /// Whether the run takes `event` next.
    pub fn expects(&self, event: &Event) -> (r: bool)
        ensures
            r == awaits(self.stage, *event),
    {
        match (self.stage, event) {
            (Stage::AwaitTranscript, Event::Transcribed(_)) => true,
            (Stage::AwaitEntry, Event::EntrySaved(_)) => true,
            (Stage::AwaitCleanup, Event::Cleaned(_)) => true,
            (Stage::AwaitCleanedUpdate, Event::CleanedSaved) => true,
            (Stage::AwaitDelivery, Event::Delivered(_)) => true,
            _ => false,
        }
    }

    /// Takes a transcript under the entry id `id`. Blank text ends the run
    /// with an empty result and no further service call; other text is stored
    /// as a new history entry first.
    pub fn accept_transcript(&mut self, text: String, id: String) -> (act: Action)
        requires
            old(self).wf(),
            old(self).stage == Stage::AwaitTranscript,
        ensures
            final(self).wf(),
            transcript_post(*old(self), text, id, *final(self), act),
    {
        if is_blank(text.as_str()) {
            self.stage = Stage::Finished;
            return Action::Finish(
                PipelineResult { raw_text: String::new(), cleaned_text: String::new(), pasted: false },
            );
        }
        self.stage = Stage::AwaitEntry;
        self.raw_text = text.clone();
        self.entry_id = id.clone();
        Action::SaveEntry {
            mode: self.mode,
            session_token: copy_opt(&self.session_token),
            id,
            raw_text: text,
            duration_ms: self.duration_ms,
        }
    }

    fn cleanup_request(&self) -> (req: CleanupRequest)
        requires
            self.wf(),
        ensures
            cleanup_request_ok(*self, req),
    {
        match self.mode {
            Mode::Local => {
                let model = match &self.llm_model {
                    Some(m) => m.clone(),
                    None => String::from_str("llama3.2"),
                };
                CleanupRequest::Local {
                    model,
                    system_prompt: build_system_prompt(
                        self.context_prompt.as_str(),
                        self.writing_style.as_str(),
                    ),
                    text: self.raw_text.clone(),
                }
            },
            Mode::Cloud => {
                let token = match &self.session_token {
                    Some(t) => t.clone(),
                    None => String::new(),
                };
                CleanupRequest::Cloud {
                    session_token: token,
                    api_key: copy_opt(&self.llm_api_key),
                    text: self.raw_text.clone(),
                }
            },
        }
    }

    /// Moves the run on by the caller's report of the last action.
    ///
    /// A failed transcription ends the run. A history entry the backend
    /// refused ends a cloud run; a local one goes on. A failed cleanup falls
    /// back to the raw text. The text delivered is the cleaned text unless it
    /// is empty.
    pub fn step(&mut self, event: Event) -> (act: Action)
        requires
            old(self).wf(),
            awaits(old(self).stage, event),
        ensures
            final(self).wf(),
            step_post(*old(self), event, *final(self), act),
    {
        match event {
            Event::Transcribed(None) => {
                self.stage = Stage::Finished;
                Action::Fail(PipelineError::Transcription)
            },
            Event::Transcribed(Some(text)) => {
                if is_blank(text.as_str()) {
                    self.accept_transcript(text, String::new())
                } else {
                    let id = new_entry_id();
                    self.accept_transcript(text, id)
                }
            },
            Event::EntrySaved(saved) => {
                if !saved && self.mode == Mode::Cloud {
                    self.stage = Stage::Finished;
                    return Action::Fail(PipelineError::Persist);
                }
                self.stage = Stage::AwaitCleanup;
                Action::Cleanup(self.cleanup_request())
            },
            Event::Cleaned(Some(cleaned)) => {
                self.stage = Stage::AwaitCleanedUpdate;
                self.cleaned_text = cleaned.clone();
                Action::SaveCleaned {
                    mode: self.mode,
                    session_token: copy_opt(&self.session_token),
                    id: self.entry_id.clone(),
                    cleaned_text: cleaned,
                }
            },
            Event::Cleaned(None) => {
                self.stage = Stage::AwaitDelivery;
                self.cleaned_text = self.raw_text.clone();
                Action::Deliver(self.raw_text.clone())
            },
            Event::CleanedSaved => {
                self.stage = Stage::AwaitDelivery;
                if self.cleaned_text.as_str().is_empty() {
                    Action::Deliver(self.raw_text.clone())
                } else {
                    Action::Deliver(self.cleaned_text.clone())
                }
            },
            Event::Delivered(pasted) => {
                self.stage = Stage::Finished;
                Action::Finish(
                    PipelineResult {
                        raw_text: self.raw_text.clone(),
                        cleaned_text: self.cleaned_text.clone(),
                        pasted,
                    },
                )
            },
        }
    }
}

impl Action {
    /// The notification to send before carrying the action out, if any.
    pub fn lifecycle(&self) -> (r: Option<Lifecycle>)
        ensures
            r == match *self {
                Action::Transcribe { .. } => Some(Lifecycle::TranscriptionStarted),
                Action::Cleanup(_) => Some(Lifecycle::CleanupStarted),
                Action::Finish(_) => Some(Lifecycle::PipelineComplete),
                _ => None::<Lifecycle>,
            },
    {
        match self {
            Action::Transcribe { .. } => Some(Lifecycle::TranscriptionStarted),
            Action::Cleanup(_) => Some(Lifecycle::CleanupStarted),
            Action::Finish(_) => Some(Lifecycle::PipelineComplete),
            _ => None,
        }
    }
}

} // verus!
