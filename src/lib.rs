//! Recording and dictation-pipeline core of a voice-dictation tool.
//!
//! The library holds the capture buffer that the audio callback fills, the
//! recording controller, the PCM container encoder, the cleanup prompt, and the
//! pipeline that sequences transcription, persistence, cleanup and delivery.
//! Hardware, network, storage and clipboard access are done by the caller,
//! which hands the results back as plain values.

pub mod backend;
pub mod capture;
pub mod history;
pub mod pipeline;
pub mod prompt;
pub mod recorder;
pub mod text;
pub mod wav;

pub use capture::{downmix_into, CaptureBuffer};
pub use prompt::build_system_prompt;
pub use wav::{encode_wav, EncodingError};
pub use recorder::{AudioRecorder, DeviceConfig, EncodedRecording, RecorderError, RecorderState};
pub use history::{DictationEntry, Profile};
pub use text::is_blank;
pub use pipeline::{
    parse_mode, select_backend, Action, Backend, CleanupRequest, Event, Lifecycle, Mode,
    PipelineError, PipelineResult, PipelineRun, PipelineSettings, Stage,
};
pub use backend::{
    bearer, first_choice_or, history_entry_path, history_search_path, install_command,
    like_pattern,
};
