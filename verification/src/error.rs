//! The failures a job or a model load can end in, and their messages.

use vstd::prelude::*;

verus! {

/// The message of a job that was started with no model loaded.
pub open spec fn model_not_loaded_message() -> Seq<char> {
    "Model not loaded. Please load a model first."@
}

/// The message of a job whose engine state could not be created.
pub open spec fn state_creation_message(detail: Seq<char>) -> Seq<char> {
    "Failed to create state: "@ + detail
}

/// The message of a job whose audio could not be decoded.
pub open spec fn audio_decode_message(path: Seq<char>, detail: Seq<char>) -> Seq<char> {
    "Failed to open audio file '"@ + path + "': "@ + detail
}

/// The message of a job whose inference call failed.
pub open spec fn inference_message(detail: Seq<char>) -> Seq<char> {
    "Transcription failed: "@ + detail
}

/// The message of a model that could not be loaded.
pub open spec fn model_load_message(detail: Seq<char>) -> Seq<char> {
    "Failed to load model: "@ + detail
}

/// The message of a request that arrived while a job was active.
pub open spec fn job_already_running_message() -> Seq<char> {
    "A transcription job is already running."@
}

/// The message of a request whose options cannot be handed to the engine.
pub open spec fn malformed_options_message() -> Seq<char> {
    "Malformed options: the language and the initial prompt must not contain a NUL byte."@
}

/// Why a job failed. `detail` is the engine's or decoder's own description.
#[derive(Debug, Clone, PartialEq, Eq)]
pub enum JobError {
    /// A job was started before any model was loaded.
    ModelNotLoaded,
    /// The engine could not create its per-job state.
    StateCreation { detail: String },
    /// The audio at `path` could not be decoded.
    AudioDecode { path: String, detail: String },
    /// The blocking inference call itself failed.
    Inference { detail: String },
}

impl JobError {
    /// The human-readable reason carried by the `error` event.
    pub open spec fn message_spec(self) -> Seq<char> {
        match self {
            JobError::ModelNotLoaded => model_not_loaded_message(),
            JobError::StateCreation { detail } => state_creation_message(detail@),
            JobError::AudioDecode { path, detail } => audio_decode_message(path@, detail@),
            JobError::Inference { detail } => inference_message(detail@),
        }
    }

    /// Builds the human-readable reason carried by the `error` event.
    pub fn message(&self) -> (text: String)
        ensures
            text@ == self.message_spec(),
    {
        match self {
            JobError::ModelNotLoaded => String::from_str(
                "Model not loaded. Please load a model first.",
            ),
            JobError::StateCreation { detail } => String::from_str(
                "Failed to create state: ",
            ).concat(detail.as_str()),
            JobError::AudioDecode { path, detail } => String::from_str(
                "Failed to open audio file '",
            ).concat(path.as_str()).concat("': ").concat(detail.as_str()),
            JobError::Inference { detail } => String::from_str("Transcription failed: ").concat(
                detail.as_str(),
            ),
        }
    }
}

/// A model could not be loaded. `detail` is the engine's own description.
#[derive(Debug, Clone, PartialEq, Eq)]
pub struct ModelLoadError {
    pub detail: String,
}

impl ModelLoadError {
    /// The message returned to the caller of a failed load.
    pub open spec fn message_spec(self) -> Seq<char> {
        model_load_message(self.detail@)
    }

    /// Builds the message returned to the caller of a failed load.
    pub fn message(&self) -> (text: String)
        ensures
            text@ == self.message_spec(),
    {
        String::from_str("Failed to load model: ").concat(self.detail.as_str())
    }
}

/// Why a transcription request was refused before any job began.
#[derive(Debug, Clone, Copy, PartialEq, Eq, Structural)]
pub enum RequestError {
    /// The options hold a text that cannot be handed to the engine.
    MalformedOptions,
    /// A job is active; only one job may be active at a time.
    JobAlreadyRunning,
}

impl RequestError {
    /// The message returned to the caller of a refused request.
    pub open spec fn message_spec(self) -> Seq<char> {
        match self {
            RequestError::MalformedOptions => malformed_options_message(),
            RequestError::JobAlreadyRunning => job_already_running_message(),
        }
    }

    /// Builds the message returned to the caller of a refused request.
    pub fn message(&self) -> (text: String)
        ensures
            text@ == self.message_spec(),
    {
        match self {
            RequestError::MalformedOptions => String::from_str(
                "Malformed options: the language and the initial prompt must not contain a NUL byte.",
            ),
            RequestError::JobAlreadyRunning => String::from_str(
                "A transcription job is already running.",
            ),
        }
    }
}

} // verus!
