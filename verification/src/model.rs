//! The model holder: at most one loaded model, replaced only by a load that
//! succeeded.

use vstd::prelude::*;
use crate::error::{JobError, ModelLoadError};

verus! {

/// The device a load runs on when the caller names none.
pub open spec fn device_of(gpu_device: Option<i32>) -> i32 {
    match gpu_device {
        Some(device) => device,
        None => 0,
    }
}

/// What the engine is asked to load, and how.
#[derive(Debug, Clone, PartialEq, Eq)]
pub struct ModelRequest {
    pub path: String,
    pub use_gpu: bool,
    pub gpu_device: i32,
}

impl ModelRequest {
    /// The load request for a model file; the device defaults to 0.
    pub fn new(path: String, use_gpu: bool, gpu_device: Option<i32>) -> (request: Self)
        ensures
            request == (ModelRequest { path, use_gpu, gpu_device: device_of(gpu_device) }),
    {
        let device = match gpu_device {
            Some(device) => device,
            None => 0,
        };
        ModelRequest { path, use_gpu, gpu_device: device }
    }
}

/// Holds the loaded model, if any. `M` is the engine's model handle, which
/// the holder owns and only lends out.
pub struct TranscriptionState<M> {
    model: Option<M>,
}

impl<M> View for TranscriptionState<M> {
    type V = Option<M>;

    closed spec fn view(&self) -> Option<M> {
        self.model
    }
}

impl<M> TranscriptionState<M> {
    /// A holder with no model loaded.
    pub fn new() -> (state: Self)
        ensures
            state@ is None,
    {
        TranscriptionState { model: None }
    }

    /// Whether a model is loaded.
    pub fn is_loaded(&self) -> (loaded: bool)
        ensures
            loaded == self@ is Some,
    {
        self.model.is_some()
    }

    /// Lends the loaded model for the duration of a job, or says that none
    /// has been loaded.
    pub fn model(&self) -> (lent: Result<&M, JobError>)
        ensures
            match self@ {
                Some(model) => lent == Ok::<&M, JobError>(&model),
                None => lent == Err::<&M, JobError>(JobError::ModelNotLoaded),
            },
    {
        match &self.model {
            Some(model) => Ok(model),
            None => Err(JobError::ModelNotLoaded),
        }
    }
}

/// Completes a load with what the engine returned for it. A model that was
/// loaded replaces the one held before. A failed load is reported with the
/// engine's description and leaves the holder exactly as it was, so that a
/// model loaded earlier stays usable.
pub fn load_model<M>(state: &mut TranscriptionState<M>, loaded: Result<M, String>) -> (result:
    Result<(), ModelLoadError>)
    ensures
        match loaded {
            Ok(model) => result is Ok && final(state)@ == Some(model),
            Err(detail) => result == Err::<(), ModelLoadError>(ModelLoadError { detail })
                && *final(state) == *old(state),
        },
{
    match loaded {
        Ok(model) => {
            state.model = Some(model);
            Ok(())
        },
        Err(detail) => Err(ModelLoadError { detail }),
    }
}

} // verus!
