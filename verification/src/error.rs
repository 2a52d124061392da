//! The error kinds that resolver, session, and conversion operations report.

use vstd::prelude::*;
use crate::types::ApiBackend;
use crate::format::FrameFormat;

verus! {

/// Everything that can go wrong while negotiating, configuring, or running a
/// capture session.
///
/// - `DeviceNotFound`: an index or id does not resolve to an enumerable device.
/// - `AlreadyInUse`: the exclusive device lock is held elsewhere.
/// - `UnsupportedFormat`: no reported format satisfies the request, or the
///   device rejected the configuration.
/// - `ControlRejected`: a control update violated the control's
///   read-only/disabled/range/step constraints.
/// - `StreamStateError`: an operation was attempted in the wrong session state
///   (for example a frame read before the stream was started).
/// - `BackendUnavailable`: the platform has no backend for the requested API.
/// - `WorkerTerminated`: the background capture worker exited after an
///   unrecoverable error.
/// - `ProcessFrameError`: a frame could not be converted between pixel
///   encodings; carries the source encoding and a description.
#[derive(Clone, Debug, PartialEq, Eq)]
pub enum NokhwaError {
    DeviceNotFound,
    AlreadyInUse,
    UnsupportedFormat,
    ControlRejected,
    StreamStateError,
    BackendUnavailable(ApiBackend),
    WorkerTerminated,
    ProcessFrameError { src: FrameFormat, error: String },
}

} // verus!
