//! The threaded callback capture model: the state a background capture
//! worker and its consumer share, and the first-in-first-out frame queue
//! between them.
//!
//! The worker thread itself runs outside this crate; it feeds captured
//! frames in through `push_frame`, and a consumer takes them out through
//! `poll_frame`. Frames come out in exactly the order they went in, and a
//! worker that dies is distinguishable from one that is merely idle.

use vstd::prelude::*;
use crate::buffer::FrameBuffer;
use crate::error::NokhwaError;
use crate::format::CameraFormat;
use crate::resolver::RequestedFormat;
use crate::resolver::resolve_spec;

verus! {

/// What the background capture worker is doing.
///
/// - `Stopped`: no worker is running (not yet started, or stopped).
/// - `Running`: the worker loops on blocking reads and delivers frames.
/// - `Terminated`: the worker exited after an unrecoverable error.
#[derive(Copy, Clone, Debug, Hash, Eq, PartialEq, Structural)]
pub enum WorkerStatus {
    Stopped,
    Running,
    Terminated,
}

/// The shared state of a threaded capture: the format resolved at
/// construction, the queue of delivered frames in capture order, and the
/// worker's status.
#[derive(Clone, Debug)]
pub struct CallbackCamera {
    pub format: CameraFormat,
    pub queue: Vec<FrameBuffer>,
    pub status: WorkerStatus,
}

impl CallbackCamera {
    /// Build a threaded capture over a device's reported formats.
    ///
    /// The format is resolved here, at construction, so a request nothing
    /// satisfies is reported now rather than lost on the worker later.
    /// Nothing is captured yet: the worker starts with `open_stream`.
    pub fn new(request: RequestedFormat, all_formats: &[CameraFormat]) -> (r: Result<
        CallbackCamera,
        NokhwaError,
    >)
        ensures
            match resolve_spec(request.requested_format, all_formats@) {
                Some(f) => r matches Ok(c) && c.format == f && c.queue@.len() == 0 && c.status
                    == WorkerStatus::Stopped,
                None => r == Err::<CallbackCamera, NokhwaError>(NokhwaError::UnsupportedFormat),
            },
    {
        match request.fulfill(all_formats) {
            Some(f) => Ok(
                CallbackCamera { format: f, queue: Vec::new(), status: WorkerStatus::Stopped },
            ),
            None => Err(NokhwaError::UnsupportedFormat),
        }
    }

    /// The format resolved at construction.
    pub fn camera_format(&self) -> (r: CameraFormat)
        ensures
            r == self.format,
    {
        self.format
    }

    /// Start the worker. Starting a running worker is a lifecycle error, and
    /// a terminated worker stays terminated; neither changes anything.
    pub fn open_stream(&mut self) -> (r: Result<(), NokhwaError>)
        ensures
            old(self).status == WorkerStatus::Stopped ==> r == Ok::<(), NokhwaError>(()) && *final(self) == (CallbackCamera { status: WorkerStatus::Running, ..*old(self) }),
            old(self).status == WorkerStatus::Running ==> r == Err::<(), NokhwaError>(
                NokhwaError::StreamStateError,
            ) && *final(self) == *old(self),
            old(self).status == WorkerStatus::Terminated ==> r == Err::<(), NokhwaError>(
                NokhwaError::WorkerTerminated,
            ) && *final(self) == *old(self),
    {
        match self.status {
            WorkerStatus::Stopped => {
                self.status = WorkerStatus::Running;
                Ok(())
            },
            WorkerStatus::Running => Err(NokhwaError::StreamStateError),
            WorkerStatus::Terminated => Err(NokhwaError::WorkerTerminated),
        }
    }

    /// Deliver one captured frame, appending it to the queue. Only a running
    /// worker delivers; anything else is a lifecycle error and changes
    /// nothing.
    pub fn push_frame(&mut self, frame: FrameBuffer) -> (r: Result<(), NokhwaError>)
        ensures
            old(self).status == WorkerStatus::Running ==> r == Ok::<(), NokhwaError>(()) && final(self).queue@ == old(self).queue@.push(frame) && final(self).status == old(self).status
                && final(self).format == old(self).format,
            old(self).status != WorkerStatus::Running ==> r == Err::<(), NokhwaError>(
                NokhwaError::StreamStateError,
            ) && *final(self) == *old(self),
    {
        if matches!(self.status, WorkerStatus::Running) {
            self.queue.push(frame);
            Ok(())
        } else {
            Err(NokhwaError::StreamStateError)
        }
    }

    /// Take the oldest delivered frame.
    ///
    /// An empty queue under a live worker means no frame is ready yet; an
    /// empty queue after the worker terminated reports the termination, so a
    /// consumer can tell "still running" from "worker died" — but every
    /// frame delivered before the death is still handed out first.
    pub fn poll_frame(&mut self) -> (r: Result<Option<FrameBuffer>, NokhwaError>)
        ensures
            old(self).queue@.len() > 0 ==> (r matches Ok(of) && of matches Some(fb) && fb == old(self).queue@[0] && final(self).queue@ == old(self).queue@.drop_first() && final(self).status
                == old(self).status && final(self).format == old(self).format),
            old(self).queue@.len() == 0 && old(self).status != WorkerStatus::Terminated ==> r
                == Ok::<Option<FrameBuffer>, NokhwaError>(None) && *final(self) == *old(self),
            old(self).queue@.len() == 0 && old(self).status == WorkerStatus::Terminated ==> r
                == Err::<Option<FrameBuffer>, NokhwaError>(NokhwaError::WorkerTerminated) && *final(self) == *old(self),
    {
        if self.queue.len() > 0 {
            let fb = self.queue.remove(0);
            proof {
                assert(final(self).queue@ =~= old(self).queue@.drop_first());
            }
            Ok(Some(fb))
        } else if matches!(self.status, WorkerStatus::Terminated) {
            Err(NokhwaError::WorkerTerminated)
        } else {
            Ok(None)
        }
    }

    /// Record that the worker exited after an unrecoverable error. Frames it
    /// delivered before exiting stay pollable; after they are drained,
    /// `poll_frame` reports the termination.
    pub fn worker_terminated(&mut self)
        ensures
            *final(self) == (CallbackCamera { status: WorkerStatus::Terminated, ..*old(self) }),
    {
        self.status = WorkerStatus::Terminated;
    }

    /// Ask a running worker to stop after its current read; stopping a
    /// worker that is not running changes nothing. Frames already delivered
    /// stay pollable.
    pub fn stop_stream(&mut self)
        ensures
            old(self).status == WorkerStatus::Running ==> *final(self) == (CallbackCamera {
                status: WorkerStatus::Stopped,
                ..*old(self)
            }),
            old(self).status != WorkerStatus::Running ==> *final(self) == *old(self),
    {
        if matches!(self.status, WorkerStatus::Running) {
            self.status = WorkerStatus::Stopped;
        }
    }
}

/// The queue contents after delivering each frame of `fs`, in order, onto
/// contents `q`.
pub open spec fn pushed_all(q: Seq<FrameBuffer>, fs: Seq<FrameBuffer>) -> Seq<FrameBuffer>
    decreases fs.len(),
{
    if fs.len() == 0 {
        q
    } else {
        pushed_all(q.push(fs[0]), fs.drop_first())
    }
}

/// Capture order is delivery order: delivering the frames `fs` one by one
/// appends them, in order, after whatever was queued. Since `poll_frame`
/// always removes the front, a consumer that polls `fs.len()` times from an
/// initially empty queue receives exactly `fs[0], fs[1], ...` in that order.
pub proof fn lemma_fifo_order(q: Seq<FrameBuffer>, fs: Seq<FrameBuffer>)
    ensures
        pushed_all(q, fs) == q + fs,
    decreases fs.len(),
{
    if fs.len() == 0 {
        assert(q + fs =~= q);
    } else {
        lemma_fifo_order(q.push(fs[0]), fs.drop_first());
        assert(q.push(fs[0]) + fs.drop_first() =~= q + fs);
    }
}

/// The step a consumer's k-th poll takes: when the queue holds the suffix
/// `fs.skip(k)` of the delivered frames, the front — what `poll_frame`
/// returns — is exactly `fs[k]`, and removing it leaves `fs.skip(k + 1)`.
/// Together with `lemma_fifo_order` (delivery leaves the queue holding `fs`)
/// this pins the whole polled trace: the k-th poll returns the k-th frame
/// delivered, for every k.
pub proof fn lemma_poll_order(fs: Seq<FrameBuffer>, k: int)
    requires
        0 <= k < fs.len(),
    ensures
        fs.skip(k)[0] == fs[k],
        fs.skip(k).drop_first() == fs.skip(k + 1),
{
    assert(fs.skip(k).drop_first() =~= fs.skip(k + 1));
}

} // verus!
