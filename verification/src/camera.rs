//! The synchronous capture session: one device, one stream, a state machine
//! `Closed -> Configured -> Streaming -> Closed`, and the device-exclusivity
//! registry.
//!
//! The session owns the logic of the lifecycle; the blocking native reads
//! themselves happen outside it and hand their raw bytes to `frame`.

use vstd::prelude::*;
use vstd::slice::slice_to_vec;
use crate::buffer::FrameBuffer;
use crate::controls::CameraControl;
use crate::controls::KnownCameraControlFlag;
use crate::controls::KnownCameraControls;
use crate::controls::control_value_acceptable;
use crate::error::NokhwaError;
use crate::format::CameraFormat;
use crate::resolver::RequestedFormat;
use crate::resolver::resolve_spec;
use crate::types::CameraIndex;

verus! {

/// Where a capture session stands in its lifecycle.
///
/// - `Closed`: no device resources held.
/// - `Configured`: a format has been resolved and applied, no stream open.
/// - `Streaming`: the stream is open and frames may be read.
#[derive(Copy, Clone, Debug, Hash, Eq, PartialEq, Structural)]
pub enum SessionState {
    Closed,
    Configured,
    Streaming,
}

/// The first control record carrying the given id, scanning in order.
pub open spec fn find_control_idx(s: Seq<CameraControl>, id: KnownCameraControls) -> Option<int>
    decreases s.len(),
{
    if s.len() == 0 {
        None
    } else if s[0].control == id {
        Some(0int)
    } else {
        match find_control_idx(s.drop_first(), id) {
            Some(i) => Some(i + 1),
            None => None,
        }
    }
}

/// A found control index points at a record with the id it was found by.
pub proof fn lemma_find_control_idx_props(s: Seq<CameraControl>, id: KnownCameraControls)
    ensures
        find_control_idx(s, id) matches Some(i) ==> 0 <= i < s.len() && s[i].control == id,
        find_control_idx(s, id) is None ==> forall|j: int|
            0 <= j < s.len() ==> (#[trigger] s[j]).control != id,
    decreases s.len(),
{
    if s.len() > 0 && s[0].control != id {
        lemma_find_control_idx_props(s.drop_first(), id);
        match find_control_idx(s.drop_first(), id) {
            Some(i) => {
                assert(s[i + 1] == s.drop_first()[i]);
            },
            None => {
                assert forall|j: int| 0 <= j < s.len() implies (#[trigger] s[j]).control != id by {
                    if j > 0 {
                        assert(s.drop_first()[j - 1] == s[j]);
                    }
                }
            },
        }
    }
}

/// Whether a control record takes an update at all, and accepts this value:
/// a read-only or disabled control takes none; otherwise the value must pass
/// the record's range and step checks.
pub open spec fn control_accepts(c: CameraControl, value: int) -> bool {
    c.flag != KnownCameraControlFlag::ReadOnly && c.flag != KnownCameraControlFlag::Disabled
        && control_value_acceptable(c.min as int, c.max as int, c.step as int, value)
}

/// What updating a control does to a control list: nothing when the id is
/// unknown or the record rejects the value, otherwise the one record's value
/// is replaced.
pub open spec fn set_control_outcome(
    s: Seq<CameraControl>,
    id: KnownCameraControls,
    value: int,
) -> Option<Seq<CameraControl>> {
    match find_control_idx(s, id) {
        None => None,
        Some(j) => if control_accepts(s[j], value) {
            Some(s.update(j, (CameraControl { value: value as i32, ..s[j] })))
        } else {
            None
        },
    }
}

/// Setting a control flagged read-only (or disabled) is always rejected:
/// whatever the value, the update has no outcome and the control list stays
/// as it was.
pub proof fn lemma_readonly_control_rejected(
    s: Seq<CameraControl>,
    id: KnownCameraControls,
    value: int,
)
    requires
        find_control_idx(s, id) matches Some(j) && (s[j].flag == KnownCameraControlFlag::ReadOnly
            || s[j].flag == KnownCameraControlFlag::Disabled),
    ensures
        set_control_outcome(s, id, value) is None,
{
    lemma_find_control_idx_props(s, id);
}

/// A synchronous capture session: one device identity, the formats and
/// controls that device reports, and the stream lifecycle state.
#[derive(Clone, Debug)]
pub struct Camera {
    pub index: CameraIndex,
    pub formats: Vec<CameraFormat>,
    pub controls: Vec<CameraControl>,
    pub state: SessionState,
    pub current: Option<CameraFormat>,
}

impl Camera {
    /// A session holds a format exactly while it is configured or streaming.
    pub open spec fn wf(self) -> bool {
        self.current is Some <==> self.state != SessionState::Closed
    }

    /// Open a session over a device that reports the given formats and
    /// controls. The session starts closed: nothing is configured yet.
    pub fn new(index: CameraIndex, formats: Vec<CameraFormat>, controls: Vec<CameraControl>) -> (c:
        Camera)
        ensures
            c == (Camera {
                index,
                formats,
                controls,
                state: SessionState::Closed,
                current: None::<CameraFormat>,
            }),
            c.wf(),
    {
        Camera { index, formats, controls, state: SessionState::Closed, current: None }
    }

    /// Resolve a requested format against the device's reported formats and
    /// apply it, moving the session from closed to configured.
    ///
    /// When no reported format satisfies the request the session stays
    /// closed and the request is reported as unsupported; in any other state
    /// than closed the call is a lifecycle error and changes nothing.
    pub fn configure(&mut self, request: RequestedFormat) -> (r: Result<CameraFormat, NokhwaError>)
        requires
            old(self).wf(),
        ensures
            final(self).wf(),
            old(self).state != SessionState::Closed ==> r == Err::<CameraFormat, NokhwaError>(
                NokhwaError::StreamStateError,
            ) && *final(self) == *old(self),
            old(self).state == SessionState::Closed ==> match resolve_spec(
                request.requested_format,
                old(self).formats@,
            ) {
                Some(f) => r == Ok::<CameraFormat, NokhwaError>(f) && *final(self) == (Camera {
                    state: SessionState::Configured,
                    current: Some(f),
                    ..*old(self)
                }),
                None => r == Err::<CameraFormat, NokhwaError>(NokhwaError::UnsupportedFormat)
                    && *final(self) == *old(self),
            },
    {
        if !matches!(self.state, SessionState::Closed) {
            return Err(NokhwaError::StreamStateError);
        }
        match request.fulfill(self.formats.as_slice()) {
            Some(f) => {
                self.state = SessionState::Configured;
                self.current = Some(f);
                Ok(f)
            },
            None => Err(NokhwaError::UnsupportedFormat),
        }
    }

    /// Open the stream of a configured session.
    ///
    /// Starting twice, or starting before configuring, is a lifecycle error
    /// and changes nothing.
    pub fn start_stream(&mut self) -> (r: Result<(), NokhwaError>)
        requires
            old(self).wf(),
        ensures
            final(self).wf(),
            old(self).state == SessionState::Configured ==> r == Ok::<(), NokhwaError>(()) && *final(self) == (Camera { state: SessionState::Streaming, ..*old(self) }),
            old(self).state != SessionState::Configured ==> r == Err::<(), NokhwaError>(
                NokhwaError::StreamStateError,
            ) && *final(self) == *old(self),
    {
        if matches!(self.state, SessionState::Configured) {
            self.state = SessionState::Streaming;
            Ok(())
        } else {
            Err(NokhwaError::StreamStateError)
        }
    }

    /// Close the stream of a streaming session; anywhere else this is a
    /// no-op. The applied format stays, so the stream can be started again.
    pub fn stop_stream(&mut self)
        requires
            old(self).wf(),
        ensures
            final(self).wf(),
            old(self).state == SessionState::Streaming ==> *final(self) == (Camera {
                state: SessionState::Configured,
                ..*old(self)
            }),
            old(self).state != SessionState::Streaming ==> *final(self) == *old(self),
    {
        if matches!(self.state, SessionState::Streaming) {
            self.state = SessionState::Configured;
        }
    }

    /// Release the device: stop whatever is running and drop the applied
    /// format. Closing an already-closed session changes nothing, so closing
    /// twice is not an error.
    pub fn close(&mut self)
        requires
            old(self).wf(),
        ensures
            final(self).wf(),
            *final(self) == (Camera {
                state: SessionState::Closed,
                current: None::<CameraFormat>,
                ..*old(self)
            }),
    {
        self.state = SessionState::Closed;
        self.current = None;
    }

    /// The format the session is configured to, while it is configured or
    /// streaming.
    pub fn camera_format(&self) -> (r: Option<CameraFormat>)
        ensures
            r == self.current,
    {
        self.current
    }

    /// Where the session stands in its lifecycle.
    pub fn state(&self) -> (r: SessionState)
        ensures
            r == self.state,
    {
        self.state
    }

    /// The device identity this session was opened over.
    pub fn index(&self) -> (r: &CameraIndex)
        ensures
            r == &self.index,
    {
        &self.index
    }

    /// The formats the device reported when the session was opened.
    pub fn compatible_camera_formats(&self) -> (r: Vec<CameraFormat>)
        ensures
            r@ == self.formats@,
    {
        slice_to_vec(self.formats.as_slice())
    }

    /// Wrap one captured raw frame in its metadata: the bytes are stamped
    /// with the applied format's resolution and encoding.
    ///
    /// Reading before the stream is open is a lifecycle error.
    pub fn frame(&self, data: Vec<u8>) -> (r: Result<FrameBuffer, NokhwaError>)
        requires
            self.wf(),
        ensures
            self.state == SessionState::Streaming ==> (self.current matches Some(f) && r matches Ok(
                fb,
            ) && fb == (FrameBuffer {
                resolution: f.resolution,
                buffer: data,
                source_frame_format: f.format,
            })),
            self.state != SessionState::Streaming ==> r == Err::<FrameBuffer, NokhwaError>(
                NokhwaError::StreamStateError,
            ),
    {
        if !matches!(self.state, SessionState::Streaming) {
            return Err(NokhwaError::StreamStateError);
        }
        match &self.current {
            Some(f) => Ok(
                FrameBuffer {
                    resolution: f.resolution,
                    buffer: data,
                    source_frame_format: f.format,
                },
            ),
            None => Err(NokhwaError::StreamStateError),
        }
    }

    /// The control records the device reported.
    pub fn camera_controls(&self) -> (r: Vec<CameraControl>)
        ensures
            r@ == self.controls@,
    {
        slice_to_vec(self.controls.as_slice())
    }

    /// Look up one control record by id; an id the device did not report is
    /// rejected.
    pub fn camera_control(&self, control: KnownCameraControls) -> (r: Result<
        CameraControl,
        NokhwaError,
    >)
        ensures
            r == (match find_control_idx(self.controls@, control) {
                Some(j) => Ok::<CameraControl, NokhwaError>(self.controls@[j]),
                None => Err::<CameraControl, NokhwaError>(NokhwaError::ControlRejected),
            }),
    {
        proof {
            lemma_find_control_idx_props(self.controls@, control);
        }
        let n = self.controls.len();
        let mut i: usize = 0;
        while i < n
            invariant
                0 <= i <= n,
                n == self.controls@.len(),
                forall|j: int| 0 <= j < i ==> (#[trigger] self.controls@[j]).control != control,
            decreases n - i,
        {
            if self.controls[i].control == control {
                proof {
                    lemma_find_first_here(self.controls@, control, i as int);
                }
                return Ok(self.controls[i]);
            }
            i = i + 1;
        }
        proof {
            lemma_find_none(self.controls@, control);
        }
        Err(NokhwaError::ControlRejected)
    }

    /// Update one control's value, validating before anything is forwarded:
    /// an unknown id, a read-only or disabled control, or a value outside
    /// the control's bounds or step grid is rejected, and nothing changes.
    pub fn set_camera_control(&mut self, control: KnownCameraControls, value: i32) -> (r: Result<
        (),
        NokhwaError,
    >)
        requires
            old(self).wf(),
        ensures
            final(self).wf(),
            match set_control_outcome(old(self).controls@, control, value as int) {
                Some(updated) => r == Ok::<(), NokhwaError>(()) && final(self).controls@ == updated,
                None => r == Err::<(), NokhwaError>(NokhwaError::ControlRejected) && *final(self)
                    == *old(self),
            },
            final(self).index == old(self).index,
            final(self).formats == old(self).formats,
            final(self).state == old(self).state,
            final(self).current == old(self).current,
    {
        proof {
            lemma_find_control_idx_props(self.controls@, control);
        }
        let n = self.controls.len();
        let mut i: usize = 0;
        while i < n
            invariant
                0 <= i <= n,
                *self == *old(self),
                old(self).wf(),
                n == self.controls@.len(),
                forall|j: int| 0 <= j < i ==> (#[trigger] self.controls@[j]).control != control,
            decreases n - i,
        {
            if self.controls[i].control == control {
                proof {
                    lemma_find_first_here(self.controls@, control, i as int);
                }
                let c = self.controls[i];
                let flag_blocks = matches!(c.flag, KnownCameraControlFlag::ReadOnly)
                    || matches!(c.flag, KnownCameraControlFlag::Disabled);
                if flag_blocks {
                    return Err(NokhwaError::ControlRejected);
                }
                let mut updated = c;
                match updated.set_value(value) {
                    Ok(()) => {
                        self.controls.set(i, updated);
                        return Ok(());
                    },
                    Err(_) => {
                        return Err(NokhwaError::ControlRejected);
                    },
                }
            }
            i = i + 1;
        }
        proof {
            lemma_find_none(self.controls@, control);
        }
        Err(NokhwaError::ControlRejected)
    }
}

proof fn lemma_find_first_here(s: Seq<CameraControl>, id: KnownCameraControls, i: int)
    requires
        0 <= i < s.len(),
        s[i].control == id,
        forall|j: int| 0 <= j < i ==> (#[trigger] s[j]).control != id,
    ensures
        find_control_idx(s, id) == Some(i),
    decreases s.len(),
{
    if i > 0 {
        assert(forall|j: int| 0 <= j < s.len() - 1 ==> s.drop_first()[j] == #[trigger] s[j + 1]);
        lemma_find_first_here(s.drop_first(), id, i - 1);
    }
}

proof fn lemma_find_none(s: Seq<CameraControl>, id: KnownCameraControls)
    requires
        forall|j: int| 0 <= j < s.len() ==> (#[trigger] s[j]).control != id,
    ensures
        find_control_idx(s, id) is None,
    decreases s.len(),
{
    if s.len() > 0 {
        assert(forall|j: int| 0 <= j < s.len() - 1 ==> s.drop_first()[j] == #[trigger] s[j + 1]);
        lemma_find_none(s.drop_first(), id);
    }
}

/// What claiming a device does to the exclusivity table: an index beyond the
/// table is unknown, a held slot is refused, a free slot is taken.
pub open spec fn open_outcome(s: Seq<bool>, i: int) -> (Result<(), NokhwaError>, Seq<bool>) {
    if !(0 <= i < s.len()) {
        (Err(NokhwaError::DeviceNotFound), s)
    } else if s[i] {
        (Err(NokhwaError::AlreadyInUse), s)
    } else {
        (Ok(()), s.update(i, true))
    }
}

/// Exclusivity: once a device is claimed, claiming it again is refused as
/// already in use until it is released.
pub proof fn lemma_open_exclusive(s: Seq<bool>, i: int)
    requires
        open_outcome(s, i).0 is Ok,
    ensures
        open_outcome(open_outcome(s, i).1, i).0 == Err::<(), NokhwaError>(NokhwaError::AlreadyInUse),
{
}

/// The per-process table of which devices are claimed by a session, by
/// ordinal. The native configuration lock is held by at most one session at
/// a time; this table is the bookkeeping of that rule.
#[derive(Clone, Debug)]
pub struct DeviceRegistry {
    pub in_use: Vec<bool>,
}

impl DeviceRegistry {
    /// A table for the given number of devices, all free.
    pub fn new(count: usize) -> (r: DeviceRegistry)
        ensures
            r.in_use@.len() == count,
            forall|j: int| 0 <= j < count ==> !(#[trigger] r.in_use@[j]),
    {
        let mut v: Vec<bool> = Vec::new();
        let mut i: usize = 0;
        while i < count
            invariant
                0 <= i <= count,
                v@.len() == i,
                forall|j: int| 0 <= j < i ==> !(#[trigger] v@[j]),
            decreases count - i,
        {
            v.push(false);
            i = i + 1;
        }
        DeviceRegistry { in_use: v }
    }

    /// Claim a device for exclusive use. A second claim of the same index
    /// before a release reports it already in use.
    pub fn open(&mut self, index: usize) -> (r: Result<(), NokhwaError>)
        ensures
            r == open_outcome(old(self).in_use@, index as int).0,
            final(self).in_use@ == open_outcome(old(self).in_use@, index as int).1,
    {
        if index >= self.in_use.len() {
            return Err(NokhwaError::DeviceNotFound);
        }
        if self.in_use[index] {
            return Err(NokhwaError::AlreadyInUse);
        }
        self.in_use.set(index, true);
        Ok(())
    }

    /// Release a device. Releasing a free or unknown index changes nothing,
    /// so a release is never an error.
    pub fn close(&mut self, index: usize)
        ensures
            index < old(self).in_use@.len() ==> final(self).in_use@ == old(self).in_use@.update(
                index as int,
                false,
            ),
            index >= old(self).in_use@.len() ==> final(self).in_use@ == old(self).in_use@,
    {
        if index < self.in_use.len() {
            self.in_use.set(index, false);
        }
    }
}

} // verus!
