//! Playback session controller: the state machine behind start / stop /
//! set-volume / is-playing.
//!
//! The controller itself is a pure state machine over a [`Session`] value.
//! The surrounding application owns the output device, the sink and the
//! background worker thread; it holds the `Session` under its lock, asks it
//! for a decision on every host command, and performs the device and thread
//! work that the decision calls for. This keeps the whole control logic —
//! idempotent start, always-safe stop, volume validation — verified, while
//! the device and thread plumbing stays outside.
//!
//! Volume is carried as the bit pattern of an IEEE-754 single-precision
//! value. A requested volume outside [0.0, 1.0] is rejected with an error
//! (rather than clamped), so that the volume actually applied to the sink is
//! always inside the unit range.

use vstd::prelude::*;

verus! {

/// Bit pattern of the IEEE-754 single-precision value 1.0, the default
/// volume of a freshly created sink.
pub const DEFAULT_VOLUME_BITS: u32 = 0x3F80_0000;

/// Bit pattern of the IEEE-754 single-precision value -0.0, which also
/// denotes a volume of zero.
pub const NEGATIVE_ZERO_BITS: u32 = 0x8000_0000;

/// A single-precision bit pattern encodes a value inside [0.0, 1.0] exactly
/// when it lies between the patterns of +0.0 and 1.0 — non-negative IEEE-754
/// patterns order the same way as the values they encode — or is the pattern
/// of -0.0. Every NaN pattern is above the pattern of 1.0, so none passes.
pub open spec fn spec_volume_in_unit_range(bits: u32) -> bool {
    bits <= DEFAULT_VOLUME_BITS || bits == NEGATIVE_ZERO_BITS
}

/// Executable form of [`spec_volume_in_unit_range`].
pub fn volume_in_unit_range(bits: u32) -> (r: bool)
    ensures
        r == spec_volume_in_unit_range(bits),
{
    bits <= DEFAULT_VOLUME_BITS || bits == NEGATIVE_ZERO_BITS
}

/// Phase of one playback session.
///
/// `Starting` covers the span between granting a start and the worker thread
/// standing ready; `Playing` is the steady state. A session that is stopped,
/// fails to start, or whose stream ends returns to `Idle`.
#[derive(Clone, Copy, PartialEq, Eq, Structural, Debug)]
pub enum SessionState {
    Idle,
    Starting,
    Playing,
}

/// Error returned when a requested volume lies outside [0.0, 1.0].
#[derive(Clone, Copy, PartialEq, Eq, Structural, Debug)]
pub enum VolumeError {
    OutOfRange,
}

/// What the host must do after asking to start.
#[derive(Clone, Copy, PartialEq, Eq, Structural, Debug)]
pub enum StartDecision {
    /// The session is already starting or playing: do nothing. At most one
    /// worker thread may exist, and it is already there.
    AlreadyActive,
    /// The session was idle: acquire the output device and spawn the one
    /// worker thread, then report back with `device_acquired` or
    /// `device_failed`.
    AcquireDevice,
}

/// What the host must do after asking to toggle playback.
#[derive(Clone, Copy, PartialEq, Eq, Structural, Debug)]
pub enum ToggleDecision {
    /// The session was active: it is now idle; release the sink and
    /// report that playback is off.
    StopPlayback,
    /// The session was idle: proceed exactly as for a granted start —
    /// acquire the output device, spawn the worker — and report that
    /// playback is on.
    StartPlayback,
}

/// The observable control state of one playback session.
pub struct Session {
    pub state: SessionState,
    /// Bit pattern of the volume last applied to the sink; meaningful while
    /// the session is active.
    pub volume_bits: u32,
}

/// A session is well formed when its volume is inside the unit range.
pub open spec fn spec_session_wf(s: Session) -> bool {
    spec_volume_in_unit_range(s.volume_bits)
}

/// A session counts as playing for the host while it is starting or playing.
pub open spec fn spec_is_active(s: Session) -> bool {
    s.state != SessionState::Idle
}

/// Transition taken by a start request: an idle session moves to `Starting`
/// with the default volume of the fresh sink; an active one is unchanged.
pub open spec fn spec_start(s: Session) -> Session {
    if s.state == SessionState::Idle {
        Session { state: SessionState::Starting, volume_bits: DEFAULT_VOLUME_BITS }
    } else {
        s
    }
}

/// Transition taken by a stop request or by the worker thread ending: the
/// session returns to `Idle`; the recorded volume is kept but meaningless
/// until the next start resets it.
pub open spec fn spec_stop(s: Session) -> Session {
    Session { state: SessionState::Idle, ..s }
}

impl Session {
    /// A fresh session: idle, default volume.
    pub fn new() -> (s: Session)
        ensures
            s.state == SessionState::Idle,
            s.volume_bits == DEFAULT_VOLUME_BITS,
            spec_session_wf(s),
    {
        Session { state: SessionState::Idle, volume_bits: DEFAULT_VOLUME_BITS }
    }

    /// Whether the host should see the session as playing (starting counts).
    pub fn is_playing(&self) -> (r: bool)
        ensures
            r == spec_is_active(*self),
    {
        self.state != SessionState::Idle
    }

    /// Handle a start request. Starting an active session is a no-op that
    /// still succeeds, so no second worker thread is ever licensed: the
    /// `AcquireDevice` decision is granted only from `Idle`.
    pub fn start_requested(&mut self) -> (d: StartDecision)
        ensures
            *final(self) == spec_start(*old(self)),
            d == StartDecision::AcquireDevice <==> old(self).state == SessionState::Idle,
            spec_is_active(*final(self)),
            spec_session_wf(*old(self)) ==> spec_session_wf(*final(self)),
    {
        if self.state == SessionState::Idle {
            self.state = SessionState::Starting;
            self.volume_bits = DEFAULT_VOLUME_BITS;
            StartDecision::AcquireDevice
        } else {
            StartDecision::AlreadyActive
        }
    }

    /// The output device was acquired and the worker thread stands ready:
    /// a starting session becomes playing; any other state is unchanged.
    pub fn device_acquired(&mut self)
        ensures
            old(self).state == SessionState::Starting ==> *final(self) == (Session {
                state: SessionState::Playing,
                ..*old(self)
            }),
            old(self).state != SessionState::Starting ==> *final(self) == *old(self),
    {
        if self.state == SessionState::Starting {
            self.state = SessionState::Playing;
        }
    }

    /// The output device could not be acquired: the session falls back to
    /// `Idle` and the start is reported as failed; no thread was spawned.
    pub fn device_failed(&mut self)
        ensures
            *final(self) == spec_stop(*old(self)),
            !spec_is_active(*final(self)),
    {
        self.state = SessionState::Idle;
    }

    /// The worker thread ended on its own — the stream closed, the host was
    /// unreachable, or the format could not be probed. The session settles
    /// back to `Idle`, so `is_playing` reports false from here on.
    pub fn stream_ended(&mut self)
        ensures
            *final(self) == spec_stop(*old(self)),
            !spec_is_active(*final(self)),
    {
        self.state = SessionState::Idle;
    }

    /// Handle a stop request: always safe, always ends `Idle`. Returns
    /// whether a sink was live and must now be released — false when the
    /// session was already idle, in which case there is nothing to release.
    pub fn stop_requested(&mut self) -> (release_sink: bool)
        ensures
            *final(self) == spec_stop(*old(self)),
            release_sink == spec_is_active(*old(self)),
            !spec_is_active(*final(self)),
    {
        let was_active = self.state != SessionState::Idle;
        self.state = SessionState::Idle;
        was_active
    }

    /// Handle the host's toggle command: stop an active session, start an
    /// idle one.
    pub fn toggle_requested(&mut self) -> (d: ToggleDecision)
        ensures
            spec_is_active(*old(self)) ==> d == ToggleDecision::StopPlayback && *final(self)
                == spec_stop(*old(self)),
            !spec_is_active(*old(self)) ==> d == ToggleDecision::StartPlayback && *final(self)
                == spec_start(*old(self)),
            spec_session_wf(*old(self)) ==> spec_session_wf(*final(self)),
    {
        if self.state != SessionState::Idle {
            self.state = SessionState::Idle;
            ToggleDecision::StopPlayback
        } else {
            self.state = SessionState::Starting;
            self.volume_bits = DEFAULT_VOLUME_BITS;
            ToggleDecision::StartPlayback
        }
    }

    /// Handle a volume request, `bits` being the bit pattern of the wanted
    /// single-precision volume. On an idle session this is a successful
    /// no-op and nothing is applied. On an active session a volume inside
    /// [0.0, 1.0] is recorded and `Ok(true)` directs the host to apply it to
    /// the sink; one outside the range is rejected, so only unit-range
    /// volumes ever reach the sink.
    pub fn set_volume_requested(&mut self, bits: u32) -> (r: Result<bool, VolumeError>)
        ensures
            old(self).state == SessionState::Idle ==> r == Ok::<bool, VolumeError>(false)
                && *final(self) == *old(self),
            old(self).state != SessionState::Idle && spec_volume_in_unit_range(bits) ==> r
                == Ok::<bool, VolumeError>(true) && *final(self) == (Session {
                volume_bits: bits,
                ..*old(self)
            }),
            old(self).state != SessionState::Idle && !spec_volume_in_unit_range(bits) ==> r
                == Err::<bool, VolumeError>(VolumeError::OutOfRange) && *final(self) == *old(
                self,
            ),
            spec_session_wf(*old(self)) ==> spec_session_wf(*final(self)),
    {
        if self.state == SessionState::Idle {
            Ok(false)
        } else if volume_in_unit_range(bits) {
            self.volume_bits = bits;
            Ok(true)
        } else {
            Err(VolumeError::OutOfRange)
        }
    }
}

/// Starting is idempotent: asking to start twice leaves the session exactly
/// where one request left it, and either way the session reports playing.
pub proof fn lemma_start_idempotent(s: Session)
    ensures
        spec_start(spec_start(s)) == spec_start(s),
        spec_is_active(spec_start(s)),
{
}

/// Stop is idempotent and always safe: it ends `Idle` from every state, and
/// stopping twice is the same as stopping once.
pub proof fn lemma_stop_idempotent(s: Session)
    ensures
        spec_stop(spec_stop(s)) == spec_stop(s),
        !spec_is_active(spec_stop(s)),
{
}

} // verus!
