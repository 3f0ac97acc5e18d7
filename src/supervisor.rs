//! Decisions of the supervisor that keeps one daemon publishing its heartbeat,
//! and of the daemon's own startup: whether a published record can be used,
//! what the one-byte startup handshake means, and how a name clash on create
//! is resolved.
use vstd::prelude::*;
use crate::heartbeat::{Heartbeat, Pid, VersionTag};
use crate::layout::{RcuError, SegmentFailure};

verus! {

/// The status byte that a starting daemon sends to the process that spawned it.
#[derive(Clone, Copy, Debug, PartialEq, Eq, Structural)]
pub enum StartupResult {
    /// Startup succeeded and the heartbeat is published.
    Started,
    /// Startup failed.
    Failed,
    /// Another daemon holds the name; as good as success to the parent.
    LinkExists,
}

/// The byte that stands for each startup result.
pub open spec fn startup_code(r: StartupResult) -> u8 {
    match r {
        StartupResult::Started => 1,
        StartupResult::Failed => 2,
        StartupResult::LinkExists => 3,
    }
}

impl StartupResult {
    pub fn to_byte(self) -> (b: u8)
        ensures
            b == startup_code(self),
    {
        match self {
            StartupResult::Started => 1,
            StartupResult::Failed => 2,
            StartupResult::LinkExists => 3,
        }
    }

    /// The result that a byte stands for; `None` for a byte outside the set.
    pub fn from_byte(b: u8) -> (r: Option<StartupResult>)
        ensures
            r is None <==> !(1 <= b <= 3),
            r matches Some(x) ==> startup_code(x) == b,
    {
        match b {
            1 => Some(StartupResult::Started),
            2 => Some(StartupResult::Failed),
            3 => Some(StartupResult::LinkExists),
            _ => None,
        }
    }
}

/// Why a startup handshake failed.
#[derive(Clone, Copy, Debug, PartialEq, Eq, Structural)]
pub enum HandshakeError {
    /// The daemon's stream ended before a status byte arrived.
    NoResult,
    /// The daemon reported that its startup failed.
    DaemonFailed,
    /// The byte is none of the status codes.
    InvalidCode(u8),
}

/// What the handshake says, given the status byte read from the daemon
/// (`None` where the stream ended first).
pub fn handshake_outcome(byte: Option<u8>) -> (r: Result<(), HandshakeError>)
    ensures
        byte is None ==> r == Err::<(), HandshakeError>(HandshakeError::NoResult),
        byte matches Some(b) ==> (
            if b == startup_code(StartupResult::Started) || b == startup_code(StartupResult::LinkExists) {
                r is Ok
            } else if b == startup_code(StartupResult::Failed) {
                r == Err::<(), HandshakeError>(HandshakeError::DaemonFailed)
            } else {
                r == Err::<(), HandshakeError>(HandshakeError::InvalidCode(b))
            }
        ),
{
    match byte {
        None => Err(HandshakeError::NoResult),
        Some(b) => match StartupResult::from_byte(b) {
            Some(StartupResult::Started) | Some(StartupResult::LinkExists) => Ok(()),
            Some(StartupResult::Failed) => Err(HandshakeError::DaemonFailed),
            None => Err(HandshakeError::InvalidCode(b)),
        },
    }
}

/// Why the supervisor starts a new daemon.
#[derive(Clone, Copy, Debug, PartialEq, Eq, Structural)]
pub enum SpawnReason {
    /// No segment was ever created: a first run.
    NoSegment,
    /// The published owner is not a running process.
    DeadOwner(Pid),
    /// The segment could not be opened or failed the validity pass.
    Unusable(RcuError),
}

/// What the supervisor does with the segment it probed.
#[derive(Clone, Copy, Debug, PartialEq, Eq, Structural)]
pub enum Verdict {
    /// The daemon is alive: use the segment; warn where its version differs.
    Use { version_skew: bool },
    /// Start a new daemon, then open the segment again.
    Spawn(SpawnReason),
}

/// Whether an error says that no segment is bound to the name.
pub open spec fn is_not_found(e: RcuError) -> bool {
    e == RcuError::SharedMemoryError(SegmentFailure::NotFound)
}

/// The verdict on a probe of the segment: the heartbeat read from it or the
/// error of the open or read; whether its owner is a running process; and the
/// version tag of the running build. A dead owner or an unusable segment leads
/// to a new daemon; a version mismatch only to a warning.
pub fn assess(probe: &Result<Heartbeat, RcuError>, owner_alive: bool, expected: &VersionTag) -> (v: Verdict)
    ensures
        probe matches Ok(hb) ==> v == (if owner_alive {
            Verdict::Use { version_skew: hb.version@ != expected@ }
        } else {
            Verdict::Spawn(SpawnReason::DeadOwner(hb.owner_pid))
        }),
        probe matches Err(e) ==> v == (if is_not_found(*e) {
            Verdict::Spawn(SpawnReason::NoSegment)
        } else {
            Verdict::Spawn(SpawnReason::Unusable(*e))
        }),
{
    match probe {
        Ok(hb) => {
            if owner_alive {
                Verdict::Use { version_skew: !hb.version.same_as(expected) }
            } else {
                Verdict::Spawn(SpawnReason::DeadOwner(hb.owner_pid))
            }
        },
        Err(e) => match e {
            RcuError::SharedMemoryError(SegmentFailure::NotFound) => Verdict::Spawn(SpawnReason::NoSegment),
            _ => Verdict::Spawn(SpawnReason::Unusable(*e)),
        },
    }
}

impl Verdict {
    /// Whether the verdict is worth a line in the log: every respawn but a
    /// first run, and every version mismatch.
    pub fn should_log(&self) -> (r: bool)
        ensures
            r == match *self {
                Verdict::Use { version_skew } => version_skew,
                Verdict::Spawn(reason) => reason != SpawnReason::NoSegment,
            },
    {
        match self {
            Verdict::Use { version_skew } => *version_skew,
            Verdict::Spawn(SpawnReason::NoSegment) => false,
            Verdict::Spawn(_) => true,
        }
    }
}

/// What a starting daemon does after an attempt to create its segment.
#[derive(Clone, Copy, Debug, PartialEq, Eq, Structural)]
pub enum CreateStep {
    /// The segment exists: write the heartbeat and report `Started`.
    Publish,
    /// The name is bound by a segment whose owner is dead: remove the binding
    /// and create again.
    RemoveStaleAndRetry,
    /// The name is bound by a segment whose owner is running: leave it be and
    /// report `LinkExists`.
    Yield,
    /// Give up: report `Failed` and stop.
    Abort(RcuError),
}

/// Whether an error says that the name is already bound.
pub open spec fn is_name_clash(e: RcuError) -> bool {
    e == RcuError::SharedMemoryError(SegmentFailure::NameAlreadyBound)
}

/// The next step after create attempt number `attempt` (from 0) ended with
/// `outcome`; `holder_alive` tells, on a clash of names, whether the owner
/// published in the segment that holds the name is a running process. A live
/// holder is never removed; a dead one is removed once, and the create tried
/// once more; every other failure ends the startup.
pub fn create_step(attempt: usize, outcome: Result<(), RcuError>, holder_alive: bool) -> (r: CreateStep)
    ensures
        outcome is Ok ==> r == CreateStep::Publish,
        outcome matches Err(e) ==> r == (
            if is_name_clash(e) && holder_alive {
                CreateStep::Yield
            } else if is_name_clash(e) && attempt == 0 {
                CreateStep::RemoveStaleAndRetry
            } else {
                CreateStep::Abort(e)
            }
        ),
{
    match outcome {
        Ok(()) => CreateStep::Publish,
        Err(RcuError::SharedMemoryError(SegmentFailure::NameAlreadyBound)) if holder_alive => CreateStep::Yield,
        Err(RcuError::SharedMemoryError(SegmentFailure::NameAlreadyBound)) if attempt == 0 => CreateStep::RemoveStaleAndRetry,
        Err(e) => CreateStep::Abort(e),
    }
}

impl CreateStep {
    /// The status byte that the daemon sends once this step ends its startup
    /// (`None` while a retry is still to come).
    pub fn report(&self) -> (r: Option<StartupResult>)
        ensures
            r == match *self {
                CreateStep::Publish => Some(StartupResult::Started),
                CreateStep::RemoveStaleAndRetry => None,
                CreateStep::Yield => Some(StartupResult::LinkExists),
                CreateStep::Abort(_) => Some(StartupResult::Failed),
            },
    {
        match self {
            CreateStep::Publish => Some(StartupResult::Started),
            CreateStep::RemoveStaleAndRetry => None,
            CreateStep::Yield => Some(StartupResult::LinkExists),
            CreateStep::Abort(_) => Some(StartupResult::Failed),
        }
    }
}

} // verus!
