//! Decisions of the shared-memory allocator: produce a file-descriptor-backed
//! anonymous memory region for one frame. The primary mechanism is an
//! anonymous sealed memory file; when the host lacks it, the fallback is a
//! named shared-memory object with a generated name, unlinked immediately
//! after opening. The platform calls themselves happen outside; each result
//! is reported back as an event and this machine decides the next step.

use vstd::prelude::*;

verus! {

/// Where the allocation stands, and what the platform should try next.
#[derive(Debug, Clone, Copy, PartialEq, Eq, Structural)]
pub enum ShmPhase {
    /// Try creating an anonymous sealed memory file (close-on-exec, with
    /// best-effort seals against shrinking and further seal changes; seal
    /// failures are ignored, the seal is only an optimization).
    Memfd,
    /// Fallback: open a named shared-memory object under a freshly
    /// generated name, creating it exclusively.
    NamedOpen,
    /// The named object is open on this descriptor; unlink its name so
    /// nothing persists in the filesystem.
    NamedUnlink(i32),
    /// Unlinking failed with this error code; the open descriptor must be
    /// closed before the failure is reported.
    Closing(i32),
    /// A usable descriptor. The caller must still size it to the frame's
    /// byte length and must not hand out a descriptor whose truncation
    /// failed.
    Done(i32),
    /// Allocation failed with this error code; it is propagated, never
    /// swallowed.
    Failed(i32),
}

/// What the platform reported for the step just attempted.
#[derive(Debug, Clone, Copy, PartialEq, Eq, Structural)]
pub enum ShmEvent {
    /// A descriptor was created or opened.
    Opened(i32),
    /// The call was interrupted before completing; it should be retried.
    Interrupted,
    /// The primary mechanism does not exist on this host.
    Unsupported,
    /// The generated name is already taken; retry under a fresh name.
    NameTaken,
    /// The name was unlinked.
    Unlinked,
    /// The descriptor was closed.
    Closed,
    /// Any other failure, with its error code.
    Error(i32),
}

/// The allocator's transition function: retry on interruption, fall back to
/// the named mechanism when the primary one is unavailable, retry a taken
/// name under a fresh one, close the descriptor before reporting a failed
/// unlink, and propagate every other error. Events that cannot follow the
/// current phase leave it unchanged; the two final phases absorb everything.
pub open spec fn shm_step_spec(phase: ShmPhase, event: ShmEvent) -> ShmPhase {
    match phase {
        ShmPhase::Memfd => match event {
            ShmEvent::Opened(fd) => ShmPhase::Done(fd),
            ShmEvent::Interrupted => ShmPhase::Memfd,
            ShmEvent::Unsupported => ShmPhase::NamedOpen,
            ShmEvent::Error(e) => ShmPhase::Failed(e),
            _ => ShmPhase::Memfd,
        },
        ShmPhase::NamedOpen => match event {
            ShmEvent::Opened(fd) => ShmPhase::NamedUnlink(fd),
            ShmEvent::Interrupted => ShmPhase::NamedOpen,
            ShmEvent::NameTaken => ShmPhase::NamedOpen,
            ShmEvent::Error(e) => ShmPhase::Failed(e),
            _ => ShmPhase::NamedOpen,
        },
        ShmPhase::NamedUnlink(fd) => match event {
            ShmEvent::Unlinked => ShmPhase::Done(fd),
            ShmEvent::Error(e) => ShmPhase::Closing(e),
            _ => ShmPhase::NamedUnlink(fd),
        },
        ShmPhase::Closing(e) => match event {
            ShmEvent::Closed => ShmPhase::Failed(e),
            ShmEvent::Error(e2) => ShmPhase::Failed(e2),
            _ => ShmPhase::Closing(e),
        },
        ShmPhase::Done(fd) => ShmPhase::Done(fd),
        ShmPhase::Failed(e) => ShmPhase::Failed(e),
    }
}

/// Advance the allocator by one reported platform result.
pub fn shm_step(phase: ShmPhase, event: ShmEvent) -> (next: ShmPhase)
    ensures
        next == shm_step_spec(phase, event),
{
    match phase {
        ShmPhase::Memfd => match event {
            ShmEvent::Opened(fd) => ShmPhase::Done(fd),
            ShmEvent::Interrupted => ShmPhase::Memfd,
            ShmEvent::Unsupported => ShmPhase::NamedOpen,
            ShmEvent::Error(e) => ShmPhase::Failed(e),
            _ => ShmPhase::Memfd,
        },
        ShmPhase::NamedOpen => match event {
            ShmEvent::Opened(fd) => ShmPhase::NamedUnlink(fd),
            ShmEvent::Interrupted => ShmPhase::NamedOpen,
            ShmEvent::NameTaken => ShmPhase::NamedOpen,
            ShmEvent::Error(e) => ShmPhase::Failed(e),
            _ => ShmPhase::NamedOpen,
        },
        ShmPhase::NamedUnlink(fd) => match event {
            ShmEvent::Unlinked => ShmPhase::Done(fd),
            ShmEvent::Error(e) => ShmPhase::Closing(e),
            _ => ShmPhase::NamedUnlink(fd),
        },
        ShmPhase::Closing(e) => match event {
            ShmEvent::Closed => ShmPhase::Failed(e),
            ShmEvent::Error(e2) => ShmPhase::Failed(e2),
            _ => ShmPhase::Closing(e),
        },
        ShmPhase::Done(fd) => ShmPhase::Done(fd),
        ShmPhase::Failed(e) => ShmPhase::Failed(e),
    }
}

} // verus!
