//! Attachment strategy: obtain a working RTT session by direct discovery,
//! falling back to a symbol-table scan of the firmware image when the direct
//! handshake fails and an image was supplied.
//!
//! The probe and RTT protocol work is done by the caller; this module holds
//! the state machine that decides, after each outcome, what happens next.

use vstd::prelude::*;

verus! {

/// States of the attachment strategy. `Attached` and `Failed` are terminal:
/// `Attached` yields a working session, `Failed` is fatal to startup.
#[derive(Clone, Copy, Debug, PartialEq, Eq, Structural)]
pub enum AttachState {
    /// Asking the collaborator to attach by its normal region discovery.
    Direct,
    /// Direct attach failed; scanning the firmware image for the control
    /// block's marker symbol and retrying pinned to its address.
    ScanningFallback,
    /// A working RTT session was obtained.
    Attached,
    /// No session can be obtained; capture cannot proceed.
    Failed,
}

/// Outcomes reported to the strategy by the caller as it performs the
/// attach attempts and the symbol scan.
#[derive(Clone, Copy, Debug, PartialEq, Eq, Structural)]
pub enum AttachEvent {
    /// The direct attach succeeded.
    DirectOk,
    /// The direct attach failed; `image_supplied` says whether a firmware
    /// image is available for the fallback scan.
    DirectFailed { image_supplied: bool },
    /// The symbol scan found the marker symbol at `addr`; the caller is to
    /// retry the attach pinned to exactly that address.
    SymbolFound { addr: u64 },
    /// The symbol scan found no marker symbol in the image.
    SymbolMissing,
    /// The pinned attach succeeded.
    PinnedOk,
    /// The pinned attach failed.
    PinnedFailed,
}

/// The transition relation of the attachment strategy. Events that cannot
/// occur in a state leave the state unchanged; the two terminal states
/// absorb every event.
pub open spec fn attach_step_spec(s: AttachState, e: AttachEvent) -> AttachState {
    match s {
        AttachState::Direct => match e {
            AttachEvent::DirectOk => AttachState::Attached,
            AttachEvent::DirectFailed { image_supplied } => if image_supplied {
                AttachState::ScanningFallback
            } else {
                AttachState::Failed
            },
            _ => AttachState::Direct,
        },
        AttachState::ScanningFallback => match e {
            AttachEvent::SymbolFound { .. } => AttachState::ScanningFallback,
            AttachEvent::SymbolMissing => AttachState::Failed,
            AttachEvent::PinnedOk => AttachState::Attached,
            AttachEvent::PinnedFailed => AttachState::Failed,
            _ => AttachState::ScanningFallback,
        },
        AttachState::Attached => AttachState::Attached,
        AttachState::Failed => AttachState::Failed,
    }
}

/// Advance the attachment strategy by one observed outcome.
pub fn attach_step(s: &AttachState, e: &AttachEvent) -> (next: AttachState)
    ensures
        next == attach_step_spec(*s, *e),
{
    match s {
        AttachState::Direct => match e {
            AttachEvent::DirectOk => AttachState::Attached,
            AttachEvent::DirectFailed { image_supplied } => if *image_supplied {
                AttachState::ScanningFallback
            } else {
                AttachState::Failed
            },
            _ => AttachState::Direct,
        },
        AttachState::ScanningFallback => match e {
            AttachEvent::SymbolFound { addr: _ } => AttachState::ScanningFallback,
            AttachEvent::SymbolMissing => AttachState::Failed,
            AttachEvent::PinnedOk => AttachState::Attached,
            AttachEvent::PinnedFailed => AttachState::Failed,
            _ => AttachState::ScanningFallback,
        },
        AttachState::Attached => AttachState::Attached,
        AttachState::Failed => AttachState::Failed,
    }
}

/// Terminal-state law: once the strategy is attached or failed, no further
/// event moves it anywhere else.
pub proof fn lemma_attach_terminal(s: AttachState, e: AttachEvent)
    requires
        s == AttachState::Attached || s == AttachState::Failed,
    ensures
        attach_step_spec(s, e) == s,
{
}

} // verus!
