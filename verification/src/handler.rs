//! The capture-and-dispatch handler: the per-trigger decisions made between
//! the operating-system calls. The unverified adapter acquires and reads the
//! clipboard and looks the interface surface up; this module decides, from
//! those outcomes alone, whether anything is dispatched and with what
//! payload. The handler is stateless: nothing carries over between triggers.

use vstd::prelude::*;
use crate::text::{trim_text, trim_spec};

verus! {

/// What the adapter's attempt to read the clipboard came to. `Text` carries
/// the raw snapshot; the two failures stand for a clipboard that could not
/// be acquired and one whose contents could not be read as text.
#[derive(Debug)]
pub enum ClipboardOutcome {
    Unavailable,
    Unreadable,
    Text(String),
}

/// Why a trigger was skipped before any dispatch was attempted. None of
/// these is an error of the flow: each aborts the current trigger only, and
/// the listener stays registered.
#[derive(Clone, Copy, PartialEq, Eq, Structural, Debug)]
pub enum CaptureFailure {
    /// The clipboard resource could not be acquired.
    ClipboardAccess,
    /// The clipboard held no readable text.
    ClipboardRead,
    /// The snapshot trimmed to the empty text: nothing to capture.
    EmptyCapture,
}

/// The message sent to the interface surface: the fixed event name paired
/// with the normalised snapshot as payload.
#[derive(Debug)]
pub struct DispatchMessage {
    pub event: String,
    pub payload: String,
}

/// Everything the adapter must do for one successful capture: send the
/// message to the named surface, then request that the surface take focus.
/// Both are best-effort; their failure is ignored.
#[derive(Debug)]
pub struct DispatchPlan {
    pub target: String,
    pub message: DispatchMessage,
    pub request_focus: bool,
}

/// The complete account of one trigger.
#[derive(Debug)]
pub enum TriggerOutcome {
    /// The trigger ended at one of the capture gates; no surface lookup,
    /// no message, no focus request.
    Skipped { failure: CaptureFailure },
    /// The capture succeeded but the surface could not be resolved; the
    /// trigger ends silently.
    SurfaceAbsent,
    /// The capture succeeded and the surface is present: dispatch.
    Dispatched { plan: DispatchPlan },
}

/// The event name every dispatch uses.
pub fn capture_event_name() -> (r: &'static str)
    ensures
        r@ == "clipboard-text-captured"@,
{
    "clipboard-text-captured"
}

/// The identifier of the interface surface every dispatch targets.
pub fn surface_identifier() -> (r: &'static str)
    ensures
        r@ == "main"@,
{
    "main"
}

/// The capture gates, in order: a clipboard that could not be acquired or
/// read aborts the trigger, and so does a snapshot that trims to nothing.
/// Otherwise the normalised snapshot is the payload to dispatch.
pub fn capture(outcome: ClipboardOutcome) -> (r: Result<String, CaptureFailure>)
    ensures
        outcome is Unavailable <==> r == Result::<String, CaptureFailure>::Err(
            CaptureFailure::ClipboardAccess,
        ),
        outcome is Unreadable <==> r == Result::<String, CaptureFailure>::Err(
            CaptureFailure::ClipboardRead,
        ),
        (outcome is Text && trim_spec((outcome->0)@).len() == 0) <==> r == Result::<
            String,
            CaptureFailure,
        >::Err(CaptureFailure::EmptyCapture),
        outcome is Text && trim_spec((outcome->0)@).len() > 0 ==> r is Ok && (r->Ok_0)@
            == trim_spec((outcome->0)@),
{
    match outcome {
        ClipboardOutcome::Unavailable => Err(CaptureFailure::ClipboardAccess),
        ClipboardOutcome::Unreadable => Err(CaptureFailure::ClipboardRead),
        ClipboardOutcome::Text(t) => {
            let clean = trim_text(t.as_str());
            if clean.as_str().is_empty() {
                Err(CaptureFailure::EmptyCapture)
            } else {
                Ok(clean)
            }
        },
    }
}

/// The dispatch step for a successful capture: if the surface is present,
/// one message with the fixed event name and the given payload, followed by
/// one focus request; if it is absent, nothing at all.
pub fn dispatch(payload: String, surface_present: bool) -> (r: Option<DispatchPlan>)
    ensures
        surface_present <==> r is Some,
        r is Some ==> (r->0).target@ == "main"@,
        r is Some ==> (r->0).message.event@ == "clipboard-text-captured"@,
        r is Some ==> (r->0).message.payload@ == payload@,
        r is Some ==> (r->0).request_focus,
{
    if surface_present {
        Some(
            DispatchPlan {
                target: surface_identifier().to_owned(),
                message: DispatchMessage { event: capture_event_name().to_owned(), payload },
                request_focus: true,
            },
        )
    } else {
        None
    }
}

/// One whole trigger of the capture-and-dispatch handler, from the raw
/// clipboard outcome and the surface lookup to the decision. Every failure
/// is contained: the function returns an account of the trigger, never an
/// error, and holds no state that a later trigger could see.
pub fn handle_clipboard_reading(outcome: ClipboardOutcome, surface_present: bool) -> (r:
    TriggerOutcome)
    ensures
        outcome is Unavailable <==> r == (TriggerOutcome::Skipped {
            failure: CaptureFailure::ClipboardAccess,
        }),
        outcome is Unreadable <==> r == (TriggerOutcome::Skipped {
            failure: CaptureFailure::ClipboardRead,
        }),
        (outcome is Text && trim_spec((outcome->0)@).len() == 0) <==> r == (
        TriggerOutcome::Skipped { failure: CaptureFailure::EmptyCapture }),
        outcome is Text && trim_spec((outcome->0)@).len() > 0 && !surface_present ==> r
            is SurfaceAbsent,
        r is SurfaceAbsent ==> !surface_present,
        (outcome is Text && trim_spec((outcome->0)@).len() > 0 && surface_present) <==> r
            is Dispatched,
        r is Dispatched ==> (r->plan).target@ == "main"@,
        r is Dispatched ==> (r->plan).message.event@ == "clipboard-text-captured"@,
        r is Dispatched ==> (r->plan).request_focus,
        outcome is Text && r is Dispatched ==> (r->plan).message.payload@ == trim_spec(
            (outcome->0)@,
        ),
{
    match capture(outcome) {
        Err(failure) => TriggerOutcome::Skipped { failure },
        Ok(payload) => match dispatch(payload, surface_present) {
            None => TriggerOutcome::SurfaceAbsent,
            Some(plan) => TriggerOutcome::Dispatched { plan },
        },
    }
}

} // verus!
