//! Frame pacer: one present cycle per redraw request.
//!
//! A cycle skips on a zero-dimension extent, recreates the chain when it is
//! missing or stale, acquires the next presentable image, and submits the
//! frame chained after the previous frame's token and the acquisition
//! signal. Acquisition and submission are platform calls the application
//! performs; their outcomes come back here, and the transition for every
//! possible outcome is stated and verified. Transient staleness
//! (`OutOfDate`, suboptimal) is never an error: it only marks the window
//! stale. Only an unexpected acquisition failure is fatal to the loop;
//! an unexpected submission failure is reported and the window recovers
//! with a fresh baseline token.

use vstd::prelude::*;

use crate::window::AspenWindow;
use crate::window::Extent;
use crate::window::SurfaceCapabilities;
use crate::window::bumped;
use crate::window::extent_is_drawable;
use crate::window::spec_recreate_swapchain;

verus! {

/// The synchronization handle standing for the previously submitted frame.
/// Every window holds exactly one at all times: it is replaced, never
/// dropped, so no submitted GPU work loses its tracking.
#[derive(Debug, Clone, Copy, PartialEq, Eq, Structural)]
pub enum FrameToken {
    /// A fresh "no prior work" baseline.
    Baseline,
    /// Tracks the submission with the given per-window serial number.
    Submitted { submission_id: u64 },
}

/// One window as the present loop sees it: swapchain state, frame token,
/// and whether the window is still open.
#[derive(Debug, Clone, Copy)]
pub struct WindowSlot {
    pub window: AspenWindow,
    pub frame_token: FrameToken,
    /// Serial number the next successful submission will take.
    pub next_submission_id: u64,
    /// Cleared when the window closes; a closed slot is terminal.
    pub open: bool,
}

/// The slot a freshly opened window starts from: no chain yet, marked for
/// creation on first use, a baseline token.
pub open spec fn spec_new_slot(window_id: u64) -> WindowSlot {
    WindowSlot {
        window: AspenWindow { window_id, present: None, should_recreate_swapchain: true },
        frame_token: FrameToken::Baseline,
        next_submission_id: 0,
        open: true,
    }
}

impl WindowSlot {
    /// The window is well-formed, and a closed window has released its
    /// chain: destruction is terminal.
    pub open spec fn wf(self) -> bool {
        &&& self.window.wf()
        &&& !self.open ==> self.window.present is None
    }

    /// A slot for a freshly opened window: no chain, a baseline token.
    pub fn new(window_id: u64) -> (s: WindowSlot)
        ensures
            s == spec_new_slot(window_id),
            s.wf(),
    {
        WindowSlot {
            window: AspenWindow::new(window_id),
            frame_token: FrameToken::Baseline,
            next_submission_id: 0,
            open: true,
        }
    }
}

/// What the present loop must do next, having started a redraw cycle.
#[derive(Debug, Clone, Copy, PartialEq, Eq, Structural)]
pub enum RedrawStep {
    /// Closed window or zero-dimension extent: skip this cycle entirely.
    Skip,
    /// The chain is missing or stale: query the surface and recreate it
    /// before acquiring.
    Recreate,
    /// The chain is current: acquire the next presentable image.
    Acquire,
}

/// How acquiring the next presentable image went, as the platform reports it.
#[derive(Debug, Clone, Copy, PartialEq, Eq, Structural)]
pub enum AcquireOutcome {
    /// An image is available. `suboptimal` means it is usable but no longer
    /// ideal for the target, e.g. after a size change.
    Acquired { image_index: u32, suboptimal: bool },
    /// The chain no longer matches the target and must be recreated.
    OutOfDate,
    /// Any other acquisition error: an unrecoverable device or surface
    /// problem.
    Failed,
}

/// What the present loop does with an acquisition outcome.
#[derive(Debug, Clone, Copy, PartialEq, Eq, Structural)]
pub enum AcquireAction {
    /// Render into the image at `image_index` this cycle.
    Render { image_index: u32 },
    /// Cycle aborted; recreate on the next redraw, then acquire again.
    Retry,
    /// The present loop must stop.
    Fatal,
}

/// How the submit-and-present step went, as the platform reports it.
#[derive(Debug, Clone)]
pub enum SubmitOutcome {
    /// The submission and the chained present request were accepted.
    Completed,
    /// The chain went stale between acquisition and present.
    OutOfDate,
    /// Any other submission error, with its account; recoverable per window.
    Failed { message: String },
}

/// First decision of a cycle: skip on a closed window or undrawable extent,
/// recreate when the chain is missing or stale, otherwise acquire.
pub open spec fn spec_begin_redraw(s: WindowSlot, extent: Extent) -> RedrawStep {
    if !s.open || !extent_is_drawable(extent) {
        RedrawStep::Skip
    } else if s.window.should_recreate_swapchain || s.window.present is None {
        RedrawStep::Recreate
    } else {
        RedrawStep::Acquire
    }
}

/// The slot with its window marked stale.
pub open spec fn marked_stale(s: WindowSlot) -> WindowSlot {
    WindowSlot {
        window: AspenWindow { should_recreate_swapchain: true, ..s.window },
        ..s
    }
}

/// The slot after its window closes: no longer open, and the whole image
/// chain released. Closing is terminal.
pub open spec fn closed_slot(s: WindowSlot) -> WindowSlot {
    WindowSlot { window: AspenWindow { present: None, ..s.window }, open: false, ..s }
}

/// Transition for an acquisition outcome. `OutOfDate` marks the window stale
/// and aborts the cycle without touching the frame token; a suboptimal
/// acquisition marks stale for the *next* cycle but still renders this one;
/// any other failure is fatal to the loop and changes nothing here.
pub open spec fn spec_complete_acquire(s: WindowSlot, outcome: AcquireOutcome) -> (WindowSlot, AcquireAction) {
    match outcome {
        AcquireOutcome::Acquired { image_index, suboptimal } => {
            let s2 = if suboptimal {
                marked_stale(s)
            } else {
                s
            };
            (s2, AcquireAction::Render { image_index })
        },
        AcquireOutcome::OutOfDate => (marked_stale(s), AcquireAction::Retry),
        AcquireOutcome::Failed => (s, AcquireAction::Fatal),
    }
}

/// Transition for a submission outcome. Success hands the window a token for
/// this submission; `OutOfDate` marks the window stale and resets the token
/// to a fresh baseline; any other failure likewise resets the token, and the
/// window goes on next cycle. The token is replaced in every case, never
/// dropped.
pub open spec fn spec_complete_submit(s: WindowSlot, outcome: SubmitOutcome) -> WindowSlot {
    match outcome {
        SubmitOutcome::Completed => WindowSlot {
            frame_token: FrameToken::Submitted { submission_id: s.next_submission_id },
            next_submission_id: bumped(s.next_submission_id),
            ..s
        },
        SubmitOutcome::OutOfDate => WindowSlot {
            frame_token: FrameToken::Baseline,
            ..marked_stale(s)
        },
        SubmitOutcome::Failed { message } => WindowSlot { frame_token: FrameToken::Baseline, ..s },
    }
}

/// An `OutOfDate` acquisition aborts the cycle with the frame token
/// unchanged and the window marked stale -- and the next cycle's first
/// action is recreation, before acquisition is retried.
pub proof fn lemma_acquire_out_of_date_defers(s: WindowSlot, extent: Extent)
    requires
        s.open,
        extent_is_drawable(extent),
    ensures
        ({
            let (s2, action) = spec_complete_acquire(s, AcquireOutcome::OutOfDate);
            &&& action is Retry
            &&& s2.frame_token == s.frame_token
            &&& s2.window.should_recreate_swapchain
            &&& spec_begin_redraw(s2, extent) is Recreate
        }),
{
}

/// An `OutOfDate` submission replaces the frame token with a fresh baseline
/// and marks the window stale; nothing fails upward, and the next cycle's
/// first action is recreation.
pub proof fn lemma_submit_out_of_date_recovers(s: WindowSlot, extent: Extent)
    requires
        s.open,
        extent_is_drawable(extent),
    ensures
        ({
            let s2 = spec_complete_submit(s, SubmitOutcome::OutOfDate);
            &&& s2.frame_token is Baseline
            &&& s2.window.should_recreate_swapchain
            &&& spec_begin_redraw(s2, extent) is Recreate
        }),
{
}

/// A successful (re)creation at a drawable extent readies the window,
/// whether it had no chain yet or a stale one: a redraw at that extent then
/// goes straight to acquisition.
pub proof fn lemma_recreate_readies_window(
    s: WindowSlot,
    caps: SurfaceCapabilities,
    formats: Seq<u32>,
    extent: Extent,
)
    requires
        s.open,
        extent_is_drawable(extent),
        spec_recreate_swapchain(s.window, caps, formats, extent).1 is Ok,
    ensures
        ({
            let (w2, _) = spec_recreate_swapchain(s.window, caps, formats, extent);
            spec_begin_redraw(WindowSlot { window: w2, ..s }, extent) is Acquire
        }),
{
}

/// A suboptimal acquisition still renders this cycle -- the action carries
/// the acquired image -- and only defers recreation to the next cycle.
pub proof fn lemma_suboptimal_renders_then_recreates(
    s: WindowSlot,
    extent: Extent,
    image_index: u32,
)
    requires
        s.open,
        extent_is_drawable(extent),
    ensures
        ({
            let (s2, action) = spec_complete_acquire(
                s,
                AcquireOutcome::Acquired { image_index, suboptimal: true },
            );
            &&& action == AcquireAction::Render { image_index }
            &&& s2.frame_token == s.frame_token
            &&& s2.window.present == s.window.present
            &&& spec_begin_redraw(s2, extent) is Recreate
        }),
{
}

} // verus!
