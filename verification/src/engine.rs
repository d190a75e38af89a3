//! Present loop: event dispatch over an arena of window slots.
//!
//! A single consumer drains the platform's event queue and hands each event
//! here: a resize marks the window's chain stale, a redraw request runs one
//! frame-pacer cycle, and a close request destroys the window's state --
//! closing the primary (first-opened) window destroys every window's state
//! and stops the loop. The slots form an arena in opening order; the window
//! system's stable identifier finds the open slot an event is for, and a
//! closed slot is never reused.

use vstd::prelude::*;

use crate::pacer::AcquireAction;
use crate::pacer::AcquireOutcome;
use crate::pacer::FrameToken;
use crate::pacer::RedrawStep;
use crate::pacer::SubmitOutcome;
use crate::pacer::WindowSlot;
use crate::pacer::closed_slot;
use crate::pacer::marked_stale;
use crate::pacer::spec_begin_redraw;
use crate::pacer::spec_complete_acquire;
use crate::pacer::spec_complete_submit;
use crate::pacer::spec_new_slot;
use crate::window::AspenWindow;
use crate::window::Extent;
use crate::window::SurfaceCapabilities;
use crate::window::Viewport;
use crate::window::WindowError;
use crate::window::spec_recreate_swapchain;

verus! {

/// The slot is the live slot for this window identifier.
pub open spec fn slot_matches(s: WindowSlot, window_id: u64) -> bool {
    s.open && s.window.window_id == window_id
}

/// The present loop's state: the window arena, the loop-running flag, and
/// the log records produced by non-fatal submission errors.
#[derive(Debug)]
pub struct Engine {
    /// One slot per window ever opened; the first is the primary window.
    pub windows: Vec<WindowSlot>,
    /// Cleared when the primary window closes or acquisition fails fatally.
    pub running: bool,
    /// Accounts of non-fatal submission errors, oldest first.
    pub logs: Vec<String>,
}

impl Engine {
    /// Every slot is well-formed and no two open slots share an identifier.
    pub open spec fn wf(self) -> bool {
        &&& forall|k: int| 0 <= k < self.windows@.len() ==> (#[trigger] self.windows@[k]).wf()
        &&& forall|k1: int, k2: int|
            #![trigger self.windows@[k1], self.windows@[k2]]
            0 <= k1 < k2 < self.windows@.len() && self.windows@[k1].open
                && self.windows@[k2].open ==> self.windows@[k1].window.window_id
                != self.windows@[k2].window.window_id
    }

    /// Some open slot carries this identifier.
    pub open spec fn spec_has_open(self, window_id: u64) -> bool {
        exists|k: int|
            0 <= k < self.windows@.len() && slot_matches(
                #[trigger] self.windows@[k],
                window_id,
            )
    }

    /// An engine with no windows yet and the loop ready to run.
    pub fn new() -> (e: Engine)
        ensures
            e.windows@.len() == 0,
            e.running,
            e.logs@.len() == 0,
            e.wf(),
    {
        Engine { windows: Vec::new(), running: true, logs: Vec::new() }
    }

    /// Registers a freshly opened window under the window system's stable
    /// identifier. The first window registered is the primary one.
    pub fn open_window(&mut self, window_id: u64)
        requires
            old(self).wf(),
            !old(self).spec_has_open(window_id),
        ensures
            final(self).wf(),
            final(self).windows@ == old(self).windows@.push(spec_new_slot(window_id)),
            final(self).running == old(self).running,
            final(self).logs == old(self).logs,
    {
        let slot = WindowSlot::new(window_id);
        self.windows.push(slot);
    }

    /// Dispatches a resize notification: the window's chain is marked stale,
    /// to be recreated before its next present. Nothing else changes, and an
    /// identifier without an open window changes nothing at all.
    pub fn handle_resize(&mut self, window_id: u64)
        requires
            old(self).wf(),
        ensures
            final(self).wf(),
            final(self).windows@.len() == old(self).windows@.len(),
            forall|k: int|
                0 <= k < old(self).windows@.len() ==> final(self).windows@[k] == (
                if slot_matches(#[trigger] old(self).windows@[k], window_id) {
                    marked_stale(old(self).windows@[k])
                } else {
                    old(self).windows@[k]
                }),
            final(self).running == old(self).running,
            final(self).logs == old(self).logs,
    {
        let ghost w0 = self.windows@;
        let ghost running0 = self.running;
        let ghost logs0 = self.logs;
        let n = self.windows.len();
        let mut k: usize = 0;
        while k < n
            invariant
                k <= n,
                n == self.windows@.len(),
                self.windows@.len() == w0.len(),
                forall|j: int|
                    0 <= j < k ==> self.windows@[j] == (if slot_matches(
                        #[trigger] w0[j],
                        window_id,
                    ) {
                        marked_stale(w0[j])
                    } else {
                        w0[j]
                    }),
                forall|j: int| k <= j < n ==> self.windows@[j] == #[trigger] w0[j],
                self.running == running0,
                self.logs == logs0,
            decreases n - k,
        {
            let s = self.windows[k];
            if s.open && s.window.window_id == window_id {
                self.windows[k] = WindowSlot {
                    window: AspenWindow { should_recreate_swapchain: true, ..s.window },
                    ..s
                };
            }
            k = k + 1;
        }
        proof {
            lemma_pointwise_same_shape_keeps_wf(*old(self), *self);
        }
    }

    /// Dispatches a close notification. Closing a non-primary window
    /// destroys only that window's state -- its slot is closed, its chain
    /// released -- and the loop continues. Closing the primary window, the
    /// first ever opened, destroys every window's state and stops the loop.
    /// An identifier without an open window changes nothing.
    pub fn handle_close(&mut self, window_id: u64)
        requires
            old(self).wf(),
        ensures
            final(self).wf(),
            final(self).windows@.len() == old(self).windows@.len(),
            final(self).logs == old(self).logs,
            old(self).windows@.len() > 0 && slot_matches(old(self).windows@[0], window_id) ==> {
                &&& forall|k: int|
                    0 <= k < old(self).windows@.len() ==> final(self).windows@[k] == closed_slot(
                        #[trigger] old(self).windows@[k],
                    )
                &&& !final(self).running
            },
            !(old(self).windows@.len() > 0 && slot_matches(old(self).windows@[0], window_id))
                ==> {
                &&& forall|k: int|
                    0 <= k < old(self).windows@.len() ==> final(self).windows@[k] == (
                    if slot_matches(#[trigger] old(self).windows@[k], window_id) {
                        closed_slot(old(self).windows@[k])
                    } else {
                        old(self).windows@[k]
                    })
                &&& final(self).running == old(self).running
            },
    {
        let ghost w0 = self.windows@;
        let ghost running0 = self.running;
        let ghost logs0 = self.logs;
        let n = self.windows.len();
        let primary = if n > 0 {
            let s0 = self.windows[0];
            s0.open && s0.window.window_id == window_id
        } else {
            false
        };
        let mut k: usize = 0;
        if primary {
            while k < n
                invariant
                    k <= n,
                    n == self.windows@.len(),
                    self.windows@.len() == w0.len(),
                    forall|j: int| 0 <= j < k ==> self.windows@[j] == closed_slot(#[trigger] w0[j]),
                    forall|j: int| k <= j < n ==> self.windows@[j] == #[trigger] w0[j],
                    self.running == running0,
                    self.logs == logs0,
                decreases n - k,
            {
                let s = self.windows[k];
                self.windows[k] = WindowSlot {
                    window: AspenWindow { present: None, ..s.window },
                    open: false,
                    ..s
                };
                k = k + 1;
            }
            self.running = false;
        } else {
            while k < n
                invariant
                    k <= n,
                    n == self.windows@.len(),
                    self.windows@.len() == w0.len(),
                    forall|j: int|
                        0 <= j < k ==> self.windows@[j] == (if slot_matches(
                            #[trigger] w0[j],
                            window_id,
                        ) {
                            closed_slot(w0[j])
                        } else {
                            w0[j]
                        }),
                    forall|j: int| k <= j < n ==> self.windows@[j] == #[trigger] w0[j],
                    self.running == running0,
                    self.logs == logs0,
                decreases n - k,
            {
                let s = self.windows[k];
                if s.open && s.window.window_id == window_id {
                    self.windows[k] = WindowSlot {
                        window: AspenWindow { present: None, ..s.window },
                        open: false,
                        ..s
                    };
                }
                k = k + 1;
            }
        }
        proof {
            lemma_close_pass_keeps_wf(*old(self), *self);
        }
    }

    /// First open slot carrying this identifier, scanning in opening order.
    fn find_slot(&self, window_id: u64) -> (r: Option<usize>)
        ensures
            match r {
                Some(k) => k < self.windows@.len() && slot_matches(
                    self.windows@[k as int],
                    window_id,
                ) && forall|j: int|
                    0 <= j < k ==> !slot_matches(#[trigger] self.windows@[j], window_id),
                None => !self.spec_has_open(window_id),
            },
    {
        let n = self.windows.len();
        let mut k: usize = 0;
        while k < n
            invariant
                k <= n,
                n == self.windows@.len(),
                forall|j: int| 0 <= j < k ==> !slot_matches(#[trigger] self.windows@[j], window_id),
            decreases n - k,
        {
            let s = self.windows[k];
            if s.open && s.window.window_id == window_id {
                return Some(k);
            }
            k = k + 1;
        }
        None
    }

    /// Starts one present cycle for a redraw request: skip it entirely on a
    /// zero-dimension extent or a closed window, recreate the chain first
    /// when it is missing or stale, otherwise acquire an image right away.
    /// Reclaiming finished GPU work is the application's non-blocking
    /// maintenance on its real token; nothing changes here.
    pub fn begin_redraw(&self, window_id: u64, extent: Extent) -> (step: RedrawStep)
        requires
            self.wf(),
        ensures
            forall|k: int|
                0 <= k < self.windows@.len() && slot_matches(
                    #[trigger] self.windows@[k],
                    window_id,
                ) ==> step == spec_begin_redraw(self.windows@[k], extent),
            !self.spec_has_open(window_id) ==> step == RedrawStep::Skip,
    {
        match self.find_slot(window_id) {
            None => RedrawStep::Skip,
            Some(k) => {
                let s = self.windows[k];
                let step = if extent.width == 0 || extent.height == 0 {
                    RedrawStep::Skip
                } else if s.window.should_recreate_swapchain {
                    RedrawStep::Recreate
                } else {
                    match s.window.present {
                        None => RedrawStep::Recreate,
                        Some(_) => RedrawStep::Acquire,
                    }
                };
                proof {
                    assert forall|j: int|
                        0 <= j < self.windows@.len() && slot_matches(
                            #[trigger] self.windows@[j],
                            window_id,
                        ) implies step == spec_begin_redraw(self.windows@[j], extent) by {
                        lemma_unique_match(*self, window_id, j, k as int);
                    }
                }
                step
            },
        }
    }

    /// Recreates -- or first creates -- the given window's chain from the
    /// platform's reported capabilities and formats, at the given extent,
    /// exactly as [`crate::window::spec_recreate_swapchain`] states. An
    /// identifier without an open window changes nothing and reports Ok.
    pub fn recreate_swapchain(
        &mut self,
        window_id: u64,
        caps: &SurfaceCapabilities,
        formats: &Vec<u32>,
        extent: Extent,
    ) -> (r: Result<(), WindowError>)
        requires
            old(self).wf(),
            forall|k: int|
                0 <= k < old(self).windows@.len() && slot_matches(
                    #[trigger] old(self).windows@[k],
                    window_id,
                ) && old(self).windows@[k].window.present is None ==> formats@.len() > 0,
        ensures
            final(self).wf(),
            final(self).windows@.len() == old(self).windows@.len(),
            final(self).running == old(self).running,
            final(self).logs == old(self).logs,
            forall|k: int|
                0 <= k < old(self).windows@.len() && !slot_matches(
                    #[trigger] old(self).windows@[k],
                    window_id,
                ) ==> final(self).windows@[k] == old(self).windows@[k],
            forall|k: int|
                0 <= k < old(self).windows@.len() && slot_matches(
                    #[trigger] old(self).windows@[k],
                    window_id,
                ) ==> ({
                    let (w2, verdict) = spec_recreate_swapchain(
                        old(self).windows@[k].window,
                        *caps,
                        formats@,
                        extent,
                    );
                    &&& final(self).windows@[k] == (WindowSlot {
                        window: w2,
                        ..old(self).windows@[k]
                    })
                    &&& match r {
                        Ok(()) => verdict is Ok,
                        Err(e) => verdict matches Err(t) && e.error_type == t,
                    }
                }),
            !old(self).spec_has_open(window_id) ==> r is Ok && *final(self) == *old(self),
    {
        match self.find_slot(window_id) {
            None => Ok(()),
            Some(k) => {
                let s = self.windows[k];
                let mut w = s.window;
                let r = w.recreate_swapchain(caps, formats, extent);
                self.windows[k] = WindowSlot { window: w, ..s };
                proof {
                    lemma_slot_update_keeps_wf(*old(self), *self, k as int);
                    assert forall|j: int|
                        0 <= j < old(self).windows@.len() && slot_matches(
                            #[trigger] old(self).windows@[j],
                            window_id,
                        ) implies j == k as int by {
                        lemma_unique_match(*old(self), window_id, j, k as int);
                    }
                }
                r
            },
        }
    }

    /// Feeds back how acquiring the next presentable image went, moving the
    /// window as [`crate::pacer::spec_complete_acquire`] states: `OutOfDate`
    /// marks the window stale and aborts the cycle with the frame token
    /// untouched; a suboptimal acquisition renders now and marks stale for
    /// the next cycle; any other failure stops the whole loop.
    pub fn complete_acquire(&mut self, window_id: u64, outcome: AcquireOutcome) -> (action:
        AcquireAction)
        requires
            old(self).wf(),
            old(self).spec_has_open(window_id),
            forall|k: int|
                0 <= k < old(self).windows@.len() && slot_matches(
                    #[trigger] old(self).windows@[k],
                    window_id,
                ) ==> old(self).windows@[k].window.present is Some,
        ensures
            final(self).wf(),
            final(self).windows@.len() == old(self).windows@.len(),
            final(self).logs == old(self).logs,
            final(self).running == (old(self).running && !(outcome is Failed)),
            forall|k: int|
                0 <= k < old(self).windows@.len() && !slot_matches(
                    #[trigger] old(self).windows@[k],
                    window_id,
                ) ==> final(self).windows@[k] == old(self).windows@[k],
            forall|k: int|
                0 <= k < old(self).windows@.len() && slot_matches(
                    #[trigger] old(self).windows@[k],
                    window_id,
                ) ==> (final(self).windows@[k], action) == spec_complete_acquire(
                    old(self).windows@[k],
                    outcome,
                ),
    {
        match self.find_slot(window_id) {
            None => unreached(),
            Some(k) => {
                let s = self.windows[k];
                let action = match outcome {
                    AcquireOutcome::Acquired { image_index, suboptimal } => {
                        if suboptimal {
                            self.windows[k] = WindowSlot {
                                window: AspenWindow {
                                    should_recreate_swapchain: true,
                                    ..s.window
                                },
                                ..s
                            };
                        }
                        AcquireAction::Render { image_index }
                    },
                    AcquireOutcome::OutOfDate => {
                        self.windows[k] = WindowSlot {
                            window: AspenWindow { should_recreate_swapchain: true, ..s.window },
                            ..s
                        };
                        AcquireAction::Retry
                    },
                    AcquireOutcome::Failed => {
                        self.running = false;
                        AcquireAction::Fatal
                    },
                };
                proof {
                    lemma_slot_update_keeps_wf(*old(self), *self, k as int);
                    assert forall|j: int|
                        0 <= j < old(self).windows@.len() && slot_matches(
                            #[trigger] old(self).windows@[j],
                            window_id,
                        ) implies j == k as int by {
                        lemma_unique_match(*old(self), window_id, j, k as int);
                    }
                }
                action
            },
        }
    }

    /// Feeds back how the submit-and-present step went, moving the window as
    /// [`crate::pacer::spec_complete_submit`] states. A success hands the
    /// window this submission's token. `OutOfDate` marks the window stale
    /// and resets the token to a fresh baseline, with nothing failing
    /// upward. Any other failure appends its account to the logs and
    /// likewise resets the token: the window goes on next cycle, and the
    /// loop keeps running either way.
    pub fn complete_submit(&mut self, window_id: u64, outcome: SubmitOutcome)
        requires
            old(self).wf(),
            old(self).spec_has_open(window_id),
        ensures
            final(self).wf(),
            final(self).windows@.len() == old(self).windows@.len(),
            final(self).running == old(self).running,
            forall|k: int|
                0 <= k < old(self).windows@.len() && !slot_matches(
                    #[trigger] old(self).windows@[k],
                    window_id,
                ) ==> final(self).windows@[k] == old(self).windows@[k],
            forall|k: int|
                0 <= k < old(self).windows@.len() && slot_matches(
                    #[trigger] old(self).windows@[k],
                    window_id,
                ) ==> final(self).windows@[k] == spec_complete_submit(
                    old(self).windows@[k],
                    outcome,
                ),
            final(self).logs@ == (match outcome {
                SubmitOutcome::Failed { message } => old(self).logs@.push(message),
                _ => old(self).logs@,
            }),
    {
        match self.find_slot(window_id) {
            None => unreached(),
            Some(k) => {
                let s = self.windows[k];
                match outcome {
                    SubmitOutcome::Completed => {
                        let next = if s.next_submission_id < u64::MAX {
                            s.next_submission_id + 1
                        } else {
                            s.next_submission_id
                        };
                        self.windows[k] = WindowSlot {
                            frame_token: FrameToken::Submitted {
                                submission_id: s.next_submission_id,
                            },
                            next_submission_id: next,
                            ..s
                        };
                    },
                    SubmitOutcome::OutOfDate => {
                        self.windows[k] = WindowSlot {
                            window: AspenWindow { should_recreate_swapchain: true, ..s.window },
                            frame_token: FrameToken::Baseline,
                            ..s
                        };
                    },
                    SubmitOutcome::Failed { message } => {
                        self.logs.push(message);
                        self.windows[k] = WindowSlot { frame_token: FrameToken::Baseline, ..s };
                    },
                }
                proof {
                    lemma_slot_update_keeps_wf(*old(self), *self, k as int);
                    assert forall|j: int|
                        0 <= j < old(self).windows@.len() && slot_matches(
                            #[trigger] old(self).windows@[j],
                            window_id,
                        ) implies j == k as int by {
                        lemma_unique_match(*old(self), window_id, j, k as int);
                    }
                }
            },
        }
    }

    /// Whether the present loop should keep running.
    pub fn is_running(&self) -> (r: bool)
        ensures
            r == self.running,
    {
        self.running
    }

    /// The viewport to bind when drawing into the given window's chain, or
    /// `None` while the window has no chain or is not open.
    pub fn viewport_of(&self, window_id: u64) -> (r: Option<Viewport>)
        requires
            self.wf(),
        ensures
            forall|k: int|
                0 <= k < self.windows@.len() && slot_matches(
                    #[trigger] self.windows@[k],
                    window_id,
                ) ==> r == (match self.windows@[k].window.present {
                    Some(p) => Some(p.viewport),
                    None => None::<Viewport>,
                }),
            !self.spec_has_open(window_id) ==> r is None,
    {
        match self.find_slot(window_id) {
            None => None,
            Some(k) => {
                let s = self.windows[k];
                let r = match s.window.present {
                    Some(p) => Some(p.viewport),
                    None => None,
                };
                proof {
                    assert forall|j: int|
                        0 <= j < self.windows@.len() && slot_matches(
                            #[trigger] self.windows@[j],
                            window_id,
                        ) implies j == k as int by {
                        lemma_unique_match(*self, window_id, j, k as int);
                    }
                }
                r
            },
        }
    }

    /// The log records accumulated so far, oldest first.
    pub fn logs(&self) -> (r: &Vec<String>)
        ensures
            r == self.logs,
    {
        &self.logs
    }
}

/// Two open slots never share an identifier, so two matches are one slot.
proof fn lemma_unique_match(e: Engine, window_id: u64, k1: int, k2: int)
    requires
        e.wf(),
        0 <= k1 < e.windows@.len(),
        0 <= k2 < e.windows@.len(),
        slot_matches(e.windows@[k1], window_id),
        slot_matches(e.windows@[k2], window_id),
    ensures
        k1 == k2,
{
    if k1 < k2 {
        assert(e.windows@[k1].window.window_id != e.windows@[k2].window.window_id);
    } else if k2 < k1 {
        assert(e.windows@[k2].window.window_id != e.windows@[k1].window.window_id);
    }
}

/// Helper for re-establishing `wf` after one slot changed: if the changed
/// slot is still well-formed and kept its open flag and identifier, and
/// every other slot is untouched, well-formedness carries over.
proof fn lemma_slot_update_keeps_wf(before: Engine, after: Engine, k: int)
    requires
        before.wf(),
        after.windows@.len() == before.windows@.len(),
        0 <= k < before.windows@.len(),
        forall|j: int|
            0 <= j < before.windows@.len() && j != k ==> #[trigger] after.windows@[j]
                == before.windows@[j],
        after.windows@[k].wf(),
        after.windows@[k].open == before.windows@[k].open,
        after.windows@[k].window.window_id == before.windows@[k].window.window_id,
    ensures
        after.wf(),
{
    assert forall|j: int| 0 <= j < after.windows@.len() implies (
    #[trigger] after.windows@[j]).wf() by {
        assert(before.windows@[j].wf());
    }
    assert forall|k1: int, k2: int|
        0 <= k1 < k2 < after.windows@.len() && after.windows@[k1].open
            && after.windows@[k2].open implies after.windows@[k1].window.window_id
        != after.windows@[k2].window.window_id by {
        assert(before.windows@[k1].open && before.windows@[k2].open);
    }
}

/// Helper for re-establishing `wf` after a closing pass: every slot is
/// either untouched or closed, and closing keeps well-formedness.
proof fn lemma_close_pass_keeps_wf(before: Engine, after: Engine)
    requires
        before.wf(),
        after.windows@.len() == before.windows@.len(),
        forall|k: int|
            0 <= k < before.windows@.len() ==> (#[trigger] after.windows@[k]) == closed_slot(
                before.windows@[k],
            ) || after.windows@[k] == before.windows@[k],
    ensures
        after.wf(),
{
    assert forall|k: int| 0 <= k < after.windows@.len() implies (
    #[trigger] after.windows@[k]).wf() by {
        assert(before.windows@[k].wf());
    }
    assert forall|k1: int, k2: int|
        0 <= k1 < k2 < after.windows@.len() && after.windows@[k1].open
            && after.windows@[k2].open implies after.windows@[k1].window.window_id
        != after.windows@[k2].window.window_id by {
        assert(before.windows@[k1].open && before.windows@[k2].open);
    }
}

/// Helper for re-establishing `wf` after a pass that neither closes a slot,
/// changes an identifier, nor touches a chain: if every slot keeps its
/// window's chain, its identifier and its open flag, well-formedness carries
/// over.
proof fn lemma_pointwise_same_shape_keeps_wf(before: Engine, after: Engine)
    requires
        before.wf(),
        after.windows@.len() == before.windows@.len(),
        forall|k: int|
            0 <= k < before.windows@.len() ==> {
                &&& (#[trigger] after.windows@[k]).open == before.windows@[k].open
                &&& after.windows@[k].window.window_id == before.windows@[k].window.window_id
                &&& after.windows@[k].window.present == before.windows@[k].window.present
            },
    ensures
        after.wf(),
{
    assert forall|k: int| 0 <= k < after.windows@.len() implies (
    #[trigger] after.windows@[k]).wf() by {
        assert(before.windows@[k].wf());
    }
    assert forall|k1: int, k2: int|
        0 <= k1 < k2 < after.windows@.len() && after.windows@[k1].open
            && after.windows@[k2].open implies after.windows@[k1].window.window_id
        != after.windows@[k2].window.window_id by {
        assert(before.windows@[k1].open && before.windows@[k2].open);
    }
}

} // verus!
