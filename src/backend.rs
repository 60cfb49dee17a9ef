//! The contract a rendering backend meets, and the windowed backend's
//! redraw bookkeeping.
use vstd::prelude::*;

use crate::output::Output;
use crate::seat::BackendCaps;
use crate::surface::SurfaceId;

verus! {

/// Number of frames fully redrawn after the buffers of an output are reset.
pub const FULL_REDRAW_FRAMES: u8 = 4;

/// What a rendering backend provides to the compositor core.
pub trait BackendData {
    /// The input events this backend can report.
    fn capabilities(&self) -> BackendCaps;

    fn seat_name(&self) -> String;

    /// How many upcoming frames must still be redrawn in full.
    spec fn full_redraws_owed(&self) -> nat;

    /// All buffers of `output` are stale: schedule a full redraw of the
    /// next `FULL_REDRAW_FRAMES` frames.
    fn reset_buffers(&mut self, output: &Output)
        ensures
            final(self).full_redraws_owed() == FULL_REDRAW_FRAMES as nat,
    ;

    /// Called on every commit before synchronisation; may do nothing.
    fn early_import(&mut self, surface: SurfaceId);
}

#[derive(Clone, Copy, Debug, PartialEq, Eq, Structural)]
pub enum RedrawKind {
    /// Redraw the whole output.
    Full,
    /// Redraw only the damaged regions.
    Incremental,
}

/// One frame of the countdown: the kind of redraw and the counter after it.
pub open spec fn frame_step(counter: u8) -> (RedrawKind, u8) {
    if counter > 0 {
        (RedrawKind::Full, (counter - 1) as u8)
    } else {
        (RedrawKind::Incremental, 0u8)
    }
}

/// The kind of the `n`-th frame (from 0) drawn while the counter starts at `counter`.
pub open spec fn nth_frame(counter: u8, n: nat) -> RedrawKind
    decreases n,
{
    if n == 0 {
        frame_step(counter).0
    } else {
        nth_frame(frame_step(counter).1, (n - 1) as nat)
    }
}

/// The counter after `n` frames drawn while it starts at `counter`.
pub open spec fn counter_after(counter: u8, n: nat) -> u8
    decreases n,
{
    if n == 0 {
        counter
    } else {
        counter_after(frame_step(counter).1, (n - 1) as nat)
    }
}

/// After `n` frames the counter has gone down by `n`, stopping at zero.
pub proof fn lemma_counter_after(counter: u8, n: nat)
    ensures
        counter_after(counter, n) == if n < counter { (counter - n) as u8 } else { 0u8 },
    decreases n,
{
    if n > 0 {
        lemma_counter_after(frame_step(counter).1, (n - 1) as nat);
    }
}

/// A counter of `c` gives exactly `c` full redraws, then incremental ones.
pub proof fn lemma_countdown(counter: u8, n: nat)
    ensures
        nth_frame(counter, n) == if n < counter { RedrawKind::Full } else { RedrawKind::Incremental },
    decreases n,
{
    if n > 0 {
        lemma_countdown(frame_step(counter).1, (n - 1) as nat);
    }
}

/// After a reset, the next `FULL_REDRAW_FRAMES` frames are full redraws and
/// every later frame is incremental; after `n` frames the counter is
/// `max(4 - n, 0)`.
pub proof fn lemma_reset_forces_full_redraws(n: nat)
    ensures
        nth_frame(FULL_REDRAW_FRAMES, n) == if n < 4 { RedrawKind::Full } else { RedrawKind::Incremental },
        counter_after(FULL_REDRAW_FRAMES, n) == if n < 4 { (4 - n) as u8 } else { 0u8 },
{
    lemma_countdown(FULL_REDRAW_FRAMES, n);
    lemma_counter_after(FULL_REDRAW_FRAMES, n);
}

/// The windowed backend's state that the core reads: the number of frames
/// that must still be fully redrawn.
pub struct WinitData {
    pub full_redraw: u8,
}

impl WinitData {
    pub fn new(full_redraw: u8) -> (r: WinitData)
        ensures
            r.full_redraw == full_redraw,
    {
        WinitData { full_redraw }
    }

    /// Starts a frame: says how to redraw it and counts it down.
    pub fn begin_frame(&mut self) -> (r: RedrawKind)
        ensures
            (r, final(self).full_redraw) == frame_step(old(self).full_redraw),
    {
        if self.full_redraw > 0 {
            self.full_redraw = self.full_redraw - 1;
            RedrawKind::Full
        } else {
            RedrawKind::Incremental
        }
    }
}

impl BackendData for WinitData {
    fn capabilities(&self) -> (r: BackendCaps)
        ensures
            r == (BackendCaps { has_relative_motion: false, has_gestures: false }),
    {
        BackendCaps { has_relative_motion: false, has_gestures: false }
    }

    fn seat_name(&self) -> (r: String)
        ensures
            r@ == "anchor"@,
    {
        "anchor".to_owned()
    }

    open spec fn full_redraws_owed(&self) -> nat {
        self.full_redraw as nat
    }

    fn reset_buffers(&mut self, output: &Output)
        ensures
            final(self).full_redraw == FULL_REDRAW_FRAMES,
    {
        self.full_redraw = FULL_REDRAW_FRAMES;
    }

    fn early_import(&mut self, surface: SurfaceId)
        ensures
            final(self).full_redraw == old(self).full_redraw,
    {
    }
}

} // verus!
