//! The blocking handoff buffer: a single-slot, latest-wins image handoff for
//! a renderer that pulls frames from inside the compositor's draw cycle
//! rather than polling. The surrounding application guards it with a mutex
//! and a condition variable; every operation here is a complete, verified
//! critical section body, and the application loops on `TakeResult::NotReady`
//! by waiting on the condition variable.

use crate::frame::{frame_bytes, Frame};
use vstd::prelude::*;

verus! {

/// What one wake of the pulling consumer yields.
#[derive(Debug)]
pub enum TakeResult {
    /// A frame was pending; the consumer now owns it and the slot is empty.
    Image(Frame),
    /// The buffer was closed with nothing pending: the stream is over, keep
    /// the last frame and stop waiting.
    NoMoreFrames,
    /// Nothing pending yet (a spurious wake): keep waiting.
    NotReady,
}

/// Ghost image of the handoff buffer.
pub ghost struct HandoffView {
    pub pending: Option<Frame>,
    pub closed: bool,
}

/// A frame the renderer can accept: nonzero dimensions and exactly the
/// matching payload.
pub open spec fn frame_exact(f: Frame) -> bool {
    &&& f.width > 0
    &&& f.height > 0
    &&& f.data@.len() == frame_bytes(f.width, f.height)
}

/// Whether a set on this buffer replaces the pending image. A malformed
/// image is refused rather than ever reaching the renderer, and a closed
/// buffer ignores late producer callbacks entirely.
pub open spec fn set_accepted(v: HandoffView, f: Frame) -> bool {
    !v.closed && frame_exact(f)
}

/// What a set does: latest wins. Any image still pending is dropped, never
/// queued; a refused set changes nothing.
pub open spec fn set_model(v: HandoffView, f: Frame) -> HandoffView {
    if set_accepted(v, f) {
        HandoffView { pending: Some(f), closed: v.closed }
    } else {
        v
    }
}

/// What one take attempt does and yields: the pending image if there is one
/// (clearing the slot), the end-of-stream wake if the buffer is closed, and
/// "keep waiting" otherwise.
pub open spec fn take_model(v: HandoffView) -> (HandoffView, TakeResult) {
    match v.pending {
        Some(f) => (HandoffView { pending: None, closed: v.closed }, TakeResult::Image(f)),
        None => if v.closed {
            (v, TakeResult::NoMoreFrames)
        } else {
            (v, TakeResult::NotReady)
        },
    }
}

/// What teardown does: further sets fall on closed ears and a waiter with an
/// empty slot is woken empty-handed.
pub open spec fn close_model(v: HandoffView) -> HandoffView {
    HandoffView { pending: v.pending, closed: true }
}

/// The single-slot handoff buffer. At most one image is pending; a newer one
/// replaces it. The dirty flag mirrors whether an image is pending, so the
/// renderer's scheduler can ask cheaply whether a redraw is worth issuing.
pub struct HandoffBuffer {
    pending: Option<Frame>,
    dirty: bool,
    closed: bool,
}

impl View for HandoffBuffer {
    type V = HandoffView;

    closed spec fn view(&self) -> HandoffView {
        HandoffView { pending: self.pending, closed: self.closed }
    }
}

impl HandoffBuffer {
    #[verifier::type_invariant]
    spec fn inv(self) -> bool {
        self.dirty == self.pending is Some
    }

    /// A fresh, open buffer with nothing pending.
    pub fn new() -> (b: HandoffBuffer)
        ensures
            b@.pending is None,
            !b@.closed,
    {
        HandoffBuffer { pending: None, dirty: false, closed: false }
    }

    /// Producer side: hand the renderer a decoded image, replacing any
    /// undrawn one (deliberate frame skipping, never queueing). Returns
    /// whether a redraw is now needed; a malformed image or a closed buffer
    /// is refused with no effect.
    pub fn set_image(&mut self, rgba: Vec<u8>, width: u32, height: u32) -> (redraw: bool)
        ensures
            final(self)@ == set_model(
                old(self)@,
                (Frame { width, height, data: rgba }),
            ),
            redraw == set_accepted(old(self)@, (Frame { width, height, data: rgba })),
    {
        proof {
            use_type_invariant(&*self);
        }
        if self.closed {
            return false;
        }
        if width == 0 || height == 0 {
            return false;
        }
        assert((width as int) * (height as int) * 4 <= u128::MAX as int) by (nonlinear_arith)
            requires
                width <= u32::MAX && height <= u32::MAX,
        ;
        let expected: u128 = (width as u128) * (height as u128) * 4;
        if (rgba.len() as u128) != expected {
            return false;
        }
        *self = HandoffBuffer {
            pending: Some(Frame { width, height, data: rgba }),
            dirty: true,
            closed: false,
        };
        true
    }

    /// Consumer side: one attempt of the blocking take. The application
    /// calls this with the lock held and, on `NotReady`, waits on its
    /// condition variable and tries again; on `NoMoreFrames` it stops
    /// waiting and keeps the frame it last drew.
    pub fn take(&mut self) -> (r: TakeResult)
        ensures
            final(self)@ == take_model(old(self)@).0,
            r == take_model(old(self)@).1,
    {
        proof {
            use_type_invariant(&*self);
        }
        let mut tmp = HandoffBuffer { pending: None, dirty: false, closed: self.closed };
        core::mem::swap(&mut tmp, self);
        match tmp.pending {
            Some(f) => TakeResult::Image(f),
            None => {
                if self.closed {
                    TakeResult::NoMoreFrames
                } else {
                    TakeResult::NotReady
                }
            },
        }
    }

    /// Renderer's cheap need-redraw check: whether an image is pending. The
    /// application reads the mirrored flag without taking the lock.
    pub fn peek_dirty(&self) -> (dirty: bool)
        ensures
            dirty == self@.pending is Some,
    {
        proof {
            use_type_invariant(&*self);
        }
        self.dirty
    }

    /// Teardown: close the buffer. Late producer callbacks become no-ops and
    /// a consumer blocked on an empty slot is woken empty-handed (the
    /// application broadcasts on its condition variable after calling this).
    pub fn close(&mut self)
        ensures
            final(self)@ == close_model(old(self)@),
    {
        proof {
            use_type_invariant(&*self);
        }
        self.closed = true;
    }
}

/// Law: most recent wins. When two images are handed over before the
/// consumer wakes, the take yields the second; the first was dropped, not
/// queued, so a second take finds the slot empty rather than a stale frame.
pub proof fn lemma_latest_wins(v: HandoffView, a: Frame, b: Frame)
    requires
        !v.closed,
        frame_exact(a),
        frame_exact(b),
    ensures
        take_model(set_model(set_model(v, a), b)).1 == TakeResult::Image(b),
        take_model(take_model(set_model(set_model(v, a), b)).0).1 != TakeResult::Image(a),
{
}

/// Law: a take immediately after an accepted set returns exactly the image
/// that was set: the consumer is never shown an image older than the latest
/// set that preceded its wake.
pub proof fn lemma_take_returns_latest(v: HandoffView, f: Frame)
    requires
        set_accepted(v, f),
    ensures
        take_model(set_model(v, f)).1 == TakeResult::Image(f),
        take_model(set_model(v, f)).0.pending is None,
{
}

/// Law: teardown is idempotent, silences late producers, and never leaves a
/// consumer waiting forever: closing twice is closing once, a set after
/// close changes nothing, and a take on a closed, empty buffer is told the
/// stream is over instead of being put back to sleep.
pub proof fn lemma_teardown(v: HandoffView, f: Frame)
    ensures
        close_model(close_model(v)) == close_model(v),
        set_model(close_model(v), f) == close_model(v),
        v.pending is None ==> take_model(close_model(v)).1 == TakeResult::NoMoreFrames,
{
}

} // verus!
