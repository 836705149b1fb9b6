//! The redraw scheduler: decides when the event loop must produce a frame.
//!
//! The scheduler tracks four pieces of state that the windowing system and the
//! UI runtime feed it:
//!
//! * `configured` — the windowing system has delivered an initial size, so
//!   drawing may start;
//! * `frame_ready` — the presentation surface has signalled that it can accept
//!   another frame (throttles drawing to the display's presentation cadence);
//! * `pending_input` — the input events accumulated since the last frame;
//! * `next_wake` — an optional timestamp at which the UI runtime asked to be
//!   woken again (animations, cursor blink).
//!
//! Timestamps are plain `u64` ticks on any monotonic clock the caller picks
//! (for instance milliseconds since the program started); the scheduler only
//! compares them and never reads a clock itself.

use vstd::prelude::*;

verus! {

/// The mathematical model of a [`RedrawScheduler`]: the same state with the
/// pending-input queue abstracted to a sequence.
pub struct SchedulerView<E> {
    pub configured: bool,
    pub frame_ready: bool,
    pub closed: bool,
    pub pending_input: Seq<E>,
    pub next_wake: Option<u64>,
    pub fallback_width: u32,
    pub fallback_height: u32,
}

impl<E> SchedulerView<E> {
    /// A frame must be produced exactly when the surface is configured, the
    /// presentation surface can accept a frame, and there is either pending
    /// input or an expired wake-up request.
    pub open spec fn wants_draw(self, now: u64) -> bool {
        &&& self.configured
        &&& self.frame_ready
        &&& {
            ||| self.pending_input.len() > 0
            ||| (self.next_wake matches Some(t) && t <= now)
        }
    }

    /// How long the event loop may block: indefinitely (`None`) while the
    /// surface cannot accept a frame anyway or no wake-up is pending,
    /// otherwise the time left until the requested wake-up, clamped to zero.
    pub open spec fn block_duration(self, now: u64) -> Option<u64> {
        if self.frame_ready && self.next_wake is Some {
            let t = self.next_wake->0;
            Some(if t >= now { (t - now) as u64 } else { 0u64 })
        } else {
            None
        }
    }

    /// The state after one input event has been recorded.
    pub open spec fn record_input(self, event: E) -> Self {
        SchedulerView { pending_input: self.pending_input.push(event), ..self }
    }

    /// The state after the presentation surface has completed a present.
    pub open spec fn complete_frame(self) -> Self {
        SchedulerView { frame_ready: true, ..self }
    }

    /// The state right after a frame has been produced: the input queue is
    /// taken, the frame-ready latch and the wake-up request are cleared.
    pub open spec fn cleared_for_draw(self) -> Self {
        SchedulerView {
            pending_input: Seq::empty(),
            frame_ready: false,
            next_wake: None::<u64>,
            ..self
        }
    }

    /// The state after the first configure event: drawing may start, and an
    /// immediate wake-up is requested so that the bootstrap frame is drawn
    /// without waiting for a prior present.
    pub open spec fn first_configure(self, now: u64) -> Self {
        SchedulerView { configured: true, frame_ready: true, next_wake: Some(now), ..self }
    }

    /// The state after the UI runtime asked to be woken at `at`.
    pub open spec fn with_wake_request(self, at: u64) -> Self {
        SchedulerView { next_wake: Some(at), ..self }
    }

    /// The state after the windowing system reported the surface closed.
    pub open spec fn close(self) -> Self {
        SchedulerView { closed: true, ..self }
    }

    /// The state after a sequence of input events has been recorded, in order.
    pub open spec fn record_inputs(self, events: Seq<E>) -> Self
        decreases events.len(),
    {
        if events.len() == 0 {
            self
        } else {
            self.record_input(events[0]).record_inputs(events.drop_first())
        }
    }
}

/// A configure event's dimension, with a degenerate zero replaced by the
/// fallback the scheduler was built with (or by 1 if that is zero as well),
/// so that a zero-sized surface is never handed to the GPU.
pub open spec fn effective_dim(dim: u32, fallback: u32) -> u32 {
    if dim != 0 {
        dim
    } else if fallback != 0 {
        fallback
    } else {
        1u32
    }
}

/// Decides, per event-loop wakeup, whether to draw, and computes the maximum
/// time the loop may block before the next mandatory wakeup.
///
/// `E` is the caller's input-event payload; the scheduler queues events in
/// order and hands them back when a frame begins, without reading them.
pub struct RedrawScheduler<E> {
    configured: bool,
    frame_ready: bool,
    closed: bool,
    pending_input: Vec<E>,
    next_wake: Option<u64>,
    fallback_width: u32,
    fallback_height: u32,
}

impl<E> View for RedrawScheduler<E> {
    type V = SchedulerView<E>;

    closed spec fn view(&self) -> SchedulerView<E> {
        SchedulerView {
            configured: self.configured,
            frame_ready: self.frame_ready,
            closed: self.closed,
            pending_input: self.pending_input@,
            next_wake: self.next_wake,
            fallback_width: self.fallback_width,
            fallback_height: self.fallback_height,
        }
    }
}

impl<E> RedrawScheduler<E> {
    /// A fresh scheduler. Drawing cannot start before the first configure
    /// event arrives. `fallback_width` and `fallback_height` replace the
    /// dimensions of a degenerate (zero-sized) configure event.
    pub fn new(fallback_width: u32, fallback_height: u32) -> (s: Self)
        ensures
            s@ == (SchedulerView {
                configured: false,
                frame_ready: false,
                closed: false,
                pending_input: Seq::<E>::empty(),
                next_wake: None::<u64>,
                fallback_width,
                fallback_height,
            }),
    {
        RedrawScheduler {
            configured: false,
            frame_ready: false,
            closed: false,
            pending_input: Vec::new(),
            next_wake: None,
            fallback_width,
            fallback_height,
        }
    }

    /// True exactly when a frame must be produced now.
    pub fn should_draw(&self, now: u64) -> (r: bool)
        ensures
            r == self@.wants_draw(now),
    {
        if !self.configured || !self.frame_ready {
            return false;
        }
        if self.pending_input.len() > 0 {
            return true;
        }
        match self.next_wake {
            Some(t) => t <= now,
            None => false,
        }
    }

    /// Appends an input event to the queue taken by the next frame.
    pub fn on_input(&mut self, event: E)
        ensures
            final(self)@ == old(self)@.record_input(event),
    {
        self.pending_input.push(event);
    }

    /// The presentation surface has finished a present: the next frame may be
    /// submitted.
    pub fn on_frame_complete(&mut self)
        ensures
            final(self)@ == old(self)@.complete_frame(),
    {
        self.frame_ready = true;
    }

    /// How long the event loop may block before the next mandatory wakeup:
    /// `None` to block indefinitely (the surface's own frame-completion
    /// callback will wake the loop), `Some(d)` to wake after `d` ticks. The
    /// result is never "negative": a wake-up time already in the past yields
    /// `Some(0)`, meaning wake immediately.
    pub fn get_timeout(&self, now: u64) -> (r: Option<u64>)
        ensures
            r == self@.block_duration(now),
    {
        match self.next_wake {
            Some(at) => {
                if self.frame_ready {
                    Some(if at >= now { at - now } else { 0 })
                } else {
                    None
                }
            },
            None => None,
        }
    }

    /// A configuration event arrived with the given surface size. The first
    /// call starts the bootstrap: drawing becomes possible and an immediate
    /// wake-up is requested, so an initial frame is drawn without waiting for
    /// a prior present. Later calls change none of the scheduling state.
    /// Returns the size the presentation surface and the UI runtime must be
    /// resized to, with zero dimensions replaced as [`effective_dim`] says.
    pub fn on_configured(&mut self, width: u32, height: u32, now: u64) -> (size: (u32, u32))
        ensures
            final(self)@ == if old(self)@.configured {
                old(self)@
            } else {
                old(self)@.first_configure(now)
            },
            size.0 == effective_dim(width, old(self)@.fallback_width),
            size.1 == effective_dim(height, old(self)@.fallback_height),
    {
        if !self.configured {
            self.configured = true;
            self.frame_ready = true;
            self.next_wake = Some(now);
        }
        let w = if width != 0 {
            width
        } else if self.fallback_width != 0 {
            self.fallback_width
        } else {
            1
        };
        let h = if height != 0 {
            height
        } else if self.fallback_height != 0 {
            self.fallback_height
        } else {
            1
        };
        (w, h)
    }

    /// The UI runtime asked to be woken at `at` (it may be in the past, which
    /// means: redraw as soon as the surface allows). A newer request
    /// overwrites an older one.
    pub fn request_wake_at(&mut self, at: u64)
        ensures
            final(self)@ == old(self)@.with_wake_request(at),
    {
        self.next_wake = Some(at);
    }

    /// Begins a frame if one must be produced now. On `Some`, the caller owes
    /// one full draw: feed the returned events to the UI runtime, render, and
    /// present; the frame-ready latch, the wake-up request and the input
    /// queue are already cleared. When no frame is due this is a no-op.
    pub fn begin_draw(&mut self, now: u64) -> (r: Option<Vec<E>>)
        ensures
            old(self)@.wants_draw(now) ==> {
                &&& r matches Some(events) && events@ == old(self)@.pending_input
                &&& final(self)@ == old(self)@.cleared_for_draw()
            },
            !old(self)@.wants_draw(now) ==> r is None && final(self)@ == old(self)@,
    {
        if !self.should_draw(now) {
            return None;
        }
        self.frame_ready = false;
        self.next_wake = None;
        let mut events: Vec<E> = Vec::new();
        core::mem::swap(&mut self.pending_input, &mut events);
        Some(events)
    }

    /// The windowing system reported the surface closed: the owning event
    /// loop must exit, and the scheduler stops being polled.
    pub fn on_closed(&mut self)
        ensures
            final(self)@ == old(self)@.close(),
    {
        self.closed = true;
    }

    /// True once the surface has been reported closed.
    pub fn should_exit(&self) -> (r: bool)
        ensures
            r == self@.closed,
    {
        self.closed
    }
}

/// Recording a batch of input events leaves the configuration and the
/// frame-ready latch alone and appends the events, in order, to the queue.
pub proof fn lemma_record_inputs_effect<E>(s: SchedulerView<E>, events: Seq<E>)
    ensures
        s.record_inputs(events).configured == s.configured,
        s.record_inputs(events).frame_ready == s.frame_ready,
        s.record_inputs(events).next_wake == s.next_wake,
        s.record_inputs(events).pending_input == s.pending_input + events,
    decreases events.len(),
{
    if events.len() == 0 {
        assert(s.pending_input + events =~= s.pending_input);
    } else {
        lemma_record_inputs_effect(s.record_input(events[0]), events.drop_first());
        assert(s.pending_input.push(events[0]) + events.drop_first() =~= s.pending_input + events);
    }
}

/// Law: however many input events arrive between two draws, once at least one
/// has arrived and the frame-ready latch is set, a frame is due. (On an
/// unconfigured scheduler this fails — drawing must never start before the
/// first configure event — hence the `configured` premise.)
pub proof fn lemma_input_forces_draw<E>(s: SchedulerView<E>, events: Seq<E>, now: u64)
    requires
        s.configured,
        s.frame_ready,
        events.len() > 0,
    ensures
        s.record_inputs(events).wants_draw(now),
{
    lemma_record_inputs_effect(s, events);
}

/// Law: while the surface is not configured, no frame is due, whatever the
/// rest of the state says.
pub proof fn lemma_no_draw_before_configure<E>(s: SchedulerView<E>, now: u64)
    requires
        !s.configured,
    ensures
        !s.wants_draw(now),
{
}

/// Law: no frame is due while the frame-ready latch is clear, so the
/// presentation queue can never be overrun.
pub proof fn lemma_no_draw_while_presenting<E>(s: SchedulerView<E>, now: u64)
    requires
        !s.frame_ready,
    ensures
        !s.wants_draw(now),
{
}

/// Law: producing a frame empties the input queue and clears the frame-ready
/// latch, so no second frame is due until the present completes or new work
/// arrives.
pub proof fn lemma_draw_clears_state<E>(s: SchedulerView<E>)
    ensures
        s.cleared_for_draw().pending_input.len() == 0,
        !s.cleared_for_draw().frame_ready,
        s.cleared_for_draw().next_wake is None,
{
}

/// Law: the blocking duration is never negative, and a wake-up time already
/// in the past yields a zero timeout — wake immediately — whenever a timeout
/// is returned at all.
pub proof fn lemma_timeout_never_negative<E>(s: SchedulerView<E>, now: u64)
    ensures
        s.block_duration(now) matches Some(d) ==> d >= 0,
        s.next_wake matches Some(t) ==> ((s.frame_ready && t <= now)
            ==> s.block_duration(now) == Some(0u64)),
{
}

} // verus!
