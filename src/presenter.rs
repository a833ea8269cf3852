use vstd::arithmetic::div_mod::{lemma_add_mod_noop, lemma_mod_bound, lemma_mod_self_0, lemma_small_mod};
use vstd::prelude::*;

verus! {

/// The nominal time between two presented frames: one twenty-fourth of a
/// second, in nanoseconds.
pub const FRAME_NANOS: u64 = 41_666_666;

/// The frame shown at the `tick`-th tick (counting from one) of a loop over
/// `frame_count` frames that starts on frame zero.
pub open spec fn displayed_index(frame_count: nat, tick: nat) -> nat
    recommends
        frame_count >= 1,
{
    tick % frame_count
}

/// How long to sleep after a tick that took `elapsed` of a `cadence`: the
/// remainder, and nothing once the tick has overrun.
pub open spec fn pacing_spec(cadence: nat, elapsed: nat) -> nat {
    if elapsed >= cadence {
        0
    } else {
        (cadence - elapsed) as nat
    }
}

/// What the presentation loop does once a frame has been shown.
#[derive(Debug, Clone, Copy, PartialEq, Eq, Structural)]
pub enum TickOutcome {
    /// Sleep this many nanoseconds, then present the next frame.
    Continue(u64),
    /// The exit control was pressed: stop presenting.
    Stop,
}

/// The remainder of `cadence_nanos` after a tick that took `elapsed_nanos`,
/// clamped at zero.
pub fn pacing_delay(cadence_nanos: u64, elapsed_nanos: u64) -> (r: u64)
    ensures
        r == pacing_spec(cadence_nanos as nat, elapsed_nanos as nat),
{
    if elapsed_nanos >= cadence_nanos {
        0
    } else {
        cadence_nanos - elapsed_nanos
    }
}

/// The frame cursor of the presentation loop.
pub struct Presenter {
    frame_count: usize,
    cursor: usize,
    ticks: Ghost<nat>,
}

impl Presenter {
    /// The number of frames looped over.
    pub closed spec fn frame_count(&self) -> nat {
        self.frame_count as nat
    }

    /// The frame shown last (frame zero before the first tick).
    pub closed spec fn cursor(&self) -> nat {
        self.cursor as nat
    }

    /// The number of ticks so far.
    pub closed spec fn ticks(&self) -> nat {
        self.ticks@
    }

    /// At least one frame; the cursor is the frame of the current tick.
    pub open spec fn wf(&self) -> bool {
        &&& self.frame_count() >= 1
        &&& self.cursor() < self.frame_count()
        &&& self.cursor() == displayed_index(self.frame_count(), self.ticks())
    }

    /// A cursor over `frame_count` frames, before its first tick.
    pub fn new(frame_count: usize) -> (r: Presenter)
        requires
            frame_count >= 1,
        ensures
            r.wf(),
            r.frame_count() == frame_count,
            r.ticks() == 0,
            r.cursor() == 0,
    {
        proof {
            lemma_small_mod(0, frame_count as nat);
        }
        Presenter { frame_count, cursor: 0, ticks: Ghost(0) }
    }

    /// Starts a tick: moves the cursor one frame on, wrapping after the last,
    /// and returns the index of the frame to show.
    pub fn advance(&mut self) -> (r: usize)
        requires
            old(self).wf(),
        ensures
            final(self).wf(),
            final(self).frame_count() == old(self).frame_count(),
            final(self).ticks() == old(self).ticks() + 1,
            r == final(self).cursor(),
            r == displayed_index(old(self).frame_count(), old(self).ticks() + 1),
            r == (old(self).cursor() + 1) % old(self).frame_count(),
    {
        proof {
            lemma_tick_step(self.ticks@, self.frame_count as nat);
        }
        if self.cursor + 1 == self.frame_count {
            self.cursor = 0;
        } else {
            self.cursor = self.cursor + 1;
        }
        self.ticks = Ghost(self.ticks@ + 1);
        self.cursor
    }

    /// The index of the frame shown last.
    pub fn current(&self) -> (r: usize)
        ensures
            r == self.cursor(),
    {
        self.cursor
    }

    /// Ends a tick: stops when the exit control was pressed during it, and
    /// otherwise paces the loop to the nominal cadence.
    pub fn finish_tick(&self, exit_pressed: bool, elapsed_nanos: u64) -> (r: TickOutcome)
        ensures
            exit_pressed ==> r == TickOutcome::Stop,
            !exit_pressed ==> r == TickOutcome::Continue(
                pacing_spec(FRAME_NANOS as nat, elapsed_nanos as nat) as u64,
            ),
    {
        if exit_pressed {
            TickOutcome::Stop
        } else {
            TickOutcome::Continue(pacing_delay(FRAME_NANOS, elapsed_nanos))
        }
    }
}

/// One more tick moves the displayed index one frame on, wrapping after the
/// last frame.
proof fn lemma_tick_step(t: nat, n: nat)
    requires
        n >= 1,
    ensures
        displayed_index(n, t + 1) == (displayed_index(n, t) + 1) % n,
        (displayed_index(n, t) + 1) % n == if displayed_index(n, t) + 1 == n {
            0
        } else {
            displayed_index(n, t) + 1
        },
{
    lemma_add_mod_noop(t as int, 1, n as int);
    lemma_mod_bound(t as int, n as int);
    if n == 1 {
        lemma_mod_self_0(1);
        lemma_small_mod(0, 1);
    } else {
        lemma_small_mod(1, n);
        if displayed_index(n, t) + 1 == n {
            lemma_mod_self_0(n as int);
        } else {
            lemma_small_mod(displayed_index(n, t) + 1, n);
        }
    }
}

/// The frame shown at tick `t` is `t mod frame_count`, and the sequence of
/// shown frames repeats after exactly `frame_count` ticks.
pub proof fn lemma_display_cycles(frame_count: nat, t: nat)
    requires
        frame_count >= 1,
    ensures
        displayed_index(frame_count, t) == t % frame_count,
        displayed_index(frame_count, t) < frame_count,
        displayed_index(frame_count, t + frame_count) == displayed_index(frame_count, t),
{
    lemma_mod_bound(t as int, frame_count as int);
    vstd::arithmetic::div_mod::lemma_mod_add_multiples_vanish(t as int, frame_count as int);
}

} // verus!
