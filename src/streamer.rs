use vstd::prelude::*;

verus! {

/// The number of audio buffers in rotation.
pub const RING_DEPTH: usize = 2;

/// The byte length of one audio buffer: a quarter second of 16-bit stereo
/// samples at the playback rate.
pub const CHUNK_BYTES: usize = 48000;

/// The playback rate, in samples per second.
pub const SAMPLE_RATE: u32 = 48000;

/// Where the streamer is in its life.
#[derive(Debug, Clone, Copy, PartialEq, Eq, Structural)]
pub enum StreamerPhase {
    /// Created; no buffer has been submitted yet.
    Idle,
    /// Every buffer has been filled and submitted; the steady-state loop runs.
    Running,
    /// Stopped for good: after a shutdown, or because there is no audio device.
    Stopped,
}

/// What the audio thread does in one iteration of its loop, after its yield.
#[derive(Debug, Clone, Copy, PartialEq, Eq, Structural)]
pub enum AudioAction {
    /// The buffer under the cursor is still queued: nothing to do.
    Wait,
    /// The buffer at this index has played: refill it from the sample source,
    /// resubmit it, then report that with `resubmitted`.
    Refill(usize),
    /// Shutdown was requested: leave the loop and end the thread.
    Exit,
}

/// The decisions of the double-buffered audio loop, with its view of which
/// buffers are queued on the playback channel.
pub struct AudioStreamer {
    queued: Vec<bool>,
    cursor: usize,
    phase: StreamerPhase,
}

impl AudioStreamer {
    /// For each buffer, whether it is queued on the channel (`false`: done, and
    /// owned by the audio thread).
    pub closed spec fn queued(&self) -> Seq<bool> {
        self.queued@
    }

    /// The index of the buffer to refill next.
    pub closed spec fn cursor(&self) -> nat {
        self.cursor as nat
    }

    /// Where the streamer is in its life.
    pub closed spec fn phase(&self) -> StreamerPhase {
        self.phase
    }

    /// The audio thread holds the buffer under the cursor for a refill.
    pub open spec fn holding(&self) -> bool {
        !self.queued()[self.cursor() as int]
    }

    /// While running, only the buffer under the cursor may be out of the
    /// channel's hands.
    pub open spec fn wf(&self) -> bool {
        &&& self.queued().len() == RING_DEPTH
        &&& self.cursor() < RING_DEPTH
        &&& self.phase() == StreamerPhase::Running ==> forall|i: int|
            0 <= i < RING_DEPTH && i != self.cursor() ==> #[trigger] self.queued()[i]
    }

    /// A streamer before setup: no buffer submitted, cursor on the first.
    pub fn new() -> (r: AudioStreamer)
        ensures
            r.wf(),
            r.phase() == StreamerPhase::Idle,
            r.cursor() == 0,
            r.queued() == Seq::new(RING_DEPTH as nat, |i: int| false),
    {
        let mut queued: Vec<bool> = Vec::new();
        let mut i: usize = 0;
        while i < RING_DEPTH
            invariant
                i <= RING_DEPTH,
                queued@ == Seq::new(i as nat, |k: int| false),
            decreases RING_DEPTH - i,
        {
            queued.push(false);
            i = i + 1;
            assert(queued@ =~= Seq::new(i as nat, |k: int| false));
        }
        AudioStreamer { queued, cursor: 0, phase: StreamerPhase::Idle }
    }

    /// Ends setup. With a device, every buffer has been filled and submitted
    /// in index order, and the loop may run; without one, the streamer stops
    /// at once and never touches a buffer. Returns whether the loop runs.
    pub fn start(&mut self, device_available: bool) -> (r: bool)
        requires
            old(self).wf(),
            old(self).phase() == StreamerPhase::Idle,
        ensures
            final(self).wf(),
            r == device_available,
            final(self).cursor() == 0,
            device_available ==> final(self).phase() == StreamerPhase::Running && final(self).queued()
                == Seq::new(RING_DEPTH as nat, |i: int| true),
            !device_available ==> final(self).phase() == StreamerPhase::Stopped && final(self).queued()
                == old(self).queued(),
    {
        self.cursor = 0;
        if !device_available {
            self.phase = StreamerPhase::Stopped;
            return false;
        }
        let mut i: usize = 0;
        while i < RING_DEPTH
            invariant
                i <= RING_DEPTH,
                self.queued@.len() == RING_DEPTH,
                self.cursor == 0,
                self.phase == StreamerPhase::Idle,
                forall|k: int| 0 <= k < i ==> self.queued@[k],
            decreases RING_DEPTH - i,
        {
            self.queued.set(i, true);
            i = i + 1;
        }
        self.phase = StreamerPhase::Running;
        assert(self.queued@ =~= Seq::new(RING_DEPTH as nat, |i: int| true));
        true
    }

    /// One iteration of the steady-state loop. `shutdown` is the shutdown
    /// signal as read now, `current_done` whether the channel reports the
    /// buffer under the cursor as played.
    pub fn poll(&mut self, shutdown: bool, current_done: bool) -> (r: AudioAction)
        requires
            old(self).wf(),
            old(self).phase() == StreamerPhase::Running,
            !old(self).holding(),
        ensures
            final(self).wf(),
            final(self).cursor() == old(self).cursor(),
            shutdown ==> r == AudioAction::Exit && final(self).phase() == StreamerPhase::Stopped
                && final(self).queued() == old(self).queued(),
            !shutdown && !current_done ==> r == AudioAction::Wait && *final(self) == *old(self),
            !shutdown && current_done ==> r == AudioAction::Refill(old(self).cursor() as usize)
                && final(self).phase() == StreamerPhase::Running && final(self).queued() == old(
                self,
            ).queued().update(old(self).cursor() as int, false),
    {
        if shutdown {
            self.phase = StreamerPhase::Stopped;
            AudioAction::Exit
        } else if !current_done {
            AudioAction::Wait
        } else {
            self.queued.set(self.cursor, false);
            AudioAction::Refill(self.cursor)
        }
    }

    /// The buffer under the cursor has been refilled and resubmitted: it is
    /// queued again, and the cursor moves to the next buffer of the ring.
    pub fn resubmitted(&mut self)
        requires
            old(self).wf(),
            old(self).phase() == StreamerPhase::Running,
            old(self).holding(),
        ensures
            final(self).wf(),
            final(self).phase() == StreamerPhase::Running,
            !final(self).holding(),
            final(self).queued() == Seq::new(RING_DEPTH as nat, |i: int| true),
            final(self).cursor() == (old(self).cursor() + 1) % (RING_DEPTH as nat),
    {
        self.queued.set(self.cursor, true);
        if self.cursor + 1 == RING_DEPTH {
            self.cursor = 0;
        } else {
            self.cursor = self.cursor + 1;
        }
        assert(self.queued@ =~= Seq::new(RING_DEPTH as nat, |i: int| true));
    }

    /// The index of the buffer to refill next.
    pub fn cursor_index(&self) -> (r: usize)
        ensures
            r == self.cursor(),
    {
        self.cursor
    }

    /// Where the streamer is in its life.
    pub fn current_phase(&self) -> (r: StreamerPhase)
        ensures
            r == self.phase(),
    {
        self.phase
    }

    /// Whether the buffer at `index` is queued on the channel.
    pub fn is_queued(&self, index: usize) -> (r: bool)
        requires
            index < RING_DEPTH,
            self.wf(),
        ensures
            r == self.queued()[index as int],
    {
        self.queued[index]
    }
}

/// While the loop runs, at least one buffer is always queued for playback, and
/// any buffer that is not is the one under the cursor.
pub proof fn lemma_one_buffer_always_queued(s: AudioStreamer)
    requires
        s.wf(),
        s.phase() == StreamerPhase::Running,
    ensures
        exists|i: int| 0 <= i < RING_DEPTH && #[trigger] s.queued()[i],
        forall|i: int| 0 <= i < RING_DEPTH && !#[trigger] s.queued()[i] ==> i == s.cursor(),
{
    let other: int = if s.cursor() == 0 { 1 } else { 0 };
    assert(s.queued()[other]);
}

} // verus!
