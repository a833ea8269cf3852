use vstd::prelude::*;

verus! {

/// The two participants of the startup rendezvous.
#[derive(Debug, Clone, Copy, PartialEq, Eq, Structural)]
pub enum Party {
    /// The main path, which decodes the frames and then presents them.
    Presenter,
    /// The audio path, which sets up the playback channel.
    Audio,
}

/// The parties of a rendezvous that has released.
pub open spec fn both_parties() -> Set<Party> {
    set![Party::Presenter, Party::Audio]
}

/// Whether a rendezvous at which `arrived` have arrived lets its parties go.
pub open spec fn releases(arrived: Set<Party>) -> bool {
    arrived.contains(Party::Presenter) && arrived.contains(Party::Audio)
}

/// The state of a one-shot, two-party startup rendezvous: each party arrives
/// exactly once, and neither goes on before both have arrived.
pub struct ReadyBarrier {
    presenter_arrived: bool,
    audio_arrived: bool,
}

impl ReadyBarrier {
    /// The parties that have arrived.
    pub closed spec fn arrived(&self) -> Set<Party> {
        Set::new(
            |p: Party|
                match p {
                    Party::Presenter => self.presenter_arrived,
                    Party::Audio => self.audio_arrived,
                },
        )
    }

    /// A rendezvous that no party has reached.
    pub fn new() -> (r: ReadyBarrier)
        ensures
            r.arrived() == Set::<Party>::empty(),
    {
        let r = ReadyBarrier { presenter_arrived: false, audio_arrived: false };
        assert(r.arrived() =~= Set::<Party>::empty());
        r
    }

    /// Records the arrival of `party`, which has not arrived before, and tells
    /// whether the rendezvous now releases.
    pub fn arrive(&mut self, party: Party) -> (r: bool)
        requires
            !old(self).arrived().contains(party),
        ensures
            final(self).arrived() == old(self).arrived().insert(party),
            r == releases(final(self).arrived()),
    {
        match party {
            Party::Presenter => {
                self.presenter_arrived = true;
            },
            Party::Audio => {
                self.audio_arrived = true;
            },
        }
        assert(self.arrived() =~= old(self).arrived().insert(party));
        self.presenter_arrived && self.audio_arrived
    }

    /// Whether both parties have arrived, so that neither waits any longer.
    pub fn released(&self) -> (r: bool)
        ensures
            r == releases(self.arrived()),
    {
        self.presenter_arrived && self.audio_arrived
    }

    /// Whether `party` has arrived.
    pub fn has_arrived(&self, party: Party) -> (r: bool)
        ensures
            r == self.arrived().contains(party),
    {
        match party {
            Party::Presenter => self.presenter_arrived,
            Party::Audio => self.audio_arrived,
        }
    }
}

/// The rendezvous releases exactly when both parties have arrived: after the
/// first arrival, whichever party it is, it holds both back, and the second
/// arrival, in either order, releases them.
pub proof fn lemma_release_needs_both(arrived: Set<Party>, first: Party, second: Party)
    requires
        first != second,
    ensures
        releases(arrived) <==> arrived.contains(Party::Presenter) && arrived.contains(Party::Audio),
        !releases(Set::<Party>::empty().insert(first)),
        releases(Set::<Party>::empty().insert(first).insert(second)),
        Set::<Party>::empty().insert(first).insert(second) == both_parties(),
{
    assert(Set::<Party>::empty().insert(first).insert(second) =~= both_parties());
}

} // verus!
