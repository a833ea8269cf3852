use aris_player::sync::{Party, ReadyBarrier};

#[test]
fn barrier_holds_until_both_arrive_presenter_first() {
    let mut b = ReadyBarrier::new();
    assert!(!b.released());
    assert!(!b.arrive(Party::Presenter));
    assert!(!b.released());
    assert!(b.has_arrived(Party::Presenter) && !b.has_arrived(Party::Audio));
    assert!(b.arrive(Party::Audio));
    assert!(b.released());
}

#[test]
fn barrier_holds_until_both_arrive_audio_first() {
    let mut b = ReadyBarrier::new();
    assert!(!b.arrive(Party::Audio));
    assert!(!b.released());
    assert!(b.arrive(Party::Presenter));
    assert!(b.released());
}
