use aris_player::presenter::{pacing_delay, Presenter, TickOutcome, FRAME_NANOS};

#[test]
fn displayed_index_is_tick_mod_frame_count() {
    let mut p = Presenter::new(5);
    assert_eq!(p.current(), 0);
    for t in 1..=23usize {
        assert_eq!(p.advance(), t % 5);
    }
}

#[test]
fn sequence_repeats_after_frame_count_ticks() {
    let mut p = Presenter::new(4);
    let first: Vec<usize> = (0..4).map(|_| p.advance()).collect();
    let second: Vec<usize> = (0..4).map(|_| p.advance()).collect();
    assert_eq!(first, vec![1, 2, 3, 0]);
    assert_eq!(first, second);
}

#[test]
fn single_frame_always_shows_frame_zero() {
    let mut p = Presenter::new(1);
    for _ in 0..3 {
        assert_eq!(p.advance(), 0);
    }
}

#[test]
fn exit_at_tick_forty_of_seventeen_frames() {
    let mut p = Presenter::new(17);
    let mut shown = Vec::new();
    let mut tick = 0;
    loop {
        tick += 1;
        shown.push(p.advance());
        if p.finish_tick(tick == 40, 0) == TickOutcome::Stop {
            break;
        }
    }
    let mut expected: Vec<usize> = (1..=16).collect();
    expected.extend(0..=16);
    expected.extend(0..=6);
    assert_eq!(shown.len(), 40);
    assert_eq!(shown, expected);
}

#[test]
fn pacing_sleeps_the_remainder() {
    assert_eq!(FRAME_NANOS, 41_666_666);
    assert_eq!(pacing_delay(FRAME_NANOS, 10_000_000), 31_666_666);
    assert_eq!(pacing_delay(FRAME_NANOS, FRAME_NANOS), 0);
    assert_eq!(pacing_delay(FRAME_NANOS, 50_000_000), 0);
    assert_eq!(pacing_delay(FRAME_NANOS, 0), FRAME_NANOS);
}

#[test]
fn finish_tick_paces_or_stops() {
    let p = Presenter::new(3);
    assert_eq!(p.finish_tick(false, 1_666_666), TickOutcome::Continue(40_000_000));
    assert_eq!(p.finish_tick(false, 90_000_000), TickOutcome::Continue(0));
    assert_eq!(p.finish_tick(true, 0), TickOutcome::Stop);
}
