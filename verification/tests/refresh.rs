use lilygo_epd47::refresh::{
    loop_pause_ms, RefreshAction, RefreshTimer, IDLE_PAUSE_MS, LOOP_PAUSE_MS,
    MIN_UPDATE_INTERVAL_MS,
};

#[test]
fn refresh_constants() {
    assert_eq!(MIN_UPDATE_INTERVAL_MS, 2000);
    assert_eq!(LOOP_PAUSE_MS, 100);
    assert_eq!(IDLE_PAUSE_MS, 500);
}

#[test]
fn frames_wait_for_more_than_the_interval() {
    let timer = RefreshTimer::new(1000);
    assert_eq!(timer.frame_rendered(1000), RefreshAction::Skip);
    assert_eq!(timer.frame_rendered(2999), RefreshAction::Skip);
    assert_eq!(timer.frame_rendered(3000), RefreshAction::Skip);
    assert_eq!(timer.frame_rendered(3001), RefreshAction::Update);
    assert_eq!(timer.frame_rendered(u64::MAX), RefreshAction::Update);
}

#[test]
fn a_clock_that_runs_back_skips_the_frame() {
    let timer = RefreshTimer::new(5000);
    assert_eq!(timer.frame_rendered(0), RefreshAction::Skip);
    assert_eq!(timer.frame_rendered(4999), RefreshAction::Skip);
}

#[test]
fn an_update_restarts_the_interval() {
    let mut timer = RefreshTimer::new(0);
    assert_eq!(timer.frame_rendered(2001), RefreshAction::Update);
    timer.display_updated(2001);
    assert_eq!(timer.last_update_ms, 2001);
    assert_eq!(timer.frame_rendered(4001), RefreshAction::Skip);
    assert_eq!(timer.frame_rendered(4002), RefreshAction::Update);
}

#[test]
fn the_loop_pauses_longer_when_idle() {
    assert_eq!(loop_pause_ms(true), 100);
    assert_eq!(loop_pause_ms(false), 600);
}
