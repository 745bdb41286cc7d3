use camera_node::event::{InfoUpdate, PinState};
use camera_node::harness::{finished_tasks, TaskKind, TaskStatus};
use camera_node::observer::{
    button_task, motion_task, EdgeObserver, EdgeStrategy, BUTTON_POLL_MICROS, MOTION_POLL_MICROS,
};

const H: PinState = PinState::High;
const L: PinState = PinState::Low;

#[test]
fn observer_starts_with_the_sampled_level() {
    let (observer, first) = EdgeObserver::start(EdgeStrategy::Polling, H);
    assert_eq!(first, H);
    assert_eq!(observer.level, H);
    assert_eq!(observer.strategy, EdgeStrategy::Polling);
}

#[test]
fn polling_publishes_only_changes() {
    let (mut observer, _) = EdgeObserver::start(EdgeStrategy::Polling, L);
    let samples = [L, L, H, H, H, L, H, H, L, L];
    let mut out = Vec::new();
    for s in samples.iter() {
        if let Some(level) = observer.observe(*s) {
            out.push(level);
        }
    }
    assert_eq!(out, vec![H, L, H, L]);
    assert_eq!(observer.level, L);
}

#[test]
fn polling_a_steady_input_publishes_nothing() {
    let (mut observer, _) = EdgeObserver::start(EdgeStrategy::Polling, H);
    for _ in 0..100 {
        assert_eq!(observer.observe(H), None);
    }
    assert_eq!(observer.level, H);
}

#[test]
fn blocking_wait_publishes_every_wake() {
    let (mut observer, _) = EdgeObserver::start(EdgeStrategy::BlockingWait, L);
    let samples = [L, H, H, L];
    let mut out = Vec::new();
    for s in samples.iter() {
        out.push(observer.observe(*s));
    }
    assert_eq!(out, vec![Some(L), Some(H), Some(H), Some(L)]);
}

#[test]
fn button_task_publishes_button_events() {
    let (mut observer, _) = EdgeObserver::start(EdgeStrategy::Polling, H);
    assert_eq!(button_task(&mut observer, H), None);
    assert_eq!(button_task(&mut observer, L), Some(InfoUpdate::Button(L)));
    assert_eq!(button_task(&mut observer, L), None);
    assert_eq!(button_task(&mut observer, H), Some(InfoUpdate::Button(H)));
}

#[test]
fn motion_task_publishes_motion_events() {
    let (mut observer, _) = EdgeObserver::start(EdgeStrategy::Polling, L);
    assert_eq!(motion_task(&mut observer, H), Some(InfoUpdate::Motion(H)));
    assert_eq!(motion_task(&mut observer, H), None);
    assert_eq!(motion_task(&mut observer, L), Some(InfoUpdate::Motion(L)));
    let (mut waiting, _) = EdgeObserver::start(EdgeStrategy::BlockingWait, L);
    assert_eq!(motion_task(&mut waiting, L), Some(InfoUpdate::Motion(L)));
}

#[test]
fn poll_intervals() {
    assert_eq!(BUTTON_POLL_MICROS, 150);
    assert_eq!(MOTION_POLL_MICROS, 250);
}

fn status(button: bool, motion: bool, wifi: bool, display: bool) -> TaskStatus {
    TaskStatus {
        button_finished: button,
        motion_finished: motion,
        wifi_loop_finished: wifi,
        display_finished: display,
    }
}

#[test]
fn no_task_ended_means_nothing_to_report() {
    assert_eq!(finished_tasks(&status(false, false, false, false)), vec![]);
}

#[test]
fn ended_tasks_are_named_in_roster_order() {
    assert_eq!(
        finished_tasks(&status(true, true, true, true)),
        vec![TaskKind::Button, TaskKind::Motion, TaskKind::WifiLoop, TaskKind::Display]
    );
    assert_eq!(
        finished_tasks(&status(false, true, false, true)),
        vec![TaskKind::Motion, TaskKind::Display]
    );
    assert_eq!(finished_tasks(&status(false, false, true, false)), vec![TaskKind::WifiLoop]);
    assert_eq!(finished_tasks(&status(true, false, false, false)), vec![TaskKind::Button]);
}

#[test]
fn every_status_is_reported_completely() {
    for bits in 0u8..16 {
        let s = status(bits & 1 != 0, bits & 2 != 0, bits & 4 != 0, bits & 8 != 0);
        let tasks = finished_tasks(&s);
        assert_eq!(tasks.len() as u32, bits.count_ones());
        assert_eq!(tasks.contains(&TaskKind::Button), s.button_finished);
        assert_eq!(tasks.contains(&TaskKind::Motion), s.motion_finished);
        assert_eq!(tasks.contains(&TaskKind::WifiLoop), s.wifi_loop_finished);
        assert_eq!(tasks.contains(&TaskKind::Display), s.display_finished);
    }
}

#[test]
fn report_lines() {
    assert_eq!(TaskKind::Button.report(), "button task done!");
    assert_eq!(TaskKind::Motion.report(), "motion task done");
    assert_eq!(TaskKind::WifiLoop.report(), "wifi task done");
    assert_eq!(TaskKind::Display.report(), "display task done");
}
