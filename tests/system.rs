use silkstick::lifecycle::{EventLoop, LoopAction, Phase};
use silkstick::screen::DefaultContentScreen;
use silkstick::system::{retain_open, GLBackend, WindowSettings};

#[test]
fn default_window_settings() {
    let w: WindowSettings<DefaultContentScreen> = WindowSettings::default();
    assert_eq!(w.title, "Application");
    assert_eq!(w.size, (800, 600));
    assert_eq!(w.position, (100, 100));
    assert!(w.decorated);
    assert_eq!(w.screen, DefaultContentScreen {});
}

#[test]
fn gl_backend_new() {
    assert_eq!(GLBackend::new(), GLBackend {});
}

#[test]
fn retain_drops_closing_windows() {
    let mut windows = vec!["a", "b", "c", "d", "e"];
    retain_open(&mut windows, &vec![false, true, true, false, true]);
    assert_eq!(windows, vec!["a", "d"]);
}

#[test]
fn retain_keeps_all_when_none_close() {
    let mut windows = vec![1, 2, 3];
    retain_open(&mut windows, &vec![false, false, false]);
    assert_eq!(windows, vec![1, 2, 3]);
}

#[test]
fn retain_drops_all_when_all_close() {
    let mut windows = vec![1, 2, 3];
    retain_open(&mut windows, &vec![true, true, true]);
    assert!(windows.is_empty());
}

#[test]
fn retain_on_empty_set() {
    let mut windows: Vec<u8> = Vec::new();
    retain_open(&mut windows, &Vec::new());
    assert!(windows.is_empty());
}

#[test]
fn loop_starts_runs_and_ends_once() {
    let mut l = EventLoop::new();
    assert_eq!(l.phase(), Phase::Created);
    assert_eq!(l.next_action(0), LoopAction::FireStart);
    assert_eq!(l.phase(), Phase::Running);
    assert_eq!(l.next_action(2), LoopAction::RunFrame);
    assert_eq!(l.next_action(1), LoopAction::RunFrame);
    assert_eq!(l.next_action(0), LoopAction::FireEnd);
    assert_eq!(l.phase(), Phase::Ended);
    assert_eq!(l.next_action(0), LoopAction::Stop);
    assert_eq!(l.next_action(3), LoopAction::Stop);
}

#[test]
fn loop_without_windows_ends_right_after_start() {
    let mut l = EventLoop::new();
    let mut actions = Vec::new();
    for _ in 0..4 {
        actions.push(l.next_action(0));
    }
    assert_eq!(
        actions,
        vec![LoopAction::FireStart, LoopAction::FireEnd, LoopAction::Stop, LoopAction::Stop]
    );
}

#[test]
fn closing_all_windows_fires_end_exactly_once() {
    let mut l = EventLoop::new();
    let mut windows = vec![10, 20];
    let mut ends = 0;
    let plan = [vec![false, false], vec![true, false], vec![true]];
    let mut frame = 0;
    loop {
        match l.next_action(windows.len()) {
            LoopAction::FireStart => {}
            LoopAction::RunFrame => {
                retain_open(&mut windows, &plan[frame]);
                frame += 1;
            }
            LoopAction::FireEnd => ends += 1,
            LoopAction::Stop => break,
        }
    }
    assert_eq!(frame, 3);
    assert_eq!(ends, 1);
    assert!(windows.is_empty());
}
