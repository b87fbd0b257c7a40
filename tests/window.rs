use desktop_todolist::storage::WindowConfig;
use desktop_todolist::window::{
    is_position_valid_on_monitor, live_window_config, pinned_config, restored_position,
    validate_position, DebounceAction, DebounceEvent, DebouncePhase, Debouncer, MonitorGeometry,
    QUIESCENCE_MS,
};

fn monitor(x: i32, y: i32, w: u32, h: u32) -> MonitorGeometry {
    MonitorGeometry { position: (x, y), size: (w, h) }
}

#[test]
fn window_on_primary_monitor_is_valid() {
    assert!(validate_position(0, 0, 320, 400, &vec![monitor(0, 0, 1920, 1080)]));
    assert!(!validate_position(0, 0, 320, 400, &vec![monitor(3000, 3000, 1920, 1080)]));
}

#[test]
fn overlap_is_half_open() {
    assert!(!is_position_valid_on_monitor(1920, 0, 320, 400, (0, 0), (1920, 1080)));
    assert!(is_position_valid_on_monitor(1919, 0, 320, 400, (0, 0), (1920, 1080)));
    assert!(!is_position_valid_on_monitor(-320, 0, 320, 400, (0, 0), (1920, 1080)));
    assert!(is_position_valid_on_monitor(-319, -399, 320, 400, (0, 0), (1920, 1080)));
    assert!(is_position_valid_on_monitor(i32::MAX, 0, 320, 400, (i32::MAX - 1, 0), (u32::MAX, 1080)));
}

#[test]
fn any_monitor_may_hold_the_window() {
    let ms = vec![monitor(3000, 3000, 100, 100), monitor(-1920, 0, 1920, 1080)];
    assert!(validate_position(-500, 10, 320, 400, &ms));
    assert!(!validate_position(500, 10, 320, 400, &ms));
}

#[test]
fn no_monitor_falls_back_to_coarse_bound() {
    assert!(validate_position(32767, -32768, 320, 400, &Vec::new()));
    assert!(!validate_position(32768, 0, 320, 400, &Vec::new()));
    assert!(!validate_position(0, -32769, 320, 400, &Vec::new()));
}

#[test]
fn restored_position_respects_validation() {
    let c = WindowConfig { x: 5000, y: 5000, always_on_top: true };
    assert_eq!(restored_position(&c, &vec![monitor(0, 0, 1920, 1080)]), None);
    assert_eq!(restored_position(&c, &Vec::new()), Some((5000, 5000)));
}

#[test]
fn pinning_prefers_live_then_stored_then_default() {
    let stored = WindowConfig { x: 1, y: 2, always_on_top: true };
    assert_eq!(pinned_config(false, Some((7, 8)), Some(stored)), WindowConfig { x: 7, y: 8, always_on_top: false });
    assert_eq!(pinned_config(false, None, Some(stored)), WindowConfig { x: 1, y: 2, always_on_top: false });
    assert_eq!(pinned_config(true, None, None), WindowConfig { x: 100, y: 100, always_on_top: true });
}

#[test]
fn live_config_falls_back_per_field() {
    assert_eq!(live_window_config(Some((3, 4)), Some(false)), WindowConfig { x: 3, y: 4, always_on_top: false });
    assert_eq!(live_window_config(None, None), WindowConfig { x: 100, y: 100, always_on_top: true });
}

/// Drives a debouncer over move notifications at the given times (in ms),
/// as the worker would, and returns the times of the writes.
fn simulate_writes(moves: &[u64]) -> Vec<u64> {
    let mut d = Debouncer::new(QUIESCENCE_MS);
    let mut writes = Vec::new();
    let mut next = 0;
    let mut now = 0;
    let mut action = DebounceAction::AwaitEvent;
    while action != DebounceAction::Stop {
        action = match action {
            DebounceAction::Sleep(ms) => {
                let end = now + ms;
                let mut moved = false;
                while next < moves.len() && moves[next] <= end {
                    moved = true;
                    next += 1;
                }
                now = end;
                d.step(DebounceEvent::QuietWindowEnded { moved_meanwhile: moved })
            }
            DebounceAction::WriteCurrent | DebounceAction::AwaitEvent => {
                if let DebounceAction::WriteCurrent = action {
                    writes.push(now);
                }
                if next < moves.len() {
                    now = moves[next];
                    next += 1;
                    d.step(DebounceEvent::Moved)
                } else {
                    d.step(DebounceEvent::Closed)
                }
            }
            DebounceAction::Stop => DebounceAction::Stop,
        };
    }
    assert_eq!(d.phase, DebouncePhase::Stopped);
    writes
}

#[test]
fn burst_of_moves_gives_one_trailing_write() {
    let writes = simulate_writes(&[0, 100, 150]);
    assert_eq!(writes.len(), 1);
    assert!(writes[0] >= 150 + 450);
    assert_eq!(writes, vec![600]);
}

#[test]
fn separate_bursts_give_separate_writes() {
    assert_eq!(simulate_writes(&[0, 1000]), vec![300, 1300]);
    assert!(simulate_writes(&[]).is_empty());
}

#[test]
fn debounce_transitions() {
    let mut d = Debouncer::new(300);
    assert_eq!(d.step(DebounceEvent::QuietWindowEnded { moved_meanwhile: true }), DebounceAction::AwaitEvent);
    assert_eq!(d.step(DebounceEvent::Moved), DebounceAction::Sleep(300));
    assert_eq!(d.phase, DebouncePhase::Settling);
    assert_eq!(d.step(DebounceEvent::QuietWindowEnded { moved_meanwhile: true }), DebounceAction::Sleep(300));
    assert_eq!(d.step(DebounceEvent::QuietWindowEnded { moved_meanwhile: false }), DebounceAction::WriteCurrent);
    assert_eq!(d.phase, DebouncePhase::Idle);
    assert_eq!(d.step(DebounceEvent::Moved), DebounceAction::Sleep(300));
    assert_eq!(d.step(DebounceEvent::Closed), DebounceAction::WriteCurrent);
    assert_eq!(d.step(DebounceEvent::Moved), DebounceAction::Stop);
    assert_eq!(d.quiet_ms, 300);
}
