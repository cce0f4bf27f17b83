use logicrpc::state::{AppState, start_idle, stop};

#[test]
fn first_start_brings_the_poller_up() {
    let mut slot: Option<AppState> = None;
    let spawn = start_idle(&mut slot, true);
    assert!(spawn);
    let app = slot.as_ref().unwrap();
    assert!(app.running);
    assert!(app.poller_spawned);
    assert!(!app.loop_state.was_running);
    assert_eq!(app.loop_state.last_state, None);
}

#[test]
fn second_start_is_a_no_op() {
    let mut slot: Option<AppState> = None;
    assert!(start_idle(&mut slot, true));
    let before = slot.clone();
    let spawn = start_idle(&mut slot, true);
    assert!(!spawn);
    assert_eq!(slot, before);
}

#[test]
fn start_without_connection_leaves_the_subsystem_down() {
    let mut slot: Option<AppState> = None;
    let spawn = start_idle(&mut slot, false);
    assert!(!spawn);
    assert_eq!(slot, None);
}

#[test]
fn stop_clears_the_running_flag_only() {
    let mut slot: Option<AppState> = None;
    start_idle(&mut slot, true);
    stop(&mut slot);
    let app = slot.as_ref().unwrap();
    assert!(!app.running);
    assert!(app.poller_spawned);
}

#[test]
fn stop_without_a_subsystem_is_a_no_op() {
    let mut slot: Option<AppState> = None;
    stop(&mut slot);
    assert_eq!(slot, None);
}

#[test]
fn start_after_stop_does_not_spawn_a_second_poller() {
    let mut slot: Option<AppState> = None;
    assert!(start_idle(&mut slot, true));
    stop(&mut slot);
    let spawn = start_idle(&mut slot, true);
    assert!(!spawn);
    // The slot is never emptied, so the stopped subsystem stays as it is.
    assert!(!slot.as_ref().unwrap().running);
}
