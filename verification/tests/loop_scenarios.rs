use logicrpc::state::{LoopState, ProbeSample, PublishCall, compute_status, loop_step, run_session, run_ticks};

fn probe(running: bool, doc: Option<&str>) -> ProbeSample {
    ProbeSample { running, doc: doc.map(|s| s.to_string()) }
}

fn set(s: &str) -> PublishCall {
    PublishCall::SetState(s.to_string())
}

#[test]
fn not_running_from_start_publishes_nothing() {
    let mut st = LoopState::new();
    let calls = run_ticks(&mut st, &vec![probe(false, None)]);
    assert_eq!(calls, Vec::<PublishCall>::new());
}

#[test]
fn same_project_twice_publishes_once_then_change_publishes_again() {
    let mut st = LoopState::new();
    let calls = run_ticks(
        &mut st,
        &vec![probe(true, Some("Foo")), probe(true, Some("Foo")), probe(true, Some("Bar"))],
    );
    assert_eq!(calls, vec![set("Working on Foo"), set("Working on Bar")]);
}

#[test]
fn running_without_document_publishes_browsing() {
    let mut st = LoopState::new();
    let calls = run_ticks(&mut st, &vec![probe(true, None)]);
    assert_eq!(calls, vec![set("Browsing projects")]);
}

#[test]
fn quit_after_project_publishes_set_then_clear() {
    let mut st = LoopState::new();
    let calls = run_ticks(&mut st, &vec![probe(true, Some("Foo")), probe(false, None)]);
    assert_eq!(calls, vec![set("Working on Foo"), PublishCall::ClearState]);
}

#[test]
fn staying_not_running_clears_only_once() {
    let mut st = LoopState::new();
    let calls = run_ticks(
        &mut st,
        &vec![probe(true, Some("Foo")), probe(false, None), probe(false, None), probe(false, None)],
    );
    assert_eq!(calls, vec![set("Working on Foo"), PublishCall::ClearState]);
}

#[test]
fn last_published_status_is_kept_across_a_clear() {
    let mut st = LoopState::new();
    let calls = run_ticks(
        &mut st,
        &vec![probe(true, Some("Foo")), probe(false, None), probe(true, Some("Foo"))],
    );
    // The loop keeps its last published status over a clear, so the same
    // status coming back is still debounced.
    assert_eq!(calls, vec![set("Working on Foo"), PublishCall::ClearState]);
}

#[test]
fn session_ends_with_exactly_one_final_clear() {
    let mut st = LoopState::new();
    let calls = run_session(&mut st, &vec![probe(true, Some("Foo")), probe(true, Some("Foo"))]);
    assert_eq!(calls, vec![set("Working on Foo"), PublishCall::ClearState]);
}

#[test]
fn empty_session_still_issues_the_final_clear() {
    let mut st = LoopState::new();
    let calls = run_session(&mut st, &vec![]);
    assert_eq!(calls, vec![PublishCall::ClearState]);
}

#[test]
fn single_step_reports_the_call_and_updates_memory() {
    let mut st = LoopState::new();
    let call = loop_step(&mut st, &probe(true, Some("Tune")));
    assert_eq!(call, Some(set("Working on Tune")));
    assert!(st.was_running);
    assert_eq!(st.last_state, Some("Working on Tune".to_string()));
    let call = loop_step(&mut st, &probe(true, Some("Tune")));
    assert_eq!(call, None);
}

#[test]
fn status_text_for_document_and_for_none() {
    assert_eq!(compute_status(&Some("My Song".to_string())), "Working on My Song");
    assert_eq!(compute_status(&None), "Browsing projects");
}
