//! The loop's and the lifecycle's guarantees, stated over the specification
//! models and proved once and for all: debounce, edge-triggered clearing,
//! a single polling unit per process, and the final clear on exit.

use vstd::prelude::*;
use crate::state::{
    AppModel, CallModel, LoopModel, ProbeModel, emitted, session_model, start_idle_model,
    status_of, step_model, stop_model, ticks_model,
};

verus! {

/// Steady state under the debounce: while every poll sees the application
/// running with the very status already published, nothing is published,
/// and the remembered status does not move.
pub proof fn lemma_debounce_steady(m: LoopModel, ps: Seq<ProbeModel>, s: Seq<char>)
    requires
        m.last_state == Some(s),
        forall|i: int| 0 <= i < ps.len() ==> (#[trigger] ps[i]).running && status_of(ps[i].doc)
            == s,
    ensures
        ticks_model(m, ps).1 == Seq::<CallModel>::empty(),
        ticks_model(m, ps).0.last_state == Some(s),
    decreases ps.len(),
{
    if ps.len() > 0 {
        let (m1, c) = step_model(m, ps[0]);
        assert(c is None);
        assert(forall|i: int|
            0 <= i < ps.drop_first().len() ==> (#[trigger] ps.drop_first()[i]) == ps[i + 1]);
        lemma_debounce_steady(m1, ps.drop_first(), s);
        assert(emitted(c) + ticks_model(m1, ps.drop_first()).1 =~= Seq::<CallModel>::empty());
    }
}

/// Debounce idempotence: a run of polls that all see the application
/// running and all compute the same status `s`, not yet published, leads
/// to exactly one publish call — the first — never one per poll.
pub proof fn lemma_debounce_idempotent(m: LoopModel, ps: Seq<ProbeModel>, s: Seq<char>)
    requires
        ps.len() >= 1,
        forall|i: int| 0 <= i < ps.len() ==> (#[trigger] ps[i]).running && status_of(ps[i].doc)
            == s,
        m.last_state != Some(s),
    ensures
        ticks_model(m, ps).1 == seq![CallModel::SetState(s)],
{
    let (m1, c) = step_model(m, ps[0]);
    assert(c == Some(CallModel::SetState(s)));
    assert(forall|i: int|
        0 <= i < ps.drop_first().len() ==> (#[trigger] ps.drop_first()[i]) == ps[i + 1]);
    lemma_debounce_steady(m1, ps.drop_first(), s);
    assert(ticks_model(m, ps).1 =~= seq![CallModel::SetState(s)]);
}

/// How many clear calls stand in a publish sequence.
pub open spec fn count_clears(cs: Seq<CallModel>) -> nat
    decreases cs.len(),
{
    if cs.len() == 0 {
        0
    } else {
        (if cs[0] is ClearState {
            1nat
        } else {
            0nat
        }) + count_clears(cs.drop_first())
    }
}

/// How many running-to-not-running transitions a run of polls holds, when
/// the poll before them saw the application running iff `w`.
pub open spec fn count_falling_edges(w: bool, ps: Seq<ProbeModel>) -> nat
    decreases ps.len(),
{
    if ps.len() == 0 {
        0
    } else {
        (if w && !ps[0].running {
            1nat
        } else {
            0nat
        }) + count_falling_edges(ps[0].running, ps.drop_first())
    }
}

/// Edge-triggered clear: over any run of polls, the loop issues exactly one
/// clear call per running-to-not-running transition — never again while the
/// application simply stays not running.
pub proof fn lemma_edge_triggered_clear(m: LoopModel, ps: Seq<ProbeModel>)
    ensures
        count_clears(ticks_model(m, ps).1) == count_falling_edges(m.was_running, ps),
    decreases ps.len(),
{
    if ps.len() > 0 {
        let (m1, c) = step_model(m, ps[0]);
        let rest = ticks_model(m1, ps.drop_first()).1;
        lemma_edge_triggered_clear(m1, ps.drop_first());
        match c {
            Some(call) => {
                assert((seq![call] + rest)[0] == call);
                assert((seq![call] + rest).drop_first() =~= rest);
            },
            None => {
                assert(emitted(c) + rest =~= rest);
            },
        }
    }
}

/// Idempotent start: once a start call has brought the subsystem up, every
/// later start call leaves the slot exactly as it is and brings nothing up,
/// whatever its own connection attempt reported.
pub proof fn lemma_start_idle_idempotent(slot: Option<AppModel>, c1: bool, c2: bool)
    ensures
        ({
            let (s1, sp1) = start_idle_model(slot, c1);
            let (s2, sp2) = start_idle_model(s1, c2);
            sp1 ==> (s2 == s1 && !sp2)
        }),
{
}

/// One call from the owner of the lifecycle slot: a start, with the result
/// of its publisher-connection attempt, or a stop.
pub ghost enum LifecycleEvent {
    Start { connected: bool },
    Stop,
}

/// The slot after one lifecycle call, and whether that call brought a
/// polling unit up.
pub open spec fn apply_event(slot: Option<AppModel>, e: LifecycleEvent) -> (
    Option<AppModel>,
    bool,
) {
    match e {
        LifecycleEvent::Start { connected } => start_idle_model(slot, connected),
        LifecycleEvent::Stop => (stop_model(slot), false),
    }
}

/// How many polling units a sequence of lifecycle calls brings up, starting
/// from `slot`.
pub open spec fn spawn_count(slot: Option<AppModel>, es: Seq<LifecycleEvent>) -> nat
    decreases es.len(),
{
    if es.len() == 0 {
        0
    } else {
        let (s1, sp) = apply_event(slot, es[0]);
        (if sp {
            1nat
        } else {
            0nat
        }) + spawn_count(s1, es.drop_first())
    }
}

/// An occupied slot is never emptied — a stop only clears the running flag —
/// so no later lifecycle call brings another polling unit up.
pub proof fn lemma_occupied_slot_never_spawns(slot: Option<AppModel>, es: Seq<LifecycleEvent>)
    requires
        slot is Some,
    ensures
        spawn_count(slot, es) == 0,
    decreases es.len(),
{
    if es.len() > 0 {
        let (s1, sp) = apply_event(slot, es[0]);
        assert(s1 is Some);
        assert(!sp);
        lemma_occupied_slot_never_spawns(s1, es.drop_first());
    }
}

/// At most one polling unit per process: whatever sequence of start and
/// stop calls the owner makes, in whatever interleaving, at most one
/// background polling unit is ever brought up — so every publish call of
/// the process comes from one unit, and the publish sequence is totally
/// ordered.
pub proof fn lemma_at_most_one_poller(slot: Option<AppModel>, es: Seq<LifecycleEvent>)
    ensures
        spawn_count(slot, es) <= 1,
    decreases es.len(),
{
    if es.len() > 0 {
        let (s1, sp) = apply_event(slot, es[0]);
        if sp {
            lemma_occupied_slot_never_spawns(s1, es.drop_first());
        } else {
            lemma_at_most_one_poller(s1, es.drop_first());
        }
    }
}

/// The loop's exit path: a whole session publishes the per-poll sequence
/// and then exactly one final clear, with nothing after it.
pub proof fn lemma_session_final_clear(m: LoopModel, ps: Seq<ProbeModel>)
    ensures
        ({
            let calls = session_model(m, ps).1;
            &&& calls.len() == ticks_model(m, ps).1.len() + 1
            &&& calls.last() == CallModel::ClearState
            &&& calls.drop_last() == ticks_model(m, ps).1
        }),
{
    let calls = session_model(m, ps).1;
    assert(calls.drop_last() =~= ticks_model(m, ps).1);
}

} // verus!
