//! The presence reconciliation loop and its lifecycle, as a state machine
//! over plain values.
//!
//! Each poll of the target application yields a [`ProbeSample`]; one call to
//! [`loop_step`] decides what, if anything, must go out over the publisher
//! connection, debouncing repeated statuses and clearing the remote state
//! exactly once per running-to-not-running transition. The caller owns the
//! thread, the sleeps and the publisher; it performs whatever [`PublishCall`]
//! a step hands back, serialized behind its own guard.

use vstd::prelude::*;
use vstd::string::StringExecFns;

verus! {

/// One answer from the external application probe: whether the target
/// application is running, and the name of its active document, if any.
#[derive(Debug, Clone, PartialEq, Eq)]
pub struct ProbeSample {
    pub running: bool,
    pub doc: Option<String>,
}

/// What a probe answer looks like in specifications.
pub ghost struct ProbeModel {
    pub running: bool,
    pub doc: Option<Seq<char>>,
}

impl View for ProbeSample {
    type V = ProbeModel;

    open spec fn view(&self) -> ProbeModel {
        ProbeModel { running: self.running, doc: self.doc.deep_view() }
    }
}

impl DeepView for ProbeSample {
    type V = ProbeModel;

    open spec fn deep_view(&self) -> ProbeModel {
        self.view()
    }
}

/// One call the loop asks its caller to make on the publisher connection.
#[derive(Debug, Clone, PartialEq, Eq)]
pub enum PublishCall {
    /// Publish this status text.
    SetState(String),
    /// Clear the published status.
    ClearState,
}

/// What a publisher call looks like in specifications.
pub ghost enum CallModel {
    SetState(Seq<char>),
    ClearState,
}

impl View for PublishCall {
    type V = CallModel;

    open spec fn view(&self) -> CallModel {
        match self {
            PublishCall::SetState(s) => CallModel::SetState(s@),
            PublishCall::ClearState => CallModel::ClearState,
        }
    }
}

impl DeepView for PublishCall {
    type V = CallModel;

    open spec fn deep_view(&self) -> CallModel {
        self.view()
    }
}

/// What the reconciliation loop remembers between polls: whether the last
/// poll saw the target application running, and the last status it asked
/// the caller to publish (`None` until the first publish).
#[derive(Debug, Clone, PartialEq, Eq)]
pub struct LoopState {
    pub was_running: bool,
    pub last_state: Option<String>,
}

/// What the loop's memory looks like in specifications.
pub ghost struct LoopModel {
    pub was_running: bool,
    pub last_state: Option<Seq<char>>,
}

impl View for LoopState {
    type V = LoopModel;

    open spec fn view(&self) -> LoopModel {
        LoopModel { was_running: self.was_running, last_state: self.last_state.deep_view() }
    }
}

impl DeepView for LoopState {
    type V = LoopModel;

    open spec fn deep_view(&self) -> LoopModel {
        self.view()
    }
}

/// The status text computed for one poll that saw the application running:
/// the document's name after a fixed prefix, or the browsing text when no
/// document is open.
pub open spec fn status_of(doc: Option<Seq<char>>) -> Seq<char> {
    match doc {
        Some(name) => "Working on "@ + name,
        None => "Browsing projects"@,
    }
}

/// The loop's memory before any poll has happened.
pub open spec fn initial_model() -> LoopModel {
    LoopModel { was_running: false, last_state: None }
}

/// One step of the reconciliation loop: the new memory and the publisher
/// call, if any, for the probe answer `p` seen in memory `m`.
///
/// Not running: remember that, and clear the remote state only on the edge —
/// only if the previous poll saw the application running. Running: compute
/// the status; publish it only if it differs from the last published one,
/// and then remember it as last published. The last published status is
/// kept across a clear, as the loop keeps no history of the remote side.
pub open spec fn step_model(m: LoopModel, p: ProbeModel) -> (LoopModel, Option<CallModel>) {
    if !p.running {
        let m2 = LoopModel { was_running: false, last_state: m.last_state };
        if m.was_running {
            (m2, Some(CallModel::ClearState))
        } else {
            (m2, None)
        }
    } else {
        let s = status_of(p.doc);
        if m.last_state == Some(s) {
            (LoopModel { was_running: true, last_state: m.last_state }, None)
        } else {
            (LoopModel { was_running: true, last_state: Some(s) }, Some(CallModel::SetState(s)))
        }
    }
}

/// The calls one step emits, as a sequence: empty or a single call.
pub open spec fn emitted(c: Option<CallModel>) -> Seq<CallModel> {
    match c {
        Some(call) => seq![call],
        None => Seq::empty(),
    }
}

/// The loop run over a whole sequence of probe answers: the final memory
/// and every publisher call, in the order the steps emit them.
pub open spec fn ticks_model(m: LoopModel, ps: Seq<ProbeModel>) -> (LoopModel, Seq<CallModel>)
    decreases ps.len(),
{
    if ps.len() == 0 {
        (m, Seq::empty())
    } else {
        let (m1, c) = step_model(m, ps[0]);
        let (m2, rest) = ticks_model(m1, ps.drop_first());
        (m2, emitted(c) + rest)
    }
}

/// A whole session: the loop run over `ps`, then the one unconditional
/// clear issued when the loop exits.
pub open spec fn session_model(m: LoopModel, ps: Seq<ProbeModel>) -> (LoopModel, Seq<CallModel>) {
    let (m2, calls) = ticks_model(m, ps);
    (m2, calls.push(CallModel::ClearState))
}

impl LoopState {
    /// The loop's memory before any poll has happened.
    pub fn new() -> (s: Self)
        ensures
            s@ == initial_model(),
    {
        LoopState { was_running: false, last_state: None }
    }
}

/// The status text for one poll that saw the application running.
pub fn compute_status(doc: &Option<String>) -> (status: String)
    ensures
        status@ == status_of(doc.deep_view()),
{
    match doc {
        Some(name) => String::from_str("Working on ").concat(name.as_str()),
        None => String::from_str("Browsing projects"),
    }
}

/// One iteration of the reconciliation loop: updates the memory for the
/// probe answer `probe` and returns the publisher call to make, if any,
/// exactly as [`step_model`] says.
pub fn loop_step(st: &mut LoopState, probe: &ProbeSample) -> (call: Option<PublishCall>)
    ensures
        final(st)@ == step_model(old(st)@, probe@).0,
        call.deep_view() == step_model(old(st)@, probe@).1,
{
    if !probe.running {
        let was = st.was_running;
        st.was_running = false;
        if was {
            Some(PublishCall::ClearState)
        } else {
            None
        }
    } else {
        st.was_running = true;
        let status = compute_status(&probe.doc);
        let same = match &st.last_state {
            Some(last) => *last == status,
            None => false,
        };
        if same {
            None
        } else {
            st.last_state = Some(status.clone());
            Some(PublishCall::SetState(status))
        }
    }
}

proof fn lemma_ticks_model_push(m: LoopModel, ps: Seq<ProbeModel>, p: ProbeModel)
    ensures
        ({
            let (m1, calls) = ticks_model(m, ps);
            let (m2, c) = step_model(m1, p);
            ticks_model(m, ps.push(p)) == (m2, calls + emitted(c))
        }),
    decreases ps.len(),
{
    reveal_with_fuel(ticks_model, 2);
    let (m1, calls) = ticks_model(m, ps);
    let (m2, c) = step_model(m1, p);
    if ps.len() == 0 {
        assert(ps.push(p)[0] == p);
        assert(ps.push(p).drop_first() =~= Seq::<ProbeModel>::empty());
        assert(ticks_model(m, ps.push(p)).0 == m2);
        assert(ticks_model(m, ps.push(p)).1 =~= calls + emitted(c));
    } else {
        assert(ps.push(p)[0] == ps[0]);
        assert(ps.push(p).drop_first() =~= ps.drop_first().push(p));
        let (ma, ca) = step_model(m, ps[0]);
        lemma_ticks_model_push(ma, ps.drop_first(), p);
        assert(ticks_model(m, ps.push(p)).0 == m2);
        assert(ticks_model(m, ps.push(p)).1 =~= calls + emitted(c));
    }
    assert(ticks_model(m, ps.push(p)) == (m2, calls + emitted(c)));
}

/// Runs the loop body once per probe answer in `probes` and collects every
/// publisher call the steps emit, in order, exactly as [`ticks_model`] says.
pub fn run_ticks(st: &mut LoopState, probes: &Vec<ProbeSample>) -> (calls: Vec<PublishCall>)
    ensures
        final(st)@ == ticks_model(old(st)@, probes.deep_view()).0,
        calls.deep_view() == ticks_model(old(st)@, probes.deep_view()).1,
{
    let mut calls: Vec<PublishCall> = Vec::new();
    let ghost all = probes.deep_view();
    let mut i: usize = 0;
    while i < probes.len()
        invariant
            all == probes.deep_view(),
            i <= probes.len(),
            st@ == ticks_model(old(st)@, all.take(i as int)).0,
            calls.deep_view() == ticks_model(old(st)@, all.take(i as int)).1,
        decreases probes.len() - i,
    {
        proof {
            assert(all.take(i as int + 1) =~= all.take(i as int).push(all[i as int]));
            lemma_ticks_model_push(old(st)@, all.take(i as int), all[i as int]);
        }
        let call = loop_step(st, &probes[i]);
        match call {
            Some(c) => {
                calls.push(c);
            },
            None => {},
        }
        proof {
            let (m1, cs) = ticks_model(old(st)@, all.take(i as int));
            let (_, c) = step_model(m1, all[i as int]);
            assert(calls.deep_view() =~= cs + emitted(c));
        }
        i += 1;
    }
    proof {
        assert(all.take(probes.len() as int) =~= all);
    }
    calls
}

/// Runs a whole session over `probes`: every loop iteration, then the one
/// unconditional clear the loop issues on its way out.
pub fn run_session(st: &mut LoopState, probes: &Vec<ProbeSample>) -> (calls: Vec<PublishCall>)
    ensures
        final(st)@ == session_model(old(st)@, probes.deep_view()).0,
        calls.deep_view() == session_model(old(st)@, probes.deep_view()).1,
{
    let mut calls = run_ticks(st, probes);
    calls.push(PublishCall::ClearState);
    proof {
        assert(calls.deep_view() =~= session_model(old(st)@, probes.deep_view()).1);
    }
    calls
}

/// The reconciliation subsystem as its owner sees it: whether the polling
/// unit should keep going, whether it has been brought up, and the loop's
/// memory. The publisher connection, the thread itself and the guards
/// around this value belong to the caller.
#[derive(Debug, Clone, PartialEq, Eq)]
pub struct AppState {
    /// The cooperative cancellation flag the polling unit reads at the top
    /// of each iteration.
    pub running: bool,
    /// Whether the single background polling unit has been brought up.
    pub poller_spawned: bool,
    /// The loop's memory between polls.
    pub loop_state: LoopState,
}

/// What the subsystem's state looks like in specifications.
pub ghost struct AppModel {
    pub running: bool,
    pub poller_spawned: bool,
    pub loop_state: LoopModel,
}

impl View for AppState {
    type V = AppModel;

    open spec fn view(&self) -> AppModel {
        AppModel {
            running: self.running,
            poller_spawned: self.poller_spawned,
            loop_state: self.loop_state@,
        }
    }
}

impl DeepView for AppState {
    type V = AppModel;

    open spec fn deep_view(&self) -> AppModel {
        self.view()
    }
}

/// A freshly constructed subsystem: told to run, loop memory blank, its
/// polling unit not yet brought up.
pub open spec fn fresh_app_model() -> AppModel {
    AppModel { running: true, poller_spawned: false, loop_state: initial_model() }
}

/// What `start_idle` does to the singleton slot: an occupied slot is left
/// alone; an empty one is filled with a fresh, spawned subsystem — but only
/// if the publisher connected. The second component says whether a polling
/// unit must be brought up: true exactly when the slot goes from empty to
/// occupied.
pub open spec fn start_idle_model(slot: Option<AppModel>, connected: bool) -> (
    Option<AppModel>,
    bool,
) {
    match slot {
        Some(_) => (slot, false),
        None => if connected {
            (
                Some(
                    AppModel {
                        running: true,
                        poller_spawned: true,
                        loop_state: initial_model(),
                    },
                ),
                true,
            )
        } else {
            (None, false)
        },
    }
}

/// What `stop` does to the singleton slot: clears the running flag of the
/// subsystem if one exists, and otherwise does nothing. The slot itself is
/// never emptied, so a later `start_idle` can never bring up a second
/// polling unit.
pub open spec fn stop_model(slot: Option<AppModel>) -> Option<AppModel> {
    match slot {
        Some(m) => Some(
            AppModel {
                running: false,
                poller_spawned: m.poller_spawned,
                loop_state: m.loop_state,
            },
        ),
        None => None,
    }
}

impl AppState {
    /// A freshly constructed subsystem, before its polling unit exists.
    /// The caller constructs this only once its publisher has connected.
    pub fn new() -> (s: Self)
        ensures
            s@ == fresh_app_model(),
    {
        AppState { running: true, poller_spawned: false, loop_state: LoopState::new() }
    }

    /// Records that the single background polling unit is up. Returns
    /// whether the caller must bring one up now: true only the first time,
    /// so at most one polling unit ever exists for this subsystem.
    pub fn start_logic_thread(&mut self) -> (spawn: bool)
        ensures
            final(self)@ == (AppModel {
                poller_spawned: true,
                running: old(self)@.running,
                loop_state: old(self)@.loop_state,
            }),
            spawn == !old(self).poller_spawned,
    {
        let already = self.poller_spawned;
        self.poller_spawned = true;
        !already
    }

    /// Asks the polling unit to exit: clears the running flag and nothing
    /// else. The unit observes the flag at the top of its next iteration,
    /// issues its final clear, and terminates; nobody waits for it.
    pub fn stop(&mut self)
        ensures
            final(self)@ == (AppModel {
                running: false,
                poller_spawned: old(self)@.poller_spawned,
                loop_state: old(self)@.loop_state,
            }),
    {
        self.running = false;
    }
}

/// Starts the reconciliation subsystem if it is not already started, as
/// [`start_idle_model`] says: a second call finds the slot occupied and
/// changes nothing. `connected` reports whether the publisher connection
/// came up; without it the subsystem stays down and presence reporting is
/// simply absent. Returns whether the caller must bring up the background
/// polling unit.
pub fn start_idle(slot: &mut Option<AppState>, connected: bool) -> (spawn: bool)
    ensures
        (final(slot).deep_view(), spawn) == start_idle_model(old(slot).deep_view(), connected),
{
    match slot {
        Some(_) => false,
        None => {
            if connected {
                let mut app = AppState::new();
                let spawn = app.start_logic_thread();
                *slot = Some(app);
                spawn
            } else {
                false
            }
        },
    }
}

/// Asks the running subsystem, if any, to stop, as [`stop_model`] says:
/// with an empty slot this is a no-op.
pub fn stop(slot: &mut Option<AppState>)
    ensures
        final(slot).deep_view() == stop_model(old(slot).deep_view()),
{
    match slot {
        Some(app) => {
            app.stop();
        },
        None => {},
    }
}

} // verus!
