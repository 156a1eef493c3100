//! The presence state machine: tracks whether the target process runs and
//! when it started, derives the activity shown by the broker, suppresses
//! redundant publishes, and decides the session lifecycle around the broker
//! connection.

use vstd::prelude::*;

use crate::imhex::{opt_string_view, spec_selected_bytes, get_selected_bytes};
use crate::utils::str_eq;

verus! {

// ---------------------------------------------------------------------------
// Activities
// ---------------------------------------------------------------------------

/// The payload published to the broker, without the start timestamp: the
/// timestamp is deliberately no part of the equality key that suppresses
/// redundant publishes.
#[derive(Debug, PartialEq, Eq)]
pub struct ActivityState {
    pub state: String,
    pub details: String,
}

impl View for ActivityState {
    type V = (Seq<char>, Seq<char>);

    open spec fn view(&self) -> (Seq<char>, Seq<char>) {
        (self.state@, self.details@)
    }
}

/// The text of an optional activity.
pub open spec fn opt_act_view(o: Option<ActivityState>) -> Option<(Seq<char>, Seq<char>)> {
    match o {
        Some(a) => Some(a@),
        None => None,
    }
}

/// The details line shown for an opened file: `Idle` for the bare title's
/// sentinel, an analyzing label otherwise.
pub open spec fn spec_details_of(f: Seq<char>) -> Seq<char> {
    if f == "ImHex"@ {
        "Idle"@
    } else {
        "Analyzing: ["@ + f + "]"@
    }
}

/// The state line shown for an opened file: the byte-range fingerprint, or
/// `None` where no fingerprint is available.
pub open spec fn spec_state_text_of(f: Seq<char>) -> Seq<char> {
    "Bytes: ["@ + (match spec_selected_bytes(f) {
        Some(fp) => fp,
        None => "None"@,
    }) + "]"@
}

/// The activity derived from a tick's window snapshot, as
/// `(state, details)`: an idle activity with empty state text when no window
/// was seen.
pub open spec fn spec_activity_of(file: Option<Seq<char>>) -> (Seq<char>, Seq<char>) {
    match file {
        Some(f) => (spec_state_text_of(f), spec_details_of(f)),
        None => (Seq::empty(), "Idle"@),
    }
}

/// The text of an optional string slice.
pub open spec fn opt_str_view(o: Option<&str>) -> Option<Seq<char>> {
    match o {
        Some(s) => Some(s@),
        None => None,
    }
}

/// Derives the activity for a tick from the opened-file text, if any.
pub fn derive_activity(opened_file: Option<&str>) -> (a: ActivityState)
    ensures
        a@ == spec_activity_of(opt_str_view(opened_file)),
{
    match opened_file {
        Some(f) => {
            let details = if str_eq(f, "ImHex") {
                String::from_str("Idle")
            } else {
                let mut d = String::from_str("Analyzing: [");
                d.append(f);
                d.append("]");
                proof {
                    assert(d@ =~= "Analyzing: ["@ + f@ + "]"@);
                }
                d
            };
            let mut state = String::from_str("Bytes: [");
            match get_selected_bytes(f) {
                Some(fp) => state.append(fp.as_str()),
                None => state.append("None"),
            }
            state.append("]");
            proof {
                assert(state@ =~= spec_state_text_of(f@));
            }
            ActivityState { state, details }
        },
        None => ActivityState { state: String::new(), details: String::from_str("Idle") },
    }
}

// ---------------------------------------------------------------------------
// Publish suppression
// ---------------------------------------------------------------------------

/// A publish owed to the broker: the activity and the epoch seconds from
/// which the broker's client renders the elapsed time.
pub struct ActivityUpdate {
    pub activity: ActivityState,
    pub start_time: Option<i64>,
}

/// The last activity actually handed to the broker on this session; a new
/// publish is owed only when the derived activity differs from it.
pub struct ActivityTracker {
    pub last_activity: Option<ActivityState>,
}

impl ActivityTracker {
    /// A fresh tracker for a newly connected session: nothing published yet.
    pub fn new() -> (r: Self)
        ensures
            r.last_activity is None,
    {
        ActivityTracker { last_activity: None }
    }

    /// Decides whether an activity must be published: only when it differs
    /// from the last published one. Returns the publish owed, if any, and
    /// records it as the last published activity.
    pub fn update_activity(&mut self, state_text: String, details: String, start_time: Option<
        i64,
    >) -> (r: Option<ActivityUpdate>)
        ensures
            ({
                let newv = (state_text@, details@);
                if opt_act_view(old(self).last_activity) == Some(newv) {
                    &&& r is None
                    &&& final(self).last_activity == old(self).last_activity
                } else {
                    &&& match r {
                        Some(u) => u.activity@ == newv && u.start_time == start_time,
                        None => false,
                    }
                    &&& opt_act_view(final(self).last_activity) == Some(newv)
                }
            }),
    {
        let same = match &self.last_activity {
            Some(last) => str_eq(last.state.as_str(), state_text.as_str()) && str_eq(
                last.details.as_str(),
                details.as_str(),
            ),
            None => false,
        };
        if same {
            None
        } else {
            let stored = ActivityState { state: state_text.clone(), details: details.clone() };
            self.last_activity = Some(stored);
            Some(ActivityUpdate { activity: ActivityState { state: state_text, details }, start_time })
        }
    }

    /// Forgets the last published activity; the broker no longer shows one.
    pub fn clear_activity(&mut self)
        ensures
            final(self).last_activity is None,
    {
        self.last_activity = None;
    }
}

// ---------------------------------------------------------------------------
// The tick state machine
// ---------------------------------------------------------------------------

/// Whether the target process was running on the previous tick, and since
/// when.
pub struct AppState {
    pub imhex_running: bool,
    pub start_time: Option<i64>,
}

impl AppState {
    /// While the target runs, the start of the run is known.
    pub open spec fn wf(self) -> bool {
        self.imhex_running ==> self.start_time is Some
    }

    /// A fresh state: the target has not been seen running.
    pub fn new() -> (r: Self)
        ensures
            !r.imhex_running,
            r.start_time is None,
            r.wf(),
    {
        AppState { imhex_running: false, start_time: None }
    }
}

/// What a tick tells the broker to do.
pub enum PresenceAction {
    /// Hand the activity to the broker.
    Publish(ActivityUpdate),
    /// Tell the broker to stop showing any activity.
    ClearActivity,
}

/// The mathematical state a tick acts on.
pub struct TickModel {
    pub imhex_running: bool,
    pub start_time: Option<i64>,
    pub last_activity: Option<(Seq<char>, Seq<char>)>,
}

/// The mathematical image of a tick's action.
pub enum ActionModel {
    Publish { state_text: Seq<char>, details: Seq<char>, start_time: Option<i64> },
    ClearActivity,
}

/// The model of the executable state.
pub open spec fn model_of(s: AppState, t: ActivityTracker) -> TickModel {
    TickModel {
        imhex_running: s.imhex_running,
        start_time: s.start_time,
        last_activity: opt_act_view(t.last_activity),
    }
}

/// The model of a tick's returned action.
pub open spec fn opt_action_view(r: Option<PresenceAction>) -> Option<ActionModel> {
    match r {
        Some(PresenceAction::Publish(u)) => Some(
            ActionModel::Publish {
                state_text: u.activity@.0,
                details: u.activity@.1,
                start_time: u.start_time,
            },
        ),
        Some(PresenceAction::ClearActivity) => Some(ActionModel::ClearActivity),
        None => None,
    }
}

/// One tick of the presence state machine: from the process presence and the
/// window snapshot to the new state and the action owed to the broker.
///
/// While the process runs, the derived activity is published exactly when it
/// differs from the last published one; the first running tick records the
/// start time. The tick of the Running to NotRunning transition clears the
/// broker's activity; later not-running ticks do nothing.
pub open spec fn spec_tick(
    m: TickModel,
    process_running: bool,
    file: Option<Seq<char>>,
    now: i64,
) -> (TickModel, Option<ActionModel>) {
    if process_running {
        let st = if m.imhex_running {
            m.start_time
        } else {
            Some(now)
        };
        let act = spec_activity_of(file);
        let start = if file is Some {
            st
        } else {
            None
        };
        if m.last_activity == Some(act) {
            (TickModel { imhex_running: true, start_time: st, last_activity: m.last_activity }, None)
        } else {
            (
                TickModel { imhex_running: true, start_time: st, last_activity: Some(act) },
                Some(
                    ActionModel::Publish { state_text: act.0, details: act.1, start_time: start },
                ),
            )
        }
    } else {
        if m.imhex_running {
            (
                TickModel { imhex_running: false, start_time: None, last_activity: None },
                Some(ActionModel::ClearActivity),
            )
        } else {
            (m, None)
        }
    }
}

/// Handles a tick on which the target process runs: records the start of the
/// run on the transition, derives the activity, and returns the publish owed,
/// if any.
pub fn handle_imhex_running(
    state: &mut AppState,
    tracker: &mut ActivityTracker,
    opened_file: Option<&str>,
    now: i64,
) -> (r: Option<ActivityUpdate>)
    requires
        old(state).wf(),
    ensures
        final(state).wf(),
        final(state).imhex_running,
        final(state).start_time == if old(state).imhex_running {
            old(state).start_time
        } else {
            Some(now)
        },
        ({
            let act = spec_activity_of(opt_str_view(opened_file));
            let start = if opened_file is Some {
                final(state).start_time
            } else {
                None
            };
            if opt_act_view(old(tracker).last_activity) == Some(act) {
                &&& r is None
                &&& final(tracker).last_activity == old(tracker).last_activity
            } else {
                &&& match r {
                    Some(u) => u.activity@ == act && u.start_time == start,
                    None => false,
                }
                &&& opt_act_view(final(tracker).last_activity) == Some(act)
            }
        }),
{
    if !state.imhex_running {
        state.start_time = Some(now);
        state.imhex_running = true;
    }
    let a = derive_activity(opened_file);
    match opened_file {
        Some(_) => {
            let t = state.start_time.unwrap();
            tracker.update_activity(a.state, a.details, Some(t))
        },
        None => tracker.update_activity(a.state, a.details, None),
    }
}

/// Handles a tick on which the target process does not run: on the first such
/// tick the start time is forgotten and the broker's activity is cleared,
/// once; later ticks do nothing.
pub fn handle_imhex_not_running(state: &mut AppState, tracker: &mut ActivityTracker) -> (cleared:
    bool)
    ensures
        !final(state).imhex_running,
        final(state).wf(),
        cleared == old(state).imhex_running,
        final(state).start_time == if old(state).imhex_running {
            None::<i64>
        } else {
            old(state).start_time
        },
        cleared ==> final(tracker).last_activity is None,
        !cleared ==> final(tracker).last_activity == old(tracker).last_activity,
{
    if state.imhex_running {
        state.imhex_running = false;
        state.start_time = None;
        tracker.clear_activity();
        true
    } else {
        false
    }
}

/// One full tick: dispatches on the process presence and returns the action
/// owed to the broker, exactly as `spec_tick` states it.
pub fn tick(
    state: &mut AppState,
    tracker: &mut ActivityTracker,
    process_running: bool,
    opened_file: Option<&str>,
    now: i64,
) -> (r: Option<PresenceAction>)
    requires
        old(state).wf(),
    ensures
        final(state).wf(),
        (model_of(*final(state), *final(tracker)), opt_action_view(r)) == spec_tick(
            model_of(*old(state), *old(tracker)),
            process_running,
            opt_str_view(opened_file),
            now,
        ),
{
    if process_running {
        match handle_imhex_running(state, tracker, opened_file, now) {
            Some(u) => Some(PresenceAction::Publish(u)),
            None => None,
        }
    } else {
        if handle_imhex_not_running(state, tracker) {
            Some(PresenceAction::ClearActivity)
        } else {
            None
        }
    }
}

// ---------------------------------------------------------------------------
// The main loop's step
// ---------------------------------------------------------------------------

/// What the caller of the main loop must do after a step.
pub enum LoopDirective {
    /// The shutdown flag was set: issue one final clear to the broker and
    /// leave the loop.
    Stop,
    /// Perform the tick's action, if any, sleep one interval, and go on.
    Continue(Option<PresenceAction>),
}

/// One step of the main loop. The shutdown flag is read first: once it is
/// set, no further tick runs; the caller owes the broker exactly one final
/// clear and then exits.
pub fn loop_step(
    state: &mut AppState,
    tracker: &mut ActivityTracker,
    shutdown: bool,
    process_running: bool,
    opened_file: Option<&str>,
    now: i64,
) -> (r: LoopDirective)
    requires
        old(state).wf(),
    ensures
        final(state).wf(),
        shutdown ==> r is Stop && *final(state) == *old(state) && *final(tracker) == *old(
            tracker,
        ),
        !shutdown ==> match r {
            LoopDirective::Continue(a) => (model_of(*final(state), *final(tracker)),
            opt_action_view(a)) == spec_tick(
                model_of(*old(state), *old(tracker)),
                process_running,
                opt_str_view(opened_file),
                now,
            ),
            LoopDirective::Stop => false,
        },
{
    if shutdown {
        LoopDirective::Stop
    } else {
        LoopDirective::Continue(tick(state, tracker, process_running, opened_file, now))
    }
}

// ---------------------------------------------------------------------------
// Laws of the tick machine
// ---------------------------------------------------------------------------

/// Law: two consecutive ticks that derive the same activity publish at most
/// once. The second tick never publishes; the first publishes exactly when
/// the activity was not already the last published one.
pub proof fn lemma_identical_ticks_publish_once(
    m: TickModel,
    file: Option<Seq<char>>,
    now1: i64,
    now2: i64,
)
    ensures
        ({
            let (m1, a1) = spec_tick(m, true, file, now1);
            let (m2, a2) = spec_tick(m1, true, file, now2);
            &&& a2 is None
            &&& m.last_activity != Some(spec_activity_of(file)) ==> a1 == Some(
                ActionModel::Publish {
                    state_text: spec_activity_of(file).0,
                    details: spec_activity_of(file).1,
                    start_time: if file is Some {
                        m1.start_time
                    } else {
                        None
                    },
                },
            )
            &&& m.last_activity == Some(spec_activity_of(file)) ==> a1 is None
        }),
{
}

/// The state and the actions after a sequence of ticks.
pub open spec fn spec_run(m: TickModel, inputs: Seq<(bool, Option<Seq<char>>, i64)>) -> (
    TickModel,
    Seq<Option<ActionModel>>,
)
    decreases inputs.len(),
{
    if inputs.len() == 0 {
        (m, Seq::empty())
    } else {
        let step = spec_tick(m, inputs[0].0, inputs[0].1, inputs[0].2);
        let rest = spec_run(step.0, inputs.drop_first());
        (rest.0, seq![step.1] + rest.1)
    }
}

proof fn lemma_run_stopped_no_actions(m: TickModel, inputs: Seq<(bool, Option<Seq<char>>, i64)>)
    requires
        !m.imhex_running,
        forall|i: int| 0 <= i < inputs.len() ==> !(#[trigger] inputs[i]).0,
    ensures
        spec_run(m, inputs).0 == m,
        spec_run(m, inputs).1.len() == inputs.len(),
        forall|i: int| 0 <= i < inputs.len() ==> spec_run(m, inputs).1[i] is None,
    decreases inputs.len(),
{
    if inputs.len() > 0 {
        lemma_run_stopped_no_actions(m, inputs.drop_first());
        assert forall|i: int| 0 <= i < inputs.len() implies spec_run(m, inputs).1[i] is None by {
            if i > 0 {
                assert(spec_run(m, inputs).1[i] == spec_run(m, inputs.drop_first()).1[i - 1]);
            }
        }
    }
}

/// Law: the Running to NotRunning transition clears the broker's activity
/// exactly once, however many not-running ticks follow: the first tick of any
/// all-not-running run acts with one clear, every later tick with nothing.
pub proof fn lemma_single_clear_across_stopped_ticks(
    m: TickModel,
    inputs: Seq<(bool, Option<Seq<char>>, i64)>,
)
    requires
        m.imhex_running,
        inputs.len() >= 1,
        forall|i: int| 0 <= i < inputs.len() ==> !(#[trigger] inputs[i]).0,
    ensures
        ({
            let (mf, acts) = spec_run(m, inputs);
            &&& acts.len() == inputs.len()
            &&& acts[0] == Some(ActionModel::ClearActivity)
            &&& forall|i: int| 1 <= i < acts.len() ==> acts[i] is None
            &&& !mf.imhex_running
        }),
{
    let step = spec_tick(m, inputs[0].0, inputs[0].1, inputs[0].2);
    assert(forall|i: int|
        0 <= i < inputs.drop_first().len() ==> !(#[trigger] inputs.drop_first()[i]).0);
    lemma_run_stopped_no_actions(step.0, inputs.drop_first());
    let acts = spec_run(m, inputs).1;
    assert forall|i: int| 1 <= i < acts.len() implies acts[i] is None by {
        assert(acts[i] == spec_run(step.0, inputs.drop_first()).1[i - 1]);
    }
}

// ---------------------------------------------------------------------------
// The broker session lifecycle
// ---------------------------------------------------------------------------

/// Whether a live session to the broker exists. At most one session lives at
/// a time; any failure returns it to `Disconnected`.
#[derive(Debug, Clone, Copy, PartialEq, Eq, Structural)]
pub enum SessionState {
    Disconnected,
    Connected,
}

/// What the broker answered to the last session operation.
#[derive(Debug, Clone, Copy, PartialEq, Eq, Structural)]
pub enum SessionEvent {
    ConnectSucceeded,
    ConnectFailed,
    PublishSucceeded,
    PublishFailed,
    ClearSucceeded,
    ClearFailed,
}

/// What the session's owner must do next.
#[derive(Debug, Clone, Copy, PartialEq, Eq, Structural)]
pub enum SessionCommand {
    /// Go on using the session.
    Proceed,
    /// Sleep the fixed reconnect delay, then attempt to connect again.
    RetryAfterDelay,
    /// Drop the session and attempt to connect again at once.
    Teardown,
}

/// The session lifecycle: a failed connection attempt is retried after the
/// fixed delay, indefinitely; a publish or clear failure on a live session
/// tears the session down, and a fresh connection is attempted at once.
/// While disconnected, only connect results occur.
pub open spec fn spec_session_step(s: SessionState, ev: SessionEvent) -> (
    SessionState,
    SessionCommand,
) {
    match (s, ev) {
        (SessionState::Disconnected, SessionEvent::ConnectSucceeded) => (
            SessionState::Connected,
            SessionCommand::Proceed,
        ),
        (SessionState::Disconnected, _) => (
            SessionState::Disconnected,
            SessionCommand::RetryAfterDelay,
        ),
        (SessionState::Connected, SessionEvent::PublishFailed) => (
            SessionState::Disconnected,
            SessionCommand::Teardown,
        ),
        (SessionState::Connected, SessionEvent::ClearFailed) => (
            SessionState::Disconnected,
            SessionCommand::Teardown,
        ),
        (SessionState::Connected, _) => (SessionState::Connected, SessionCommand::Proceed),
    }
}

/// Advances the session lifecycle by one observed event.
pub fn session_step(s: SessionState, ev: SessionEvent) -> (r: (SessionState, SessionCommand))
    ensures
        r == spec_session_step(s, ev),
{
    match (s, ev) {
        (SessionState::Disconnected, SessionEvent::ConnectSucceeded) => (
            SessionState::Connected,
            SessionCommand::Proceed,
        ),
        (SessionState::Disconnected, _) => (
            SessionState::Disconnected,
            SessionCommand::RetryAfterDelay,
        ),
        (SessionState::Connected, SessionEvent::PublishFailed) => (
            SessionState::Disconnected,
            SessionCommand::Teardown,
        ),
        (SessionState::Connected, SessionEvent::ClearFailed) => (
            SessionState::Disconnected,
            SessionCommand::Teardown,
        ),
        (SessionState::Connected, _) => (SessionState::Connected, SessionCommand::Proceed),
    }
}

} // verus!
