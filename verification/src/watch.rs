//! The supervision of the watch: subscribe, reconcile each node that comes,
//! and on the end of the stream wait and subscribe again.

use crate::config::{TaintConfig, TaintConfigView};
use crate::controller::{decisions_for, reconcile_node, DecisionView, TaintDecision, decision_views};
use crate::node::{NodeSnapshot, NodeView, PatchDocument, PatchView};
use vstd::prelude::*;

verus! {

/// Seconds between the end of one subscription and the start of the next.
pub const RESTART_DELAY_SECONDS: u64 = 10;

/// The name under which every update is applied, so that the controller
/// never conflicts with what it wrote itself.
pub const FIELD_MANAGER: &'static str = "taint-controller";

/// How much a log event matters.
#[derive(Debug, Clone, Copy, PartialEq, Eq, Structural)]
pub enum LogLevel {
    Debug,
    Info,
    Error,
}

/// What the controller reports of its work.
#[derive(Debug, Clone, PartialEq)]
pub enum LogEvent {
    /// A subscription is about to be opened.
    WatchStarting,
    /// The stream of node events broke off with this error.
    StreamFailed(String),
    /// The stream of node events is over; a new one follows after the delay.
    WatchRestarting,
    /// A rule matched a node whose event held no spec.
    NoSpec,
    /// A rule matched a node that carries the rule's taint already.
    TaintPresent,
    /// An update was accepted.
    TaintAdded,
    /// An update was refused with this error.
    PatchFailed(String),
}

/// The mathematical content of a [`LogEvent`].
pub enum LogEventView {
    WatchStarting,
    StreamFailed(Seq<char>),
    WatchRestarting,
    NoSpec,
    TaintPresent,
    TaintAdded,
    PatchFailed(Seq<char>),
}

impl LogEventView {
    /// Lifecycle and accepted updates are information, failures are errors,
    /// decisions to do nothing are for debugging.
    pub open spec fn level(self) -> LogLevel {
        match self {
            LogEventView::WatchStarting => LogLevel::Info,
            LogEventView::StreamFailed(_) => LogLevel::Error,
            LogEventView::WatchRestarting => LogLevel::Info,
            LogEventView::NoSpec => LogLevel::Debug,
            LogEventView::TaintPresent => LogLevel::Debug,
            LogEventView::TaintAdded => LogLevel::Info,
            LogEventView::PatchFailed(_) => LogLevel::Error,
        }
    }

    /// The line written for the event.
    pub open spec fn text(self) -> Seq<char> {
        match self {
            LogEventView::WatchStarting => "starting watching nodes"@,
            LogEventView::StreamFailed(error) => "stream terminated with: "@ + error,
            LogEventView::WatchRestarting => "watcher stream terminated, restarting in 10 seconds"@,
            LogEventView::NoSpec => "no spec"@,
            LogEventView::TaintPresent => "taint already present"@,
            LogEventView::TaintAdded => "taint added"@,
            LogEventView::PatchFailed(error) => "error processing event: "@ + error,
        }
    }
}

impl View for LogEvent {
    type V = LogEventView;

    open spec fn view(&self) -> LogEventView {
        match self {
            LogEvent::WatchStarting => LogEventView::WatchStarting,
            LogEvent::StreamFailed(error) => LogEventView::StreamFailed(error@),
            LogEvent::WatchRestarting => LogEventView::WatchRestarting,
            LogEvent::NoSpec => LogEventView::NoSpec,
            LogEvent::TaintPresent => LogEventView::TaintPresent,
            LogEvent::TaintAdded => LogEventView::TaintAdded,
            LogEvent::PatchFailed(error) => LogEventView::PatchFailed(error@),
        }
    }
}

impl LogEvent {
    /// The level at which the event is logged.
    pub fn level(&self) -> (level: LogLevel)
        ensures
            level == self@.level(),
    {
        match self {
            LogEvent::WatchStarting => LogLevel::Info,
            LogEvent::StreamFailed(_) => LogLevel::Error,
            LogEvent::WatchRestarting => LogLevel::Info,
            LogEvent::NoSpec => LogLevel::Debug,
            LogEvent::TaintPresent => LogLevel::Debug,
            LogEvent::TaintAdded => LogLevel::Info,
            LogEvent::PatchFailed(_) => LogLevel::Error,
        }
    }

    /// The line written for the event.
    pub fn message(&self) -> (text: String)
        ensures
            text@ == self@.text(),
    {
        match self {
            LogEvent::WatchStarting => "starting watching nodes".to_owned(),
            LogEvent::StreamFailed(error) => "stream terminated with: ".to_owned().concat(
                error.as_str(),
            ),
            LogEvent::WatchRestarting => "watcher stream terminated, restarting in 10 seconds"
                .to_owned(),
            LogEvent::NoSpec => "no spec".to_owned(),
            LogEvent::TaintPresent => "taint already present".to_owned(),
            LogEvent::TaintAdded => "taint added".to_owned(),
            LogEvent::PatchFailed(error) => "error processing event: ".to_owned().concat(
                error.as_str(),
            ),
        }
    }
}

/// Where the watch stands.
#[derive(Debug, Clone, Copy, PartialEq, Eq, Structural)]
pub enum WatchState {
    /// A subscription is open and node events are read from it.
    Subscribed,
    /// The last subscription is given up and the delay is running.
    BackingOff,
}

/// What happened outside since the last step. While the watch is
/// `Subscribed` this is the next item of the stream; while it is
/// `BackingOff` it is the end of the delay.
#[derive(Debug, Clone)]
pub enum WatchEvent {
    /// The stream delivered a node that was created or updated.
    Applied(NodeSnapshot),
    /// The stream delivered an error.
    StreamFailed(String),
    /// The stream came to its end.
    StreamEnded,
    /// The delay is over.
    DelayElapsed,
}

/// The mathematical content of a [`WatchEvent`].
pub enum WatchEventView {
    Applied(NodeView),
    StreamFailed(Seq<char>),
    StreamEnded,
    DelayElapsed,
}

impl View for WatchEvent {
    type V = WatchEventView;

    open spec fn view(&self) -> WatchEventView {
        match self {
            WatchEvent::Applied(node) => WatchEventView::Applied(node@),
            WatchEvent::StreamFailed(error) => WatchEventView::StreamFailed(error@),
            WatchEvent::StreamEnded => WatchEventView::StreamEnded,
            WatchEvent::DelayElapsed => WatchEventView::DelayElapsed,
        }
    }
}

/// What is to be done outside. The actions of one step are carried out in
/// the order given, all of them, before the next event is reported.
#[derive(Debug, Clone, PartialEq)]
pub enum WatchAction {
    /// Write this event to the log.
    Log(LogEvent),
    /// Open a fresh subscription to node events, in place of the last one.
    Subscribe,
    /// Apply this update to the node it names, as the writer called
    /// `field_manager`, and log what [`patch_outcome`] makes of the answer.
    Apply { patch: PatchDocument, field_manager: String },
    /// Wait this many seconds.
    Wait(u64),
}

/// The mathematical content of a [`WatchAction`].
pub enum WatchActionView {
    Log(LogEventView),
    Subscribe,
    Apply { patch: PatchView, field_manager: Seq<char> },
    Wait(u64),
}

impl View for WatchAction {
    type V = WatchActionView;

    open spec fn view(&self) -> WatchActionView {
        match self {
            WatchAction::Log(event) => WatchActionView::Log(event@),
            WatchAction::Subscribe => WatchActionView::Subscribe,
            WatchAction::Apply { patch, field_manager } => WatchActionView::Apply {
                patch: patch@,
                field_manager: field_manager@,
            },
            WatchAction::Wait(seconds) => WatchActionView::Wait(*seconds),
        }
    }
}

/// What a list of actions holds, entry by entry.
pub open spec fn action_views(actions: Seq<WatchAction>) -> Seq<WatchActionView> {
    actions.map_values(|action: WatchAction| action@)
}

/// The action that carries out a decision: an update is applied, always
/// under the name [`FIELD_MANAGER`], and a decision to do nothing is logged.
pub open spec fn decision_action(decision: DecisionView) -> WatchActionView {
    match decision {
        DecisionView::NoSpec => WatchActionView::Log(LogEventView::NoSpec),
        DecisionView::AlreadyPresent => WatchActionView::Log(LogEventView::TaintPresent),
        DecisionView::Patch(patch) => WatchActionView::Apply {
            patch,
            field_manager: FIELD_MANAGER@,
        },
    }
}

/// The actions that carry out a list of decisions, one for one and in order.
pub open spec fn planned_actions(decisions: Seq<DecisionView>) -> Seq<WatchActionView> {
    decisions.map_values(|decision: DecisionView| decision_action(decision))
}

/// The actions with which a watch begins, and with which it begins again.
pub open spec fn subscribe_actions() -> Seq<WatchActionView> {
    seq![WatchActionView::Log(LogEventView::WatchStarting), WatchActionView::Subscribe]
}

/// The actions with which a subscription is given up.
pub open spec fn back_off_actions() -> Seq<WatchActionView> {
    seq![
        WatchActionView::Log(LogEventView::WatchRestarting),
        WatchActionView::Wait(RESTART_DELAY_SECONDS),
    ]
}

/// The state after `event` has come in `state`. The end of the stream, with
/// an error or without, leads from `Subscribed` to `BackingOff`; the end of
/// the delay leads back. Nothing else changes the state.
pub open spec fn next_state(state: WatchState, event: WatchEventView) -> WatchState {
    match (state, event) {
        (WatchState::Subscribed, WatchEventView::StreamFailed(_)) => WatchState::BackingOff,
        (WatchState::Subscribed, WatchEventView::StreamEnded) => WatchState::BackingOff,
        (WatchState::BackingOff, WatchEventView::DelayElapsed) => WatchState::Subscribed,
        _ => state,
    }
}

/// The actions that `event` calls for in `state`. An event that does not
/// belong to the state calls for none.
pub open spec fn actions_on(
    config: TaintConfigView,
    state: WatchState,
    event: WatchEventView,
) -> Seq<WatchActionView> {
    match (state, event) {
        (WatchState::Subscribed, WatchEventView::Applied(node)) => planned_actions(
            decisions_for(node, config.label_taints),
        ),
        (WatchState::Subscribed, WatchEventView::StreamFailed(error)) => seq![
            WatchActionView::Log(LogEventView::StreamFailed(error)),
        ] + back_off_actions(),
        (WatchState::Subscribed, WatchEventView::StreamEnded) => back_off_actions(),
        (WatchState::BackingOff, WatchEventView::DelayElapsed) => subscribe_actions(),
        _ => Seq::empty(),
    }
}

/// Begins the watch: the state is `Subscribed`, and a subscription is to be
/// opened.
pub fn watch_start() -> (start: (WatchState, Vec<WatchAction>))
    ensures
        start.0 == WatchState::Subscribed,
        action_views(start.1@) == subscribe_actions(),
{
    let mut actions: Vec<WatchAction> = Vec::new();
    actions.push(WatchAction::Log(LogEvent::WatchStarting));
    actions.push(WatchAction::Subscribe);
    (WatchState::Subscribed, actions)
}

/// Appends the actions with which a subscription is given up.
fn push_back_off(actions: &mut Vec<WatchAction>)
    ensures
        action_views(final(actions)@) == action_views(old(actions)@) + back_off_actions(),
{
    actions.push(WatchAction::Log(LogEvent::WatchRestarting));
    actions.push(WatchAction::Wait(RESTART_DELAY_SECONDS));
}

/// The actions that carry out the decisions, one for one and in order.
fn decisions_to_actions(decisions: Vec<TaintDecision>) -> (actions: Vec<WatchAction>)
    ensures
        action_views(actions@) == planned_actions(decision_views(decisions@)),
{
    let ghost all = decisions@;
    let mut actions: Vec<WatchAction> = Vec::new();
    for decision in it: decisions
        invariant
            it.seq() == all,
            action_views(actions@) == planned_actions(decision_views(all.take(it.index() as int))),
    {
        let ghost done = all.take(it.index() as int);
        let ghost before = action_views(actions@);
        let action = match decision {
            TaintDecision::NoSpec => WatchAction::Log(LogEvent::NoSpec),
            TaintDecision::AlreadyPresent => WatchAction::Log(LogEvent::TaintPresent),
            TaintDecision::Patch(patch) => WatchAction::Apply {
                patch,
                field_manager: FIELD_MANAGER.to_owned(),
            },
        };
        actions.push(action);
        proof {
            assert(action_views(actions@) =~= before.push(decision_action(decision@)));
            assert(planned_actions(decision_views(done).push(decision@)) =~= planned_actions(
                decision_views(done),
            ).push(decision_action(decision@)));
        }
    }
    actions
}

/// What is logged of an update once the control plane has answered: that the
/// taint was added, or the error with which the update was refused. A refusal
/// is reported and nothing more: the actions and the nodes that follow are
/// dealt with as if it had not happened.
pub fn patch_outcome(answer: Result<(), String>) -> (event: LogEvent)
    ensures
        event@ == match answer {
            Ok(_) => LogEventView::TaintAdded,
            Err(error) => LogEventView::PatchFailed(error@),
        },
{
    match answer {
        Ok(_) => LogEvent::TaintAdded,
        Err(error) => LogEvent::PatchFailed(error),
    }
}

/// Takes one step of the watch: given where it stands and what happened,
/// says where it stands next and what is to be done.
///
/// While subscribed, a node is held against every rule, and each matching
/// rule's decision becomes an action: the rules are not cut short by one
/// another. The end of the stream is logged with its error, if it had one,
/// and is followed by the delay. While the delay runs, only its end counts:
/// it is followed by a fresh subscription, as often as the stream ends.
pub fn watch_step(config: &TaintConfig, state: WatchState, event: WatchEvent) -> (step: (
    WatchState,
    Vec<WatchAction>,
))
    ensures
        step.0 == next_state(state, event@),
        action_views(step.1@) == actions_on(config@, state, event@),
{
    match (state, event) {
        (WatchState::Subscribed, WatchEvent::Applied(node)) => {
            let decisions = reconcile_node(&node, config);
            (WatchState::Subscribed, decisions_to_actions(decisions))
        },
        (WatchState::Subscribed, WatchEvent::StreamFailed(error)) => {
            let mut actions: Vec<WatchAction> = Vec::new();
            actions.push(WatchAction::Log(LogEvent::StreamFailed(error)));
            push_back_off(&mut actions);
            (WatchState::BackingOff, actions)
        },
        (WatchState::Subscribed, WatchEvent::StreamEnded) => {
            let mut actions: Vec<WatchAction> = Vec::new();
            push_back_off(&mut actions);
            (WatchState::BackingOff, actions)
        },
        (WatchState::BackingOff, WatchEvent::DelayElapsed) => watch_start(),
        (state, _) => (state, Vec::new()),
    }
}

/// Whatever error breaks the stream off, the watch logs it, says that it
/// starts over, and waits the delay; when the delay is over it opens a fresh
/// subscription and stands where it stood before. Nothing counts the rounds:
/// the same holds after any number of them.
pub proof fn lemma_watch_restarts(config: TaintConfigView, error: Seq<char>)
    ensures
        next_state(WatchState::Subscribed, WatchEventView::StreamFailed(error))
            == WatchState::BackingOff,
        actions_on(config, WatchState::Subscribed, WatchEventView::StreamFailed(error)) == seq![
            WatchActionView::Log(LogEventView::StreamFailed(error)),
            WatchActionView::Log(LogEventView::WatchRestarting),
            WatchActionView::Wait(10),
        ],
        next_state(WatchState::BackingOff, WatchEventView::DelayElapsed) == WatchState::Subscribed,
        actions_on(config, WatchState::BackingOff, WatchEventView::DelayElapsed) == seq![
            WatchActionView::Log(LogEventView::WatchStarting),
            WatchActionView::Subscribe,
        ],
{
}

} // verus!
