use taint_controller::config::{Label, TaintConfig, TaintLabel, TaintSpec};
use taint_controller::labels::LabelMap;
use taint_controller::node::{NodeSnapshot, PatchDocument};
use taint_controller::watch::{
    patch_outcome, watch_start, watch_step, LogEvent, LogLevel, WatchAction, WatchEvent,
    WatchState, FIELD_MANAGER, RESTART_DELAY_SECONDS,
};

fn gpu_taint() -> TaintSpec {
    TaintSpec {
        key: "dedicated".to_string(),
        value: Some("gpu".to_string()),
        effect: "NoSchedule".to_string(),
        time_added: None,
    }
}

fn gpu_rule() -> TaintConfig {
    TaintConfig {
        label_taints: vec![TaintLabel {
            taint: gpu_taint(),
            selector: Label { key: "tier".to_string(), value: Some("gpu".to_string()) },
        }],
        igore_label: None,
    }
}

fn gpu_node(taints: Option<Vec<TaintSpec>>) -> NodeSnapshot {
    let mut labels = LabelMap::new();
    labels.insert("tier".to_string(), "gpu".to_string());
    NodeSnapshot { name: Some("node-a".to_string()), namespace: None, labels: Some(labels), taints }
}

#[test]
fn restart_delay_is_ten_seconds() {
    assert_eq!(RESTART_DELAY_SECONDS, 10);
}

#[test]
fn updates_are_submitted_under_one_fixed_name() {
    assert_eq!(FIELD_MANAGER, "taint-controller");
}

#[test]
fn watch_starts_subscribed_and_asks_for_a_subscription() {
    let (state, actions) = watch_start();
    assert_eq!(state, WatchState::Subscribed);
    assert_eq!(actions, vec![WatchAction::Log(LogEvent::WatchStarting), WatchAction::Subscribe]);
}

#[test]
fn stream_error_is_logged_and_followed_by_delay_and_new_subscription() {
    let config = gpu_rule();
    let (state, _) = watch_start();
    let (state, actions) =
        watch_step(&config, state, WatchEvent::StreamFailed("connection reset".to_string()));
    assert_eq!(state, WatchState::BackingOff);
    assert_eq!(
        actions,
        vec![
            WatchAction::Log(LogEvent::StreamFailed("connection reset".to_string())),
            WatchAction::Log(LogEvent::WatchRestarting),
            WatchAction::Wait(10),
        ]
    );
    let (state, actions) = watch_step(&config, state, WatchEvent::DelayElapsed);
    assert_eq!(state, WatchState::Subscribed);
    assert_eq!(actions, vec![WatchAction::Log(LogEvent::WatchStarting), WatchAction::Subscribe]);
}

#[test]
fn end_of_stream_is_followed_by_delay_without_an_error() {
    let (state, actions) = watch_step(&gpu_rule(), WatchState::Subscribed, WatchEvent::StreamEnded);
    assert_eq!(state, WatchState::BackingOff);
    assert_eq!(
        actions,
        vec![WatchAction::Log(LogEvent::WatchRestarting), WatchAction::Wait(10)]
    );
}

#[test]
fn watch_restarts_as_often_as_the_stream_fails() {
    let config = gpu_rule();
    let mut state = WatchState::Subscribed;
    for round in 0..50 {
        let (next, actions) =
            watch_step(&config, state, WatchEvent::StreamFailed(format!("failure {}", round)));
        assert_eq!(next, WatchState::BackingOff);
        assert_eq!(actions.last(), Some(&WatchAction::Wait(10)));
        let (next, actions) = watch_step(&config, next, WatchEvent::DelayElapsed);
        assert_eq!(next, WatchState::Subscribed);
        assert_eq!(actions.last(), Some(&WatchAction::Subscribe));
        state = next;
    }
}

#[test]
fn applied_node_that_lacks_the_taint_gets_one_submission() {
    let (state, actions) = watch_step(
        &gpu_rule(),
        WatchState::Subscribed,
        WatchEvent::Applied(gpu_node(Some(vec![]))),
    );
    assert_eq!(state, WatchState::Subscribed);
    assert_eq!(
        actions,
        vec![WatchAction::Apply {
            patch: PatchDocument {
                name: Some("node-a".to_string()),
                namespace: None,
                taints: vec![gpu_taint()],
            },
            field_manager: "taint-controller".to_string(),
        }]
    );
}

#[test]
fn applied_node_that_has_the_taint_gets_no_submission() {
    let (state, actions) = watch_step(
        &gpu_rule(),
        WatchState::Subscribed,
        WatchEvent::Applied(gpu_node(Some(vec![gpu_taint()]))),
    );
    assert_eq!(state, WatchState::Subscribed);
    assert_eq!(actions, vec![WatchAction::Log(LogEvent::TaintPresent)]);
}

#[test]
fn applied_node_without_labels_gets_no_action() {
    let mut node = gpu_node(Some(vec![]));
    node.labels = None;
    let (state, actions) =
        watch_step(&gpu_rule(), WatchState::Subscribed, WatchEvent::Applied(node));
    assert_eq!(state, WatchState::Subscribed);
    assert_eq!(actions, vec![]);
}

#[test]
fn applied_node_without_spec_is_logged_and_left_alone() {
    let (_, actions) =
        watch_step(&gpu_rule(), WatchState::Subscribed, WatchEvent::Applied(gpu_node(None)));
    assert_eq!(actions, vec![WatchAction::Log(LogEvent::NoSpec)]);
}

#[test]
fn accepted_update_is_logged_as_added() {
    assert_eq!(patch_outcome(Ok(())), LogEvent::TaintAdded);
    assert_eq!(patch_outcome(Ok(())).level(), LogLevel::Info);
}

#[test]
fn refused_update_is_logged_with_its_error() {
    let outcome = patch_outcome(Err("conflict with another manager".to_string()));
    assert_eq!(outcome, LogEvent::PatchFailed("conflict with another manager".to_string()));
    assert_eq!(outcome.level(), LogLevel::Error);
    assert_eq!(outcome.message(), "error processing event: conflict with another manager");
}

#[test]
fn watch_goes_on_after_a_refused_update() {
    let config = gpu_rule();
    let (state, actions) = watch_step(
        &config,
        WatchState::Subscribed,
        WatchEvent::Applied(gpu_node(Some(vec![]))),
    );
    assert_eq!(actions.len(), 1);
    let _ = patch_outcome(Err("forbidden".to_string()));
    let (state, actions) =
        watch_step(&config, state, WatchEvent::Applied(gpu_node(Some(vec![]))));
    assert_eq!(state, WatchState::Subscribed);
    assert_eq!(actions.len(), 1);
}

#[test]
fn events_of_the_given_up_subscription_are_dropped_during_the_delay() {
    let config = gpu_rule();
    let late = vec![
        WatchEvent::Applied(gpu_node(Some(vec![]))),
        WatchEvent::StreamFailed("late".to_string()),
        WatchEvent::StreamEnded,
    ];
    for event in late {
        let (state, actions) = watch_step(&config, WatchState::BackingOff, event);
        assert_eq!(state, WatchState::BackingOff);
        assert_eq!(actions, vec![]);
    }
}

#[test]
fn end_of_delay_means_nothing_while_subscribed() {
    let (state, actions) =
        watch_step(&gpu_rule(), WatchState::Subscribed, WatchEvent::DelayElapsed);
    assert_eq!(state, WatchState::Subscribed);
    assert_eq!(actions, vec![]);
}

#[test]
fn log_events_have_their_levels() {
    assert_eq!(LogEvent::WatchStarting.level(), LogLevel::Info);
    assert_eq!(LogEvent::WatchRestarting.level(), LogLevel::Info);
    assert_eq!(LogEvent::TaintAdded.level(), LogLevel::Info);
    assert_eq!(LogEvent::StreamFailed("x".to_string()).level(), LogLevel::Error);
    assert_eq!(LogEvent::PatchFailed("x".to_string()).level(), LogLevel::Error);
    assert_eq!(LogEvent::NoSpec.level(), LogLevel::Debug);
    assert_eq!(LogEvent::TaintPresent.level(), LogLevel::Debug);
}

#[test]
fn log_events_have_their_lines() {
    assert_eq!(LogEvent::WatchStarting.message(), "starting watching nodes");
    assert_eq!(
        LogEvent::WatchRestarting.message(),
        "watcher stream terminated, restarting in 10 seconds"
    );
    assert_eq!(LogEvent::TaintAdded.message(), "taint added");
    assert_eq!(LogEvent::NoSpec.message(), "no spec");
    assert_eq!(LogEvent::TaintPresent.message(), "taint already present");
    assert_eq!(
        LogEvent::StreamFailed("connection reset".to_string()).message(),
        "stream terminated with: connection reset"
    );
    assert_eq!(
        LogEvent::PatchFailed("forbidden".to_string()).message(),
        "error processing event: forbidden"
    );
    assert_eq!(LogEvent::StreamFailed(String::new()).message(), "stream terminated with: ");
}
