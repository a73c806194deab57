use vizreplay::bridge::{start_server, start_server_with_recording, DEFAULT_PORT};
use vizreplay::codec::{DecodeErrorKind, Key, PathStep};
use vizreplay::layout::{encode_viz, encode_viz_update};
use vizreplay::json::Json;
use vizreplay::logger::{Logger, SESSION_ID_LEN};
use vizreplay::plotter::Plotter;
use vizreplay::recording::Recording;
use vizreplay::scalar::Scalar;
use vizreplay::state::WSBridgeState;
use vizreplay::threed::ThreeDView;
use vizreplay::viz::Viz;
use vizreplay::widgets::{PlotScalarData, ThreeDPrimative, ThreeDViewData, Widget};
use vizreplay::ws_handler::{
    set_exit_after_serve, ws_connect, ws_handler, ReplayAction, ReplayConfig, ReplayEvent,
    ReplayPhase, ReplaySession, ServerAction, EXIT_GRACE_MILLIS, PACING_MILLIS,
};

fn num(x: f64) -> Scalar {
    Scalar::from_bits(x.to_bits())
}

fn recording_of(name: &str, vizs: &[&str]) -> Recording {
    let mut recording = Recording::new(name.to_string(), "id".to_string());
    for viz in vizs {
        recording.add_viz(Viz::new(viz.to_string()));
    }
    recording
}

fn state_of(recordings: Vec<Recording>) -> WSBridgeState {
    let mut state = WSBridgeState::new();
    for recording in recordings {
        state.add_recording(recording);
    }
    state
}

/// Runs a viewer that stays connected and returns every action, in order.
fn serve(state: &WSBridgeState) -> (ReplaySession, Vec<ReplayAction>) {
    let mut session = ReplaySession::new();
    let mut actions = Vec::new();
    let mut event = ReplayEvent::Upgraded;
    loop {
        assert!(session.fits_state(state));
        let action = ws_connect(&mut session, state, event);
        actions.push(action);
        event = match action {
            ReplayAction::AcquireState => ReplayEvent::StateAcquired,
            ReplayAction::Send { .. } => ReplayEvent::Sent,
            ReplayAction::Wait { .. } => ReplayEvent::DelayElapsed,
            _ => return (session, actions),
        };
    }
}

fn names_sent(state: &WSBridgeState, actions: &[ReplayAction]) -> Vec<String> {
    let mut names = Vec::new();
    for action in actions {
        if let ReplayAction::Send { recording, viz } = action {
            names.push(state.get_recordings()[*recording].get_vizs()[*viz].get_name().to_string());
        }
    }
    names
}

#[test]
fn viewer_receives_two_updates_in_order() {
    let mut recording = Recording::new("rec".to_string(), "id".to_string());
    let a = Viz::new("A".to_string()).with_widget(Widget::PlotScalar(PlotScalarData::new(vec![
        (num(0.0), num(0.0)),
        (num(1.0), num(1.0)),
    ])));
    let b = Viz::new("B".to_string());
    recording.add_viz(a.clone());
    recording.add_viz(b.clone());
    let state = state_of(vec![recording]);
    let (session, actions) = serve(&state);
    assert_eq!(
        actions,
        vec![
            ReplayAction::AcquireState,
            ReplayAction::Send { recording: 0, viz: 0 },
            ReplayAction::Wait { millis: 50 },
            ReplayAction::Send { recording: 0, viz: 1 },
            ReplayAction::Wait { millis: 50 },
            ReplayAction::Done,
        ]
    );
    assert_eq!(session, ReplaySession::Closed { completed: true });
    let first = encode_viz_update(&state.get_recordings()[0].get_vizs()[0]);
    let second = encode_viz_update(&state.get_recordings()[0].get_vizs()[1]);
    assert_eq!(first, Json::Object(vec![("VizUpdate".to_string(), encode_viz(&a))]));
    assert_eq!(second, Json::Object(vec![("VizUpdate".to_string(), encode_viz(&b))]));
    let mut closed = session;
    for event in [
        ReplayEvent::Upgraded,
        ReplayEvent::StateAcquired,
        ReplayEvent::Sent,
        ReplayEvent::SendFailed,
        ReplayEvent::DelayElapsed,
    ] {
        assert_eq!(ws_connect(&mut closed, &state, event), ReplayAction::Ignore);
        assert_eq!(closed, ReplaySession::Closed { completed: true });
    }
}

#[test]
fn replay_follows_store_order_and_skips_empty_recordings() {
    let state = state_of(vec![
        recording_of("empty", &[]),
        recording_of("first", &["a", "b"]),
        recording_of("none", &[]),
        recording_of("second", &["c"]),
        recording_of("last", &[]),
    ]);
    let (session, actions) = serve(&state);
    assert_eq!(names_sent(&state, &actions), vec!["a", "b", "c"]);
    assert_eq!(
        actions,
        vec![
            ReplayAction::AcquireState,
            ReplayAction::Send { recording: 1, viz: 0 },
            ReplayAction::Wait { millis: PACING_MILLIS },
            ReplayAction::Send { recording: 1, viz: 1 },
            ReplayAction::Wait { millis: PACING_MILLIS },
            ReplayAction::Send { recording: 3, viz: 0 },
            ReplayAction::Wait { millis: PACING_MILLIS },
            ReplayAction::Done,
        ]
    );
    assert_eq!(session.phase(), ReplayPhase::Closed);
}

#[test]
fn replay_of_nothing_completes_at_once() {
    let state = WSBridgeState::new();
    let (session, actions) = serve(&state);
    assert_eq!(actions, vec![ReplayAction::AcquireState, ReplayAction::Done]);
    assert_eq!(session, ReplaySession::Closed { completed: true });
    let only_empty = state_of(vec![recording_of("empty", &[])]);
    let (session, actions) = serve(&only_empty);
    assert_eq!(actions, vec![ReplayAction::AcquireState, ReplayAction::Done]);
    assert_eq!(session, ReplaySession::Closed { completed: true });
}

#[test]
fn session_goes_through_its_phases() {
    let state = state_of(vec![recording_of("r", &["a"])]);
    let mut session = ReplaySession::new();
    assert_eq!(session.phase(), ReplayPhase::Idle);
    ws_connect(&mut session, &state, ReplayEvent::Upgraded);
    assert_eq!(session.phase(), ReplayPhase::Connected);
    ws_connect(&mut session, &state, ReplayEvent::StateAcquired);
    assert_eq!(session.phase(), ReplayPhase::Streaming);
    ws_connect(&mut session, &state, ReplayEvent::Sent);
    assert_eq!(session.phase(), ReplayPhase::Streaming);
    ws_connect(&mut session, &state, ReplayEvent::DelayElapsed);
    assert_eq!(session.phase(), ReplayPhase::Closed);
}

#[test]
fn failed_send_aborts_only_its_own_connection() {
    let state = state_of(vec![recording_of("r", &["a", "b", "c"])]);
    let before = state.clone();
    let mut failing = ReplaySession::new();
    let mut steady = ReplaySession::new();
    let mut steady_actions = Vec::new();
    ws_connect(&mut failing, &state, ReplayEvent::Upgraded);
    steady_actions.push(ws_connect(&mut steady, &state, ReplayEvent::Upgraded));
    ws_connect(&mut failing, &state, ReplayEvent::StateAcquired);
    steady_actions.push(ws_connect(&mut steady, &state, ReplayEvent::StateAcquired));
    assert_eq!(ws_connect(&mut failing, &state, ReplayEvent::SendFailed), ReplayAction::Abort);
    assert_eq!(failing, ReplaySession::Closed { completed: false });
    assert_eq!(ws_connect(&mut failing, &state, ReplayEvent::DelayElapsed), ReplayAction::Ignore);
    for _ in 0..3 {
        steady_actions.push(ws_connect(&mut steady, &state, ReplayEvent::Sent));
        steady_actions.push(ws_connect(&mut steady, &state, ReplayEvent::DelayElapsed));
    }
    assert_eq!(names_sent(&state, &steady_actions), vec!["a", "b", "c"]);
    assert_eq!(steady, ReplaySession::Closed { completed: true });
    assert_eq!(state, before);
    let config = ReplayConfig { exit_after_serve: true };
    assert_eq!(ws_handler(&config, &failing), ServerAction::KeepServing);
}

#[test]
fn events_out_of_turn_are_ignored() {
    let state = state_of(vec![recording_of("r", &["a"])]);
    let mut session = ReplaySession::new();
    assert_eq!(ws_connect(&mut session, &state, ReplayEvent::Sent), ReplayAction::Ignore);
    assert_eq!(ws_connect(&mut session, &state, ReplayEvent::StateAcquired), ReplayAction::Ignore);
    assert_eq!(session, ReplaySession::Idle);
    ws_connect(&mut session, &state, ReplayEvent::Upgraded);
    ws_connect(&mut session, &state, ReplayEvent::StateAcquired);
    assert_eq!(ws_connect(&mut session, &state, ReplayEvent::DelayElapsed), ReplayAction::Ignore);
    assert_eq!(session, ReplaySession::Sending { recording: 0, viz: 0 });
    ws_connect(&mut session, &state, ReplayEvent::Sent);
    assert_eq!(ws_connect(&mut session, &state, ReplayEvent::Sent), ReplayAction::Ignore);
    assert_eq!(ws_connect(&mut session, &state, ReplayEvent::SendFailed), ReplayAction::Ignore);
    assert_eq!(session, ReplaySession::Pacing { recording: 0, viz: 0 });
}

#[test]
fn session_fits_only_a_state_that_holds_its_message() {
    let state = state_of(vec![recording_of("r", &["a"])]);
    assert!(ReplaySession::Idle.fits_state(&state));
    assert!(ReplaySession::Sending { recording: 0, viz: 0 }.fits_state(&state));
    assert!(!ReplaySession::Sending { recording: 0, viz: 1 }.fits_state(&state));
    assert!(!ReplaySession::Pacing { recording: 1, viz: 0 }.fits_state(&state));
    assert!(ReplaySession::Closed { completed: false }.fits_state(&WSBridgeState::new()));
}

#[test]
fn server_exits_only_after_a_completed_replay_when_set_to() {
    let mut config = ReplayConfig { exit_after_serve: false };
    let done = ReplaySession::Closed { completed: true };
    assert_eq!(ws_handler(&config, &done), ServerAction::KeepServing);
    set_exit_after_serve(&mut config, true);
    assert!(config.exit_after_serve);
    assert_eq!(ws_handler(&config, &done), ServerAction::ExitAfter { millis: 200 });
    assert_eq!(EXIT_GRACE_MILLIS, 200);
    assert_eq!(
        ws_handler(&config, &ReplaySession::Closed { completed: false }),
        ServerAction::KeepServing
    );
    assert_eq!(
        ws_handler(&config, &ReplaySession::Pacing { recording: 0, viz: 0 }),
        ServerAction::KeepServing
    );
    assert_eq!(ws_handler(&config, &ReplaySession::Idle), ServerAction::KeepServing);
    set_exit_after_serve(&mut config, false);
    assert!(!config.exit_after_serve);
}

#[test]
fn state_keeps_recordings_in_the_order_added() {
    let mut state = WSBridgeState::new();
    assert_eq!(state, WSBridgeState::default());
    assert!(state.get_recordings().is_empty());
    state.add_recording(recording_of("one", &["a"]));
    state.add_recording(recording_of("two", &[]));
    let names: Vec<&str> = state.get_recordings().iter().map(|r| r.name.as_str()).collect();
    assert_eq!(names, vec!["one", "two"]);
}

#[test]
fn snapshot_is_a_copy_that_later_additions_do_not_reach() {
    let mut state = state_of(vec![recording_of("one", &["a", "b"])]);
    let mut plotted = Recording::new("two".to_string(), "id".to_string());
    let mut viz = Viz::new("p".to_string()).with_widget(Widget::PlotScalar(PlotScalarData::new(
        vec![(num(1.0), num(2.0))],
    )));
    viz.add_widget(Widget::ThreeDView(ThreeDViewData {
        primatives: vec![(num(0.5), ThreeDPrimative::Point(vec![(num(1.0), num(2.0), num(3.0))]))],
    }));
    viz.set_source("s".to_string());
    viz.set_range((num(0.0), num(1.0)));
    plotted.add_viz(viz);
    state.add_recording(plotted);
    let snapshot = state.snapshot();
    assert_eq!(&snapshot, state.get_recordings());
    state.add_recording(recording_of("three", &[]));
    assert_eq!(snapshot.len(), 2);
    assert_eq!(state.get_recordings().len(), 3);
    assert_eq!(snapshot[1].duplicate(), snapshot[1]);
}

#[test]
fn server_starts_with_the_recording_of_its_file() {
    let args = start_server_with_recording("recording.json".to_string(), DEFAULT_PORT, true, false);
    assert_eq!(args.address, "127.0.0.1");
    assert_eq!(args.port, 3031);
    assert_eq!(args.input, "recording.json");
    assert!(args.exit_after_serve);
    assert!(!args.open_browser);
    let startup = start_server(&args, "{\"name\":\"n\",\"session_id\":\"s\",\"vizs\":[]}").unwrap();
    assert!(startup.config.exit_after_serve);
    assert_eq!(
        startup.state.get_recordings(),
        &vec![Recording::new("n".to_string(), "s".to_string())]
    );
    let failed = start_server(&args, "{\"name\":\"n\",\"session_id\":\"s\"}");
    match failed {
        Ok(_) => panic!("a file without vizs must not start a server"),
        Err(error) => {
            assert_eq!(error.kind, DecodeErrorKind::MissingField);
            assert_eq!(error.path, vec![PathStep::Field(Key::Vizs)]);
        }
    }
}

#[test]
fn logger_starts_an_empty_recording_under_a_fresh_id() {
    let logger = Logger::new("probe".to_string());
    assert_eq!(logger.name, "probe");
    assert_eq!(SESSION_ID_LEN, 36);
    assert_eq!(logger.session_id.chars().count(), 36);
    for (i, c) in logger.session_id.chars().enumerate() {
        if i == 8 || i == 13 || i == 18 || i == 23 {
            assert_eq!(c, '-');
        } else {
            assert!(matches!(c, '0'..='9' | 'a'..='f'));
        }
    }
    assert_eq!(logger.session_id.chars().nth(14), Some('4'));
    assert_eq!(logger.recording, Recording::new("probe".to_string(), logger.session_id.clone()));
    let other = Logger::new("probe".to_string());
    assert_ne!(logger.session_id, other.session_id);
    assert_eq!(
        logger.save(),
        Json::Object(vec![
            ("name".to_string(), Json::Text("probe".to_string())),
            ("session_id".to_string(), Json::Text(logger.session_id.clone())),
            ("vizs".to_string(), Json::Array(vec![])),
        ])
    );
}

#[test]
fn plotter_logs_one_scalar_plot() {
    let mut plotter = Plotter::new("sine");
    plotter.add_point(num(0.0), num(0.0));
    plotter.add_point(num(0.5), num(1.0));
    let data = plotter.as_scalar_data();
    assert_eq!(data.data_x, vec![(num(0.0), num(0.0)), (num(0.5), num(1.0))]);
    let mut recording = Recording::new("r".to_string(), "id".to_string());
    plotter.log(&mut recording);
    assert_eq!(
        recording.get_vizs(),
        &vec![Viz::new("sine".to_string()).with_widget(Widget::PlotScalar(data))]
    );
    plotter.points_x.push(num(9.0));
    assert_eq!(plotter.as_scalar_data().data_x.len(), 2);
    assert_eq!(plotter.as_viz().get_name(), "sine");
}

#[test]
fn three_d_view_logs_its_clouds_with_their_times() {
    let mut view = ThreeDView::new("spiral");
    view.add_points(vec![(num(1.0), num(2.0), num(3.0))], num(0.0));
    view.add_points(vec![], num(0.1));
    let expected = ThreeDViewData {
        primatives: vec![
            (num(0.0), ThreeDPrimative::Point(vec![(num(1.0), num(2.0), num(3.0))])),
            (num(0.1), ThreeDPrimative::Point(vec![])),
        ],
    };
    assert_eq!(view.as_view_data(), expected);
    let mut recording = Recording::new("r".to_string(), "id".to_string());
    view.log(&mut recording);
    assert_eq!(
        recording.get_vizs(),
        &vec![Viz::new("spiral".to_string()).with_widget(Widget::ThreeDView(expected))]
    );
}

#[test]
fn finiteness_is_read_off_the_exponent() {
    assert!(num(0.0).is_finite());
    assert!(num(-1.5e300).is_finite());
    assert!(num(f64::MAX).is_finite());
    assert!(num(f64::MIN_POSITIVE / 2.0).is_finite());
    assert!(!num(f64::INFINITY).is_finite());
    assert!(!num(f64::NEG_INFINITY).is_finite());
    assert!(!num(f64::NAN).is_finite());
    assert_eq!(num(1.0).to_bits(), 0x3FF0_0000_0000_0000);
    let mut recording = recording_of("r", &["a"]);
    assert!(recording.is_finite());
    let mut viz = Viz::new("b".to_string());
    viz.add_widget(Widget::PlotScalar(PlotScalarData::new(vec![
        (num(0.0), num(1.0)),
        (num(1.0), num(f64::NAN)),
    ])));
    assert!(!viz.is_finite());
    recording.add_viz(viz);
    assert!(!recording.is_finite());
    let mut ranged = Viz::new("c".to_string());
    ranged.set_range((num(0.0), num(f64::INFINITY)));
    assert!(!ranged.is_finite());
    ranged.set_range((num(0.0), num(1.0)));
    assert!(ranged.is_finite());
    let cloud = Widget::ThreeDView(ThreeDViewData {
        primatives: vec![(num(f64::INFINITY), ThreeDPrimative::Point(vec![]))],
    });
    assert!(!cloud.is_finite());
}

#[test]
fn viz_setters_change_one_field() {
    let mut viz = Viz::new("v".to_string());
    assert_eq!(viz.get_name(), "v");
    assert_eq!(viz.source, None);
    assert_eq!(viz.range, None);
    assert!(viz.widgets.is_empty());
    viz.set_source("cam".to_string());
    viz.set_range((num(1.0), num(2.0)));
    assert_eq!(viz.source, Some("cam".to_string()));
    assert_eq!(viz.range, Some((num(1.0), num(2.0))));
    assert_eq!(viz.get_name(), "v");
    assert!(viz.widgets.is_empty());
}
