use hotham::components::Handedness;
use hotham::engine::FRAME_INDEX_BOUND;
use hotham::engine::process_android_events;
use hotham::engine::PlatformEvent;
use hotham::engine::transition_action;
use hotham::engine::Engine;
use hotham::engine::SessionAction;
use hotham::engine::SessionState;
use hotham::HothamError;

#[test]
fn test_transition_table_rows() {
    // Each row of the table, on a concrete pair.
    assert_eq!(
        transition_action(SessionState::Stopping, SessionState::Idle),
        SessionAction::ContinueDraining
    );
    assert_eq!(
        transition_action(SessionState::Focused, SessionState::Idle),
        SessionAction::SleepBriefly
    );
    assert_eq!(
        transition_action(SessionState::Unknown, SessionState::Idle),
        SessionAction::SleepBriefly
    );
    assert_eq!(
        transition_action(SessionState::Idle, SessionState::Ready),
        SessionAction::BeginSession
    );
    assert_eq!(
        transition_action(SessionState::Focused, SessionState::Exiting),
        SessionAction::SignalShutdown
    );
    assert_eq!(
        transition_action(SessionState::Idle, SessionState::Exiting),
        SessionAction::SignalShutdown
    );
    assert_eq!(
        transition_action(SessionState::Visible, SessionState::Stopping),
        SessionAction::EndSession
    );
}

#[test]
fn test_transitions_not_in_table_do_nothing() {
    assert_eq!(
        transition_action(SessionState::Ready, SessionState::Synchronized),
        SessionAction::DoNothing
    );
    assert_eq!(
        transition_action(SessionState::Synchronized, SessionState::Visible),
        SessionAction::DoNothing
    );
    assert_eq!(
        transition_action(SessionState::Visible, SessionState::Focused),
        SessionAction::DoNothing
    );
    assert_eq!(
        transition_action(SessionState::Focused, SessionState::LossPending),
        SessionAction::DoNothing
    );
    // Ready only begins a session when coming from Idle.
    assert_eq!(
        transition_action(SessionState::Stopping, SessionState::Ready),
        SessionAction::DoNothing
    );
}

#[test]
fn test_update_reports_states_and_action() {
    let mut engine = Engine::new();
    let (action, result) = engine.update(SessionState::Idle, false);
    assert_eq!(action, SessionAction::SleepBriefly);
    assert_eq!(result, Ok((SessionState::Unknown, SessionState::Idle)));

    let (action, result) = engine.update(SessionState::Ready, false);
    assert_eq!(action, SessionAction::BeginSession);
    assert_eq!(result, Ok((SessionState::Idle, SessionState::Ready)));

    let frame = engine.frame_context();
    assert_eq!(frame.previous_state, SessionState::Idle);
    assert_eq!(frame.current_state, SessionState::Ready);
}

#[test]
fn test_exiting_reports_shutdown() {
    let mut engine = Engine::new();
    let (action, result) = engine.update(SessionState::Exiting, false);
    assert_eq!(action, SessionAction::SignalShutdown);
    assert_eq!(result, Err(HothamError::ShuttingDown));
}

#[test]
fn test_quit_signal_reports_shutdown_within_one_wait() {
    let mut engine = Engine::new();

    // An idle tick: the loop would sleep one bounded interval.
    let (action, result) = engine.update(SessionState::Idle, false);
    assert_eq!(action, SessionAction::SleepBriefly);
    assert!(result.is_ok());

    // The quit signal is raised during that wait: the very next poll
    // reports shutdown, whatever the session state does.
    let (_, result) = engine.update(SessionState::Idle, true);
    assert_eq!(result, Err(HothamError::ShuttingDown));
}

#[test]
fn test_quit_signal_beats_stuck_session_state() {
    let mut engine = Engine::new();
    // Even a tick whose transition maps to an ordinary action reports
    // shutdown when the quit signal is set.
    let (action, result) = engine.update(SessionState::Stopping, true);
    assert_eq!(action, SessionAction::EndSession);
    assert_eq!(result, Err(HothamError::ShuttingDown));
}

#[test]
fn test_frame_lifecycle_advances_index() {
    let mut engine = Engine::new();
    assert!(!engine.is_in_frame());
    assert_eq!(engine.frame_context().frame_index, 0);

    engine.begin_frame(true, 1000);
    assert!(engine.is_in_frame());
    assert_eq!(engine.frame_context().predicted_display_time, 1000);
    assert!(engine.frame_context().should_render);
    engine.end_frame();
    assert!(!engine.is_in_frame());
    assert_eq!(engine.frame_context().frame_index, 1);

    engine.begin_frame(false, 2000);
    assert!(!engine.frame_context().should_render);
    engine.end_frame();
    assert_eq!(engine.frame_context().frame_index, 2);
}

#[test]
fn test_skipped_frame_leaves_arena_alone() {
    let mut engine = Engine::new();

    let image = hotham::rendering::image::Image { format: 0, layer_count: 1 };
    let (index, _) = engine.resources.allocate_texture(&image);
    assert_eq!(index, 0);

    // A frame the runtime does not want rendered must not touch the arena.
    engine.begin_frame(false, 0);
    engine.end_frame();
    assert_eq!(engine.resources.texture_count(), 1);
}

#[test]
fn test_haptics_keep_maximum_per_side() {
    let mut engine = Engine::new();
    engine.haptic_context.request_haptic_feedback(5, Handedness::Left);
    engine.haptic_context.request_haptic_feedback(3, Handedness::Left);
    engine.haptic_context.request_haptic_feedback(8, Handedness::Right);
    assert_eq!(engine.haptic_context.left_hand_amplitude_this_frame, 5);
    assert_eq!(engine.haptic_context.right_hand_amplitude_this_frame, 8);

    // The driver consumes both sides once per tick; the next tick starts
    // from zero.
    let (left, right) = engine.haptic_context.iter_mut();
    assert_eq!((left, right), (5, 8));
    assert_eq!(engine.haptic_context.left_hand_amplitude_this_frame, 0);
    assert_eq!(engine.haptic_context.right_hand_amplitude_this_frame, 0);
}

#[test]
fn test_haptic_amplitude_bit_order_matches_float_order() {
    // Amplitudes are non-negative single-precision values carried as raw
    // bit patterns; for those, unsigned bit order agrees with numeric
    // order.
    let mut engine = Engine::new();
    engine
        .haptic_context
        .request_haptic_feedback(0.25f32.to_bits(), Handedness::Left);
    engine
        .haptic_context
        .request_haptic_feedback(0.75f32.to_bits(), Handedness::Left);
    engine
        .haptic_context
        .request_haptic_feedback(0.5f32.to_bits(), Handedness::Left);
    assert_eq!(
        engine.haptic_context.left_hand_amplitude_this_frame,
        0.75f32.to_bits()
    );
}

#[test]
fn test_process_platform_events() {
    let mut resumed = false;
    let mut should_quit = false;
    let events = vec![PlatformEvent::Other, PlatformEvent::Resume];
    let destroyed = process_android_events(&mut resumed, &mut should_quit, &events);
    assert!(!destroyed);
    assert!(resumed);
    assert!(!should_quit);

    // Pause lowers the foreground flag; the first Destroy raises the quit
    // signal and stops processing, so the Resume after it is never seen.
    let events = vec![
        PlatformEvent::Pause,
        PlatformEvent::Destroy,
        PlatformEvent::Resume,
    ];
    let destroyed = process_android_events(&mut resumed, &mut should_quit, &events);
    assert!(destroyed);
    assert!(should_quit);
    assert!(!resumed);
}

#[test]
fn test_frame_index_wraps_at_bound() {
    let mut engine = Engine::new();
    engine.frame.frame_index = FRAME_INDEX_BOUND - 1;
    engine.begin_frame(false, 0);
    engine.end_frame();
    assert_eq!(engine.frame_context().frame_index, 0);
}
