use term_clock::run_loop::{
    action, forwarded_key, is_quit, listener_after, next_state, KeyEvent, ListenerState,
    LoopAction, LoopState, EXIT_QUIT, FRAME_INTERVAL_MILLIS,
};

#[test]
fn quit_key_shuts_down_with_success() {
    let state = next_state(LoopState::PollingInput, Some('q'));
    assert_eq!(state, LoopState::ShuttingDown);
    assert_eq!(action(state), LoopAction::Exit { code: 0 });
    assert_eq!(next_state(LoopState::PollingInput, Some('Q')), LoopState::ShuttingDown);
    assert_eq!(EXIT_QUIT, 0);
}

#[test]
fn other_keys_and_no_key_go_on() {
    assert_eq!(next_state(LoopState::PollingInput, Some('x')), LoopState::Sleeping);
    assert_eq!(next_state(LoopState::PollingInput, None), LoopState::Sleeping);
    assert!(is_quit('q') && is_quit('Q'));
    assert!(!is_quit('w') && !is_quit('\n'));
}

#[test]
fn one_round() {
    let mut state = LoopState::Running;
    let mut actions = Vec::new();
    for _ in 0..4 {
        actions.push(action(state));
        state = next_state(state, None);
    }
    assert_eq!(state, LoopState::Running);
    assert_eq!(
        actions,
        vec![
            LoopAction::SampleTime,
            LoopAction::DrawFrame,
            LoopAction::PollInput,
            LoopAction::Sleep { millis: 100 },
        ]
    );
    assert_eq!(FRAME_INTERVAL_MILLIS, 100);
}

#[test]
fn quit_key_matters_only_when_polling() {
    assert_eq!(next_state(LoopState::Running, Some('q')), LoopState::Rendering);
    assert_eq!(next_state(LoopState::Rendering, Some('q')), LoopState::PollingInput);
    assert_eq!(next_state(LoopState::Sleeping, Some('q')), LoopState::Running);
}

#[test]
fn shutting_down_is_final() {
    assert_eq!(next_state(LoopState::ShuttingDown, None), LoopState::ShuttingDown);
    assert_eq!(next_state(LoopState::ShuttingDown, Some('a')), LoopState::ShuttingDown);
}

#[test]
fn listener_forwards_characters_only() {
    assert_eq!(forwarded_key(KeyEvent::Char('q')), Some('q'));
    assert_eq!(forwarded_key(KeyEvent::Char('x')), Some('x'));
    assert_eq!(forwarded_key(KeyEvent::Other), None);
}

#[test]
fn listener_stops_when_the_loop_is_gone() {
    assert_eq!(listener_after(KeyEvent::Char('a'), true), ListenerState::Listening);
    assert_eq!(listener_after(KeyEvent::Char('a'), false), ListenerState::Stopped);
    assert_eq!(listener_after(KeyEvent::Other, true), ListenerState::Listening);
    assert_eq!(listener_after(KeyEvent::Other, false), ListenerState::Listening);
}

#[test]
fn forwarded_quit_key_ends_the_loop() {
    let key = forwarded_key(KeyEvent::Char('q'));
    let mut state = LoopState::Running;
    let mut steps = 0;
    while state != LoopState::ShuttingDown {
        state = next_state(state, key);
        steps += 1;
        assert!(steps <= 3);
    }
    assert_eq!(steps, 3);
    assert_eq!(action(state), LoopAction::Exit { code: 0 });
}
