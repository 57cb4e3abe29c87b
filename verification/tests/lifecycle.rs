use wavescope::lifecycle::{CaptureController, StreamCommand, StreamLifecycleState, StreamStateError};

fn playing() -> CaptureController {
    match CaptureController::started(true) {
        Ok(controller) => controller,
        Err(_) => panic!("a started stream has a controller"),
    }
}

#[test]
fn stream_starts_out_playing() {
    let controller = playing();
    assert_eq!(controller.state(), StreamLifecycleState::Playing);
    assert!(controller.is_playing());
    assert!(!controller.is_paused());
}

#[test]
fn stream_that_cannot_start_has_no_controller() {
    assert_eq!(CaptureController::started(false).err(), Some(StreamStateError::CannotStart));
}

#[test]
fn play_while_playing_asks_nothing() {
    let controller = playing();
    assert_eq!(controller.play(), None);
    assert_eq!(controller.state(), StreamLifecycleState::Playing);
}

#[test]
fn pause_while_paused_asks_nothing() {
    let mut controller = playing();
    assert_eq!(controller.pause(), Some(StreamCommand::Stop));
    assert_eq!(controller.settle(StreamCommand::Stop, true), Ok(()));
    assert_eq!(controller.pause(), None);
    assert_eq!(controller.state(), StreamLifecycleState::Paused);
    assert!(controller.is_paused());
    assert!(!controller.is_playing());
}

#[test]
fn play_while_paused_asks_to_start() {
    let mut controller = playing();
    assert_eq!(controller.settle(StreamCommand::Stop, true), Ok(()));
    assert_eq!(controller.play(), Some(StreamCommand::Start));
    assert_eq!(controller.settle(StreamCommand::Start, true), Ok(()));
    assert_eq!(controller.state(), StreamLifecycleState::Playing);
}

#[test]
fn toggle_asks_for_the_opposite() {
    let mut controller = playing();
    let first = controller.toggle_playback();
    assert_eq!(first, StreamCommand::Stop);
    assert_eq!(controller.settle(first, true), Ok(()));
    assert_eq!(controller.state(), StreamLifecycleState::Paused);
    let second = controller.toggle_playback();
    assert_eq!(second, StreamCommand::Start);
    assert_eq!(controller.settle(second, true), Ok(()));
    assert_eq!(controller.state(), StreamLifecycleState::Playing);
}

#[test]
fn failed_stop_leaves_the_stream_playing() {
    let mut controller = playing();
    assert_eq!(controller.settle(StreamCommand::Stop, false), Err(StreamStateError::CannotStop));
    assert_eq!(controller.state(), StreamLifecycleState::Playing);
}

#[test]
fn failed_start_leaves_the_stream_paused() {
    let mut controller = playing();
    assert_eq!(controller.settle(StreamCommand::Stop, true), Ok(()));
    assert_eq!(controller.settle(StreamCommand::Start, false), Err(StreamStateError::CannotStart));
    assert_eq!(controller.state(), StreamLifecycleState::Paused);
    assert_eq!(controller.toggle_playback(), StreamCommand::Start);
}
