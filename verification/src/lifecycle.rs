//! The play/pause lifecycle of the capture stream.
//!
//! Starting and stopping the device is the caller's work. The controller
//! decides what to ask of the device, and follows what the device answered.

use vstd::prelude::*;

verus! {

/// Whether the capture stream is running.
#[derive(Clone, Copy, PartialEq, Eq, Debug, Structural)]
pub enum StreamLifecycleState {
    Playing,
    Paused,
}

/// What the controller asks of the audio device.
#[derive(Clone, Copy, PartialEq, Eq, Debug, Structural)]
pub enum StreamCommand {
    Start,
    Stop,
}

/// The device could not do what it was asked.
#[derive(Clone, Copy, PartialEq, Eq, Debug, Structural)]
pub enum StreamStateError {
    CannotStart,
    CannotStop,
}

impl StreamCommand {
    /// The state that the stream is in once the device has done this.
    pub open spec fn target(self) -> StreamLifecycleState {
        match self {
            StreamCommand::Start => StreamLifecycleState::Playing,
            StreamCommand::Stop => StreamLifecycleState::Paused,
        }
    }

    /// The error that is reported when the device cannot do this.
    pub open spec fn failure(self) -> StreamStateError {
        match self {
            StreamCommand::Start => StreamStateError::CannotStart,
            StreamCommand::Stop => StreamStateError::CannotStop,
        }
    }
}

impl StreamLifecycleState {
    /// What playing asks of the device: nothing when the stream plays already.
    pub open spec fn to_play(self) -> Option<StreamCommand> {
        match self {
            StreamLifecycleState::Playing => None,
            StreamLifecycleState::Paused => Some(StreamCommand::Start),
        }
    }

    /// What pausing asks of the device: nothing when the stream is paused
    /// already.
    pub open spec fn to_pause(self) -> Option<StreamCommand> {
        match self {
            StreamLifecycleState::Playing => Some(StreamCommand::Stop),
            StreamLifecycleState::Paused => None,
        }
    }

    /// What toggling asks of the device: the opposite of the current state.
    pub open spec fn to_toggle(self) -> StreamCommand {
        match self {
            StreamLifecycleState::Playing => StreamCommand::Stop,
            StreamLifecycleState::Paused => StreamCommand::Start,
        }
    }

    /// The state after the device has answered a command: the command's
    /// target if it succeeded, the state as it was if it failed.
    pub open spec fn after(self, command: StreamCommand, succeeded: bool) -> StreamLifecycleState {
        if succeeded {
            command.target()
        } else {
            self
        }
    }
}

/// The outcome that the caller of a command sees.
pub open spec fn outcome(command: StreamCommand, succeeded: bool) -> Result<(), StreamStateError> {
    if succeeded {
        Ok(())
    } else {
        Err(command.failure())
    }
}

/// Keeps track of whether the capture stream plays or is paused.
pub struct CaptureController {
    state: StreamLifecycleState,
}

impl View for CaptureController {
    type V = StreamLifecycleState;

    closed spec fn view(&self) -> StreamLifecycleState {
        self.state
    }
}

impl CaptureController {
    /// The controller of a stream that was started right after it was
    /// built. If the device could not start it, there is no controller.
    pub fn started(device_started: bool) -> (controller: Result<CaptureController, StreamStateError>)
        ensures
            device_started ==> controller is Ok && controller->Ok_0@ == StreamLifecycleState::Playing,
            !device_started ==> controller == Err::<CaptureController, _>(StreamStateError::CannotStart),
    {
        if device_started {
            Ok(CaptureController { state: StreamLifecycleState::Playing })
        } else {
            Err(StreamStateError::CannotStart)
        }
    }

    /// The current state.
    pub fn state(&self) -> (state: StreamLifecycleState)
        ensures
            state == self@,
    {
        self.state
    }

    /// Whether the stream is paused.
    pub fn is_paused(&self) -> (paused: bool)
        ensures
            paused == (self@ == StreamLifecycleState::Paused),
    {
        self.state == StreamLifecycleState::Paused
    }

    /// Whether the stream is playing.
    pub fn is_playing(&self) -> (playing: bool)
        ensures
            playing == (self@ == StreamLifecycleState::Playing),
    {
        self.state == StreamLifecycleState::Playing
    }

    /// What to ask of the device so that the stream plays. A stream that
    /// plays already needs nothing: there is nothing to ask and nothing that
    /// can fail.
    pub fn play(&self) -> (request: Option<StreamCommand>)
        ensures
            request == self@.to_play(),
    {
        match self.state {
            StreamLifecycleState::Playing => None,
            StreamLifecycleState::Paused => Some(StreamCommand::Start),
        }
    }

    /// What to ask of the device so that the stream pauses. A stream that is
    /// paused already needs nothing.
    pub fn pause(&self) -> (request: Option<StreamCommand>)
        ensures
            request == self@.to_pause(),
    {
        match self.state {
            StreamLifecycleState::Playing => Some(StreamCommand::Stop),
            StreamLifecycleState::Paused => None,
        }
    }

    /// What to ask of the device to switch between playing and paused.
    pub fn toggle_playback(&self) -> (request: StreamCommand)
        ensures
            request == self@.to_toggle(),
    {
        match self.state {
            StreamLifecycleState::Playing => StreamCommand::Stop,
            StreamLifecycleState::Paused => StreamCommand::Start,
        }
    }

    /// Takes in the device's answer to a command. On success the stream is
    /// in the state that the command leads to. On failure the state stays
    /// as it was and the error names what the device could not do.
    pub fn settle(&mut self, command: StreamCommand, succeeded: bool) -> (result: Result<(), StreamStateError>)
        ensures
            final(self)@ == old(self)@.after(command, succeeded),
            result == outcome(command, succeeded),
    {
        if succeeded {
            self.state = match command {
                StreamCommand::Start => StreamLifecycleState::Playing,
                StreamCommand::Stop => StreamLifecycleState::Paused,
            };
            Ok(())
        } else {
            Err(match command {
                StreamCommand::Start => StreamStateError::CannotStart,
                StreamCommand::Stop => StreamStateError::CannotStop,
            })
        }
    }
}

/// Where playing leaves the stream and what its caller sees, given how the
/// device answers if it is asked at all.
pub open spec fn played(state: StreamLifecycleState, succeeded: bool) -> (
    StreamLifecycleState,
    Result<(), StreamStateError>,
) {
    match state.to_play() {
        Some(command) => (state.after(command, succeeded), outcome(command, succeeded)),
        None => (state, Ok(())),
    }
}

/// Where pausing leaves the stream and what its caller sees, given how the
/// device answers if it is asked at all.
pub open spec fn paused(state: StreamLifecycleState, succeeded: bool) -> (
    StreamLifecycleState,
    Result<(), StreamStateError>,
) {
    match state.to_pause() {
        Some(command) => (state.after(command, succeeded), outcome(command, succeeded)),
        None => (state, Ok(())),
    }
}

/// Playing a stream that plays already changes nothing and cannot fail, and
/// so does pausing a stream that is paused already, whatever the device
/// would have answered.
pub proof fn lemma_repeat_is_no_op(succeeded: bool)
    ensures
        played(StreamLifecycleState::Playing, succeeded) == (StreamLifecycleState::Playing, Ok::<(), StreamStateError>(())),
        paused(StreamLifecycleState::Paused, succeeded) == (StreamLifecycleState::Paused, Ok::<(), StreamStateError>(())),
{
}

/// Once playing has succeeded, playing again changes nothing; likewise for
/// pausing.
pub proof fn lemma_play_pause_idempotent(state: StreamLifecycleState, first: bool, second: bool)
    ensures
        played(state, first).1 is Ok ==> played(played(state, first).0, second) == (
            StreamLifecycleState::Playing,
            Ok::<(), StreamStateError>(()),
        ),
        paused(state, first).1 is Ok ==> paused(paused(state, first).0, second) == (
            StreamLifecycleState::Paused,
            Ok::<(), StreamStateError>(()),
        ),
{
}

/// Toggling asks for the opposite of the current state, and a toggle that
/// the device carries out changes the state.
pub proof fn lemma_toggle_switches(state: StreamLifecycleState)
    ensures
        state.after(state.to_toggle(), true) != state,
        state.after(state.to_toggle(), false) == state,
        state.after(state.to_toggle(), true).after(state.after(state.to_toggle(), true).to_toggle(), true) == state,
{
}

} // verus!
