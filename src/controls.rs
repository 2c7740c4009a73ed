//! Translation of native media-control events into application actions.
//!
//! Each platform backend reports control requests in its own vocabulary; the
//! caller converts them into [`NativeEvent`] and [`translate`] maps each one
//! to at most one [`ControlAction`]. Translation is a pure function of the
//! event. Where an action goes is fixed by [`ControlAction::route`]: plain
//! actions are forwarded to the frontend as a tag, actions with a payload as
//! typed events, and raise and quit are handled by the host itself.

use vstd::prelude::*;

verus! {

#[derive(Debug, Clone, Copy, PartialEq, Eq, Structural)]
pub enum SeekDirection {
    Forward,
    Backward,
}

/// A control request as a native backend reports it. Durations are in
/// milliseconds; the volume of `SetVolume` stays with the caller.
#[derive(Debug, Clone, Copy, PartialEq, Eq, Structural)]
pub enum NativeEvent {
    Play,
    Pause,
    Toggle,
    Next,
    Previous,
    Stop,
    Seek(SeekDirection),
    SeekBy(SeekDirection, u64),
    SetPosition(u64),
    SetVolume,
    OpenUri,
    Raise,
    Quit,
}

/// The closed set of application-level control actions.
#[derive(Debug, Clone, Copy, PartialEq, Eq, Structural)]
pub enum ControlAction {
    Play,
    Pause,
    TogglePlayPause,
    Next,
    Previous,
    Stop,
    SeekForward,
    SeekBackward,
    /// Relative seek, in signed milliseconds.
    SeekByDelta(i64),
    /// Absolute position, in milliseconds.
    SetPosition(u64),
    SetVolume,
    RaiseWindow,
    Quit,
}

/// Where an action is delivered.
#[derive(Debug, Clone, Copy, PartialEq, Eq)]
pub enum ControlRoute {
    /// Emitted to the frontend as a control event carrying this tag.
    ControlEvent(&'static str),
    /// Emitted to the frontend as a relative seek.
    SeekBy(i64),
    /// Emitted to the frontend as an absolute position.
    SetPosition(u64),
    /// Emitted to the frontend with the volume the backend reported.
    SetVolume,
    /// Handled by the host: unminimize and focus the main window.
    RaiseWindow,
    /// Handled by the host: exit with status 0.
    Quit,
}

/// Magnitude of a relative seek as a signed count, saturated at `i64::MAX`.
pub open spec fn seek_magnitude(ms: u64) -> i64 {
    if ms > i64::MAX as u64 {
        i64::MAX
    } else {
        ms as i64
    }
}

/// Signed delta of a relative seek: positive forward, negative backward.
pub open spec fn signed_delta(direction: SeekDirection, ms: u64) -> i64 {
    match direction {
        SeekDirection::Forward => seek_magnitude(ms),
        SeekDirection::Backward => (-seek_magnitude(ms)) as i64,
    }
}

pub open spec fn translate_spec(event: NativeEvent) -> Option<ControlAction> {
    match event {
        NativeEvent::Play => Some(ControlAction::Play),
        NativeEvent::Pause => Some(ControlAction::Pause),
        NativeEvent::Toggle => Some(ControlAction::TogglePlayPause),
        NativeEvent::Next => Some(ControlAction::Next),
        NativeEvent::Previous => Some(ControlAction::Previous),
        NativeEvent::Stop => Some(ControlAction::Stop),
        NativeEvent::Seek(SeekDirection::Forward) => Some(ControlAction::SeekForward),
        NativeEvent::Seek(SeekDirection::Backward) => Some(ControlAction::SeekBackward),
        NativeEvent::SeekBy(direction, ms) => Some(ControlAction::SeekByDelta(signed_delta(direction, ms))),
        NativeEvent::SetPosition(ms) => Some(ControlAction::SetPosition(ms)),
        NativeEvent::SetVolume => Some(ControlAction::SetVolume),
        NativeEvent::OpenUri => None,
        NativeEvent::Raise => Some(ControlAction::RaiseWindow),
        NativeEvent::Quit => Some(ControlAction::Quit),
    }
}

/// Tag under which a payload-free action is forwarded.
pub open spec fn action_tag(action: ControlAction) -> Option<Seq<char>> {
    match action {
        ControlAction::Play => Some("play"@),
        ControlAction::Pause => Some("pause"@),
        ControlAction::TogglePlayPause => Some("play_pause"@),
        ControlAction::Next => Some("next_track"@),
        ControlAction::Previous => Some("previous_track"@),
        ControlAction::Stop => Some("stop"@),
        ControlAction::SeekForward => Some("seek_forward"@),
        ControlAction::SeekBackward => Some("seek_backward"@),
        _ => None,
    }
}

/// Maps a native event to the action it requests; events outside the closed
/// set are dropped.
pub fn translate(event: NativeEvent) -> (r: Option<ControlAction>)
    ensures
        r == translate_spec(event),
{
    match event {
        NativeEvent::Play => Some(ControlAction::Play),
        NativeEvent::Pause => Some(ControlAction::Pause),
        NativeEvent::Toggle => Some(ControlAction::TogglePlayPause),
        NativeEvent::Next => Some(ControlAction::Next),
        NativeEvent::Previous => Some(ControlAction::Previous),
        NativeEvent::Stop => Some(ControlAction::Stop),
        NativeEvent::Seek(SeekDirection::Forward) => Some(ControlAction::SeekForward),
        NativeEvent::Seek(SeekDirection::Backward) => Some(ControlAction::SeekBackward),
        NativeEvent::SeekBy(direction, ms) => {
            let magnitude: i64 = if ms > i64::MAX as u64 {
                i64::MAX
            } else {
                ms as i64
            };
            let delta: i64 = match direction {
                SeekDirection::Forward => magnitude,
                SeekDirection::Backward => -magnitude,
            };
            Some(ControlAction::SeekByDelta(delta))
        },
        NativeEvent::SetPosition(ms) => Some(ControlAction::SetPosition(ms)),
        NativeEvent::SetVolume => Some(ControlAction::SetVolume),
        NativeEvent::OpenUri => None,
        NativeEvent::Raise => Some(ControlAction::RaiseWindow),
        NativeEvent::Quit => Some(ControlAction::Quit),
    }
}

impl ControlAction {
    /// Where this action is delivered.
    pub fn route(&self) -> (r: ControlRoute)
        ensures
            action_tag(*self) is Some ==> (r matches ControlRoute::ControlEvent(tag) && tag@
                == action_tag(*self)->0),
            *self matches ControlAction::SeekByDelta(d) ==> r == ControlRoute::SeekBy(d),
            *self matches ControlAction::SetPosition(ms) ==> r == ControlRoute::SetPosition(ms),
            *self is SetVolume ==> r is SetVolume,
            *self is RaiseWindow ==> r is RaiseWindow,
            *self is Quit ==> r is Quit,
    {
        match self {
            ControlAction::Play => ControlRoute::ControlEvent("play"),
            ControlAction::Pause => ControlRoute::ControlEvent("pause"),
            ControlAction::TogglePlayPause => ControlRoute::ControlEvent("play_pause"),
            ControlAction::Next => ControlRoute::ControlEvent("next_track"),
            ControlAction::Previous => ControlRoute::ControlEvent("previous_track"),
            ControlAction::Stop => ControlRoute::ControlEvent("stop"),
            ControlAction::SeekForward => ControlRoute::ControlEvent("seek_forward"),
            ControlAction::SeekBackward => ControlRoute::ControlEvent("seek_backward"),
            ControlAction::SeekByDelta(d) => ControlRoute::SeekBy(*d),
            ControlAction::SetPosition(ms) => ControlRoute::SetPosition(*ms),
            ControlAction::SetVolume => ControlRoute::SetVolume,
            ControlAction::RaiseWindow => ControlRoute::RaiseWindow,
            ControlAction::Quit => ControlRoute::Quit,
        }
    }
}

} // verus!
