use jellyfin_desktop::controls::{translate, ControlAction, ControlRoute, NativeEvent, SeekDirection};

fn tag_of(e: NativeEvent) -> &'static str {
    match translate(e).map(|a| a.route()) {
        Some(ControlRoute::ControlEvent(tag)) => tag,
        other => panic!("expected a tag, got {:?}", other),
    }
}

#[test]
fn plain_events_map_to_tags() {
    assert_eq!(tag_of(NativeEvent::Play), "play");
    assert_eq!(tag_of(NativeEvent::Pause), "pause");
    assert_eq!(tag_of(NativeEvent::Toggle), "play_pause");
    assert_eq!(tag_of(NativeEvent::Next), "next_track");
    assert_eq!(tag_of(NativeEvent::Previous), "previous_track");
    assert_eq!(tag_of(NativeEvent::Stop), "stop");
    assert_eq!(tag_of(NativeEvent::Seek(SeekDirection::Forward)), "seek_forward");
    assert_eq!(tag_of(NativeEvent::Seek(SeekDirection::Backward)), "seek_backward");
}

#[test]
fn seek_by_is_signed() {
    assert_eq!(
        translate(NativeEvent::SeekBy(SeekDirection::Forward, 10_000)),
        Some(ControlAction::SeekByDelta(10_000))
    );
    assert_eq!(
        translate(NativeEvent::SeekBy(SeekDirection::Backward, 5_000)),
        Some(ControlAction::SeekByDelta(-5_000))
    );
    assert_eq!(ControlAction::SeekByDelta(-5_000).route(), ControlRoute::SeekBy(-5_000));
}

#[test]
fn seek_by_saturates_at_largest_delta() {
    assert_eq!(
        translate(NativeEvent::SeekBy(SeekDirection::Forward, u64::MAX)),
        Some(ControlAction::SeekByDelta(i64::MAX))
    );
    assert_eq!(
        translate(NativeEvent::SeekBy(SeekDirection::Backward, u64::MAX)),
        Some(ControlAction::SeekByDelta(-i64::MAX))
    );
}

#[test]
fn payload_events_route_as_typed_events() {
    let a = translate(NativeEvent::SetPosition(42_000)).unwrap();
    assert_eq!(a, ControlAction::SetPosition(42_000));
    assert_eq!(a.route(), ControlRoute::SetPosition(42_000));
    assert_eq!(translate(NativeEvent::SetVolume).unwrap().route(), ControlRoute::SetVolume);
}

#[test]
fn raise_and_quit_are_local() {
    assert_eq!(translate(NativeEvent::Raise).unwrap().route(), ControlRoute::RaiseWindow);
    assert_eq!(translate(NativeEvent::Quit).unwrap().route(), ControlRoute::Quit);
}

#[test]
fn unknown_events_are_dropped() {
    assert_eq!(translate(NativeEvent::OpenUri), None);
}
