use jellyfin_desktop::session::{MediaMetadata, MediaSession, MetadataUpdate, PlaybackState, SessionCommand};

fn update(title: Option<&str>, artist: Option<&str>, duration_ms: Option<u64>) -> MetadataUpdate {
    MetadataUpdate {
        title: title.map(String::from),
        artist: artist.map(String::from),
        album: None,
        cover_url: None,
        duration_ms,
    }
}

fn published(cmd: Option<SessionCommand>) -> MediaMetadata {
    match cmd {
        Some(SessionCommand::SetMetadata(m)) => m,
        other => panic!("expected metadata, got {:?}", other),
    }
}

#[test]
fn partial_updates_fold_field_by_field() {
    let mut s = MediaSession::new(true);
    s.apply_metadata(update(Some("One"), Some("Artist A"), None));
    s.apply_metadata(update(None, None, Some(1000)));
    s.apply_metadata(update(Some("Two"), None, None));
    let last = published(s.apply_metadata(update(None, Some("Artist B"), None)));
    assert_eq!(last.title, "Two");
    assert_eq!(last.artist.as_deref(), Some("Artist B"));
    assert_eq!(last.duration_ms, Some(1000));
    assert_eq!(last.album, None);
    assert_eq!(s.metadata().title, "Two");
}

#[test]
fn duration_survives_later_metadata() {
    let mut s = MediaSession::new(true);
    s.notify_duration(215_000);
    let m = published(s.notify_metadata("Song".to_string(), None, None, None, None));
    assert_eq!(m.title, "Song");
    assert_eq!(m.duration_ms, Some(215_000));
}

#[test]
fn duration_only_republishes_cached_fields() {
    let mut s = MediaSession::new(true);
    s.notify_metadata(
        "Song".to_string(),
        Some("Band".to_string()),
        Some("Record".to_string()),
        Some("http://cover".to_string()),
        None,
    );
    let m = published(s.notify_duration(90_000));
    assert_eq!(m.title, "Song");
    assert_eq!(m.artist.as_deref(), Some("Band"));
    assert_eq!(m.album.as_deref(), Some("Record"));
    assert_eq!(m.cover_url.as_deref(), Some("http://cover"));
    assert_eq!(m.duration_ms, Some(90_000));
}

#[test]
fn position_follows_playing_flag() {
    let mut s = MediaSession::new(true);
    match s.notify_playback_state(true) {
        Some(SessionCommand::SetPlayback(p)) => assert_eq!(p, PlaybackState::Playing { progress_ms: None }),
        other => panic!("unexpected {:?}", other),
    }
    match s.notify_position(5_000) {
        Some(SessionCommand::SetPlayback(p)) => assert_eq!(p, PlaybackState::Playing { progress_ms: Some(5_000) }),
        other => panic!("unexpected {:?}", other),
    }
    s.notify_playback_state(false);
    match s.notify_position(6_000) {
        Some(SessionCommand::SetPlayback(p)) => assert_eq!(p, PlaybackState::Paused { progress_ms: Some(6_000) }),
        other => panic!("unexpected {:?}", other),
    }
}

#[test]
fn stop_clears_cache_and_playing() {
    let mut s = MediaSession::new(true);
    s.notify_playback_state(true);
    s.notify_metadata("Song".to_string(), Some("Band".to_string()), None, None, Some(10));
    match s.notify_stop() {
        Some(SessionCommand::SetPlayback(p)) => assert_eq!(p, PlaybackState::Stopped),
        other => panic!("unexpected {:?}", other),
    }
    assert!(!s.is_playing());
    assert_eq!(s.metadata().title, "");
    assert_eq!(s.metadata().artist, None);
    assert_eq!(s.metadata().duration_ms, None);
}

#[test]
fn unavailable_session_tracks_state_silently() {
    let mut s = MediaSession::new(false);
    assert!(!s.is_available());
    assert!(s.notify_metadata("Song".to_string(), None, None, None, Some(3)).is_none());
    assert!(s.notify_playback_state(true).is_none());
    assert!(s.notify_position(1).is_none());
    assert!(s.notify_duration(4).is_none());
    assert_eq!(s.metadata().title, "Song");
    assert_eq!(s.metadata().duration_ms, Some(4));
    assert!(s.is_playing());
    assert!(s.notify_stop().is_none());
}

#[test]
fn merge_on_metadata_value() {
    let mut m = MediaMetadata::empty();
    m.merge(update(Some("T"), Some("A"), Some(7)));
    m.merge(update(None, None, None));
    assert_eq!(m.title, "T");
    assert_eq!(m.artist.as_deref(), Some("A"));
    assert_eq!(m.duration_ms, Some(7));
    let copy = m.duplicate();
    assert_eq!(copy.title, "T");
    assert_eq!(copy.artist.as_deref(), Some("A"));
}
