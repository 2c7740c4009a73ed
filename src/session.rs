//! The media session bridge.
//!
//! [`MediaSession`] keeps the last known metadata and whether playback is
//! running, and turns each notification from the frontend into the command to
//! push to the OS media session. Metadata updates are partial: a field left
//! out keeps its cached value. When no OS session could be opened the bridge
//! still tracks state but produces no commands.

use vstd::prelude::*;

verus! {

/// Now-playing metadata.
#[derive(Debug)]
pub struct MediaMetadata {
    pub title: String,
    pub artist: Option<String>,
    pub album: Option<String>,
    pub cover_url: Option<String>,
    pub duration_ms: Option<u64>,
}

/// A partial metadata update: `None` leaves the cached field as it is.
#[derive(Debug)]
pub struct MetadataUpdate {
    pub title: Option<String>,
    pub artist: Option<String>,
    pub album: Option<String>,
    pub cover_url: Option<String>,
    pub duration_ms: Option<u64>,
}

pub struct MetadataModel {
    pub title: Seq<char>,
    pub artist: Option<Seq<char>>,
    pub album: Option<Seq<char>>,
    pub cover_url: Option<Seq<char>>,
    pub duration_ms: Option<u64>,
}

pub struct UpdateModel {
    pub title: Option<Seq<char>>,
    pub artist: Option<Seq<char>>,
    pub album: Option<Seq<char>>,
    pub cover_url: Option<Seq<char>>,
    pub duration_ms: Option<u64>,
}

pub open spec fn opt_text(o: Option<String>) -> Option<Seq<char>> {
    match o {
        Some(s) => Some(s@),
        None => None,
    }
}

impl View for MediaMetadata {
    type V = MetadataModel;

    open spec fn view(&self) -> MetadataModel {
        MetadataModel {
            title: self.title@,
            artist: opt_text(self.artist),
            album: opt_text(self.album),
            cover_url: opt_text(self.cover_url),
            duration_ms: self.duration_ms,
        }
    }
}

impl View for MetadataUpdate {
    type V = UpdateModel;

    open spec fn view(&self) -> UpdateModel {
        UpdateModel {
            title: opt_text(self.title),
            artist: opt_text(self.artist),
            album: opt_text(self.album),
            cover_url: opt_text(self.cover_url),
            duration_ms: self.duration_ms,
        }
    }
}

/// `given` if present, else `kept`.
pub open spec fn override_with<T>(kept: T, given: Option<T>) -> T {
    match given {
        Some(v) => v,
        None => kept,
    }
}

/// `given` if present, else `kept`, for fields that are optional themselves.
pub open spec fn override_opt<T>(kept: Option<T>, given: Option<T>) -> Option<T> {
    if given is Some {
        given
    } else {
        kept
    }
}

/// The cached metadata after one partial update.
pub open spec fn merge_spec(m: MetadataModel, u: UpdateModel) -> MetadataModel {
    MetadataModel {
        title: override_with(m.title, u.title),
        artist: override_opt(m.artist, u.artist),
        album: override_opt(m.album, u.album),
        cover_url: override_opt(m.cover_url, u.cover_url),
        duration_ms: override_opt(m.duration_ms, u.duration_ms),
    }
}

/// The cached metadata after a sequence of partial updates, in call order.
pub open spec fn fold_updates(base: MetadataModel, ups: Seq<UpdateModel>) -> MetadataModel
    decreases ups.len(),
{
    if ups.len() == 0 {
        base
    } else {
        merge_spec(fold_updates(base, ups.drop_last()), ups.last())
    }
}

/// The last value present in `vals`, if any.
pub open spec fn last_given<T>(vals: Seq<Option<T>>) -> Option<T>
    decreases vals.len(),
{
    if vals.len() == 0 {
        None
    } else if vals.last() is Some {
        vals.last()
    } else {
        last_given(vals.drop_last())
    }
}

/// The update that only sets the duration.
pub open spec fn duration_only(ms: u64) -> UpdateModel {
    UpdateModel { title: None, artist: None, album: None, cover_url: None, duration_ms: Some(ms) }
}

/// Metadata before any notification, and after a stop.
pub open spec fn empty_metadata() -> MetadataModel {
    MetadataModel { title: Seq::empty(), artist: None, album: None, cover_url: None, duration_ms: None }
}

/// Playback state as the OS session shows it; progress in milliseconds.
#[derive(Debug, Clone, Copy, PartialEq, Eq, Structural)]
pub enum PlaybackState {
    Stopped,
    Playing { progress_ms: Option<u64> },
    Paused { progress_ms: Option<u64> },
}

/// Playing or paused according to `playing`, with the given progress.
pub open spec fn running_state(playing: bool, progress_ms: Option<u64>) -> PlaybackState {
    if playing {
        PlaybackState::Playing { progress_ms }
    } else {
        PlaybackState::Paused { progress_ms }
    }
}

/// What to push to the OS media session.
#[derive(Debug)]
pub enum SessionCommand {
    SetPlayback(PlaybackState),
    SetMetadata(MediaMetadata),
}

/// Whether `r` pushes metadata with contents `m`.
pub open spec fn publishes_metadata(r: Option<SessionCommand>, m: MetadataModel) -> bool {
    match r {
        Some(SessionCommand::SetMetadata(published)) => published@ == m,
        _ => false,
    }
}

pub struct SessionModel {
    /// Whether an OS media session is attached.
    pub available: bool,
    /// Whether the frontend last reported playback as running.
    pub playing: bool,
    /// The cached metadata.
    pub metadata: MetadataModel,
}

fn clone_opt_text(o: &Option<String>) -> (r: Option<String>)
    ensures
        opt_text(r) == opt_text(*o),
{
    match o {
        Some(s) => Some(s.clone()),
        None => None,
    }
}

impl MediaMetadata {
    /// Metadata with an empty title and every other field absent.
    pub fn empty() -> (r: MediaMetadata)
        ensures
            r@ == empty_metadata(),
    {
        MediaMetadata {
            title: String::new(),
            artist: None,
            album: None,
            cover_url: None,
            duration_ms: None,
        }
    }

    /// A copy with the same contents.
    pub fn duplicate(&self) -> (r: MediaMetadata)
        ensures
            r@ == self@,
    {
        MediaMetadata {
            title: self.title.clone(),
            artist: clone_opt_text(&self.artist),
            album: clone_opt_text(&self.album),
            cover_url: clone_opt_text(&self.cover_url),
            duration_ms: self.duration_ms,
        }
    }

    /// Overwrites the fields that `update` provides and keeps the others.
    pub fn merge(&mut self, update: MetadataUpdate)
        ensures
            final(self)@ == merge_spec(old(self)@, update@),
    {
        if let Some(t) = update.title {
            self.title = t;
        }
        if update.artist.is_some() {
            self.artist = update.artist;
        }
        if update.album.is_some() {
            self.album = update.album;
        }
        if update.cover_url.is_some() {
            self.cover_url = update.cover_url;
        }
        if update.duration_ms.is_some() {
            self.duration_ms = update.duration_ms;
        }
    }
}

/// The bridge between frontend notifications and the OS media session.
pub struct MediaSession {
    available: bool,
    playing: bool,
    metadata: MediaMetadata,
}

impl View for MediaSession {
    type V = SessionModel;

    closed spec fn view(&self) -> SessionModel {
        SessionModel { available: self.available, playing: self.playing, metadata: self.metadata@ }
    }
}

impl MediaSession {
    /// A bridge with nothing cached; `available` tells whether an OS media
    /// session could be opened.
    pub fn new(available: bool) -> (r: MediaSession)
        ensures
            r@ == (SessionModel { available, playing: false, metadata: empty_metadata() }),
    {
        MediaSession { available, playing: false, metadata: MediaMetadata::empty() }
    }

    pub fn is_available(&self) -> (r: bool)
        ensures
            r == self@.available,
    {
        self.available
    }

    pub fn is_playing(&self) -> (r: bool)
        ensures
            r == self@.playing,
    {
        self.playing
    }

    /// The cached metadata.
    pub fn metadata(&self) -> (r: &MediaMetadata)
        ensures
            r@ == self@.metadata,
    {
        &self.metadata
    }

    /// Merges a partial update into the cache and republishes the whole
    /// merged metadata.
    pub fn apply_metadata(&mut self, update: MetadataUpdate) -> (r: Option<SessionCommand>)
        ensures
            final(self)@ == (SessionModel {
                metadata: merge_spec(old(self)@.metadata, update@),
                ..old(self)@
            }),
            r is Some <==> old(self)@.available,
            r is Some ==> publishes_metadata(r, final(self)@.metadata),
    {
        self.metadata.merge(update);
        if self.available {
            Some(SessionCommand::SetMetadata(self.metadata.duplicate()))
        } else {
            None
        }
    }

    /// New metadata from the frontend: the title is always given, the other
    /// fields only when known.
    pub fn notify_metadata(
        &mut self,
        title: String,
        artist: Option<String>,
        album: Option<String>,
        cover_url: Option<String>,
        duration_ms: Option<u64>,
    ) -> (r: Option<SessionCommand>)
        ensures
            final(self)@ == (SessionModel {
                metadata: merge_spec(
                    old(self)@.metadata,
                    UpdateModel {
                        title: Some(title@),
                        artist: opt_text(artist),
                        album: opt_text(album),
                        cover_url: opt_text(cover_url),
                        duration_ms,
                    },
                ),
                ..old(self)@
            }),
            r is Some <==> old(self)@.available,
            r is Some ==> publishes_metadata(r, final(self)@.metadata),
    {
        self.apply_metadata(MetadataUpdate { title: Some(title), artist, album, cover_url, duration_ms })
    }

    /// The duration became known after the rest of the metadata.
    pub fn notify_duration(&mut self, duration_ms: u64) -> (r: Option<SessionCommand>)
        ensures
            final(self)@ == (SessionModel {
                metadata: merge_spec(old(self)@.metadata, duration_only(duration_ms)),
                ..old(self)@
            }),
            r is Some <==> old(self)@.available,
            r is Some ==> publishes_metadata(r, final(self)@.metadata),
    {
        self.apply_metadata(
            MetadataUpdate {
                title: None,
                artist: None,
                album: None,
                cover_url: None,
                duration_ms: Some(duration_ms),
            },
        )
    }

    /// Playback started or paused, without a position.
    pub fn notify_playback_state(&mut self, playing: bool) -> (r: Option<SessionCommand>)
        ensures
            final(self)@ == (SessionModel { playing, ..old(self)@ }),
            r is Some <==> old(self)@.available,
            r is Some ==> r->0 == SessionCommand::SetPlayback(running_state(playing, None)),
    {
        self.playing = playing;
        if self.available {
            Some(SessionCommand::SetPlayback(if playing {
                PlaybackState::Playing { progress_ms: None }
            } else {
                PlaybackState::Paused { progress_ms: None }
            }))
        } else {
            None
        }
    }

    /// A position report: playing or paused as last notified, at
    /// `position_ms`.
    pub fn notify_position(&self, position_ms: u64) -> (r: Option<SessionCommand>)
        ensures
            r is Some <==> self@.available,
            r is Some ==> r->0 == SessionCommand::SetPlayback(
                running_state(self@.playing, Some(position_ms)),
            ),
    {
        if self.available {
            let progress_ms = Some(position_ms);
            Some(SessionCommand::SetPlayback(if self.playing {
                PlaybackState::Playing { progress_ms }
            } else {
                PlaybackState::Paused { progress_ms }
            }))
        } else {
            None
        }
    }

    /// Playback stopped: not playing, metadata cleared.
    pub fn notify_stop(&mut self) -> (r: Option<SessionCommand>)
        ensures
            final(self)@ == (SessionModel {
                playing: false,
                metadata: empty_metadata(),
                ..old(self)@
            }),
            r is Some <==> old(self)@.available,
            r is Some ==> r->0 == SessionCommand::SetPlayback(PlaybackState::Stopped),
    {
        self.playing = false;
        self.metadata = MediaMetadata::empty();
        if self.available {
            Some(SessionCommand::SetPlayback(PlaybackState::Stopped))
        } else {
            None
        }
    }
}

/// After any sequence of partial updates, each cached field holds the last
/// value that an update provided for it, or its starting value if none did.
pub proof fn lemma_fold_keeps_last_given(base: MetadataModel, ups: Seq<UpdateModel>)
    ensures
        fold_updates(base, ups).title == override_with(
            base.title,
            last_given(ups.map_values(|u: UpdateModel| u.title)),
        ),
        fold_updates(base, ups).artist == override_opt(
            base.artist,
            last_given(ups.map_values(|u: UpdateModel| u.artist)),
        ),
        fold_updates(base, ups).album == override_opt(
            base.album,
            last_given(ups.map_values(|u: UpdateModel| u.album)),
        ),
        fold_updates(base, ups).cover_url == override_opt(
            base.cover_url,
            last_given(ups.map_values(|u: UpdateModel| u.cover_url)),
        ),
        fold_updates(base, ups).duration_ms == override_opt(
            base.duration_ms,
            last_given(ups.map_values(|u: UpdateModel| u.duration_ms)),
        ),
    decreases ups.len(),
{
    if ups.len() > 0 {
        let rest = ups.drop_last();
        lemma_fold_keeps_last_given(base, rest);
        assert(ups.map_values(|u: UpdateModel| u.title).drop_last() =~= rest.map_values(
            |u: UpdateModel| u.title,
        ));
        assert(ups.map_values(|u: UpdateModel| u.artist).drop_last() =~= rest.map_values(
            |u: UpdateModel| u.artist,
        ));
        assert(ups.map_values(|u: UpdateModel| u.album).drop_last() =~= rest.map_values(
            |u: UpdateModel| u.album,
        ));
        assert(ups.map_values(|u: UpdateModel| u.cover_url).drop_last() =~= rest.map_values(
            |u: UpdateModel| u.cover_url,
        ));
        assert(ups.map_values(|u: UpdateModel| u.duration_ms).drop_last() =~= rest.map_values(
            |u: UpdateModel| u.duration_ms,
        ));
    }
}

/// A duration reported on its own survives a later metadata update that does
/// not carry one, and is published with it.
pub proof fn lemma_duration_survives_metadata(m: MetadataModel, duration_ms: u64, u: UpdateModel)
    requires
        u.duration_ms is None,
    ensures
        merge_spec(merge_spec(m, duration_only(duration_ms)), u).duration_ms == Some(duration_ms),
{
}

} // verus!
