//! What console commands and keyboard shortcuts change in the session and
//! in the settings document, and what they ask of the audio backend.

use vstd::prelude::*;
use crate::catalog::Catalog;
use crate::command::{
    command_of, lemma_command_in_range, normalize, normalized, parse_command, Command, Target,
};
use crate::crash_reporter::{snapshot_of, CauseView, CrashReporter, ReporterView};
use crate::player::{
    among_first, get_next_song_index, is_next_song, play_next_song, track_started,
};
use crate::playlist_settings::{
    settings_of, span_since, span_sum, update_song_settings, AfterSong, PersistentSettings,
    SessionSettings, SessionView, SongSettings,
};
use crate::table::value_of;
use crate::utils::SelectionError;
use crate::volume::{playback_gain, playback_level, Volume};

verus! {

/// What the operator is to be told.
#[derive(Clone, Copy, Debug, PartialEq, Eq)]
pub enum Notice {
    Paused,
    Resumed,
    Muted,
    Unmuted,
    /// The volume of the playlist is now this.
    PlaylistVolume(Volume),
    /// The volume of the current track is now this.
    SongVolume(Volume),
    /// The track of this index starts.
    NowPlaying(usize),
    /// The track of this index starts over.
    Restarting(usize),
    KeyboardEnabled,
    KeyboardDisabled,
    ShuffleEnabled,
    ShuffleDisabled,
    /// The current track is now starred.
    Starred,
    /// The current track is no longer starred.
    Unstarred,
    /// The current track was not starred.
    NotStarred,
    /// The current track is now marked as having lyrics.
    HasLyrics,
    /// The current track is no longer marked as having lyrics.
    HasNoLyrics,
    /// The current track was not marked as having lyrics.
    HadNoLyrics,
    /// Tracks with lyrics are passed over from now on.
    LyricsExcluded,
    /// Tracks with lyrics play again.
    LyricsIncluded,
    /// The volumes, on request.
    Volumes,
    /// The playlist, on request.
    Playlist,
    /// The starred tracks, on request.
    StarredSongs,
    /// The state of the session, on request.
    Status,
    /// The index of the current track, on request.
    Index,
    /// The progress of the current track, on request.
    Progress,
    /// The chances of the tracks, on request.
    Probabilities,
    /// The play count of the current track, on request.
    PlayCount,
    /// The list of commands, on request.
    Commands,
    /// The player closes.
    Closing,
    /// The line is no command.
    UnknownCommand,
    /// The command needs a number as volume.
    NeedsNumber,
    /// The index is none of the playlist.
    NoSuchIndex,
    /// The command needs an index or the name of a track.
    NeedsIndexOrName,
}

/// What is to be done outside the session: by the audio backend, to the
/// settings file, towards the operator.
#[derive(Clone, Copy, Debug, PartialEq, Eq)]
pub enum Action {
    /// Pause playback.
    Pause,
    /// Resume playback.
    Resume,
    /// Play at this loudness, in hundred-millionths of full scale.
    SetGain(u32),
    /// Drop what is queued, then load and play the track of this index.
    Start(usize),
    /// Write the settings document.
    Save,
    /// Tell the operator.
    Report(Notice),
    /// End the process in order.
    Exit,
}

/// Whether two documents hold the same.
pub open spec fn same_document(before: PersistentSettings, after: PersistentSettings) -> bool {
    &&& after.wf()
    &&& after.volume == before.volume
    &&& after.song_settings@ == before.song_settings@
    &&& after.song_probability_distribution@ == before.song_probability_distribution@
    &&& after.song_play_count@ == before.song_play_count@
}

/// The loudness at which the track `name` plays.
pub open spec fn gain_of(muted: bool, document: PersistentSettings, name: Seq<char>) -> u32 {
    playback_level(muted, document.volume, settings_of(document.song_settings@, name).song_volume) as u32
}

/// What pausing makes of the session: the stretch played since the last
/// start is added to the progress.
pub open spec fn paused_session(before: SessionView, now: u64) -> SessionView {
    SessionView {
        song_progress: span_sum(before.song_progress, span_since(before.duration_start, now)),
        ..before
    }
}

/// Pauses playback, unless it is paused.
pub fn pause(session_settings: &mut SessionSettings, paused: bool, now: u64) -> (actions: Vec<
    Action,
>)
    ensures
        final(session_settings)@ == if paused {
            old(session_settings)@
        } else {
            paused_session(old(session_settings)@, now)
        },
        actions@ == if paused {
            Seq::<Action>::empty()
        } else {
            seq![Action::Pause, Action::Report(Notice::Paused)]
        },
{
    let mut actions: Vec<Action> = Vec::new();
    if !paused {
        let played = now.saturating_sub(session_settings.duration_start);
        session_settings.add_song_progress(played);
        actions.push(Action::Pause);
        actions.push(Action::Report(Notice::Paused));
    }
    assert(actions@ =~= if paused {
        Seq::<Action>::empty()
    } else {
        seq![Action::Pause, Action::Report(Notice::Paused)]
    });
    actions
}

/// Resumes playback, if it is paused: a new stretch begins at `now`.
pub fn resume(session_settings: &mut SessionSettings, paused: bool, now: u64) -> (actions: Vec<
    Action,
>)
    ensures
        final(session_settings)@ == if paused {
            SessionView { duration_start: now, ..old(session_settings)@ }
        } else {
            old(session_settings)@
        },
        actions@ == if paused {
            seq![Action::Resume, Action::Report(Notice::Resumed)]
        } else {
            Seq::<Action>::empty()
        },
{
    let mut actions: Vec<Action> = Vec::new();
    if paused {
        session_settings.duration_start = now;
        actions.push(Action::Resume);
        actions.push(Action::Report(Notice::Resumed));
    }
    assert(actions@ =~= if paused {
        seq![Action::Resume, Action::Report(Notice::Resumed)]
    } else {
        Seq::<Action>::empty()
    });
    actions
}

/// Pauses playback, or resumes it where it is paused.
pub fn pause_or_play(session_settings: &mut SessionSettings, paused: bool, now: u64) -> (actions:
    Vec<Action>)
    ensures
        final(session_settings)@ == if paused {
            SessionView { duration_start: now, ..old(session_settings)@ }
        } else {
            paused_session(old(session_settings)@, now)
        },
        actions@ == if paused {
            seq![Action::Resume, Action::Report(Notice::Resumed)]
        } else {
            seq![Action::Pause, Action::Report(Notice::Paused)]
        },
{
    if paused {
        resume(session_settings, paused, now)
    } else {
        pause(session_settings, paused, now)
    }
}

/// The loudness at which the current track plays.
fn current_gain(
    muted: bool,
    session_settings: &SessionSettings,
    persistent_settings: &PersistentSettings,
) -> (gain: u32)
    requires
        persistent_settings.wf(),
    ensures
        gain == gain_of(muted, *persistent_settings, session_settings.current_song_name@),
{
    let song = persistent_settings.get_song_settings(session_settings.current_song_name.as_str());
    playback_gain(muted, persistent_settings.volume, song.song_volume)
}

/// Silences playback, unless the session is muted.
pub fn mute(session_settings: &mut SessionSettings) -> (actions: Vec<Action>)
    ensures
        final(session_settings)@ == (SessionView { is_muted: true, ..old(session_settings)@ }),
        actions@ == if old(session_settings).is_muted {
            Seq::<Action>::empty()
        } else {
            seq![Action::SetGain(0), Action::Report(Notice::Muted)]
        },
{
    if !session_settings.is_muted {
        session_settings.is_muted = true;
        vec![Action::SetGain(0), Action::Report(Notice::Muted)]
    } else {
        Vec::new()
    }
}

/// Brings the sound back, if the session is muted.
pub fn unmute(session_settings: &mut SessionSettings, persistent_settings: &PersistentSettings) -> (actions:
    Vec<Action>)
    requires
        persistent_settings.wf(),
    ensures
        final(session_settings)@ == (SessionView { is_muted: false, ..old(session_settings)@ }),
        actions@ == if old(session_settings).is_muted {
            seq![
                Action::SetGain(
                    gain_of(false, *persistent_settings, old(session_settings).current_song_name@),
                ),
                Action::Report(Notice::Unmuted),
                Action::Report(Notice::PlaylistVolume(persistent_settings.volume)),
            ]
        } else {
            Seq::<Action>::empty()
        },
{
    if session_settings.is_muted {
        let gain = current_gain(false, session_settings, persistent_settings);
        session_settings.is_muted = false;
        vec![
            Action::SetGain(gain),
            Action::Report(Notice::Unmuted),
            Action::Report(Notice::PlaylistVolume(persistent_settings.volume)),
        ]
    } else {
        Vec::new()
    }
}

/// Mutes the session, or brings the sound back where it is muted.
pub fn switch_muted(
    session_settings: &mut SessionSettings,
    persistent_settings: &PersistentSettings,
) -> (actions: Vec<Action>)
    requires
        persistent_settings.wf(),
    ensures
        final(session_settings)@ == (SessionView {
            is_muted: !old(session_settings).is_muted,
            ..old(session_settings)@
        }),
        actions@ == if old(session_settings).is_muted {
            seq![
                Action::SetGain(
                    gain_of(false, *persistent_settings, old(session_settings).current_song_name@),
                ),
                Action::Report(Notice::Unmuted),
                Action::Report(Notice::PlaylistVolume(persistent_settings.volume)),
            ]
        } else {
            seq![Action::SetGain(0), Action::Report(Notice::Muted)]
        },
{
    if session_settings.is_muted {
        unmute(session_settings, persistent_settings)
    } else {
        mute(session_settings)
    }
}

/// What a change of the playlist's volume to `volume` makes of the
/// document: nothing else changes.
pub open spec fn volume_changed(
    before: PersistentSettings,
    after: PersistentSettings,
    volume: Volume,
) -> bool {
    &&& after.wf()
    &&& after.volume == volume
    &&& after.song_settings@ == before.song_settings@
    &&& after.song_probability_distribution@ == before.song_probability_distribution@
    &&& after.song_play_count@ == before.song_play_count@
}

/// What follows a change of the playlist's volume: the new loudness, word of
/// it, and the document to be written.
pub open spec fn volume_actions(after: PersistentSettings, muted: bool, name: Seq<char>) -> Seq<
    Action,
> {
    seq![
        Action::SetGain(gain_of(muted, after, name)),
        Action::Report(Notice::PlaylistVolume(after.volume)),
        Action::Save,
    ]
}

/// Sets the volume of the playlist. A volume of nothing mutes the session,
/// any other brings the sound back.
pub fn apply_volume(
    volume: Volume,
    session_settings: &mut SessionSettings,
    persistent_settings: &mut PersistentSettings,
) -> (actions: Vec<Action>)
    requires
        old(persistent_settings).wf(),
    ensures
        volume_changed(*old(persistent_settings), *final(persistent_settings), volume),
        final(session_settings)@ == (SessionView {
            is_muted: volume@ == 0,
            ..old(session_settings)@
        }),
        actions@ == volume_actions(
            *final(persistent_settings),
            volume@ == 0,
            old(session_settings).current_song_name@,
        ),
{
    persistent_settings.volume = volume;
    session_settings.is_muted = volume.is_silent();
    let gain = current_gain(session_settings.is_muted, session_settings, persistent_settings);
    vec![Action::SetGain(gain), Action::Report(Notice::PlaylistVolume(volume)), Action::Save]
}

/// Makes the playlist one step louder.
pub fn increase_volume(
    session_settings: &mut SessionSettings,
    persistent_settings: &mut PersistentSettings,
) -> (actions: Vec<Action>)
    requires
        old(persistent_settings).wf(),
    ensures
        volume_changed(
            *old(persistent_settings),
            *final(persistent_settings),
            old(persistent_settings).volume.louder(),
        ),
        final(session_settings)@ == (SessionView {
            is_muted: false,
            ..old(session_settings)@
        }),
        actions@ == volume_actions(
            *final(persistent_settings),
            false,
            old(session_settings).current_song_name@,
        ),
{
    let volume = persistent_settings.volume.raised();
    proof {
        Volume::lemma_of(persistent_settings.volume@ + crate::volume::STEP as nat);
    }
    apply_volume(volume, session_settings, persistent_settings)
}

/// Makes the playlist one step softer. At silence the session is muted.
pub fn decrease_volume(
    session_settings: &mut SessionSettings,
    persistent_settings: &mut PersistentSettings,
) -> (actions: Vec<Action>)
    requires
        old(persistent_settings).wf(),
    ensures
        volume_changed(
            *old(persistent_settings),
            *final(persistent_settings),
            old(persistent_settings).volume.softer(),
        ),
        final(session_settings)@ == (SessionView {
            is_muted: old(persistent_settings).volume.softer()@ == 0,
            ..old(session_settings)@
        }),
        actions@ == volume_actions(
            *final(persistent_settings),
            old(persistent_settings).volume.softer()@ == 0,
            old(session_settings).current_song_name@,
        ),
{
    let volume = persistent_settings.volume.lowered();
    apply_volume(volume, session_settings, persistent_settings)
}

/// Sets the volume of the playlist to what the command named, or says that
/// it named no number.
pub fn set_volume(
    level: Option<Volume>,
    session_settings: &mut SessionSettings,
    persistent_settings: &mut PersistentSettings,
) -> (actions: Vec<Action>)
    requires
        old(persistent_settings).wf(),
    ensures
        match level {
            Some(volume) => {
                &&& volume_changed(*old(persistent_settings), *final(persistent_settings), volume)
                &&& final(session_settings)@ == (SessionView {
                    is_muted: volume@ == 0,
                    ..old(session_settings)@
                })
                &&& actions@ == volume_actions(
                    *final(persistent_settings),
                    volume@ == 0,
                    old(session_settings).current_song_name@,
                )
            },
            None => {
                &&& same_document(*old(persistent_settings), *final(persistent_settings))
                &&& final(session_settings)@ == old(session_settings)@
                &&& actions@ == seq![Action::Report(Notice::NeedsNumber)]
            },
        },
{
    match level {
        Some(volume) => apply_volume(volume, session_settings, persistent_settings),
        None => vec![Action::Report(Notice::NeedsNumber)],
    }
}

/// What a change of the settings of the track `name` to `settings` makes of
/// the document: nothing else changes.
pub open spec fn settings_changed(
    before: PersistentSettings,
    after: PersistentSettings,
    name: Seq<char>,
    settings: SongSettings,
) -> bool {
    &&& after.wf()
    &&& after.volume == before.volume
    &&& forall|other: Seq<char>| #[trigger]
        value_of(after.song_settings@, other) == if other == name {
            Some(settings)
        } else {
            value_of(before.song_settings@, other)
        }
    &&& after.song_probability_distribution@ == before.song_probability_distribution@
    &&& after.song_play_count@ == before.song_play_count@
}

/// The settings of the current track.
pub open spec fn current_settings(session: SessionView, document: PersistentSettings) -> SongSettings {
    settings_of(document.song_settings@, session.current_song_name)
}

/// Sets the volume of the current track.
pub fn apply_song_volume(
    volume: Volume,
    session_settings: &SessionSettings,
    persistent_settings: &mut PersistentSettings,
) -> (actions: Vec<Action>)
    requires
        old(persistent_settings).wf(),
    ensures
        settings_changed(
            *old(persistent_settings),
            *final(persistent_settings),
            session_settings.current_song_name@,
            SongSettings {
                song_volume: volume,
                ..current_settings(session_settings@, *old(persistent_settings))
            },
        ),
        actions@ == seq![
            Action::SetGain(
                playback_level(
                    session_settings.is_muted,
                    old(persistent_settings).volume,
                    volume,
                ) as u32,
            ),
            Action::Report(Notice::SongVolume(volume)),
            Action::Save,
        ],
{
    let name = session_settings.current_song_name.as_str();
    let mut settings = persistent_settings.get_song_settings(name);
    settings.song_volume = volume;
    let gain = playback_gain(session_settings.is_muted, persistent_settings.volume, volume);
    update_song_settings(persistent_settings, name, settings);
    vec![Action::SetGain(gain), Action::Report(Notice::SongVolume(volume)), Action::Save]
}

/// Makes the current track one step louder.
pub fn increase_song_volume(
    session_settings: &SessionSettings,
    persistent_settings: &mut PersistentSettings,
) -> (actions: Vec<Action>)
    requires
        old(persistent_settings).wf(),
    ensures
        ({
            let settings = current_settings(session_settings@, *old(persistent_settings));
            let volume = settings.song_volume.louder();
            &&& settings_changed(
                *old(persistent_settings),
                *final(persistent_settings),
                session_settings.current_song_name@,
                SongSettings { song_volume: volume, ..settings },
            )
            &&& actions@ == seq![
                Action::SetGain(
                    playback_level(
                        session_settings.is_muted,
                        old(persistent_settings).volume,
                        volume,
                    ) as u32,
                ),
                Action::Report(Notice::SongVolume(volume)),
                Action::Save,
            ]
        }),
{
    let settings = persistent_settings.get_song_settings(
        session_settings.current_song_name.as_str(),
    );
    apply_song_volume(settings.song_volume.raised(), session_settings, persistent_settings)
}

/// Makes the current track one step softer.
pub fn decrease_song_volume(
    session_settings: &SessionSettings,
    persistent_settings: &mut PersistentSettings,
) -> (actions: Vec<Action>)
    requires
        old(persistent_settings).wf(),
    ensures
        ({
            let settings = current_settings(session_settings@, *old(persistent_settings));
            let volume = settings.song_volume.softer();
            &&& settings_changed(
                *old(persistent_settings),
                *final(persistent_settings),
                session_settings.current_song_name@,
                SongSettings { song_volume: volume, ..settings },
            )
            &&& actions@ == seq![
                Action::SetGain(
                    playback_level(
                        session_settings.is_muted,
                        old(persistent_settings).volume,
                        volume,
                    ) as u32,
                ),
                Action::Report(Notice::SongVolume(volume)),
                Action::Save,
            ]
        }),
{
    let settings = persistent_settings.get_song_settings(
        session_settings.current_song_name.as_str(),
    );
    apply_song_volume(settings.song_volume.lowered(), session_settings, persistent_settings)
}

/// Sets the volume of the current track to what the command named, or says
/// that it named no number.
pub fn set_song_volume(
    level: Option<Volume>,
    session_settings: &SessionSettings,
    persistent_settings: &mut PersistentSettings,
) -> (actions: Vec<Action>)
    requires
        old(persistent_settings).wf(),
    ensures
        match level {
            Some(volume) => {
                &&& settings_changed(
                    *old(persistent_settings),
                    *final(persistent_settings),
                    session_settings.current_song_name@,
                    SongSettings {
                        song_volume: volume,
                        ..current_settings(session_settings@, *old(persistent_settings))
                    },
                )
                &&& actions@ == seq![
                    Action::SetGain(
                        playback_level(
                            session_settings.is_muted,
                            old(persistent_settings).volume,
                            volume,
                        ) as u32,
                    ),
                    Action::Report(Notice::SongVolume(volume)),
                    Action::Save,
                ]
            },
            None => {
                &&& same_document(*old(persistent_settings), *final(persistent_settings))
                &&& actions@ == seq![Action::Report(Notice::NeedsNumber)]
            },
        },
{
    match level {
        Some(volume) => apply_song_volume(volume, session_settings, persistent_settings),
        None => vec![Action::Report(Notice::NeedsNumber)],
    }
}

/// Stars the current track, or takes its star away.
pub fn set_starred(
    starred: bool,
    session_settings: &SessionSettings,
    persistent_settings: &mut PersistentSettings,
) -> (actions: Vec<Action>)
    requires
        old(persistent_settings).wf(),
    ensures
        ({
            let settings = current_settings(session_settings@, *old(persistent_settings));
            &&& settings_changed(
                *old(persistent_settings),
                *final(persistent_settings),
                session_settings.current_song_name@,
                SongSettings { starred, ..settings },
            )
            &&& actions@ == seq![
                Action::Report(
                    if starred {
                        Notice::Starred
                    } else if settings.starred {
                        Notice::Unstarred
                    } else {
                        Notice::NotStarred
                    },
                ),
                Action::Save,
            ]
        }),
{
    let name = session_settings.current_song_name.as_str();
    let mut settings = persistent_settings.get_song_settings(name);
    let notice = if starred {
        Notice::Starred
    } else if settings.starred {
        Notice::Unstarred
    } else {
        Notice::NotStarred
    };
    settings.starred = starred;
    update_song_settings(persistent_settings, name, settings);
    vec![Action::Report(notice), Action::Save]
}

/// Stars the current track: it then counts double in the draw.
pub fn star(session_settings: &SessionSettings, persistent_settings: &mut PersistentSettings) -> (actions:
    Vec<Action>)
    requires
        old(persistent_settings).wf(),
    ensures
        settings_changed(
            *old(persistent_settings),
            *final(persistent_settings),
            session_settings.current_song_name@,
            SongSettings {
                starred: true,
                ..current_settings(session_settings@, *old(persistent_settings))
            },
        ),
        actions@ == seq![Action::Report(Notice::Starred), Action::Save],
{
    set_starred(true, session_settings, persistent_settings)
}

/// Takes the star of the current track away.
pub fn unstar(session_settings: &SessionSettings, persistent_settings: &mut PersistentSettings) -> (actions:
    Vec<Action>)
    requires
        old(persistent_settings).wf(),
    ensures
        ({
            let settings = current_settings(session_settings@, *old(persistent_settings));
            &&& settings_changed(
                *old(persistent_settings),
                *final(persistent_settings),
                session_settings.current_song_name@,
                SongSettings { starred: false, ..settings },
            )
            &&& actions@ == seq![
                Action::Report(
                    if settings.starred {
                        Notice::Unstarred
                    } else {
                        Notice::NotStarred
                    },
                ),
                Action::Save,
            ]
        }),
{
    set_starred(false, session_settings, persistent_settings)
}

/// Marks the current track as having lyrics.
pub fn set_lyrics(session_settings: &SessionSettings, persistent_settings: &mut PersistentSettings) -> (actions:
    Vec<Action>)
    requires
        old(persistent_settings).wf(),
    ensures
        settings_changed(
            *old(persistent_settings),
            *final(persistent_settings),
            session_settings.current_song_name@,
            SongSettings {
                has_lyrics: true,
                ..current_settings(session_settings@, *old(persistent_settings))
            },
        ),
        actions@ == seq![Action::Report(Notice::HasLyrics), Action::Save],
{
    let name = session_settings.current_song_name.as_str();
    let mut settings = persistent_settings.get_song_settings(name);
    settings.has_lyrics = true;
    update_song_settings(persistent_settings, name, settings);
    vec![Action::Report(Notice::HasLyrics), Action::Save]
}

/// Marks the current track as having no lyrics.
pub fn set_no_lyrics(
    session_settings: &SessionSettings,
    persistent_settings: &mut PersistentSettings,
) -> (actions: Vec<Action>)
    requires
        old(persistent_settings).wf(),
    ensures
        ({
            let settings = current_settings(session_settings@, *old(persistent_settings));
            &&& settings_changed(
                *old(persistent_settings),
                *final(persistent_settings),
                session_settings.current_song_name@,
                SongSettings { has_lyrics: false, ..settings },
            )
            &&& actions@ == seq![
                Action::Report(
                    if settings.has_lyrics {
                        Notice::HasNoLyrics
                    } else {
                        Notice::HadNoLyrics
                    },
                ),
                Action::Save,
            ]
        }),
{
    let name = session_settings.current_song_name.as_str();
    let mut settings = persistent_settings.get_song_settings(name);
    let notice = if settings.has_lyrics {
        Notice::HasNoLyrics
    } else {
        Notice::HadNoLyrics
    };
    settings.has_lyrics = false;
    update_song_settings(persistent_settings, name, settings);
    vec![Action::Report(notice), Action::Save]
}

/// What setting the weight of every track of the catalog back to 1 makes of
/// the document: nothing else changes.
pub open spec fn weights_reset(
    before: PersistentSettings,
    after: PersistentSettings,
    names: Seq<Seq<char>>,
) -> bool {
    &&& after.wf()
    &&& after.volume == before.volume
    &&& after.song_settings@ == before.song_settings@
    &&& forall|name: Seq<char>| #[trigger]
        value_of(after.song_probability_distribution@, name) == if among_first(
            names,
            names.len() as int,
            name,
        ) {
            Some(1u32)
        } else {
            value_of(before.song_probability_distribution@, name)
        }
    &&& after.song_play_count@ == before.song_play_count@
}

/// Sets the selection weight of every track of the catalog back to 1.
pub fn reset_probabilities(persistent_settings: &mut PersistentSettings, catalog: &Catalog)
    requires
        old(persistent_settings).wf(),
    ensures
        weights_reset(*old(persistent_settings), *final(persistent_settings), catalog@),
{
    let mut i: usize = 0;
    while i < catalog.len()
        invariant
            i <= catalog@.len(),
            persistent_settings.wf(),
            persistent_settings.volume == old(persistent_settings).volume,
            persistent_settings.song_settings == old(persistent_settings).song_settings,
            persistent_settings.song_play_count == old(persistent_settings).song_play_count,
            forall|name: Seq<char>| #[trigger]
                value_of(persistent_settings.song_probability_distribution@, name)
                    == if among_first(catalog@, i as int, name) {
                    Some(1u32)
                } else {
                    value_of(old(persistent_settings).song_probability_distribution@, name)
                },
        decreases catalog@.len() - i,
    {
        let ghost earlier = persistent_settings.song_probability_distribution@;
        persistent_settings.set_song_probability(catalog.name(i), 1);
        proof {
            assert forall|name: Seq<char>| #[trigger]
                value_of(persistent_settings.song_probability_distribution@, name)
                    == if among_first(catalog@, i + 1, name) {
                    Some(1u32)
                } else {
                    value_of(old(persistent_settings).song_probability_distribution@, name)
                } by {
                if name == catalog@[i as int] {
                    assert(among_first(catalog@, i + 1, name));
                } else {
                    assert(value_of(persistent_settings.song_probability_distribution@, name)
                        == value_of(earlier, name));
                    if among_first(catalog@, i + 1, name) {
                        let k = choose|k: int| 0 <= k < i + 1 && #[trigger] catalog@[k] == name;
                        assert(k < i);
                    }
                    if among_first(catalog@, i as int, name) {
                        let k = choose|k: int| 0 <= k < i && #[trigger] catalog@[k] == name;
                        assert(0 <= k < i + 1 && catalog@[k] == name);
                    }
                }
            }
        }
        i += 1;
    }
}

/// Switches the keyboard shortcuts on, if they are off.
pub fn enable_keyboard_input(session_settings: &mut SessionSettings) -> (actions: Vec<Action>)
    ensures
        final(session_settings)@ == (SessionView {
            key_events_enabled: true,
            ..old(session_settings)@
        }),
        actions@ == if old(session_settings).key_events_enabled {
            Seq::<Action>::empty()
        } else {
            seq![Action::Report(Notice::KeyboardEnabled)]
        },
{
    if !session_settings.key_events_enabled {
        session_settings.key_events_enabled = true;
        vec![Action::Report(Notice::KeyboardEnabled)]
    } else {
        Vec::new()
    }
}

/// Switches the keyboard shortcuts off, if they are on.
pub fn disable_keyboard_input(session_settings: &mut SessionSettings) -> (actions: Vec<Action>)
    ensures
        final(session_settings)@ == (SessionView {
            key_events_enabled: false,
            ..old(session_settings)@
        }),
        actions@ == if old(session_settings).key_events_enabled {
            seq![Action::Report(Notice::KeyboardDisabled)]
        } else {
            Seq::<Action>::empty()
        },
{
    if session_settings.key_events_enabled {
        session_settings.key_events_enabled = false;
        vec![Action::Report(Notice::KeyboardDisabled)]
    } else {
        Vec::new()
    }
}

/// Switches the keyboard shortcuts over.
pub fn switch_keyboard_input(session_settings: &mut SessionSettings) -> (actions: Vec<Action>)
    ensures
        final(session_settings)@ == (SessionView {
            key_events_enabled: !old(session_settings).key_events_enabled,
            ..old(session_settings)@
        }),
        actions@ == if old(session_settings).key_events_enabled {
            seq![Action::Report(Notice::KeyboardDisabled)]
        } else {
            seq![Action::Report(Notice::KeyboardEnabled)]
        },
{
    if session_settings.key_events_enabled {
        session_settings.key_events_enabled = false;
        vec![Action::Report(Notice::KeyboardDisabled)]
    } else {
        session_settings.key_events_enabled = true;
        vec![Action::Report(Notice::KeyboardEnabled)]
    }
}

/// Switches shuffling on, if it is off; the weights then start over at 1.
pub fn enable_shuffling(
    session_settings: &mut SessionSettings,
    persistent_settings: &mut PersistentSettings,
    catalog: &Catalog,
) -> (actions: Vec<Action>)
    requires
        old(persistent_settings).wf(),
    ensures
        final(session_settings)@ == (SessionView { shuffle: true, ..old(session_settings)@ }),
        if old(session_settings).shuffle {
            &&& same_document(*old(persistent_settings), *final(persistent_settings))
            &&& actions@ == Seq::<Action>::empty()
        } else {
            &&& weights_reset(*old(persistent_settings), *final(persistent_settings), catalog@)
            &&& actions@ == seq![Action::Report(Notice::ShuffleEnabled), Action::Save]
        },
{
    if !session_settings.shuffle {
        session_settings.shuffle = true;
        reset_probabilities(persistent_settings, catalog);
        vec![Action::Report(Notice::ShuffleEnabled), Action::Save]
    } else {
        Vec::new()
    }
}

/// Switches shuffling off, if it is on.
pub fn disable_shuffling(session_settings: &mut SessionSettings) -> (actions: Vec<Action>)
    ensures
        final(session_settings)@ == (SessionView { shuffle: false, ..old(session_settings)@ }),
        actions@ == if old(session_settings).shuffle {
            seq![Action::Report(Notice::ShuffleDisabled)]
        } else {
            Seq::<Action>::empty()
        },
{
    if session_settings.shuffle {
        session_settings.shuffle = false;
        vec![Action::Report(Notice::ShuffleDisabled)]
    } else {
        Vec::new()
    }
}

/// Switches shuffling over. Where it goes off, the weights are set back
/// to 1.
pub fn switch_shuffling(
    session_settings: &mut SessionSettings,
    persistent_settings: &mut PersistentSettings,
    catalog: &Catalog,
) -> (actions: Vec<Action>)
    requires
        old(persistent_settings).wf(),
    ensures
        final(session_settings)@ == (SessionView {
            shuffle: !old(session_settings).shuffle,
            ..old(session_settings)@
        }),
        if old(session_settings).shuffle {
            &&& weights_reset(*old(persistent_settings), *final(persistent_settings), catalog@)
            &&& actions@ == seq![Action::Report(Notice::ShuffleDisabled), Action::Save]
        } else {
            &&& same_document(*old(persistent_settings), *final(persistent_settings))
            &&& actions@ == seq![Action::Report(Notice::ShuffleEnabled)]
        },
{
    if session_settings.shuffle {
        session_settings.shuffle = false;
        reset_probabilities(persistent_settings, catalog);
        vec![Action::Report(Notice::ShuffleDisabled), Action::Save]
    } else {
        session_settings.shuffle = true;
        vec![Action::Report(Notice::ShuffleEnabled)]
    }
}

/// Has tracks with lyrics passed over from now on.
pub fn turn_off_lyrics_mode(session_settings: &mut SessionSettings) -> (actions: Vec<Action>)
    ensures
        final(session_settings)@ == (SessionView {
            exclude_lyrics: true,
            ..old(session_settings)@
        }),
        actions@ == seq![Action::Report(Notice::LyricsExcluded)],
{
    session_settings.exclude_lyrics = true;
    vec![Action::Report(Notice::LyricsExcluded)]
}

/// Lets tracks with lyrics play again.
pub fn turn_on_lyrics_mode(session_settings: &mut SessionSettings) -> (actions: Vec<Action>)
    ensures
        final(session_settings)@ == (SessionView {
            exclude_lyrics: false,
            ..old(session_settings)@
        }),
        actions@ == seq![Action::Report(Notice::LyricsIncluded)],
{
    session_settings.exclude_lyrics = false;
    vec![Action::Report(Notice::LyricsIncluded)]
}

/// Switches the lyrics filter over.
pub fn switch_lyrics_mode(session_settings: &mut SessionSettings) -> (actions: Vec<Action>)
    ensures
        final(session_settings)@ == (SessionView {
            exclude_lyrics: !old(session_settings).exclude_lyrics,
            ..old(session_settings)@
        }),
        actions@ == if old(session_settings).exclude_lyrics {
            seq![Action::Report(Notice::LyricsIncluded)]
        } else {
            seq![Action::Report(Notice::LyricsExcluded)]
        },
{
    if session_settings.exclude_lyrics {
        turn_on_lyrics_mode(session_settings)
    } else {
        turn_off_lyrics_mode(session_settings)
    }
}

/// Has playback pause when the next track has started.
pub fn pause_after_song(session_settings: &mut SessionSettings)
    ensures
        final(session_settings)@ == (SessionView {
            after_song: AfterSong::Pause,
            ..old(session_settings)@
        }),
{
    session_settings.after_song = AfterSong::Pause;
}

/// Has playback go on as usual after the current track.
pub fn continue_after_song(session_settings: &mut SessionSettings)
    ensures
        final(session_settings)@ == (SessionView {
            after_song: AfterSong::Continue,
            ..old(session_settings)@
        }),
{
    session_settings.after_song = AfterSong::Continue;
}

/// Sets the track to play after the current one, or says why the argument
/// names none.
pub fn choose_next_song(session_settings: &mut SessionSettings, next_song: Target) -> (actions:
    Vec<Action>)
    ensures
        final(session_settings)@ == match next_song {
            Target::Track(index) => SessionView {
                after_song: AfterSong::PlaySong(index),
                ..old(session_settings)@
            },
            _ => old(session_settings)@,
        },
        actions@ == match next_song {
            Target::Track(_) => Seq::<Action>::empty(),
            Target::NoSuchIndex => seq![Action::Report(Notice::NoSuchIndex)],
            Target::NoSuchTrack => seq![Action::Report(Notice::NeedsIndexOrName)],
        },
{
    match next_song {
        Target::Track(index) => {
            session_settings.after_song = AfterSong::PlaySong(index);
            Vec::new()
        },
        Target::NoSuchIndex => vec![Action::Report(Notice::NoSuchIndex)],
        Target::NoSuchTrack => vec![Action::Report(Notice::NeedsIndexOrName)],
    }
}

/// What is asked for when track `index` starts: the track loaded and played
/// at its loudness, word of it, and the document written.
pub open spec fn start_actions(
    document: PersistentSettings,
    muted: bool,
    names: Seq<Seq<char>>,
    index: usize,
) -> Seq<Action> {
    seq![
        Action::Start(index),
        Action::SetGain(gain_of(muted, document, names[index as int])),
        Action::Report(Notice::NowPlaying(index)),
        Action::Save,
    ]
}

/// Starts the track of the given index.
pub fn choose_song_by_index(
    catalog: &Catalog,
    index: usize,
    session_settings: &mut SessionSettings,
    persistent_settings: &mut PersistentSettings,
    now: u64,
) -> (actions: Vec<Action>)
    requires
        old(persistent_settings).wf(),
        catalog.wf(),
        index < catalog@.len(),
    ensures
        track_started(
            old(session_settings)@,
            final(session_settings)@,
            *old(persistent_settings),
            *final(persistent_settings),
            catalog@,
            index,
            now,
        ),
        actions@ == start_actions(
            *final(persistent_settings),
            old(session_settings).is_muted,
            catalog@,
            index,
        ),
{
    play_next_song(index, catalog, session_settings, persistent_settings, now);
    session_settings.after_song = AfterSong::Continue;
    let song = persistent_settings.get_song_settings(catalog.name(index));
    let gain = playback_gain(session_settings.is_muted, persistent_settings.volume, song.song_volume);
    vec![
        Action::Start(index),
        Action::SetGain(gain),
        Action::Report(Notice::NowPlaying(index)),
        Action::Save,
    ]
}

/// Starts the track that the command named, or says why it named none.
pub fn choose_song(
    new_song: Target,
    catalog: &Catalog,
    session_settings: &mut SessionSettings,
    persistent_settings: &mut PersistentSettings,
    now: u64,
) -> (actions: Vec<Action>)
    requires
        old(persistent_settings).wf(),
        catalog.wf(),
    ensures
        match new_song {
            Target::Track(index) if index < catalog@.len() => {
                &&& track_started(
                    old(session_settings)@,
                    final(session_settings)@,
                    *old(persistent_settings),
                    *final(persistent_settings),
                    catalog@,
                    index,
                    now,
                )
                &&& actions@ == start_actions(
                    *final(persistent_settings),
                    old(session_settings).is_muted,
                    catalog@,
                    index,
                )
            },
            Target::NoSuchTrack => {
                &&& final(session_settings)@ == old(session_settings)@
                &&& same_document(*old(persistent_settings), *final(persistent_settings))
                &&& actions@ == seq![Action::Report(Notice::NeedsIndexOrName)]
            },
            _ => {
                &&& final(session_settings)@ == old(session_settings)@
                &&& same_document(*old(persistent_settings), *final(persistent_settings))
                &&& actions@ == seq![Action::Report(Notice::NoSuchIndex)]
            },
        },
{
    match new_song {
        Target::Track(index) => {
            if index < catalog.len() {
                choose_song_by_index(catalog, index, session_settings, persistent_settings, now)
            } else {
                vec![Action::Report(Notice::NoSuchIndex)]
            }
        },
        Target::NoSuchIndex => vec![Action::Report(Notice::NoSuchIndex)],
        Target::NoSuchTrack => vec![Action::Report(Notice::NeedsIndexOrName)],
    }
}

/// Starts the first track of the playlist.
pub fn go_to_first_song(
    catalog: &Catalog,
    session_settings: &mut SessionSettings,
    persistent_settings: &mut PersistentSettings,
    now: u64,
) -> (actions: Vec<Action>)
    requires
        old(persistent_settings).wf(),
        catalog.wf(),
    ensures
        if catalog@.len() > 0 {
            &&& track_started(
                old(session_settings)@,
                final(session_settings)@,
                *old(persistent_settings),
                *final(persistent_settings),
                catalog@,
                0,
                now,
            )
            &&& actions@ == start_actions(
                *final(persistent_settings),
                old(session_settings).is_muted,
                catalog@,
                0,
            )
        } else {
            &&& final(session_settings)@ == old(session_settings)@
            &&& same_document(*old(persistent_settings), *final(persistent_settings))
            &&& actions@ == seq![Action::Report(Notice::NoSuchIndex)]
        },
{
    choose_song(Target::Track(0), catalog, session_settings, persistent_settings, now)
}

/// Starts the current track over.
pub fn restart_song(
    catalog: &Catalog,
    session_settings: &mut SessionSettings,
    persistent_settings: &PersistentSettings,
) -> (actions: Vec<Action>)
    requires
        persistent_settings.wf(),
    ensures
        if old(session_settings).current_song_index < catalog@.len() {
            let index = old(session_settings).current_song_index;
            &&& final(session_settings)@ == (SessionView {
                current_song_name: catalog@[index as int],
                ..old(session_settings)@
            })
            &&& actions@ == seq![
                Action::Start(index),
                Action::SetGain(
                    gain_of(
                        old(session_settings).is_muted,
                        *persistent_settings,
                        catalog@[index as int],
                    ),
                ),
                Action::Report(Notice::Restarting(index)),
            ]
        } else {
            &&& final(session_settings)@ == old(session_settings)@
            &&& actions@ == seq![Action::Report(Notice::NoSuchIndex)]
        },
{
    let index = session_settings.current_song_index;
    if index < catalog.len() {
        let name = catalog.name(index);
        let song = persistent_settings.get_song_settings(name);
        let gain = playback_gain(
            session_settings.is_muted,
            persistent_settings.volume,
            song.song_volume,
        );
        session_settings.current_song_name = name.to_owned();
        vec![Action::Start(index), Action::SetGain(gain), Action::Report(Notice::Restarting(index))]
    } else {
        vec![Action::Report(Notice::NoSuchIndex)]
    }
}

/// Goes on to the next track: chooses it, notes it for the crash report and
/// starts it. Where no track can be chosen, nothing changes.
pub fn next_song(
    catalog: &Catalog,
    session_settings: &mut SessionSettings,
    persistent_settings: &mut PersistentSettings,
    crash_reporter: &mut CrashReporter,
    now: u64,
) -> (actions: Result<Vec<Action>, SelectionError>)
    requires
        old(persistent_settings).wf(),
        catalog.wf(),
    ensures
        match actions {
            Ok(actions) => {
                let index = final(session_settings).current_song_index;
                &&& is_next_song(
                    Ok(index),
                    old(session_settings)@,
                    *old(persistent_settings),
                    catalog@,
                )
                &&& track_started(
                    old(session_settings)@,
                    final(session_settings)@,
                    *old(persistent_settings),
                    *final(persistent_settings),
                    catalog@,
                    index,
                    now,
                )
                &&& actions@ == start_actions(
                    *final(persistent_settings),
                    old(session_settings).is_muted,
                    catalog@,
                    index,
                )
                &&& final(crash_reporter)@ == (ReporterView {
                    session_settings: Some(snapshot_of(old(session_settings)@)),
                    crash_cause: CauseView::NextSong {
                        next_song: catalog@[index as int],
                        after_song: old(session_settings).after_song,
                    },
                    enabled: old(crash_reporter).enabled,
                })
            },
            Err(error) => {
                &&& is_next_song(
                    Err(error),
                    old(session_settings)@,
                    *old(persistent_settings),
                    catalog@,
                )
                &&& final(session_settings)@ == old(session_settings)@
                &&& same_document(*old(persistent_settings), *final(persistent_settings))
                &&& final(crash_reporter)@ == old(crash_reporter)@
            },
        },
{
    let index = match get_next_song_index(session_settings, persistent_settings, catalog) {
        Ok(index) => index,
        Err(error) => {
            return Err(error);
        },
    };
    crash_reporter.next_song(catalog.name(index).to_owned(), session_settings);
    Ok(choose_song_by_index(catalog, index, session_settings, persistent_settings, now))
}

/// Ends the session in order: no crash report is to be written.
pub fn exit_program(crash_reporter: &mut CrashReporter) -> (actions: Vec<Action>)
    ensures
        final(crash_reporter)@ == (ReporterView { enabled: false, ..old(crash_reporter)@ }),
        actions@ == seq![Action::Report(Notice::Closing), Action::Exit],
{
    crash_reporter.disable();
    vec![Action::Report(Notice::Closing), Action::Exit]
}

/// What a command asks the operator to be shown, where that is all it does.
pub open spec fn requested_report(command: Command) -> Option<Notice> {
    match command {
        Command::ShowVolume => Some(Notice::Volumes),
        Command::ShowPlaylist => Some(Notice::Playlist),
        Command::ShowStarred => Some(Notice::StarredSongs),
        Command::ShowStatus => Some(Notice::Status),
        Command::ShowIndex => Some(Notice::Index),
        Command::ShowProgress => Some(Notice::Progress),
        Command::ShowProbabilities => Some(Notice::Probabilities),
        Command::ShowPlayCount => Some(Notice::PlayCount),
        Command::ShowCommands => Some(Notice::Commands),
        Command::Unknown => Some(Notice::UnknownCommand),
        _ => None,
    }
}

/// What bringing the sound back asks for.
pub open spec fn unmute_actions(session: SessionView, document: PersistentSettings) -> Seq<Action> {
    seq![
        Action::SetGain(gain_of(false, document, session.current_song_name)),
        Action::Report(Notice::Unmuted),
        Action::Report(Notice::PlaylistVolume(document.volume)),
    ]
}

/// The session and the actions that follow a command which leaves the
/// settings document and the crash reporter as they are; `None` for the
/// commands that do not.
pub open spec fn session_step(
    command: Command,
    before: SessionView,
    document: PersistentSettings,
    names: Seq<Seq<char>>,
    paused: bool,
    now: u64,
) -> Option<(SessionView, Seq<Action>)> {
    let nothing = Seq::<Action>::empty();
    let pausing = seq![Action::Pause, Action::Report(Notice::Paused)];
    let resuming = seq![Action::Resume, Action::Report(Notice::Resumed)];
    let muting = seq![Action::SetGain(0), Action::Report(Notice::Muted)];
    match command {
        Command::Nothing => Some((before, nothing)),
        Command::Pause => Some(
            if paused {
                (before, nothing)
            } else {
                (paused_session(before, now), pausing)
            },
        ),
        Command::Resume => Some(
            if paused {
                (SessionView { duration_start: now, ..before }, resuming)
            } else {
                (before, nothing)
            },
        ),
        Command::TogglePause => Some(
            if paused {
                (SessionView { duration_start: now, ..before }, resuming)
            } else {
                (paused_session(before, now), pausing)
            },
        ),
        Command::Mute => Some(
            (
                SessionView { is_muted: true, ..before },
                if before.is_muted {
                    nothing
                } else {
                    muting
                },
            ),
        ),
        Command::Unmute => Some(
            (
                SessionView { is_muted: false, ..before },
                if before.is_muted {
                    unmute_actions(before, document)
                } else {
                    nothing
                },
            ),
        ),
        Command::ToggleMute => Some(
            (
                SessionView { is_muted: !before.is_muted, ..before },
                if before.is_muted {
                    unmute_actions(before, document)
                } else {
                    muting
                },
            ),
        ),
        Command::PauseAfterSong => Some(
            (SessionView { after_song: AfterSong::Pause, ..before }, nothing),
        ),
        Command::ContinueAfterSong => Some(
            (SessionView { after_song: AfterSong::Continue, ..before }, nothing),
        ),
        Command::ChooseNext(target) => Some(
            match target {
                Target::Track(index) => (
                    SessionView { after_song: AfterSong::PlaySong(index), ..before },
                    nothing,
                ),
                Target::NoSuchIndex => (before, seq![Action::Report(Notice::NoSuchIndex)]),
                Target::NoSuchTrack => (before, seq![Action::Report(Notice::NeedsIndexOrName)]),
            },
        ),
        Command::EnableKeyboard => Some(
            (
                SessionView { key_events_enabled: true, ..before },
                if before.key_events_enabled {
                    nothing
                } else {
                    seq![Action::Report(Notice::KeyboardEnabled)]
                },
            ),
        ),
        Command::DisableKeyboard => Some(
            (
                SessionView { key_events_enabled: false, ..before },
                if before.key_events_enabled {
                    seq![Action::Report(Notice::KeyboardDisabled)]
                } else {
                    nothing
                },
            ),
        ),
        Command::ToggleKeyboard => Some(
            (
                SessionView { key_events_enabled: !before.key_events_enabled, ..before },
                if before.key_events_enabled {
                    seq![Action::Report(Notice::KeyboardDisabled)]
                } else {
                    seq![Action::Report(Notice::KeyboardEnabled)]
                },
            ),
        ),
        Command::DisableShuffle => Some(
            (
                SessionView { shuffle: false, ..before },
                if before.shuffle {
                    seq![Action::Report(Notice::ShuffleDisabled)]
                } else {
                    nothing
                },
            ),
        ),
        Command::ExcludeLyrics => Some(
            (
                SessionView { exclude_lyrics: true, ..before },
                seq![Action::Report(Notice::LyricsExcluded)],
            ),
        ),
        Command::IncludeLyrics => Some(
            (
                SessionView { exclude_lyrics: false, ..before },
                seq![Action::Report(Notice::LyricsIncluded)],
            ),
        ),
        Command::ToggleLyricsMode => Some(
            (
                SessionView { exclude_lyrics: !before.exclude_lyrics, ..before },
                if before.exclude_lyrics {
                    seq![Action::Report(Notice::LyricsIncluded)]
                } else {
                    seq![Action::Report(Notice::LyricsExcluded)]
                },
            ),
        ),
        Command::Restart => Some(
            if before.current_song_index < names.len() {
                let index = before.current_song_index;
                (
                    SessionView { current_song_name: names[index as int], ..before },
                    seq![
                        Action::Start(index),
                        Action::SetGain(gain_of(before.is_muted, document, names[index as int])),
                        Action::Report(Notice::Restarting(index)),
                    ],
                )
            } else {
                (before, seq![Action::Report(Notice::NoSuchIndex)])
            },
        ),
        _ => match requested_report(command) {
            Some(notice) => Some((before, seq![Action::Report(notice)])),
            None => None,
        },
    }
}

/// What setting the volume of the current track to `volume` comes to.
pub open spec fn song_volume_set(
    session: SessionView,
    document_before: PersistentSettings,
    document_after: PersistentSettings,
    volume: Volume,
    actions: Seq<Action>,
) -> bool {
    &&& settings_changed(
        document_before,
        document_after,
        session.current_song_name,
        SongSettings { song_volume: volume, ..current_settings(session, document_before) },
    )
    &&& actions == seq![
        Action::SetGain(playback_level(session.is_muted, document_before.volume, volume) as u32),
        Action::Report(Notice::SongVolume(volume)),
        Action::Save,
    ]
}

/// What tagging the current track comes to: its settings replaced, word of
/// it, and the document written.
pub open spec fn tagged(
    session: SessionView,
    document_before: PersistentSettings,
    document_after: PersistentSettings,
    settings: SongSettings,
    notice: Notice,
    actions: Seq<Action>,
) -> bool {
    &&& settings_changed(document_before, document_after, session.current_song_name, settings)
    &&& actions == seq![Action::Report(notice), Action::Save]
}

/// What a command makes of the session, the settings document and the crash
/// reporter, and what it asks for.
///
/// A command that cannot be carried out changes nothing: one that the
/// grammar does not know, one whose argument is no number or names no track,
/// and `Next` where no track can be chosen, which is the only one to fail.
pub open spec fn command_outcome(
    command: Command,
    paused: bool,
    now: u64,
    names: Seq<Seq<char>>,
    session_before: SessionView,
    session_after: SessionView,
    document_before: PersistentSettings,
    document_after: PersistentSettings,
    reporter_before: ReporterView,
    reporter_after: ReporterView,
    outcome: Result<Vec<Action>, SelectionError>,
) -> bool {
    let settings = current_settings(session_before, document_before);
    match session_step(command, session_before, document_before, names, paused, now) {
        Some((session, actions)) => {
            &&& session_after == session
            &&& same_document(document_before, document_after)
            &&& reporter_after == reporter_before
            &&& outcome matches Ok(asked)
            &&& asked@ == actions
        },
        None => match command {
            Command::Next => match outcome {
                Ok(asked) => {
                    let index = session_after.current_song_index;
                    &&& is_next_song(Ok(index), session_before, document_before, names)
                    &&& track_started(
                        session_before,
                        session_after,
                        document_before,
                        document_after,
                        names,
                        index,
                        now,
                    )
                    &&& asked@ == start_actions(
                        document_after,
                        session_before.is_muted,
                        names,
                        index,
                    )
                    &&& reporter_after == (ReporterView {
                        session_settings: Some(snapshot_of(session_before)),
                        crash_cause: CauseView::NextSong {
                            next_song: names[index as int],
                            after_song: session_before.after_song,
                        },
                        enabled: reporter_before.enabled,
                    })
                },
                Err(error) => {
                    &&& is_next_song(Err(error), session_before, document_before, names)
                    &&& session_after == session_before
                    &&& same_document(document_before, document_after)
                    &&& reporter_after == reporter_before
                },
            },
            Command::Exit => {
                &&& session_after == session_before
                &&& same_document(document_before, document_after)
                &&& reporter_after == (ReporterView { enabled: false, ..reporter_before })
                &&& outcome matches Ok(asked)
                &&& asked@ == seq![Action::Report(Notice::Closing), Action::Exit]
            },
            _ => {
                &&& reporter_after == reporter_before
                &&& outcome matches Ok(asked)
                &&& match command {
                    Command::VolumeUp => {
                        &&& volume_changed(
                            document_before,
                            document_after,
                            document_before.volume.louder(),
                        )
                        &&& session_after == (SessionView { is_muted: false, ..session_before })
                        &&& asked@ == volume_actions(
                            document_after,
                            false,
                            session_before.current_song_name,
                        )
                    },
                    Command::VolumeDown => {
                        let volume = document_before.volume.softer();
                        &&& volume_changed(document_before, document_after, volume)
                        &&& session_after == (SessionView {
                            is_muted: volume@ == 0,
                            ..session_before
                        })
                        &&& asked@ == volume_actions(
                            document_after,
                            volume@ == 0,
                            session_before.current_song_name,
                        )
                    },
                    Command::SetVolume(Some(volume)) => {
                        &&& volume_changed(document_before, document_after, volume)
                        &&& session_after == (SessionView {
                            is_muted: volume@ == 0,
                            ..session_before
                        })
                        &&& asked@ == volume_actions(
                            document_after,
                            volume@ == 0,
                            session_before.current_song_name,
                        )
                    },
                    Command::SongVolumeUp => {
                        &&& session_after == session_before
                        &&& song_volume_set(
                            session_before,
                            document_before,
                            document_after,
                            settings.song_volume.louder(),
                            asked@,
                        )
                    },
                    Command::SongVolumeDown => {
                        &&& session_after == session_before
                        &&& song_volume_set(
                            session_before,
                            document_before,
                            document_after,
                            settings.song_volume.softer(),
                            asked@,
                        )
                    },
                    Command::SetSongVolume(Some(volume)) => {
                        &&& session_after == session_before
                        &&& song_volume_set(
                            session_before,
                            document_before,
                            document_after,
                            volume,
                            asked@,
                        )
                    },
                    Command::SetVolume(None) | Command::SetSongVolume(None) => {
                        &&& session_after == session_before
                        &&& same_document(document_before, document_after)
                        &&& asked@ == seq![Action::Report(Notice::NeedsNumber)]
                    },
                    Command::Star => {
                        &&& session_after == session_before
                        &&& tagged(
                            session_before,
                            document_before,
                            document_after,
                            SongSettings { starred: true, ..settings },
                            Notice::Starred,
                            asked@,
                        )
                    },
                    Command::Unstar => {
                        &&& session_after == session_before
                        &&& tagged(
                            session_before,
                            document_before,
                            document_after,
                            SongSettings { starred: false, ..settings },
                            if settings.starred {
                                Notice::Unstarred
                            } else {
                                Notice::NotStarred
                            },
                            asked@,
                        )
                    },
                    Command::SetLyrics => {
                        &&& session_after == session_before
                        &&& tagged(
                            session_before,
                            document_before,
                            document_after,
                            SongSettings { has_lyrics: true, ..settings },
                            Notice::HasLyrics,
                            asked@,
                        )
                    },
                    Command::SetNoLyrics => {
                        &&& session_after == session_before
                        &&& tagged(
                            session_before,
                            document_before,
                            document_after,
                            SongSettings { has_lyrics: false, ..settings },
                            if settings.has_lyrics {
                                Notice::HasNoLyrics
                            } else {
                                Notice::HadNoLyrics
                            },
                            asked@,
                        )
                    },
                    Command::EnableShuffle => {
                        &&& session_after == (SessionView { shuffle: true, ..session_before })
                        &&& if session_before.shuffle {
                            &&& same_document(document_before, document_after)
                            &&& asked@ == Seq::<Action>::empty()
                        } else {
                            &&& weights_reset(document_before, document_after, names)
                            &&& asked@ == seq![
                                Action::Report(Notice::ShuffleEnabled),
                                Action::Save,
                            ]
                        }
                    },
                    Command::ToggleShuffle => {
                        &&& session_after == (SessionView {
                            shuffle: !session_before.shuffle,
                            ..session_before
                        })
                        &&& if session_before.shuffle {
                            &&& weights_reset(document_before, document_after, names)
                            &&& asked@ == seq![
                                Action::Report(Notice::ShuffleDisabled),
                                Action::Save,
                            ]
                        } else {
                            &&& same_document(document_before, document_after)
                            &&& asked@ == seq![Action::Report(Notice::ShuffleEnabled)]
                        }
                    },
                    Command::ResetProbabilities => {
                        &&& session_after == session_before
                        &&& weights_reset(document_before, document_after, names)
                        &&& asked@ == seq![Action::Save]
                    },
                    Command::Start | Command::Choose(_) => {
                        let target = match command {
                            Command::Choose(target) => target,
                            _ => Target::Track(0),
                        };
                        match target {
                            Target::Track(index) if index < names.len() => {
                                &&& track_started(
                                    session_before,
                                    session_after,
                                    document_before,
                                    document_after,
                                    names,
                                    index,
                                    now,
                                )
                                &&& asked@ == start_actions(
                                    document_after,
                                    session_before.is_muted,
                                    names,
                                    index,
                                )
                            },
                            Target::NoSuchTrack => {
                                &&& session_after == session_before
                                &&& same_document(document_before, document_after)
                                &&& asked@ == seq![Action::Report(Notice::NeedsIndexOrName)]
                            },
                            _ => {
                                &&& session_after == session_before
                                &&& same_document(document_before, document_after)
                                &&& asked@ == seq![Action::Report(Notice::NoSuchIndex)]
                            },
                        }
                    },
                    _ => false,
                }
            },
        },
    }
}

/// The one action of telling the operator `notice`.
fn tell(notice: Notice) -> (actions: Vec<Action>)
    ensures
        actions@ == seq![Action::Report(notice)],
{
    let actions = vec![Action::Report(notice)];
    assert(actions@ =~= seq![Action::Report(notice)]);
    actions
}

/// Carries out a command.
pub fn execute(
    command: Command,
    paused: bool,
    now: u64,
    session_settings: &mut SessionSettings,
    persistent_settings: &mut PersistentSettings,
    catalog: &Catalog,
    crash_reporter: &mut CrashReporter,
) -> (outcome: Result<Vec<Action>, SelectionError>)
    requires
        old(persistent_settings).wf(),
        catalog.wf(),
    ensures
        final(persistent_settings).wf(),
        command_outcome(
            command,
            paused,
            now,
            catalog@,
            old(session_settings)@,
            final(session_settings)@,
            *old(persistent_settings),
            *final(persistent_settings),
            old(crash_reporter)@,
            final(crash_reporter)@,
            outcome,
        ),
{
    match command {
        Command::Nothing => {
            return Ok(Vec::new());
        },
        Command::Pause => {
            return Ok(pause(session_settings, paused, now));
        },
        Command::Resume => {
            return Ok(resume(session_settings, paused, now));
        },
        Command::TogglePause => {
            return Ok(pause_or_play(session_settings, paused, now));
        },
        Command::Mute => {
            return Ok(mute(session_settings));
        },
        Command::Unmute => {
            return Ok(unmute(session_settings, persistent_settings));
        },
        Command::ToggleMute => {
            return Ok(switch_muted(session_settings, persistent_settings));
        },
        Command::VolumeUp => {
            return Ok(increase_volume(session_settings, persistent_settings));
        },
        Command::VolumeDown => {
            return Ok(decrease_volume(session_settings, persistent_settings));
        },
        Command::SongVolumeUp => {
            return Ok(increase_song_volume(session_settings, persistent_settings));
        },
        Command::SongVolumeDown => {
            return Ok(decrease_song_volume(session_settings, persistent_settings));
        },
        Command::ShowVolume => {
            return Ok(tell(Notice::Volumes));
        },
        Command::Next => {
            return next_song(catalog, session_settings, persistent_settings, crash_reporter, now);
        },
        Command::Restart => {
            return Ok(restart_song(catalog, session_settings, persistent_settings));
        },
        Command::Start => {
            return Ok(go_to_first_song(catalog, session_settings, persistent_settings, now));
        },
        Command::PauseAfterSong => {
            pause_after_song(session_settings);
            return Ok(Vec::new());
        },
        Command::ContinueAfterSong => {
            continue_after_song(session_settings);
            return Ok(Vec::new());
        },
        Command::ShowPlaylist => {
            return Ok(tell(Notice::Playlist));
        },
        Command::EnableKeyboard => {
            return Ok(enable_keyboard_input(session_settings));
        },
        Command::DisableKeyboard => {
            return Ok(disable_keyboard_input(session_settings));
        },
        Command::ToggleKeyboard => {
            return Ok(switch_keyboard_input(session_settings));
        },
        Command::EnableShuffle => {
            return Ok(enable_shuffling(session_settings, persistent_settings, catalog));
        },
        Command::DisableShuffle => {
            return Ok(disable_shuffling(session_settings));
        },
        Command::ToggleShuffle => {
            return Ok(switch_shuffling(session_settings, persistent_settings, catalog));
        },
        Command::ResetProbabilities => {
            reset_probabilities(persistent_settings, catalog);
            let actions = vec![Action::Save];
            assert(actions@ =~= seq![Action::Save]);
            return Ok(actions);
        },
        Command::Star => {
            return Ok(star(session_settings, persistent_settings));
        },
        Command::Unstar => {
            return Ok(unstar(session_settings, persistent_settings));
        },
        Command::ShowStarred => {
            return Ok(tell(Notice::StarredSongs));
        },
        Command::SetLyrics => {
            return Ok(set_lyrics(session_settings, persistent_settings));
        },
        Command::SetNoLyrics => {
            return Ok(set_no_lyrics(session_settings, persistent_settings));
        },
        Command::ExcludeLyrics => {
            return Ok(turn_off_lyrics_mode(session_settings));
        },
        Command::IncludeLyrics => {
            return Ok(turn_on_lyrics_mode(session_settings));
        },
        Command::ToggleLyricsMode => {
            return Ok(switch_lyrics_mode(session_settings));
        },
        Command::ShowStatus => {
            return Ok(tell(Notice::Status));
        },
        Command::ShowIndex => {
            return Ok(tell(Notice::Index));
        },
        Command::ShowProgress => {
            return Ok(tell(Notice::Progress));
        },
        Command::ShowProbabilities => {
            return Ok(tell(Notice::Probabilities));
        },
        Command::ShowPlayCount => {
            return Ok(tell(Notice::PlayCount));
        },
        Command::ShowCommands => {
            return Ok(tell(Notice::Commands));
        },
        Command::Exit => {
            return Ok(exit_program(crash_reporter));
        },
        Command::Choose(target) => {
            return Ok(choose_song(
            target,
            catalog,
            session_settings,
            persistent_settings,
            now,
        ));
        },
        Command::ChooseNext(target) => {
            return Ok(choose_next_song(session_settings, target));
        },
        Command::SetVolume(level) => {
            return Ok(set_volume(level, session_settings, persistent_settings));
        },
        Command::SetSongVolume(level) => {
            return Ok(set_song_volume(
            level,
            session_settings,
            persistent_settings,
        ));
        },
        Command::Unknown => {
            return Ok(tell(Notice::UnknownCommand));
        },
    }
}

/// Handles one line of the console: normalises it, reads it as a command
/// of the grammar and carries the command out.
pub fn handle_console_commands(
    input_buffer: &str,
    paused: bool,
    now: u64,
    session_settings: &mut SessionSettings,
    persistent_settings: &mut PersistentSettings,
    catalog: &Catalog,
    crash_reporter: &mut CrashReporter,
) -> (outcome: Result<Vec<Action>, SelectionError>)
    requires
        old(persistent_settings).wf(),
        catalog.wf(),
    ensures
        final(persistent_settings).wf(),
        command_outcome(
            command_of(normalized(input_buffer@), catalog@),
            paused,
            now,
            catalog@,
            old(session_settings)@,
            final(session_settings)@,
            *old(persistent_settings),
            *final(persistent_settings),
            old(crash_reporter)@,
            final(crash_reporter)@,
            outcome,
        ),
        pending_in_range(old(session_settings)@, catalog@.len()) ==> pending_in_range(
            final(session_settings)@,
            catalog@.len(),
        ),
{
    let input = normalize(input_buffer);
    let command = parse_command(input.as_slice(), catalog);
    proof {
        lemma_command_in_range(input@, catalog@);
    }
    execute(
        command,
        paused,
        now,
        session_settings,
        persistent_settings,
        catalog,
        crash_reporter,
    )
}

/// A key of the keyboard, as far as the shortcuts tell keys apart.
#[derive(Clone, Copy, Debug, PartialEq, Eq)]
pub enum Key {
    F4,
    F6,
    F7,
    F8,
    F9,
    F10,
    F11,
    F12,
    /// Any other key.
    Other,
}

/// Something that happened on the keyboard or the mouse.
#[derive(Clone, Copy, Debug, PartialEq, Eq)]
pub enum KeyEvent {
    /// This key went down.
    KeyPress(Key),
    /// Anything else: a key that came up, a move of the mouse.
    Other,
}

/// The command that a key event stands for, if any.
pub open spec fn shortcut(key_event: KeyEvent) -> Option<Command> {
    match key_event {
        KeyEvent::KeyPress(Key::F7) | KeyEvent::KeyPress(Key::F4) => Some(Command::TogglePause),
        KeyEvent::KeyPress(Key::F11) => Some(Command::VolumeUp),
        KeyEvent::KeyPress(Key::F10) => Some(Command::VolumeDown),
        KeyEvent::KeyPress(Key::F12) => Some(Command::ToggleMute),
        KeyEvent::KeyPress(Key::F8) => Some(Command::Next),
        KeyEvent::KeyPress(Key::F6) => Some(Command::Restart),
        KeyEvent::KeyPress(Key::F9) => Some(Command::ToggleLyricsMode),
        _ => None,
    }
}

/// Reads a key event as a command.
pub fn read_shortcut(key_event: KeyEvent) -> (command: Option<Command>)
    ensures
        command == shortcut(key_event),
{
    match key_event {
        KeyEvent::KeyPress(key) => match key {
            Key::F7 | Key::F4 => Some(Command::TogglePause),
            Key::F11 => Some(Command::VolumeUp),
            Key::F10 => Some(Command::VolumeDown),
            Key::F12 => Some(Command::ToggleMute),
            Key::F8 => Some(Command::Next),
            Key::F6 => Some(Command::Restart),
            Key::F9 => Some(Command::ToggleLyricsMode),
            _ => None,
        },
        KeyEvent::Other => None,
    }
}

/// Handles one key event: carries out the command it stands for, while the
/// keyboard shortcuts are switched on. Any other event changes nothing.
pub fn handle_key_event(
    key_event: KeyEvent,
    paused: bool,
    now: u64,
    session_settings: &mut SessionSettings,
    persistent_settings: &mut PersistentSettings,
    catalog: &Catalog,
    crash_reporter: &mut CrashReporter,
) -> (outcome: Result<Vec<Action>, SelectionError>)
    requires
        old(persistent_settings).wf(),
        catalog.wf(),
    ensures
        final(persistent_settings).wf(),
        match shortcut(key_event) {
            Some(command) if old(session_settings).key_events_enabled => command_outcome(
                command,
                paused,
                now,
                catalog@,
                old(session_settings)@,
                final(session_settings)@,
                *old(persistent_settings),
                *final(persistent_settings),
                old(crash_reporter)@,
                final(crash_reporter)@,
                outcome,
            ),
            _ => {
                &&& final(session_settings)@ == old(session_settings)@
                &&& same_document(*old(persistent_settings), *final(persistent_settings))
                &&& final(crash_reporter)@ == old(crash_reporter)@
                &&& outcome matches Ok(asked)
                &&& asked@ == Seq::<Action>::empty()
            },
        },
        pending_in_range(old(session_settings)@, catalog@.len()) ==> pending_in_range(
            final(session_settings)@,
            catalog@.len(),
        ),
{
    match read_shortcut(key_event) {
        Some(command) => {
            if session_settings.key_events_enabled {
                execute(
                    command,
                    paused,
                    now,
                    session_settings,
                    persistent_settings,
                    catalog,
                    crash_reporter,
                )
            } else {
                Ok(Vec::new())
            }
        },
        None => Ok(Vec::new()),
    }
}

/// What is asked for behind the start of a track where playback was set to
/// pause after the track before it.
pub open spec fn pause_if_pending(after_song: AfterSong) -> Seq<Action> {
    if after_song == AfterSong::Pause {
        seq![Action::Pause, Action::Report(Notice::Paused)]
    } else {
        Seq::<Action>::empty()
    }
}

/// What the end of the current track makes of the session, the settings
/// document and the crash reporter, and what it asks for.
///
/// The next track is the one that was set to follow, or else the one that
/// the session's mode chooses. It starts like any track; playback pauses at
/// once where that was asked for; and what was set to follow is spent. Where
/// no track can be chosen, nothing changes.
pub open spec fn finished_outcome(
    now: u64,
    names: Seq<Seq<char>>,
    session_before: SessionView,
    session_after: SessionView,
    document_before: PersistentSettings,
    document_after: PersistentSettings,
    reporter_before: ReporterView,
    reporter_after: ReporterView,
    outcome: Result<Vec<Action>, SelectionError>,
) -> bool {
    match outcome {
        Ok(asked) => {
            let index = session_after.current_song_index;
            &&& match session_before.after_song {
                AfterSong::PlaySong(next) => index == next,
                _ => is_next_song(Ok(index), session_before, document_before, names),
            }
            &&& track_started(
                session_before,
                session_after,
                document_before,
                document_after,
                names,
                index,
                now,
            )
            &&& asked@ == start_actions(document_after, session_before.is_muted, names, index)
                + pause_if_pending(session_before.after_song)
            &&& reporter_after == (ReporterView {
                session_settings: Some(snapshot_of(session_before)),
                crash_cause: CauseView::NextSong {
                    next_song: names[index as int],
                    after_song: session_before.after_song,
                },
                enabled: reporter_before.enabled,
            })
        },
        Err(error) => {
            &&& !(session_before.after_song is PlaySong)
            &&& is_next_song(Err(error), session_before, document_before, names)
            &&& session_after == session_before
            &&& same_document(document_before, document_after)
            &&& reporter_after == reporter_before
        },
    }
}

/// Goes on when the current track has ended.
pub fn track_finished(
    now: u64,
    session_settings: &mut SessionSettings,
    persistent_settings: &mut PersistentSettings,
    catalog: &Catalog,
    crash_reporter: &mut CrashReporter,
) -> (outcome: Result<Vec<Action>, SelectionError>)
    requires
        old(persistent_settings).wf(),
        catalog.wf(),
        old(session_settings).after_song matches AfterSong::PlaySong(next) ==> next
            < catalog@.len(),
    ensures
        final(persistent_settings).wf(),
        finished_outcome(
            now,
            catalog@,
            old(session_settings)@,
            final(session_settings)@,
            *old(persistent_settings),
            *final(persistent_settings),
            old(crash_reporter)@,
            final(crash_reporter)@,
            outcome,
        ),
{
    let pending = session_settings.after_song;
    let index = match pending {
        AfterSong::PlaySong(next) => next,
        _ => match get_next_song_index(session_settings, persistent_settings, catalog) {
            Ok(index) => index,
            Err(error) => {
                return Err(error);
            },
        },
    };
    crash_reporter.next_song(catalog.name(index).to_owned(), session_settings);
    let mut actions = choose_song_by_index(
        catalog,
        index,
        session_settings,
        persistent_settings,
        now,
    );
    let ghost started = actions@;
    match pending {
        AfterSong::Pause => {
            actions.push(Action::Pause);
            actions.push(Action::Report(Notice::Paused));
        },
        _ => {},
    }
    assert(actions@ =~= started + pause_if_pending(pending));
    Ok(actions)
}

/// Whether what is set to follow the current track is a track of the
/// catalog, where it is a track at all.
pub open spec fn pending_in_range(session: SessionView, tracks: nat) -> bool {
    session.after_song matches AfterSong::PlaySong(next) ==> next < tracks
}

/// No command sets a track to follow that the catalog does not have.
pub proof fn lemma_pending_stays_in_range(
    command: Command,
    paused: bool,
    now: u64,
    names: Seq<Seq<char>>,
    session_before: SessionView,
    session_after: SessionView,
    document_before: PersistentSettings,
    document_after: PersistentSettings,
    reporter_before: ReporterView,
    reporter_after: ReporterView,
    outcome: Result<Vec<Action>, SelectionError>,
)
    requires
        pending_in_range(session_before, names.len()),
        command matches Command::ChooseNext(Target::Track(index)) ==> index < names.len(),
        command_outcome(
            command,
            paused,
            now,
            names,
            session_before,
            session_after,
            document_before,
            document_after,
            reporter_before,
            reporter_after,
            outcome,
        ),
    ensures
        pending_in_range(session_after, names.len()),
{
}

/// Whether a command cannot be carried out: the line was no command, its
/// argument no number, or the track it named none of the catalog.
pub open spec fn is_refused(command: Command, tracks: nat) -> bool {
    match command {
        Command::Unknown | Command::SetVolume(None) | Command::SetSongVolume(None) => true,
        Command::Choose(Target::Track(index)) => index >= tracks,
        Command::Choose(_) => true,
        Command::ChooseNext(Target::Track(_)) => false,
        Command::ChooseNext(_) => true,
        _ => false,
    }
}

/// A command that cannot be carried out, and one that only asks for a
/// report, leave the session, the settings document and the crash reporter
/// as they are: all that follows is one word to the operator.
pub proof fn lemma_refusals_and_reports_change_nothing(
    command: Command,
    paused: bool,
    now: u64,
    names: Seq<Seq<char>>,
    session_before: SessionView,
    session_after: SessionView,
    document_before: PersistentSettings,
    document_after: PersistentSettings,
    reporter_before: ReporterView,
    reporter_after: ReporterView,
    outcome: Result<Vec<Action>, SelectionError>,
)
    requires
        is_refused(command, names.len()) || requested_report(command) is Some,
        command_outcome(
            command,
            paused,
            now,
            names,
            session_before,
            session_after,
            document_before,
            document_after,
            reporter_before,
            reporter_after,
            outcome,
        ),
    ensures
        session_after == session_before,
        same_document(document_before, document_after),
        reporter_after == reporter_before,
        outcome matches Ok(asked) && asked@.len() == 1 && asked@[0] is Report,
{
}

} // verus!
