//! The state of a session and the persistent settings of the playlist.

use vstd::prelude::*;
use vstd::string::*;
use crate::catalog::Catalog;
use crate::table::{loaded, rows_view, value_of, Entry, NameTable};
use crate::utils::{clock_text, format_duration, RandomSource};
use crate::volume::{Volume, FULL_SCALE};

verus! {

/// What is to happen when the current track ends.
#[derive(Clone, Copy, Debug, PartialEq, Eq, Structural)]
pub enum AfterSong {
    /// Go on with the next track.
    Continue,
    /// Start the next track and pause at once.
    Pause,
    /// Play the track of this index next.
    PlaySong(usize),
}

/// The state of one run of the player. Times are in milliseconds on the
/// clock of the caller.
pub struct SessionSettings {
    pub is_muted: bool,
    pub key_events_enabled: bool,
    pub shuffle: bool,
    pub exclude_lyrics: bool,
    pub current_song_index: usize,
    pub current_song_name: String,
    /// When the current stretch of playback began.
    pub duration_start: u64,
    /// What was played of the current track before that stretch.
    pub song_progress: u64,
    /// The length of the current track, where it is known.
    pub song_duration: Option<u64>,
    pub after_song: AfterSong,
    pub random: RandomSource,
}

/// What a session holds, but for its random source.
pub struct SessionView {
    pub is_muted: bool,
    pub key_events_enabled: bool,
    pub shuffle: bool,
    pub exclude_lyrics: bool,
    pub current_song_index: usize,
    pub current_song_name: Seq<char>,
    pub duration_start: u64,
    pub song_progress: u64,
    pub song_duration: Option<u64>,
    pub after_song: AfterSong,
}

impl View for SessionSettings {
    type V = SessionView;

    open spec fn view(&self) -> SessionView {
        SessionView {
            is_muted: self.is_muted,
            key_events_enabled: self.key_events_enabled,
            shuffle: self.shuffle,
            exclude_lyrics: self.exclude_lyrics,
            current_song_index: self.current_song_index,
            current_song_name: self.current_song_name@,
            duration_start: self.duration_start,
            song_progress: self.song_progress,
            song_duration: self.song_duration,
            after_song: self.after_song,
        }
    }
}

/// The sum of two spans, and the largest span where the sum is beyond it.
pub open spec fn span_sum(a: u64, b: u64) -> u64 {
    if a + b <= u64::MAX {
        (a + b) as u64
    } else {
        u64::MAX
    }
}

/// The span from `start` to `now`, and none where `now` is the earlier.
pub open spec fn span_since(start: u64, now: u64) -> u64 {
    if now >= start {
        (now - start) as u64
    } else {
        0
    }
}

/// The state in which every session begins: shuffling and keyboard shortcuts
/// on, sound on, tracks with lyrics included, nothing played yet.
pub open spec fn initial_session(now: u64) -> SessionView {
    SessionView {
        is_muted: false,
        key_events_enabled: true,
        shuffle: true,
        exclude_lyrics: false,
        current_song_index: 0,
        current_song_name: Seq::<char>::empty(),
        duration_start: now,
        song_progress: 0,
        song_duration: None,
        after_song: AfterSong::Continue,
    }
}

impl SessionSettings {
    /// The state at the start of a session, at time `now`, with a random
    /// source made from `seed`.
    pub fn new(now: u64, seed: u64) -> (session: Self)
        ensures
            session@ == initial_session(now),
    {
        SessionSettings {
            is_muted: false,
            key_events_enabled: true,
            shuffle: true,
            exclude_lyrics: false,
            current_song_index: 0,
            current_song_name: String::new(),
            duration_start: now,
            song_progress: 0,
            song_duration: None,
            after_song: AfterSong::Continue,
            random: RandomSource::seeded(seed),
        }
    }

    /// The volume of the playlist as it sounds: silence while muted.
    pub fn playback_playlist_volume(&self, persistent_settings: &PersistentSettings) -> (volume:
        Volume)
        ensures
            volume == if self.is_muted {
                Volume::of(0)
            } else {
                persistent_settings.volume
            },
    {
        if self.is_muted {
            Volume::silent()
        } else {
            persistent_settings.volume
        }
    }

    /// How much of the current track has been played at time `now`.
    pub fn song_progress(&self, now: u64) -> (progress: u64)
        ensures
            progress == span_sum(self.song_progress, span_since(self.duration_start, now)),
    {
        self.song_progress.saturating_add(now.saturating_sub(self.duration_start))
    }

    /// The length of the current track as text, `?` where it is not known.
    pub fn format_song_duration(&self) -> (text: String)
        ensures
            text@ == match self.song_duration {
                Some(duration) => clock_text(duration),
                None => "?"@,
            },
    {
        match self.song_duration {
            Some(duration) => format_duration(duration),
            None => "?".to_owned(),
        }
    }

    /// Adds a stretch of playback to the progress of the current track.
    pub fn add_song_progress(&mut self, progress: u64)
        ensures
            final(self)@ == (SessionView {
                song_progress: span_sum(old(self).song_progress, progress),
                ..old(self)@
            }),
    {
        self.song_progress = self.song_progress.saturating_add(progress);
    }

    /// Sets the progress of the current track back to nothing.
    pub fn reset_song_progress(&mut self)
        ensures
            final(self)@ == (SessionView { song_progress: 0, ..old(self)@ }),
    {
        self.song_progress = 0;
    }
}

/// What the playlist remembers of one track.
#[derive(Clone, Copy, Debug, PartialEq, Eq, Structural)]
pub struct SongSettings {
    pub song_volume: Volume,
    pub starred: bool,
    pub has_lyrics: bool,
}

/// The settings of a track nothing is remembered of: half volume, no star,
/// no lyrics.
pub open spec fn default_settings() -> SongSettings {
    SongSettings {
        song_volume: Volume::of((FULL_SCALE / 2) as nat),
        starred: false,
        has_lyrics: false,
    }
}

/// The settings of `name` in `table`, and the default ones where it has none.
pub open spec fn settings_of(table: Seq<(Seq<char>, SongSettings)>, name: Seq<char>) -> SongSettings {
    match value_of(table, name) {
        Some(kept) => kept,
        None => default_settings(),
    }
}

/// The weight of `name` in `table`: 1 where it has none.
pub open spec fn weight_of(table: Seq<(Seq<char>, u32)>, name: Seq<char>) -> u32 {
    match value_of(table, name) {
        Some(weight) => weight,
        None => 1,
    }
}

/// One more than `count`, and `count` itself where it is the largest number
/// that a count can hold.
pub open spec fn one_more(count: u32) -> u32 {
    if count < u32::MAX {
        (count + 1) as u32
    } else {
        u32::MAX
    }
}

/// The play count of `name` in `table`: 0 where it has none.
pub open spec fn play_count_of(table: Seq<(Seq<char>, u32)>, name: Seq<char>) -> u32 {
    match value_of(table, name) {
        Some(count) => count,
        None => 0,
    }
}

impl Default for SongSettings {
    fn default() -> (settings: Self)
        ensures
            settings == default_settings(),
    {
        SongSettings { song_volume: Volume::from_units(FULL_SCALE / 2), starred: false, has_lyrics: false }
    }
}

/// The weights of a playlist of `len` tracks of which nothing is known: 1
/// for each.
pub fn get_default_distribution(len: usize) -> (weights: Vec<u32>)
    ensures
        weights@ == Seq::new(len as nat, |i: int| 1u32),
{
    let mut weights: Vec<u32> = Vec::new();
    let mut i: usize = 0;
    while i < len
        invariant
            i <= len,
            weights@ == Seq::new(i as nat, |k: int| 1u32),
        decreases len - i,
    {
        weights.push(1);
        assert(weights@ =~= Seq::new((i + 1) as nat, |k: int| 1u32));
        i += 1;
    }
    weights
}

/// The settings document of the playlist: its volume, and per track the
/// settings, the selection weight and the play count.
pub struct PersistentSettings {
    pub volume: Volume,
    pub song_settings: NameTable<SongSettings>,
    pub song_probability_distribution: NameTable<u32>,
    pub song_play_count: NameTable<u32>,
}

impl PersistentSettings {
    /// Whether the three tables are in order: what every document made by
    /// this module's functions satisfies.
    pub open spec fn wf(&self) -> bool {
        &&& self.song_settings.wf()
        &&& self.song_probability_distribution.wf()
        &&& self.song_play_count.wf()
    }

    /// Makes the document of what was read from its file: the volume and the
    /// rows of the three tables. Rows that stand in order with no name twice,
    /// as a document is written, are taken as they stand.
    pub fn from_rows(
        volume: Volume,
        song_settings: &Vec<Entry<SongSettings>>,
        song_probability_distribution: &Vec<Entry<u32>>,
        song_play_count: &Vec<Entry<u32>>,
    ) -> (settings: Self)
        ensures
            settings.wf(),
            settings.volume == volume,
            settings.song_settings@ == loaded(rows_view(song_settings@)),
            settings.song_probability_distribution@ == loaded(
                rows_view(song_probability_distribution@),
            ),
            settings.song_play_count@ == loaded(rows_view(song_play_count@)),
    {
        PersistentSettings {
            volume,
            song_settings: NameTable::from_rows(song_settings),
            song_probability_distribution: NameTable::from_rows(song_probability_distribution),
            song_play_count: NameTable::from_rows(song_play_count),
        }
    }

    /// The settings of a track, and the default ones where none are kept.
    pub fn get_song_settings(&self, song: &str) -> (settings: SongSettings)
        requires
            self.wf(),
        ensures
            settings == settings_of(self.song_settings@, song@),
    {
        match self.song_settings.get(song) {
            Some(settings) => settings,
            None => SongSettings::default(),
        }
    }

    /// The selection weights of the tracks of `catalog`, in its order.
    pub fn get_probability_distribution(&self, catalog: &Catalog) -> (weights: Vec<u32>)
        requires
            self.wf(),
        ensures
            weights@.len() == catalog@.len(),
            forall|i: int|
                0 <= i < catalog@.len() ==> #[trigger] weights@[i] == weight_of(
                    self.song_probability_distribution@,
                    catalog@[i],
                ),
    {
        let mut weights = get_default_distribution(catalog.len());
        let mut i: usize = 0;
        while i < catalog.len()
            invariant
                self.wf(),
                i <= catalog@.len(),
                weights@.len() == catalog@.len(),
                forall|k: int| i <= k < catalog@.len() ==> #[trigger] weights@[k] == 1,
                forall|k: int|
                    0 <= k < i ==> #[trigger] weights@[k] == weight_of(
                        self.song_probability_distribution@,
                        catalog@[k],
                    ),
            decreases catalog@.len() - i,
        {
            match self.song_probability_distribution.get(catalog.name(i)) {
                Some(weight) => {
                    weights.set(i, weight);
                },
                None => {},
            }
            i += 1;
        }
        weights
    }

    /// Sets the selection weight of a track.
    pub fn set_song_probability(&mut self, song: &str, probability: u32)
        requires
            old(self).wf(),
        ensures
            final(self).wf(),
            forall|other: Seq<char>| #[trigger]
                value_of(final(self).song_probability_distribution@, other) == if other
                    == song@ {
                    Some(probability)
                } else {
                    value_of(old(self).song_probability_distribution@, other)
                },
            final(self).volume == old(self).volume,
            final(self).song_settings == old(self).song_settings,
            final(self).song_play_count == old(self).song_play_count,
    {
        self.song_probability_distribution.put(song, probability);
    }

    /// How often a track has been played.
    pub fn get_song_play_count(&self, song: &str) -> (count: u32)
        requires
            self.wf(),
        ensures
            count == play_count_of(self.song_play_count@, song@),
    {
        match self.song_play_count.get(song) {
            Some(count) => count,
            None => 0,
        }
    }

    /// Counts one more play of a track. The count stops at the largest
    /// number it can hold.
    pub fn accumulate_play_count(&mut self, song: &str)
        requires
            old(self).wf(),
        ensures
            final(self).wf(),
            forall|other: Seq<char>| #[trigger]
                value_of(final(self).song_play_count@, other) == if other == song@ {
                    Some(one_more(play_count_of(old(self).song_play_count@, other)))
                } else {
                    value_of(old(self).song_play_count@, other)
                },
            final(self).volume == old(self).volume,
            final(self).song_settings == old(self).song_settings,
            final(self).song_probability_distribution == old(self).song_probability_distribution,
    {
        let count = self.get_song_play_count(song);
        self.song_play_count.put(song, count.saturating_add(1));
    }
}

impl Default for PersistentSettings {
    fn default() -> (settings: Self)
        ensures
            settings.wf(),
            settings.volume@ == FULL_SCALE,
            settings.song_settings@.len() == 0,
            settings.song_probability_distribution@.len() == 0,
            settings.song_play_count@.len() == 0,
    {
        PersistentSettings {
            volume: Volume::full(),
            song_settings: NameTable::new(),
            song_probability_distribution: NameTable::new(),
            song_play_count: NameTable::new(),
        }
    }
}

/// Replaces the settings of a track, or enters them where it had none. The
/// entries stay in the order of the names.
pub fn update_song_settings(
    persistent_settings: &mut PersistentSettings,
    song: &str,
    settings: SongSettings,
)
    requires
        old(persistent_settings).wf(),
    ensures
        final(persistent_settings).wf(),
        forall|other: Seq<char>| #[trigger]
            value_of(final(persistent_settings).song_settings@, other) == if other == song@ {
                Some(settings)
            } else {
                value_of(old(persistent_settings).song_settings@, other)
            },
        final(persistent_settings).volume == old(persistent_settings).volume,
        final(persistent_settings).song_probability_distribution == old(
            persistent_settings,
        ).song_probability_distribution,
        final(persistent_settings).song_play_count == old(persistent_settings).song_play_count,
{
    persistent_settings.song_settings.put(song, settings);
}

} // verus!
