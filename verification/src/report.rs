//! What the operator can ask to be shown: the state of the session, the
//! chances of the tracks, the playlist, the starred tracks.

use vstd::prelude::*;
use vstd::string::*;
use crate::catalog::Catalog;
use crate::player::{starred_flags, weights_in_order};
use crate::playlist_settings::{
    play_count_of, settings_of, weight_of, AfterSong, PersistentSettings, SessionSettings,
    SessionView,
};
use crate::selection::effective_weight;
use crate::text::{append_decimal, decimal};
use crate::volume::Volume;

verus! {

/// The state of a session as the operator is shown it.
#[derive(Clone, Copy, Debug, PartialEq, Eq)]
pub struct Status {
    pub playlist_volume: Volume,
    pub is_muted: bool,
    pub after_song: AfterSong,
    pub key_events_enabled: bool,
    pub shuffle: bool,
    pub exclude_lyrics: bool,
    pub song_duration: Option<u64>,
    pub play_count: u32,
    pub song_volume: Volume,
    /// The volume of the playlist as it sounds: silence while muted.
    pub playback_volume: Volume,
    pub starred: bool,
    pub has_lyrics: bool,
    pub index: usize,
}

/// The state of `session`, with what `document` holds of its current track.
pub open spec fn status_of(session: SessionView, document: PersistentSettings) -> Status {
    let settings = settings_of(document.song_settings@, session.current_song_name);
    Status {
        playlist_volume: document.volume,
        is_muted: session.is_muted,
        after_song: session.after_song,
        key_events_enabled: session.key_events_enabled,
        shuffle: session.shuffle,
        exclude_lyrics: session.exclude_lyrics,
        song_duration: session.song_duration,
        play_count: play_count_of(document.song_play_count@, session.current_song_name),
        song_volume: settings.song_volume,
        playback_volume: if session.is_muted {
            Volume::of(0)
        } else {
            document.volume
        },
        starred: settings.starred,
        has_lyrics: settings.has_lyrics,
        index: session.current_song_index,
    }
}

/// Gathers the state of the session for the operator.
pub fn print_status(
    session_settings: &SessionSettings,
    persistent_settings: &PersistentSettings,
) -> (status: Status)
    requires
        persistent_settings.wf(),
    ensures
        status == status_of(session_settings@, *persistent_settings),
{
    let name = session_settings.current_song_name.as_str();
    let settings = persistent_settings.get_song_settings(name);
    Status {
        playlist_volume: persistent_settings.volume,
        is_muted: session_settings.is_muted,
        after_song: session_settings.after_song,
        key_events_enabled: session_settings.key_events_enabled,
        shuffle: session_settings.shuffle,
        exclude_lyrics: session_settings.exclude_lyrics,
        song_duration: session_settings.song_duration,
        play_count: persistent_settings.get_song_play_count(name),
        song_volume: settings.song_volume,
        playback_volume: session_settings.playback_playlist_volume(persistent_settings),
        starred: settings.starred,
        has_lyrics: settings.has_lyrics,
        index: session_settings.current_song_index,
    }
}

/// The weight of a track as the operator is shown it.
#[derive(Clone, Copy, Debug, PartialEq, Eq)]
pub struct Chance {
    /// The weight with the star counted in.
    pub weight: u64,
    /// The weight as the document holds it.
    pub base: u32,
}

/// The weights of the first `upto` tracks with the stars counted in, added
/// up.
pub open spec fn starred_total(weights: Seq<u32>, starred: Seq<bool>, upto: int) -> nat
    decreases upto,
{
    if upto <= 0 {
        0
    } else {
        starred_total(weights, starred, upto - 1) + effective_weight(
            weights[upto - 1],
            starred[upto - 1],
            false,
        )
    }
}

/// Lists for each track its weight, with and without its star counted in,
/// and adds the former up: the chance of a track is its share of that sum.
/// The lyrics filter is left aside.
pub fn print_song_probabilities(persistent_settings: &PersistentSettings, catalog: &Catalog) -> (chances: (
    Vec<Chance>,
    u128,
))
    requires
        persistent_settings.wf(),
    ensures
        chances.0@.len() == catalog@.len(),
        forall|i: int|
            0 <= i < catalog@.len() ==> (#[trigger] chances.0@[i]).base == weight_of(
                persistent_settings.song_probability_distribution@,
                catalog@[i],
            ),
        forall|i: int|
            0 <= i < catalog@.len() ==> (#[trigger] chances.0@[i]).weight == effective_weight(
                weight_of(persistent_settings.song_probability_distribution@, catalog@[i]),
                settings_of(persistent_settings.song_settings@, catalog@[i]).starred,
                false,
            ),
        chances.1 == starred_total(
            weights_in_order(persistent_settings.song_probability_distribution@, catalog@),
            starred_flags(persistent_settings.song_settings@, catalog@),
            catalog@.len() as int,
        ),
{
    let weights = persistent_settings.get_probability_distribution(catalog);
    let ghost all_weights = weights_in_order(
        persistent_settings.song_probability_distribution@,
        catalog@,
    );
    let ghost all_starred = starred_flags(persistent_settings.song_settings@, catalog@);
    assert(weights@ =~= all_weights);
    let mut rows: Vec<Chance> = Vec::new();
    let mut sum: u128 = 0;
    let mut i: usize = 0;
    while i < catalog.len()
        invariant
            persistent_settings.wf(),
            i <= catalog@.len(),
            weights@ == all_weights,
            all_weights == weights_in_order(
                persistent_settings.song_probability_distribution@,
                catalog@,
            ),
            all_starred == starred_flags(persistent_settings.song_settings@, catalog@),
            rows@.len() == i,
            forall|k: int| 0 <= k < i ==> (#[trigger] rows@[k]).base == all_weights[k],
            forall|k: int|
                0 <= k < i ==> (#[trigger] rows@[k]).weight == effective_weight(
                    all_weights[k],
                    all_starred[k],
                    false,
                ),
            sum == starred_total(all_weights, all_starred, i as int),
            sum <= i * 0x2_0000_0000,
        decreases catalog@.len() - i,
    {
        let settings = persistent_settings.get_song_settings(catalog.name(i));
        let base = weights[i];
        let weight: u64 = if settings.starred {
            2 * (base as u64)
        } else {
            base as u64
        };
        assert(i * 0x2_0000_0000 + 0x2_0000_0000 <= 0xffff_ffff_ffff_ffff * 0x2_0000_0000 + 0x2_0000_0000) by (nonlinear_arith)
            requires
                i <= 0xffff_ffff_ffff_ffff,
        ;
        sum = sum + weight as u128;
        rows.push(Chance { weight, base });
        i += 1;
    }
    (rows, sum)
}

/// The indices of the first `upto` tracks that are starred, in order.
pub open spec fn starred_among(starred: Seq<bool>, upto: int) -> Seq<usize>
    decreases upto,
{
    if upto <= 0 {
        Seq::<usize>::empty()
    } else if starred[upto - 1] {
        starred_among(starred, upto - 1).push((upto - 1) as usize)
    } else {
        starred_among(starred, upto - 1)
    }
}

/// Lists the starred tracks of the catalog.
pub fn print_starred_songs(persistent_settings: &PersistentSettings, catalog: &Catalog) -> (starred:
    Vec<usize>)
    requires
        persistent_settings.wf(),
    ensures
        starred@ == starred_among(
            starred_flags(persistent_settings.song_settings@, catalog@),
            catalog@.len() as int,
        ),
{
    let mut starred: Vec<usize> = Vec::new();
    let mut i: usize = 0;
    while i < catalog.len()
        invariant
            persistent_settings.wf(),
            i <= catalog@.len(),
            starred@ == starred_among(
                starred_flags(persistent_settings.song_settings@, catalog@),
                i as int,
            ),
        decreases catalog@.len() - i,
    {
        if persistent_settings.get_song_settings(catalog.name(i)).starred {
            starred.push(i);
        }
        i += 1;
    }
    starred
}

/// `count` spaces.
pub open spec fn spaces(count: nat) -> Seq<char> {
    Seq::new(count, |i: int| ' ')
}

/// The row of the playlist for track `index`: its index, set to the right
/// in a column as wide as the heading `Index`, a dash, and its name.
pub open spec fn playlist_row(index: nat, name: Seq<char>) -> Seq<char> {
    let number = decimal(index);
    spaces(
        if number.len() < 5 {
            (5 - number.len()) as nat
        } else {
            0
        },
    ) + number + " - "@ + name
}

/// The rows of the first `upto` tracks, one to a line.
pub open spec fn playlist_rows(names: Seq<Seq<char>>, upto: int) -> Seq<char>
    decreases upto,
{
    if upto <= 0 {
        Seq::<char>::empty()
    } else if upto == 1 {
        playlist_row(0, names[0])
    } else {
        playlist_rows(names, upto - 1) + "\n"@ + playlist_row((upto - 1) as nat, names[upto - 1])
    }
}

/// The playlist as the operator is shown it: a heading, the rows, and an
/// empty line.
pub open spec fn playlist_text(names: Seq<Seq<char>>) -> Seq<char> {
    "Index - Song\n"@ + playlist_rows(names, names.len() as int) + "\n"@
}

fn write_row(index: usize, name: &str) -> (row: String)
    ensures
        row@ == playlist_row(index as nat, name@),
{
    let mut number = String::new();
    append_decimal(&mut number, index as u64);
    assert(number@ =~= decimal(index as nat));
    let width = number.as_str().unicode_len();
    let pad: usize = if width < 5 {
        5 - width
    } else {
        0
    };
    let mut row = String::new();
    let mut i: usize = 0;
    proof {
        reveal_strlit(" ");
    }
    while i < pad
        invariant
            i <= pad,
            " "@ == seq![' '],
            row@ == spaces(i as nat),
        decreases pad - i,
    {
        row.append(" ");
        assert(row@ =~= spaces((i + 1) as nat));
        i += 1;
    }
    row.append(number.as_str());
    row.append(" - ");
    row.append(name);
    row
}

/// Writes the playlist out for the operator.
pub fn print_playlist(catalog: &Catalog) -> (text: String)
    ensures
        text@ == playlist_text(catalog@),
{
    let mut rows = String::new();
    let mut i: usize = 0;
    while i < catalog.len()
        invariant
            i <= catalog@.len(),
            rows@ == playlist_rows(catalog@, i as int),
        decreases catalog@.len() - i,
    {
        let row = write_row(i, catalog.name(i));
        if i > 0 {
            rows.append("\n");
        }
        rows.append(row.as_str());
        assert(rows@ =~= playlist_rows(catalog@, i + 1));
        i += 1;
    }
    let mut text = "Index - Song\n".to_owned();
    text.append(rows.as_str());
    text.append("\n");
    text
}

} // verus!
