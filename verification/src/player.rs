//! Going from one track to the next: the choice of the track, and what the
//! start of a track changes in the session and in the settings document.

use vstd::prelude::*;
use crate::catalog::Catalog;
use crate::playlist_settings::{
    one_more, play_count_of, settings_of, weight_of, AfterSong, PersistentSettings,
    SessionSettings, SessionView, SongSettings,
};
use crate::selection::{
    choose_next, choose_weighted, effective_total, effective_weight,
    lemma_effective_total_covers, next_in_order,
};
use crate::table::value_of;
use crate::utils::SelectionError;

verus! {

/// For each track, whether it is starred.
pub open spec fn starred_flags(
    settings: Seq<(Seq<char>, SongSettings)>,
    names: Seq<Seq<char>>,
) -> Seq<bool> {
    Seq::new(names.len(), |i: int| settings_of(settings, names[i]).starred)
}

/// For each track, whether the lyrics filter keeps it from playing.
pub open spec fn excluded_flags(
    settings: Seq<(Seq<char>, SongSettings)>,
    names: Seq<Seq<char>>,
    exclude_lyrics: bool,
) -> Seq<bool> {
    Seq::new(names.len(), |i: int| exclude_lyrics && settings_of(settings, names[i]).has_lyrics)
}

/// The selection weights of the tracks, in catalog order.
pub open spec fn weights_in_order(weights: Seq<(Seq<char>, u32)>, names: Seq<Seq<char>>) -> Seq<
    u32,
> {
    Seq::new(names.len(), |i: int| weight_of(weights, names[i]))
}

/// Looks up, for each track, whether it is starred and whether the lyrics
/// filter excludes it.
pub fn track_flags(
    persistent_settings: &PersistentSettings,
    catalog: &Catalog,
    exclude_lyrics: bool,
) -> (flags: (Vec<bool>, Vec<bool>))
    requires
        persistent_settings.wf(),
    ensures
        flags.0@ == starred_flags(persistent_settings.song_settings@, catalog@),
        flags.1@ == excluded_flags(persistent_settings.song_settings@, catalog@, exclude_lyrics),
{
    let mut starred: Vec<bool> = Vec::new();
    let mut excluded: Vec<bool> = Vec::new();
    let mut i: usize = 0;
    while i < catalog.len()
        invariant
            persistent_settings.wf(),
            i <= catalog@.len(),
            starred@.len() == i,
            excluded@.len() == i,
            forall|k: int|
                0 <= k < i ==> #[trigger] starred@[k] == settings_of(
                    persistent_settings.song_settings@,
                    catalog@[k],
                ).starred,
            forall|k: int|
                0 <= k < i ==> #[trigger] excluded@[k] == (exclude_lyrics && settings_of(
                    persistent_settings.song_settings@,
                    catalog@[k],
                ).has_lyrics),
        decreases catalog@.len() - i,
    {
        let settings = persistent_settings.get_song_settings(catalog.name(i));
        starred.push(settings.starred);
        excluded.push(exclude_lyrics && settings.has_lyrics);
        i += 1;
    }
    assert(starred@ =~= starred_flags(persistent_settings.song_settings@, catalog@));
    assert(excluded@ =~= excluded_flags(
        persistent_settings.song_settings@,
        catalog@,
        exclude_lyrics,
    ));
    (starred, excluded)
}

/// Whether `chosen` is a choice of the next track that the session and the
/// document allow.
///
/// Without shuffling the choice is the next track in catalog order that the
/// lyrics filter lets play, and there is none exactly when the filter
/// excludes every track. With shuffling it is some track of positive
/// effective weight; there is none exactly when all effective weights are 0,
/// or when they add up to more than a draw can take.
pub open spec fn is_next_song(
    chosen: Result<usize, SelectionError>,
    session: SessionView,
    document: PersistentSettings,
    names: Seq<Seq<char>>,
) -> bool {
    let weights = weights_in_order(document.song_probability_distribution@, names);
    let starred = starred_flags(document.song_settings@, names);
    let excluded = excluded_flags(document.song_settings@, names, session.exclude_lyrics);
    let total = effective_total(weights, starred, excluded, names.len() as int);
    &&& chosen matches Ok(index) ==> index < names.len() && !excluded[index as int]
    &&& !session.shuffle ==> chosen == match next_in_order(
        excluded,
        session.current_song_index as int,
    ) {
        Some(index) => Ok::<usize, SelectionError>(index as usize),
        None => Err::<usize, SelectionError>(SelectionError::NoEligibleTracks),
    }
    &&& session.shuffle ==> {
        &&& total == 0 ==> chosen == Err::<usize, SelectionError>(
            SelectionError::NoEligibleTracks,
        )
        &&& total > u32::MAX ==> chosen == Err::<usize, SelectionError>(
            SelectionError::WeightOverflow,
        )
        &&& 0 < total <= u32::MAX ==> (chosen matches Ok(index) && effective_weight(
            weights[index as int],
            starred[index as int],
            excluded[index as int],
        ) > 0)
    }
}

/// Chooses the track to play after the current one: by weighted draw while
/// the session shuffles, else the next in catalog order. Tracks that the
/// lyrics filter excludes are passed over either way.
pub fn get_next_song_index(
    session_settings: &mut SessionSettings,
    persistent_settings: &PersistentSettings,
    catalog: &Catalog,
) -> (chosen: Result<usize, SelectionError>)
    requires
        persistent_settings.wf(),
    ensures
        final(session_settings)@ == old(session_settings)@,
        is_next_song(chosen, old(session_settings)@, *persistent_settings, catalog@),
{
    let (starred, excluded) = track_flags(
        persistent_settings,
        catalog,
        session_settings.exclude_lyrics,
    );
    if session_settings.shuffle {
        let weights = persistent_settings.get_probability_distribution(catalog);
        assert(weights@ =~= weights_in_order(
            persistent_settings.song_probability_distribution@,
            catalog@,
        ));
        choose_weighted(
            weights.as_slice(),
            starred.as_slice(),
            excluded.as_slice(),
            &mut session_settings.random,
        )
    } else {
        choose_next(session_settings.current_song_index, excluded.as_slice())
    }
}

/// Whether track `index` is the only one that the lyrics filter lets play.
pub open spec fn sole_eligible(excluded: Seq<bool>, index: int) -> bool {
    &&& !excluded[index]
    &&& forall|j: int| 0 <= j < excluded.len() && j != index ==> #[trigger] excluded[j]
}

/// Whether `name` is one of the first `upto` names.
pub open spec fn among_first(names: Seq<Seq<char>>, upto: int, name: Seq<char>) -> bool {
    exists|k: int| 0 <= k < upto && #[trigger] names[k] == name
}

/// The weight entry of the track `name` once track `index` has started
/// while shuffling: 0 for the track that started, or 1 where nothing else
/// may play; one more than before for every other track of the catalog; and
/// what it was for a name that is no track.
pub open spec fn weight_after_start(
    before: Seq<(Seq<char>, u32)>,
    names: Seq<Seq<char>>,
    excluded: Seq<bool>,
    index: int,
    name: Seq<char>,
) -> Option<u32> {
    if name == names[index] {
        if sole_eligible(excluded, index) {
            Some(1u32)
        } else {
            Some(0u32)
        }
    } else if among_first(names, names.len() as int, name) {
        Some(one_more(weight_of(before, name)))
    } else {
        value_of(before, name)
    }
}

/// When a track starts while the session shuffles, its weight drops to 0,
/// unless it is the only track that may play, and the weight of every other
/// track of the catalog grows by one, as long as a weight can still grow.
pub proof fn lemma_weights_after_start(
    before: Seq<(Seq<char>, u32)>,
    names: Seq<Seq<char>>,
    excluded: Seq<bool>,
    index: int,
    other: int,
)
    requires
        names.no_duplicates(),
        0 <= index < names.len(),
        0 <= other < names.len(),
        other != index,
    ensures
        !sole_eligible(excluded, index) ==> weight_after_start(
            before,
            names,
            excluded,
            index,
            names[index],
        ) == Some(0u32),
        weight_of(before, names[other]) < u32::MAX ==> weight_after_start(
            before,
            names,
            excluded,
            index,
            names[other],
        ) == Some((weight_of(before, names[other]) + 1) as u32),
        weight_after_start(before, names, excluded, index, names[other]) matches Some(weight)
            && weight > 0,
{
    assert(names[other] != names[index]);
    assert(among_first(names, names.len() as int, names[other]));
}

/// Right after a track has started while the session shuffles, the effective
/// weights add up to more than nothing, as long as the lyrics filter lets
/// any track play: the next draw then finds a track.
pub proof fn lemma_draw_possible_after_start(
    before: Seq<(Seq<char>, u32)>,
    after: Seq<(Seq<char>, u32)>,
    names: Seq<Seq<char>>,
    starred: Seq<bool>,
    excluded: Seq<bool>,
    index: int,
    eligible: int,
)
    requires
        names.no_duplicates(),
        starred.len() == names.len(),
        excluded.len() == names.len(),
        0 <= index < names.len(),
        0 <= eligible < names.len(),
        !excluded[eligible],
        forall|name: Seq<char>| #[trigger]
            value_of(after, name) == weight_after_start(before, names, excluded, index, name),
    ensures
        effective_total(weights_in_order(after, names), starred, excluded, names.len() as int)
            > 0,
{
    let weights = weights_in_order(after, names);
    let other = if eligible != index {
        eligible
    } else if sole_eligible(excluded, index) {
        index
    } else {
        choose|j: int| 0 <= j < excluded.len() && j != index && !excluded[j]
    };
    assert(value_of(after, names[other]) == weight_after_start(
        before,
        names,
        excluded,
        index,
        names[other],
    ));
    if other != index {
        lemma_weights_after_start(before, names, excluded, index, other);
    }
    assert(weights[other] > 0);
    lemma_effective_total_covers(weights, starred, excluded, names.len() as int, other);
}

/// Where all tracks but `index` are excluded, only `index` adds to the total
/// of the effective weights.
proof fn lemma_total_of_sole(
    weights: Seq<u32>,
    starred: Seq<bool>,
    excluded: Seq<bool>,
    index: int,
    upto: int,
)
    requires
        0 <= index < excluded.len(),
        0 <= upto <= excluded.len(),
        sole_eligible(excluded, index),
    ensures
        effective_total(weights, starred, excluded, upto) == if upto > index {
            effective_weight(weights[index], starred[index], excluded[index])
        } else {
            0
        },
    decreases upto,
{
    if upto > 0 {
        lemma_total_of_sole(weights, starred, excluded, index, upto - 1);
        if upto - 1 != index {
            assert(excluded[upto - 1]);
        }
    }
}

/// A track that has just started and is the only one that may play keeps a
/// weight of 1, so that the next draw finds a positive total and can only
/// fall on that track again.
pub proof fn lemma_sole_track_stays_playable(
    after: Seq<(Seq<char>, u32)>,
    names: Seq<Seq<char>>,
    starred: Seq<bool>,
    excluded: Seq<bool>,
    index: int,
)
    requires
        starred.len() == names.len(),
        excluded.len() == names.len(),
        0 <= index < names.len(),
        sole_eligible(excluded, index),
        value_of(after, names[index]) == Some(1u32),
    ensures
        0 < effective_total(
            weights_in_order(after, names),
            starred,
            excluded,
            names.len() as int,
        ) <= 2,
        forall|j: int|
            0 <= j < names.len() && effective_weight(
                #[trigger] weights_in_order(after, names)[j],
                starred[j],
                excluded[j],
            ) > 0 ==> j == index,
{
    lemma_total_of_sole(
        weights_in_order(after, names),
        starred,
        excluded,
        index,
        names.len() as int,
    );
    assert forall|j: int|
        0 <= j < names.len() && effective_weight(
            #[trigger] weights_in_order(after, names)[j],
            starred[j],
            excluded[j],
        ) > 0 implies j == index by {
        if j != index {
            assert(excluded[j]);
        }
    }
}

/// Tests whether track `index` is the only one that may play.
fn is_sole_eligible(excluded: &[bool], index: usize) -> (sole: bool)
    requires
        index < excluded@.len(),
    ensures
        sole == sole_eligible(excluded@, index as int),
{
    if excluded[index] {
        return false;
    }
    let mut j: usize = 0;
    while j < excluded.len()
        invariant
            j <= excluded@.len(),
            index < excluded@.len(),
            !excluded@[index as int],
            forall|k: int| 0 <= k < j && k != index ==> #[trigger] excluded@[k],
        decreases excluded@.len() - j,
    {
        if j != index && !excluded[j] {
            return false;
        }
        j += 1;
    }
    true
}

/// Makes the starting track the least likely to be drawn next: every track
/// gains one unit of weight, then the starting track drops to 0, or to 1
/// where it is the only track that may play.
pub fn update_weights(
    persistent_settings: &mut PersistentSettings,
    catalog: &Catalog,
    excluded: &[bool],
    index: usize,
)
    requires
        old(persistent_settings).wf(),
        catalog.wf(),
        index < catalog@.len(),
        excluded@.len() == catalog@.len(),
    ensures
        final(persistent_settings).wf(),
        forall|name: Seq<char>| #[trigger]
            value_of(final(persistent_settings).song_probability_distribution@, name)
                == weight_after_start(
                old(persistent_settings).song_probability_distribution@,
                catalog@,
                excluded@,
                index as int,
                name,
            ),
        final(persistent_settings).volume == old(persistent_settings).volume,
        final(persistent_settings).song_settings == old(persistent_settings).song_settings,
        final(persistent_settings).song_play_count == old(persistent_settings).song_play_count,
{
    let ghost before = persistent_settings.song_probability_distribution@;
    let mut i: usize = 0;
    while i < catalog.len()
        invariant
            i <= catalog@.len(),
            catalog.wf(),
            persistent_settings.wf(),
            persistent_settings.volume == old(persistent_settings).volume,
            persistent_settings.song_settings == old(persistent_settings).song_settings,
            persistent_settings.song_play_count == old(persistent_settings).song_play_count,
            before == old(persistent_settings).song_probability_distribution@,
            forall|name: Seq<char>| #[trigger]
                value_of(persistent_settings.song_probability_distribution@, name)
                    == if among_first(catalog@, i as int, name) {
                    Some(one_more(weight_of(before, name)))
                } else {
                    value_of(before, name)
                },
        decreases catalog@.len() - i,
    {
        let name = catalog.name(i);
        let weight = match persistent_settings.song_probability_distribution.get(name) {
            Some(weight) => weight,
            None => 1,
        };
        let ghost earlier = persistent_settings.song_probability_distribution@;
        proof {
            if among_first(catalog@, i as int, name@) {
                let k = choose|k: int| 0 <= k < i && #[trigger] catalog@[k] == name@;
                assert(catalog@[k] == catalog@[i as int]);
            }
            assert(weight == weight_of(before, name@));
        }
        persistent_settings.set_song_probability(name, weight.saturating_add(1));
        proof {
            assert forall|other: Seq<char>| #[trigger]
                value_of(persistent_settings.song_probability_distribution@, other)
                    == if among_first(catalog@, i + 1, other) {
                    Some(one_more(weight_of(before, other)))
                } else {
                    value_of(before, other)
                } by {
                if other == name@ {
                    assert(catalog@[i as int] == other);
                } else {
                    assert(value_of(persistent_settings.song_probability_distribution@, other)
                        == value_of(earlier, other));
                    if among_first(catalog@, i + 1, other) {
                        let k = choose|k: int| 0 <= k < i + 1 && #[trigger] catalog@[k] == other;
                        assert(k < i);
                    }
                    if among_first(catalog@, i as int, other) {
                        let k = choose|k: int| 0 <= k < i && #[trigger] catalog@[k] == other;
                        assert(0 <= k < i + 1 && catalog@[k] == other);
                    }
                }
            }
        }
        i += 1;
    }
    let ghost bumped = persistent_settings.song_probability_distribution@;
    let rest: u32 = if is_sole_eligible(excluded, index) {
        1
    } else {
        0
    };
    persistent_settings.set_song_probability(catalog.name(index), rest);
    proof {
        assert forall|name: Seq<char>| #[trigger]
            value_of(persistent_settings.song_probability_distribution@, name)
                == weight_after_start(before, catalog@, excluded@, index as int, name) by {
            if name != catalog@[index as int] {
                assert(value_of(persistent_settings.song_probability_distribution@, name)
                    == value_of(bumped, name));
            }
        }
    }
}

/// What the start of track `index` makes of the settings document: one more
/// play counted for the track and, while shuffling, the weights moved on.
pub open spec fn started(
    before: PersistentSettings,
    after: PersistentSettings,
    names: Seq<Seq<char>>,
    shuffle: bool,
    exclude_lyrics: bool,
    index: int,
) -> bool {
    &&& after.wf()
    &&& after.volume == before.volume
    &&& after.song_settings@ == before.song_settings@
    &&& forall|name: Seq<char>| #[trigger]
        value_of(after.song_play_count@, name) == if name == names[index] {
            Some(one_more(play_count_of(before.song_play_count@, name)))
        } else {
            value_of(before.song_play_count@, name)
        }
    &&& if shuffle {
        forall|name: Seq<char>| #[trigger]
            value_of(after.song_probability_distribution@, name) == weight_after_start(
                before.song_probability_distribution@,
                names,
                excluded_flags(before.song_settings@, names, exclude_lyrics),
                index,
                name,
            )
    } else {
        after.song_probability_distribution@ == before.song_probability_distribution@
    }
}

/// The session once track `index`, of the name `name`, has started at time
/// `now`: nothing played of it yet, its length not yet known.
pub open spec fn now_playing(before: SessionView, index: usize, name: Seq<char>, now: u64) -> SessionView {
    SessionView {
        current_song_index: index,
        current_song_name: name,
        duration_start: now,
        song_duration: None,
        song_progress: 0,
        ..before
    }
}

/// Records the start of track `index` at time `now`: in the document the
/// weights and the play count, in the session the track and its clock. The
/// length of the track is left open for whoever decodes it.
pub fn play_next_song(
    index: usize,
    catalog: &Catalog,
    session_settings: &mut SessionSettings,
    persistent_settings: &mut PersistentSettings,
    now: u64,
)
    requires
        old(persistent_settings).wf(),
        catalog.wf(),
        index < catalog@.len(),
    ensures
        final(session_settings)@ == now_playing(
            old(session_settings)@,
            index,
            catalog@[index as int],
            now,
        ),
        started(
            *old(persistent_settings),
            *final(persistent_settings),
            catalog@,
            old(session_settings).shuffle,
            old(session_settings).exclude_lyrics,
            index as int,
        ),
{
    if session_settings.shuffle {
        let (_, excluded) = track_flags(
            persistent_settings,
            catalog,
            session_settings.exclude_lyrics,
        );
        update_weights(persistent_settings, catalog, excluded.as_slice(), index);
    }
    persistent_settings.accumulate_play_count(catalog.name(index));
    session_settings.current_song_index = index;
    session_settings.current_song_name = catalog.name(index).to_owned();
    session_settings.duration_start = now;
    session_settings.song_duration = None;
    session_settings.reset_song_progress();
}

/// What the start of track `index` at time `now` makes of the session and
/// of the document. Whatever was set to follow the current track is spent.
pub open spec fn track_started(
    before: SessionView,
    after: SessionView,
    document_before: PersistentSettings,
    document_after: PersistentSettings,
    names: Seq<Seq<char>>,
    index: usize,
    now: u64,
) -> bool {
    &&& after == (SessionView {
        after_song: AfterSong::Continue,
        ..now_playing(before, index, names[index as int], now)
    })
    &&& started(
        document_before,
        document_after,
        names,
        before.shuffle,
        before.exclude_lyrics,
        index as int,
    )
}

} // verus!
