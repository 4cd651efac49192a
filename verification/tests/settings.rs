use music_player::catalog::Catalog;
use music_player::playlist_settings::{
    get_default_distribution, update_song_settings, AfterSong, PersistentSettings,
    SessionSettings, SongSettings,
};
use music_player::table::{Entry, NameTable};
use music_player::volume::{playback_gain, Volume, FULL_SCALE, STEP};

fn names_of<V: Copy>(table: &NameTable<V>) -> Vec<String> {
    let mut names = Vec::new();
    for i in 0..table.len() {
        names.push(table.name_at(i).clone());
    }
    names
}

fn catalog(names: &[&str]) -> Catalog {
    Catalog::new(names.iter().map(|name| name.to_string()).collect()).unwrap()
}

#[test]
fn volume_stays_between_silence_and_full_scale() {
    assert_eq!(Volume::from_units(5_000).units(), 5_000);
    assert_eq!(Volume::from_units(10_001).units(), FULL_SCALE);
    assert_eq!(Volume::from_units(u32::MAX).units(), FULL_SCALE);
    assert_eq!(Volume::full().units(), 10_000);
    assert_eq!(Volume::silent().units(), 0);
    assert!(Volume::silent().is_silent());
    assert!(!Volume::from_units(1).is_silent());
}

#[test]
fn volume_steps_are_a_tenth_of_full_scale() {
    assert_eq!(STEP, 1_000);
    assert_eq!(Volume::from_units(5_000).raised().units(), 6_000);
    assert_eq!(Volume::from_units(9_500).raised().units(), 10_000);
    assert_eq!(Volume::full().raised().units(), 10_000);
    assert_eq!(Volume::from_units(5_000).lowered().units(), 4_000);
    assert_eq!(Volume::from_units(999).lowered().units(), 0);
    assert_eq!(Volume::silent().lowered().units(), 0);
}

#[test]
fn playback_gain_is_the_product_of_the_volumes() {
    let half = Volume::from_units(5_000);
    assert_eq!(playback_gain(false, Volume::full(), half), 50_000_000);
    assert_eq!(playback_gain(false, half, half), 25_000_000);
    assert_eq!(playback_gain(false, Volume::full(), Volume::full()), 100_000_000);
    assert_eq!(playback_gain(true, Volume::full(), Volume::full()), 0);
    assert_eq!(playback_gain(false, Volume::silent(), half), 0);
}

#[test]
fn table_keeps_its_rows_in_the_order_of_the_names() {
    let mut table: NameTable<u32> = NameTable::new();
    table.put("delta", 4);
    table.put("alpha", 1);
    table.put("charlie", 3);
    table.put("bravo", 2);
    table.put("Zulu", 26);
    assert_eq!(names_of(&table), vec!["Zulu", "alpha", "bravo", "charlie", "delta"]);
    assert_eq!(table.value_at(0), 26);
    assert_eq!(table.value_at(4), 4);
}

#[test]
fn table_replaces_what_stood_under_a_name() {
    let mut table: NameTable<u32> = NameTable::new();
    table.put("a", 1);
    table.put("b", 2);
    table.put("a", 10);
    assert_eq!(table.len(), 2);
    assert_eq!(table.get("a"), Some(10));
    assert_eq!(table.get("b"), Some(2));
    assert_eq!(table.get("c"), None);
    assert_eq!(table.get(""), None);
}

#[test]
fn rows_written_and_read_back_are_the_same() {
    let mut table: NameTable<u32> = NameTable::new();
    for (name, value) in [("moon river", 3), ("a", 0), ("zebra", 9), ("", 5)] {
        table.put(name, value);
    }
    let rows = table.to_rows();
    let again = NameTable::from_rows(&rows);
    assert_eq!(again.len(), table.len());
    for i in 0..table.len() {
        assert_eq!(again.name_at(i), table.name_at(i));
        assert_eq!(again.value_at(i), table.value_at(i));
    }
    let written: Vec<(String, u32)> = again.to_rows().into_iter().map(|row| (row.name, row.value)).collect();
    let first: Vec<(String, u32)> = rows.into_iter().map(|row| (row.name, row.value)).collect();
    assert_eq!(written, first);
}

#[test]
fn rows_out_of_order_are_put_in_order_and_the_first_of_a_name_counts() {
    let rows = vec![
        Entry { name: "b".to_string(), value: 2u32 },
        Entry { name: "a".to_string(), value: 1 },
        Entry { name: "b".to_string(), value: 20 },
    ];
    let table = NameTable::from_rows(&rows);
    assert_eq!(names_of(&table), vec!["a", "b"]);
    assert_eq!(table.get("b"), Some(2));
}

#[test]
fn default_document_is_at_full_volume_and_empty() {
    let document = PersistentSettings::default();
    assert_eq!(document.volume.units(), FULL_SCALE);
    assert_eq!(document.song_settings.len(), 0);
    assert_eq!(document.song_probability_distribution.len(), 0);
    assert_eq!(document.song_play_count.len(), 0);
}

#[test]
fn settings_of_an_unknown_track_are_the_default_ones() {
    let document = PersistentSettings::default();
    let settings = document.get_song_settings("never heard");
    assert_eq!(settings, SongSettings::default());
    assert_eq!(settings.song_volume.units(), 5_000);
    assert!(!settings.starred);
    assert!(!settings.has_lyrics);
}

#[test]
fn update_song_settings_replaces_or_inserts_in_order() {
    let mut document = PersistentSettings::default();
    let starred = SongSettings { starred: true, ..SongSettings::default() };
    update_song_settings(&mut document, "b", starred);
    update_song_settings(&mut document, "a", SongSettings::default());
    update_song_settings(&mut document, "b", SongSettings { has_lyrics: true, ..starred });
    assert_eq!(names_of(&document.song_settings), vec!["a", "b"]);
    assert!(document.get_song_settings("b").has_lyrics);
    assert!(document.get_song_settings("b").starred);
    assert!(!document.get_song_settings("a").starred);
}

#[test]
fn weights_default_to_one_and_follow_the_catalog() {
    let mut document = PersistentSettings::default();
    let tracks = catalog(&["c", "a", "b"]);
    assert_eq!(document.get_probability_distribution(&tracks), vec![1, 1, 1]);
    document.set_song_probability("a", 7);
    document.set_song_probability("elsewhere", 9);
    document.set_song_probability("c", 0);
    assert_eq!(document.get_probability_distribution(&tracks), vec![0, 7, 1]);
    assert_eq!(document.get_probability_distribution(&catalog(&[])), Vec::<u32>::new());
}

#[test]
fn default_distribution_is_all_ones() {
    assert_eq!(get_default_distribution(0), Vec::<u32>::new());
    assert_eq!(get_default_distribution(4), vec![1, 1, 1, 1]);
}

#[test]
fn play_counts_start_at_nothing_and_grow_by_one() {
    let mut document = PersistentSettings::default();
    assert_eq!(document.get_song_play_count("a"), 0);
    document.accumulate_play_count("a");
    document.accumulate_play_count("a");
    document.accumulate_play_count("b");
    assert_eq!(document.get_song_play_count("a"), 2);
    assert_eq!(document.get_song_play_count("b"), 1);
    assert_eq!(document.get_song_play_count("c"), 0);
}

#[test]
fn play_count_stops_at_the_largest_number() {
    let rows = vec![Entry { name: "a".to_string(), value: u32::MAX - 1 }];
    let mut document = PersistentSettings::from_rows(Volume::full(), &vec![], &vec![], &rows);
    document.accumulate_play_count("a");
    assert_eq!(document.get_song_play_count("a"), u32::MAX);
    document.accumulate_play_count("a");
    assert_eq!(document.get_song_play_count("a"), u32::MAX);
}

#[test]
fn document_read_from_rows_holds_them() {
    let settings = vec![Entry {
        name: "a".to_string(),
        value: SongSettings { song_volume: Volume::from_units(2_500), starred: true, has_lyrics: false },
    }];
    let weights = vec![Entry { name: "a".to_string(), value: 4u32 }, Entry { name: "b".to_string(), value: 0 }];
    let counts = vec![Entry { name: "b".to_string(), value: 12u32 }];
    let document = PersistentSettings::from_rows(Volume::from_units(8_000), &settings, &weights, &counts);
    assert_eq!(document.volume.units(), 8_000);
    assert_eq!(document.get_song_settings("a").song_volume.units(), 2_500);
    assert!(document.get_song_settings("a").starred);
    assert_eq!(document.get_probability_distribution(&catalog(&["a", "b", "c"])), vec![4, 0, 1]);
    assert_eq!(document.get_song_play_count("b"), 12);
}

#[test]
fn session_begins_with_fixed_defaults() {
    let session = SessionSettings::new(1_234, 7);
    assert!(session.shuffle);
    assert!(session.key_events_enabled);
    assert!(!session.is_muted);
    assert!(!session.exclude_lyrics);
    assert_eq!(session.current_song_index, 0);
    assert_eq!(session.current_song_name, "");
    assert_eq!(session.duration_start, 1_234);
    assert_eq!(session.song_progress, 0);
    assert_eq!(session.song_duration, None);
    assert_eq!(session.after_song, AfterSong::Continue);
}

#[test]
fn song_progress_counts_from_the_start_of_the_stretch() {
    let mut session = SessionSettings::new(1_000, 0);
    assert_eq!(session.song_progress(4_500), 3_500);
    assert_eq!(session.song_progress(500), 0);
    session.add_song_progress(2_000);
    assert_eq!(session.song_progress(4_500), 5_500);
    session.add_song_progress(u64::MAX);
    assert_eq!(session.song_progress(4_500), u64::MAX);
    session.reset_song_progress();
    assert_eq!(session.song_progress(1_000), 0);
}

#[test]
fn song_duration_is_shown_as_a_clock_or_a_question_mark() {
    let mut session = SessionSettings::new(0, 0);
    assert_eq!(session.format_song_duration(), "?");
    session.song_duration = Some(185_400);
    assert_eq!(session.format_song_duration(), "3:05");
}

#[test]
fn muted_session_plays_the_playlist_at_silence() {
    let mut session = SessionSettings::new(0, 0);
    let mut document = PersistentSettings::default();
    document.volume = Volume::from_units(7_000);
    assert_eq!(session.playback_playlist_volume(&document).units(), 7_000);
    session.is_muted = true;
    assert_eq!(session.playback_playlist_volume(&document).units(), 0);
}
