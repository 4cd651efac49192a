use music_player::catalog::Catalog;
use music_player::crash_reporter::CrashReporter;
use music_player::playlist_settings::{
    update_song_settings, AfterSong, PersistentSettings, SessionSettings, SongSettings,
};
use music_player::report::{
    print_playlist, print_song_probabilities, print_starred_songs, print_status, Chance,
};
use music_player::text::append_decimal;
use music_player::utils::format_duration;
use music_player::volume::Volume;

fn catalog(names: &[&str]) -> Catalog {
    Catalog::new(names.iter().map(|name| name.to_string()).collect()).unwrap()
}

#[test]
fn decimal_is_written_without_leading_zeros() {
    for n in [0u64, 7, 10, 99, 100, 1_234_567_890, u64::MAX] {
        let mut text = String::from("n=");
        append_decimal(&mut text, n);
        assert_eq!(text, format!("n={}", n));
    }
}

#[test]
fn format_duration_counts_whole_seconds() {
    assert_eq!(format_duration(999), "0:00");
    assert_eq!(format_duration(1_000), "0:01");
    assert_eq!(format_duration(59_999), "0:59");
    assert_eq!(format_duration(60_000), "1:00");
    assert_eq!(format_duration(3_600_000), "60:00");
    assert_eq!(format_duration(u64::MAX), "307445734561825:51");
}

#[test]
fn crash_report_before_any_session() {
    let reporter = CrashReporter::new();
    assert_eq!(
        reporter.report("12:30 01.02.2024", 0),
        "CRASH REPORT 12:30 01.02.2024\n\nthe program crashed during the program setup"
    );
}

#[test]
fn crash_report_names_the_command() {
    let mut session = SessionSettings::new(1_000, 0);
    session.current_song_name = "moon river".to_string();
    session.song_duration = Some(200_000);
    session.exclude_lyrics = true;
    let mut reporter = CrashReporter::new();
    reporter.upcoming_command("choose 3".to_string(), &session);
    assert_eq!(
        reporter.report("09:05 31.12.2023", 66_000),
        "CRASH REPORT 09:05 31.12.2023\n\nshuffling is enabled\nexclude lyrics mode is enabled\ncurrent song: moon river (1:05/3:20)\n\nthe error occurred as the command 'choose 3' was processed"
    );
}

#[test]
fn crash_report_names_the_key_event() {
    let mut session = SessionSettings::new(0, 0);
    session.shuffle = false;
    let mut reporter = CrashReporter::new();
    reporter.upcoming_key_event("KeyPress(F8)".to_string(), &session);
    assert_eq!(
        reporter.report("t", 0),
        "CRASH REPORT t\n\nshuffling is disabled\nexclude lyrics mode is disabled\ncurrent song:  (0:00/?)\n\nthe error occurred as the key event 'KeyPress(F8)' was processed"
    );
}

#[test]
fn crash_report_names_the_track_about_to_start() {
    let mut session = SessionSettings::new(0, 0);
    let mut reporter = CrashReporter::new();
    for (after_song, text) in [
        (AfterSong::Continue, "Continue"),
        (AfterSong::Pause, "Pause"),
        (AfterSong::PlaySong(12), "PlaySong(12)"),
    ] {
        session.after_song = after_song;
        reporter.next_song("solo".to_string(), &session);
        let report = reporter.report("t", 0);
        let tail = format!(
            "\n\nthe error occurred while trying to play a new song\nsong: solo\nafter song option: {}",
            text
        );
        assert!(report.ends_with(&tail), "{}", report);
    }
}

#[test]
fn crash_report_without_a_cause() {
    let session = SessionSettings::new(0, 0);
    let mut reporter = CrashReporter::new();
    reporter.upcoming_command("x".to_string(), &session);
    reporter.set_session_settings(&session);
    assert!(reporter
        .report("t", 0)
        .ends_with("\n\nthe error did not occur during a command or after a song finished"));
    reporter.disable();
    assert!(!reporter.enabled);
}

#[test]
fn playlist_is_written_with_the_indices_set_right() {
    assert_eq!(
        print_playlist(&catalog(&["moon river", "solo"])),
        "Index - Song\n    0 - moon river\n    1 - solo\n"
    );
    assert_eq!(print_playlist(&catalog(&[])), "Index - Song\n\n");
    let many: Vec<String> = (0..11).map(|i| format!("t{}", i)).collect();
    let text = print_playlist(&Catalog::new(many).unwrap());
    assert!(text.ends_with("\n    9 - t9\n   10 - t10\n"));
}

#[test]
fn status_gathers_session_and_track() {
    let mut session = SessionSettings::new(0, 0);
    session.current_song_name = "b".to_string();
    session.current_song_index = 1;
    session.is_muted = true;
    session.after_song = AfterSong::PlaySong(0);
    session.song_duration = Some(5);
    let mut document = PersistentSettings::default();
    document.volume = Volume::from_units(8_000);
    update_song_settings(
        &mut document,
        "b",
        SongSettings { song_volume: Volume::from_units(3_000), starred: true, has_lyrics: true },
    );
    document.accumulate_play_count("b");
    let status = print_status(&session, &document);
    assert_eq!(status.playlist_volume.units(), 8_000);
    assert_eq!(status.playback_volume.units(), 0);
    assert_eq!(status.song_volume.units(), 3_000);
    assert!(status.is_muted && status.starred && status.has_lyrics);
    assert!(status.shuffle && status.key_events_enabled && !status.exclude_lyrics);
    assert_eq!(status.after_song, AfterSong::PlaySong(0));
    assert_eq!(status.song_duration, Some(5));
    assert_eq!(status.play_count, 1);
    assert_eq!(status.index, 1);
}

#[test]
fn chances_count_the_stars_in() {
    let tracks = catalog(&["a", "b", "c"]);
    let mut document = PersistentSettings::default();
    document.set_song_probability("a", 3);
    document.set_song_probability("c", u32::MAX);
    update_song_settings(&mut document, "a", SongSettings { starred: true, ..SongSettings::default() });
    update_song_settings(
        &mut document,
        "c",
        SongSettings { starred: true, has_lyrics: true, ..SongSettings::default() },
    );
    let (rows, total) = print_song_probabilities(&document, &tracks);
    assert_eq!(
        rows,
        vec![
            Chance { weight: 6, base: 3 },
            Chance { weight: 1, base: 1 },
            Chance { weight: 2 * (u32::MAX as u64), base: u32::MAX },
        ]
    );
    assert_eq!(total, 7 + 2 * (u32::MAX as u128));
    assert_eq!(print_song_probabilities(&document, &catalog(&[])), (vec![], 0));
}

#[test]
fn starred_tracks_are_listed_in_catalog_order() {
    let tracks = catalog(&["a", "b", "c", "d"]);
    let mut document = PersistentSettings::default();
    for name in ["d", "b"] {
        update_song_settings(&mut document, name, SongSettings { starred: true, ..SongSettings::default() });
    }
    assert_eq!(print_starred_songs(&document, &tracks), vec![1, 3]);
    assert_eq!(print_starred_songs(&PersistentSettings::default(), &tracks), Vec::<usize>::new());
}
