use music_player::catalog::Catalog;
use music_player::command::{Command, Target};
use music_player::crash_reporter::{CrashCause, CrashReporter};
use music_player::handle_input::{
    execute, handle_console_commands, handle_key_event, track_finished, Action, Key, KeyEvent,
    Notice,
};
use music_player::playlist_settings::{
    update_song_settings, AfterSong, PersistentSettings, SessionSettings, SongSettings,
};
use music_player::utils::SelectionError;
use music_player::volume::Volume;

struct Player {
    session: SessionSettings,
    document: PersistentSettings,
    catalog: Catalog,
    reporter: CrashReporter,
}

fn player(names: &[&str]) -> Player {
    let catalog = Catalog::new(names.iter().map(|name| name.to_string()).collect()).unwrap();
    let mut session = SessionSettings::new(0, 21);
    if !names.is_empty() {
        session.current_song_name = names[0].to_string();
    }
    Player { session, document: PersistentSettings::default(), catalog, reporter: CrashReporter::new() }
}

fn five() -> Player {
    player(&["a", "b", "c", "d", "e"])
}

impl Player {
    fn line_at(&mut self, line: &str, paused: bool, now: u64) -> Result<Vec<Action>, SelectionError> {
        handle_console_commands(
            line,
            paused,
            now,
            &mut self.session,
            &mut self.document,
            &self.catalog,
            &mut self.reporter,
        )
    }

    fn line(&mut self, line: &str) -> Vec<Action> {
        self.line_at(line, false, 0).unwrap()
    }

    fn key(&mut self, key: Key) -> Vec<Action> {
        handle_key_event(
            KeyEvent::KeyPress(key),
            false,
            0,
            &mut self.session,
            &mut self.document,
            &self.catalog,
            &mut self.reporter,
        )
        .unwrap()
    }

    fn finished(&mut self, now: u64) -> Result<Vec<Action>, SelectionError> {
        track_finished(now, &mut self.session, &mut self.document, &self.catalog, &mut self.reporter)
    }

    fn weights(&self) -> Vec<u32> {
        self.document.get_probability_distribution(&self.catalog)
    }
}

fn told(notice: Notice) -> Vec<Action> {
    vec![Action::Report(notice)]
}

#[test]
fn v50_sets_the_playlist_volume_to_half() {
    let mut p = five();
    let actions = p.line("v50");
    assert_eq!(p.document.volume.units(), 5_000);
    assert!(!p.session.is_muted);
    assert_eq!(
        actions,
        vec![
            Action::SetGain(25_000_000),
            Action::Report(Notice::PlaylistVolume(Volume::from_units(5_000))),
            Action::Save,
        ]
    );
}

#[test]
fn sv_minus_lowers_the_track_volume_by_a_tenth() {
    let mut p = five();
    let actions = p.line("sv-");
    assert_eq!(p.document.get_song_settings("a").song_volume.units(), 4_000);
    assert_eq!(
        actions,
        vec![
            Action::SetGain(40_000_000),
            Action::Report(Notice::SongVolume(Volume::from_units(4_000))),
            Action::Save,
        ]
    );
}

#[test]
fn sv_minus_stops_at_silence() {
    let mut p = five();
    for _ in 0..4 {
        p.line("sv-");
    }
    assert_eq!(p.document.get_song_settings("a").song_volume.units(), 1_000);
    p.line("sv-");
    assert_eq!(p.document.get_song_settings("a").song_volume.units(), 0);
    p.line("sv-");
    assert_eq!(p.document.get_song_settings("a").song_volume.units(), 0);
    p.line("sv3");
    p.line("sv-");
    assert_eq!(p.document.get_song_settings("a").song_volume.units(), 0);
}

#[test]
fn sv_plus_stops_at_full_scale() {
    let mut p = five();
    for _ in 0..7 {
        p.line("sv+");
    }
    assert_eq!(p.document.get_song_settings("a").song_volume.units(), 10_000);
    assert_eq!(p.document.get_song_settings("b").song_volume.units(), 5_000);
}

#[test]
fn choose99_on_five_tracks_is_an_error_and_changes_nothing() {
    let mut p = five();
    p.session.current_song_index = 3;
    p.session.current_song_name = "d".to_string();
    let actions = p.line("choose99");
    assert_eq!(actions, told(Notice::NoSuchIndex));
    assert_eq!(p.session.current_song_index, 3);
    assert_eq!(p.session.current_song_name, "d");
    assert_eq!(p.document.song_probability_distribution.len(), 0);
    assert_eq!(p.document.song_play_count.len(), 0);
}

#[test]
fn star_stars_the_current_track_and_asks_for_the_document_to_be_written() {
    let mut p = five();
    p.session.current_song_name = "c".to_string();
    let actions = p.line("star");
    assert!(p.document.get_song_settings("c").starred);
    assert!(!p.document.get_song_settings("a").starred);
    assert_eq!(actions, vec![Action::Report(Notice::Starred), Action::Save]);
    assert_eq!(p.document.song_settings.len(), 1);
}

#[test]
fn unstar_tells_whether_there_was_a_star() {
    let mut p = five();
    assert_eq!(p.line("unstar"), vec![Action::Report(Notice::NotStarred), Action::Save]);
    p.line("s");
    assert_eq!(p.line("unstar"), vec![Action::Report(Notice::Unstarred), Action::Save]);
    assert!(!p.document.get_song_settings("a").starred);
}

#[test]
fn lyrics_tags_are_set_and_taken_away() {
    let mut p = five();
    assert_eq!(p.line("haslyrics"), vec![Action::Report(Notice::HasLyrics), Action::Save]);
    assert!(p.document.get_song_settings("a").has_lyrics);
    assert_eq!(p.line("hasnolyrics"), vec![Action::Report(Notice::HasNoLyrics), Action::Save]);
    assert!(!p.document.get_song_settings("a").has_lyrics);
    assert_eq!(p.line("setnolyrics"), vec![Action::Report(Notice::HadNoLyrics), Action::Save]);
}

#[test]
fn tags_keep_the_other_settings_of_the_track() {
    let mut p = five();
    p.line("sv80");
    p.line("star");
    p.line("haslyrics");
    let settings = p.document.get_song_settings("a");
    assert_eq!(settings.song_volume.units(), 8_000);
    assert!(settings.starred && settings.has_lyrics);
}

#[test]
fn unknown_line_is_an_error_and_changes_nothing() {
    let mut p = five();
    assert_eq!(p.line("xyzzy"), told(Notice::UnknownCommand));
    assert_eq!(p.document.volume.units(), 10_000);
    assert_eq!(p.session.after_song, AfterSong::Continue);
    assert!(p.session.shuffle);
}

#[test]
fn volume_without_a_number_is_an_error_and_changes_nothing() {
    let mut p = five();
    assert_eq!(p.line("vloud"), told(Notice::NeedsNumber));
    assert_eq!(p.line("sv?"), told(Notice::NeedsNumber));
    assert_eq!(p.document.volume.units(), 10_000);
    assert_eq!(p.document.song_settings.len(), 0);
}

#[test]
fn name_of_no_track_is_an_error_and_changes_nothing() {
    let mut p = five();
    assert_eq!(p.line("choose nothing"), told(Notice::NeedsIndexOrName));
    assert_eq!(p.line("nextsong nothing"), told(Notice::NeedsIndexOrName));
    assert_eq!(p.line("nextsong 5"), told(Notice::NoSuchIndex));
    assert_eq!(p.session.after_song, AfterSong::Continue);
    assert_eq!(p.session.current_song_index, 0);
}

#[test]
fn empty_line_does_nothing() {
    let mut p = five();
    assert_eq!(p.line("   "), vec![]);
}

#[test]
fn upper_case_line_is_read_like_a_lower_case_one() {
    let mut p = five();
    assert_eq!(p.line("  MUTE "), vec![Action::SetGain(0), Action::Report(Notice::Muted)]);
    assert!(p.session.is_muted);
}

#[test]
fn pause_adds_the_stretch_played_to_the_progress() {
    let mut p = five();
    p.session.duration_start = 1_000;
    let actions = p.line_at("pause", false, 4_000).unwrap();
    assert_eq!(actions, vec![Action::Pause, Action::Report(Notice::Paused)]);
    assert_eq!(p.session.song_progress, 3_000);
    assert_eq!(p.line_at("pause", true, 9_000).unwrap(), vec![]);
    assert_eq!(p.session.song_progress, 3_000);
}

#[test]
fn resume_begins_a_new_stretch() {
    let mut p = five();
    assert_eq!(p.line_at("resume", false, 5_000).unwrap(), vec![]);
    assert_eq!(p.session.duration_start, 0);
    let actions = p.line_at("r", true, 5_000).unwrap();
    assert_eq!(actions, vec![Action::Resume, Action::Report(Notice::Resumed)]);
    assert_eq!(p.session.duration_start, 5_000);
}

#[test]
fn p_pauses_or_resumes() {
    let mut p = five();
    assert_eq!(p.line_at("p", false, 10).unwrap(), vec![Action::Pause, Action::Report(Notice::Paused)]);
    assert_eq!(p.line_at("k", true, 20).unwrap(), vec![Action::Resume, Action::Report(Notice::Resumed)]);
    assert_eq!(p.session.song_progress, 10);
    assert_eq!(p.session.duration_start, 20);
}

#[test]
fn mute_and_unmute_set_the_loudness() {
    let mut p = five();
    p.line("v80");
    assert_eq!(p.line("mute"), vec![Action::SetGain(0), Action::Report(Notice::Muted)]);
    assert_eq!(p.line("mute"), vec![]);
    assert_eq!(
        p.line("unmute"),
        vec![
            Action::SetGain(40_000_000),
            Action::Report(Notice::Unmuted),
            Action::Report(Notice::PlaylistVolume(Volume::from_units(8_000))),
        ]
    );
    assert_eq!(p.line("unmute"), vec![]);
    assert_eq!(p.line("m"), vec![Action::SetGain(0), Action::Report(Notice::Muted)]);
    assert!(p.session.is_muted);
    assert_eq!(p.line("m").len(), 3);
    assert!(!p.session.is_muted);
}

#[test]
fn track_volume_set_while_muted_stays_silent() {
    let mut p = five();
    p.line("mute");
    let actions = p.line("sv70");
    assert_eq!(actions[0], Action::SetGain(0));
    assert_eq!(p.document.get_song_settings("a").song_volume.units(), 7_000);
    assert!(p.session.is_muted);
}

#[test]
fn volume_steps_change_the_playlist_volume() {
    let mut p = five();
    p.line("v-");
    assert_eq!(p.document.volume.units(), 9_000);
    p.line("v+");
    p.line("v+");
    assert_eq!(p.document.volume.units(), 10_000);
    let actions = p.line("volume-");
    assert_eq!(
        actions,
        vec![
            Action::SetGain(45_000_000),
            Action::Report(Notice::PlaylistVolume(Volume::from_units(9_000))),
            Action::Save,
        ]
    );
}

#[test]
fn volume_of_nothing_mutes_and_a_step_up_brings_the_sound_back() {
    let mut p = five();
    p.line("v0");
    assert!(p.session.is_muted);
    let actions = p.line("v+");
    assert!(!p.session.is_muted);
    assert_eq!(p.document.volume.units(), 1_000);
    assert_eq!(actions[0], Action::SetGain(5_000_000));
    p.line("v-");
    assert!(p.session.is_muted);
    assert_eq!(p.document.volume.units(), 0);
}

#[test]
fn mode_words_set_the_flags() {
    let mut p = five();
    assert_eq!(p.line("dkb"), told(Notice::KeyboardDisabled));
    assert!(!p.session.key_events_enabled);
    assert_eq!(p.line("dkb"), vec![]);
    assert_eq!(p.line("ekb"), told(Notice::KeyboardEnabled));
    assert_eq!(p.line("ekb"), vec![]);
    assert_eq!(p.line("kb"), told(Notice::KeyboardDisabled));
    assert_eq!(p.line("kb"), told(Notice::KeyboardEnabled));
    assert_eq!(p.line("focus"), told(Notice::LyricsExcluded));
    assert!(p.session.exclude_lyrics);
    assert_eq!(p.line("lyrics"), told(Notice::LyricsIncluded));
    assert!(!p.session.exclude_lyrics);
    assert_eq!(p.line("l"), told(Notice::LyricsExcluded));
    assert_eq!(p.line("l"), told(Notice::LyricsIncluded));
}

#[test]
fn shuffle_words_set_the_flag_and_the_weights() {
    let mut p = player(&["a", "b"]);
    p.document.set_song_probability("a", 5);
    p.document.set_song_probability("other", 9);
    assert_eq!(p.line("es"), vec![]);
    assert_eq!(p.weights(), vec![5, 1]);
    assert_eq!(p.line("ds"), told(Notice::ShuffleDisabled));
    assert!(!p.session.shuffle);
    assert_eq!(p.weights(), vec![5, 1]);
    assert_eq!(p.line("ds"), vec![]);
    assert_eq!(p.line("es"), vec![Action::Report(Notice::ShuffleEnabled), Action::Save]);
    assert!(p.session.shuffle);
    assert_eq!(p.weights(), vec![1, 1]);
    p.document.set_song_probability("b", 3);
    assert_eq!(p.line("sh"), vec![Action::Report(Notice::ShuffleDisabled), Action::Save]);
    assert_eq!(p.weights(), vec![1, 1]);
    p.document.set_song_probability("b", 3);
    assert_eq!(p.line("sh"), told(Notice::ShuffleEnabled));
    assert_eq!(p.weights(), vec![1, 3]);
    assert_eq!(p.document.song_probability_distribution.get("other"), Some(9));
}

#[test]
fn resetprobabilities_sets_every_weight_to_one() {
    let mut p = player(&["a", "b", "c"]);
    p.document.set_song_probability("a", 0);
    p.document.set_song_probability("c", 17);
    assert_eq!(p.line("resetprobabilities"), vec![Action::Save]);
    assert_eq!(p.weights(), vec![1, 1, 1]);
    assert_eq!(p.document.song_probability_distribution.len(), 3);
}

#[test]
fn reports_change_nothing() {
    let mut p = five();
    let lines = [
        ("volume", Notice::Volumes),
        ("playlist", Notice::Playlist),
        ("starred", Notice::StarredSongs),
        ("status", Notice::Status),
        ("index", Notice::Index),
        ("progress", Notice::Progress),
        ("probabilities", Notice::Probabilities),
        ("playcount", Notice::PlayCount),
        ("help", Notice::Commands),
    ];
    for (line, notice) in lines {
        assert_eq!(p.line(line), told(notice));
    }
    assert_eq!(p.document.song_settings.len(), 0);
    assert_eq!(p.document.song_probability_distribution.len(), 0);
    assert_eq!(p.document.song_play_count.len(), 0);
    assert_eq!(p.session.current_song_index, 0);
}

#[test]
fn exit_switches_the_crash_reporter_off() {
    let mut p = five();
    assert!(p.reporter.enabled);
    assert_eq!(p.line("exit"), vec![Action::Report(Notice::Closing), Action::Exit]);
    assert!(!p.reporter.enabled);
}

#[test]
fn choose_starts_the_track_at_once() {
    let mut p = five();
    p.session.after_song = AfterSong::Pause;
    p.line("sv-");
    let actions = p.line_at("choose 3", false, 700).unwrap();
    assert_eq!(
        actions,
        vec![
            Action::Start(3),
            Action::SetGain(50_000_000),
            Action::Report(Notice::NowPlaying(3)),
            Action::Save,
        ]
    );
    assert_eq!(p.session.current_song_index, 3);
    assert_eq!(p.session.current_song_name, "d");
    assert_eq!(p.session.duration_start, 700);
    assert_eq!(p.session.after_song, AfterSong::Continue);
    assert_eq!(p.weights(), vec![2, 2, 2, 0, 2]);
    assert_eq!(p.document.get_song_play_count("d"), 1);
}

#[test]
fn choose_by_name_starts_the_track_like_choose_by_index() {
    let mut p = player(&["moon river", "solo"]);
    let actions = p.line("play moon river");
    assert_eq!(actions[0], Action::Start(0));
    assert_eq!(p.session.current_song_name, "moon river");
    assert_eq!(p.weights(), vec![0, 2]);
}

#[test]
fn start_goes_to_the_first_track() {
    let mut p = five();
    p.session.current_song_index = 4;
    let actions = p.line("start");
    assert_eq!(actions[0], Action::Start(0));
    assert_eq!(p.session.current_song_index, 0);
    let mut empty = player(&[]);
    assert_eq!(empty.line("start"), told(Notice::NoSuchIndex));
}

#[test]
fn restart_starts_the_current_track_over() {
    let mut p = five();
    p.session.current_song_index = 2;
    p.line("v50");
    let actions = p.line("rs");
    assert_eq!(
        actions,
        vec![Action::Start(2), Action::SetGain(25_000_000), Action::Report(Notice::Restarting(2))]
    );
    assert_eq!(p.session.current_song_name, "c");
    assert_eq!(p.document.song_play_count.len(), 0);
    p.session.current_song_index = 9;
    assert_eq!(p.line("restart"), told(Notice::NoSuchIndex));
}

#[test]
fn next_on_the_last_track_wraps_to_the_first() {
    let mut p = player(&["A", "B", "C"]);
    p.session.shuffle = false;
    p.session.current_song_index = 2;
    p.session.current_song_name = "C".to_string();
    let actions = p.line_at("next", false, 50).unwrap();
    assert_eq!(actions[0], Action::Start(0));
    assert_eq!(p.session.current_song_index, 0);
    assert_eq!(p.session.current_song_name, "A");
    assert_eq!(p.document.get_song_play_count("A"), 1);
    assert_eq!(p.document.song_probability_distribution.len(), 0);
}

#[test]
fn pausenext_pauses_behind_the_next_track_and_is_spent() {
    let mut p = player(&["A", "B", "C"]);
    p.session.shuffle = false;
    p.session.current_song_index = 2;
    p.session.current_song_name = "C".to_string();
    p.line("next");
    assert_eq!(p.line("pausenext"), vec![]);
    assert_eq!(p.session.after_song, AfterSong::Pause);
    let actions = p.finished(9_000).unwrap();
    assert_eq!(
        actions,
        vec![
            Action::Start(1),
            Action::SetGain(50_000_000),
            Action::Report(Notice::NowPlaying(1)),
            Action::Save,
            Action::Pause,
            Action::Report(Notice::Paused),
        ]
    );
    assert_eq!(p.session.after_song, AfterSong::Continue);
    assert_eq!(p.session.current_song_name, "B");
    let actions = p.finished(10_000).unwrap();
    assert_eq!(actions.len(), 4);
    assert_eq!(actions[0], Action::Start(2));
}

#[test]
fn track_set_to_follow_plays_next_and_is_spent() {
    let mut p = five();
    assert_eq!(p.line("nextsong 4"), vec![]);
    assert_eq!(p.session.after_song, AfterSong::PlaySong(4));
    let actions = p.finished(100).unwrap();
    assert_eq!(actions[0], Action::Start(4));
    assert_eq!(actions.len(), 4);
    assert_eq!(p.session.current_song_index, 4);
    assert_eq!(p.session.after_song, AfterSong::Continue);
    assert_eq!(p.document.get_song_play_count("e"), 1);
    assert_eq!(p.weights(), vec![2, 2, 2, 2, 0]);
    match &p.reporter.crash_cause {
        CrashCause::NextSong { next_song, after_song } => {
            assert_eq!(next_song, "e");
            assert_eq!(*after_song, AfterSong::PlaySong(4));
        }
        _ => panic!("the cause is not the next track"),
    }
}

#[test]
fn continueaftersong_takes_back_what_was_set_to_follow() {
    let mut p = five();
    p.line("pausenext");
    p.line("continueaftersong");
    assert_eq!(p.session.after_song, AfterSong::Continue);
    p.line("next 2");
    p.line("resetaftersong");
    assert_eq!(p.session.after_song, AfterSong::Continue);
}

#[test]
fn next_fails_and_changes_nothing_where_no_track_may_play() {
    let mut p = player(&["a", "b"]);
    for name in ["a", "b"] {
        update_song_settings(&mut p.document, name, SongSettings { has_lyrics: true, ..SongSettings::default() });
    }
    p.line("nolyrics");
    assert_eq!(p.line_at("next", false, 5), Err(SelectionError::NoEligibleTracks));
    assert_eq!(p.finished(5), Err(SelectionError::NoEligibleTracks));
    assert_eq!(p.session.current_song_index, 0);
    assert_eq!(p.document.song_play_count.len(), 0);
    assert!(matches!(p.reporter.crash_cause, CrashCause::Nothing));
    let mut empty = player(&[]);
    assert_eq!(empty.line_at("n", false, 0), Err(SelectionError::NoEligibleTracks));
}

#[test]
fn shuffled_next_never_takes_the_track_that_plays() {
    let mut p = five();
    p.line("choose 0");
    for _ in 0..300 {
        let before = p.session.current_song_index;
        let actions = p.line("next");
        assert_ne!(p.session.current_song_index, before);
        assert_eq!(actions[0], Action::Start(p.session.current_song_index));
        assert_eq!(p.weights()[p.session.current_song_index], 0);
    }
}

#[test]
fn keys_stand_for_commands() {
    let mut p = five();
    assert_eq!(p.key(Key::F7), vec![Action::Pause, Action::Report(Notice::Paused)]);
    assert_eq!(p.key(Key::F4), vec![Action::Pause, Action::Report(Notice::Paused)]);
    p.key(Key::F10);
    assert_eq!(p.document.volume.units(), 9_000);
    p.key(Key::F11);
    assert_eq!(p.document.volume.units(), 10_000);
    assert_eq!(p.key(Key::F12), vec![Action::SetGain(0), Action::Report(Notice::Muted)]);
    assert_eq!(p.key(Key::F9), told(Notice::LyricsExcluded));
    assert_eq!(p.key(Key::F6)[0], Action::Start(0));
    p.session.shuffle = false;
    assert_eq!(p.key(Key::F8)[0], Action::Start(1));
    assert_eq!(p.key(Key::Other), vec![]);
}

#[test]
fn keys_do_nothing_while_the_shortcuts_are_off() {
    let mut p = five();
    p.line("dkb");
    for key in [Key::F4, Key::F6, Key::F7, Key::F8, Key::F9, Key::F10, Key::F11, Key::F12, Key::Other] {
        assert_eq!(p.key(key), vec![]);
    }
    assert_eq!(p.document.volume.units(), 10_000);
    assert!(!p.session.is_muted);
    assert_eq!(p.document.song_play_count.len(), 0);
}

#[test]
fn other_events_do_nothing() {
    let mut p = five();
    let actions = handle_key_event(
        KeyEvent::Other,
        false,
        0,
        &mut p.session,
        &mut p.document,
        &p.catalog,
        &mut p.reporter,
    );
    assert_eq!(actions, Ok(vec![]));
}

#[test]
fn execute_takes_a_track_that_the_catalog_lacks_as_no_index() {
    let mut p = five();
    let actions = execute(
        Command::Choose(Target::Track(5)),
        false,
        0,
        &mut p.session,
        &mut p.document,
        &p.catalog,
        &mut p.reporter,
    );
    assert_eq!(actions, Ok(told(Notice::NoSuchIndex)));
}
