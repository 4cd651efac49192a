use music_player::catalog::Catalog;
use music_player::command::{normalize, parse_command, read_level, read_target, Command, Target};
use music_player::volume::Volume;

fn chars(text: &str) -> Vec<char> {
    text.chars().collect()
}

fn catalog(names: &[&str]) -> Catalog {
    Catalog::new(names.iter().map(|name| name.to_string()).collect()).unwrap()
}

fn five() -> Catalog {
    catalog(&["moon river", "Blue Moon", "42", "solo", "next"])
}

fn parse(line: &str) -> Command {
    parse_command(&normalize(line), &five())
}

#[test]
fn normalize_folds_case_and_drops_white_space() {
    assert_eq!(normalize("  Song Volume +\t"), chars("songvolume+"));
    assert_eq!(normalize("PAUSE"), chars("pause"));
    assert_eq!(normalize("ÄÖ Ü"), chars("äöü"));
    assert_eq!(normalize(""), chars(""));
    assert_eq!(normalize(" \n"), chars(""));
}

#[test]
fn empty_line_asks_for_nothing() {
    assert_eq!(parse(""), Command::Nothing);
    assert_eq!(parse("   "), Command::Nothing);
}

#[test]
fn transport_words_are_read() {
    assert_eq!(parse("pause"), Command::Pause);
    for word in ["resume", "r", "play", "Resume", "P L A Y"] {
        assert_eq!(parse(word), Command::Resume);
    }
    for word in ["p", "k"] {
        assert_eq!(parse(word), Command::TogglePause);
    }
    assert_eq!(parse("mute"), Command::Mute);
    assert_eq!(parse("unmute"), Command::Unmute);
    assert_eq!(parse("m"), Command::ToggleMute);
}

#[test]
fn volume_words_are_read() {
    for word in ["volume+", "v+", "+", "V +"] {
        assert_eq!(parse(word), Command::VolumeUp);
    }
    for word in ["volume-", "v-", "-"] {
        assert_eq!(parse(word), Command::VolumeDown);
    }
    for word in ["songvolume+", "sv+"] {
        assert_eq!(parse(word), Command::SongVolumeUp);
    }
    for word in ["songvolume-", "sv-"] {
        assert_eq!(parse(word), Command::SongVolumeDown);
    }
    for word in ["volume", "v"] {
        assert_eq!(parse(word), Command::ShowVolume);
    }
}

#[test]
fn navigation_words_are_read() {
    for word in ["nextsong", "next", "n", "skip"] {
        assert_eq!(parse(word), Command::Next);
    }
    for word in ["restartsong", "restart", "rs"] {
        assert_eq!(parse(word), Command::Restart);
    }
    assert_eq!(parse("start"), Command::Start);
    for word in ["pauseaftersong", "pauseaftercurrentsong", "pausenext", "pause next"] {
        assert_eq!(parse(word), Command::PauseAfterSong);
    }
    for word in ["continueaftersong", "resetaftersong"] {
        assert_eq!(parse(word), Command::ContinueAfterSong);
    }
    assert_eq!(parse("playlist"), Command::ShowPlaylist);
}

#[test]
fn mode_words_are_read() {
    for word in ["enablekeyboard", "ekb"] {
        assert_eq!(parse(word), Command::EnableKeyboard);
    }
    for word in ["disablekeyboard", "dkb"] {
        assert_eq!(parse(word), Command::DisableKeyboard);
    }
    for word in ["keyboard", "kb", "ks"] {
        assert_eq!(parse(word), Command::ToggleKeyboard);
    }
    for word in ["enableshuffle", "es"] {
        assert_eq!(parse(word), Command::EnableShuffle);
    }
    for word in ["disableshuffle", "ds"] {
        assert_eq!(parse(word), Command::DisableShuffle);
    }
    for word in ["shuffle", "sh"] {
        assert_eq!(parse(word), Command::ToggleShuffle);
    }
    assert_eq!(parse("resetprobabilities"), Command::ResetProbabilities);
}

#[test]
fn tagging_words_are_read() {
    for word in ["star", "s"] {
        assert_eq!(parse(word), Command::Star);
    }
    assert_eq!(parse("unstar"), Command::Unstar);
    for word in ["starred", "starredsongs"] {
        assert_eq!(parse(word), Command::ShowStarred);
    }
    for word in ["haslyrics", "setlyrics"] {
        assert_eq!(parse(word), Command::SetLyrics);
    }
    for word in ["hasnolyrics", "setnolyrics"] {
        assert_eq!(parse(word), Command::SetNoLyrics);
    }
    for word in ["nolyrics", "lyricsoff", "nolyricsmode", "deactivatelyrics", "excludelyrics", "focusmode", "focus", "focusmodeon"] {
        assert_eq!(parse(word), Command::ExcludeLyrics);
    }
    for word in ["lyrics", "lyricson", "lyricsmode", "activatelyrics", "includelyrics", "focusmodeoff"] {
        assert_eq!(parse(word), Command::IncludeLyrics);
    }
    for word in ["switchlyricsmode", "l"] {
        assert_eq!(parse(word), Command::ToggleLyricsMode);
    }
}

#[test]
fn report_words_are_read() {
    for word in ["status", "info"] {
        assert_eq!(parse(word), Command::ShowStatus);
    }
    for word in ["index", "playlistindex"] {
        assert_eq!(parse(word), Command::ShowIndex);
    }
    for word in ["progress", "songprogress"] {
        assert_eq!(parse(word), Command::ShowProgress);
    }
    for word in ["songprobabilities", "probabilities", "showprobabilities"] {
        assert_eq!(parse(word), Command::ShowProbabilities);
    }
    assert_eq!(parse("playcount"), Command::ShowPlayCount);
    for word in ["commands", "help"] {
        assert_eq!(parse(word), Command::ShowCommands);
    }
    for word in ["terminate", "exit", "close", "EXIT"] {
        assert_eq!(parse(word), Command::Exit);
    }
}

#[test]
fn tracks_are_chosen_by_index() {
    for line in ["choose3", "choosesong3", "c3", "play3", "choose 3", "c+3", "play 003"] {
        assert_eq!(parse(line), Command::Choose(Target::Track(3)));
    }
    assert_eq!(parse("choose0"), Command::Choose(Target::Track(0)));
    assert_eq!(parse("choose4"), Command::Choose(Target::Track(4)));
}

#[test]
fn index_beyond_the_catalog_is_no_track() {
    assert_eq!(parse("choose5"), Command::Choose(Target::NoSuchIndex));
    assert_eq!(parse("choose99"), Command::Choose(Target::NoSuchIndex));
    assert_eq!(parse("c99"), Command::Choose(Target::NoSuchIndex));
    assert_eq!(parse("next99"), Command::ChooseNext(Target::NoSuchIndex));
}

#[test]
fn tracks_are_chosen_by_name() {
    assert_eq!(parse("choose moon river"), Command::Choose(Target::Track(0)));
    assert_eq!(parse("play solo"), Command::Choose(Target::Track(3)));
    assert_eq!(parse("c solo"), Command::Choose(Target::Track(3)));
    assert_eq!(parse("nextsong solo"), Command::ChooseNext(Target::Track(3)));
}

#[test]
fn name_with_capitals_is_not_met_by_a_folded_line() {
    assert_eq!(parse("choose Blue Moon"), Command::Choose(Target::NoSuchTrack));
}

#[test]
fn number_counts_as_index_before_it_counts_as_name() {
    assert_eq!(parse("choose 42"), Command::Choose(Target::NoSuchIndex));
    assert_eq!(parse("choose 2"), Command::Choose(Target::Track(2)));
}

#[test]
fn unknown_name_is_no_track() {
    assert_eq!(parse("choose nothing"), Command::Choose(Target::NoSuchTrack));
    assert_eq!(parse("choose"), Command::Choose(Target::NoSuchTrack));
    assert_eq!(parse("cat"), Command::Choose(Target::NoSuchTrack));
    assert_eq!(parse("choose-1"), Command::Choose(Target::NoSuchTrack));
}

#[test]
fn longer_word_decides_before_a_shorter_one() {
    assert_eq!(parse("choosesong solo"), Command::Choose(Target::Track(3)));
    assert_eq!(parse("choose song solo"), Command::Choose(Target::Track(3)));
    assert_eq!(parse("choosenextsong3"), Command::Choose(Target::NoSuchTrack));
    assert_eq!(parse("playlist3"), Command::Choose(Target::NoSuchTrack));
}

#[test]
fn track_to_follow_is_set_by_index_or_name() {
    for line in ["nextsong2", "aftersong2", "next2", "next song 2"] {
        assert_eq!(parse(line), Command::ChooseNext(Target::Track(2)));
    }
    assert_eq!(parse("aftersong moonriver"), Command::ChooseNext(Target::Track(0)));
    assert_eq!(parse("next nothing"), Command::ChooseNext(Target::NoSuchTrack));
}

#[test]
fn playlist_volume_is_set_in_percent() {
    for line in ["v50", "v50%", "volume50", "setvolume 50 %", "V 50", "v+50", "v50.0"] {
        assert_eq!(parse(line), Command::SetVolume(Some(Volume::from_units(5_000))));
    }
    assert_eq!(parse("v0"), Command::SetVolume(Some(Volume::silent())));
    assert_eq!(parse("v100"), Command::SetVolume(Some(Volume::full())));
    assert_eq!(parse("v250"), Command::SetVolume(Some(Volume::full())));
    assert_eq!(parse("v-5"), Command::SetVolume(Some(Volume::silent())));
    assert_eq!(parse("v12.34"), Command::SetVolume(Some(Volume::from_units(1_234))));
}

#[test]
fn track_volume_is_set_in_percent() {
    for line in ["sv30", "sv30%", "songvolume30", "song volume 30 %"] {
        assert_eq!(parse(line), Command::SetSongVolume(Some(Volume::from_units(3_000))));
    }
}

#[test]
fn volume_that_is_no_number_is_told_apart() {
    for line in ["vx", "v%", "v5%%", "v1e2", "volumeloud", "setvolume", "vinf"] {
        assert_eq!(parse(line), Command::SetVolume(None));
    }
    for line in ["svx", "songvolume", "sv%"] {
        assert_eq!(parse(line), Command::SetSongVolume(None));
    }
}

#[test]
fn anything_else_is_unknown() {
    for line in ["xyzzy", "1", "?", "quit", "äh", "9v"] {
        assert_eq!(parse(line), Command::Unknown);
    }
}

#[test]
fn read_target_takes_index_or_name() {
    let tracks = five();
    assert_eq!(read_target(&chars("1"), &tracks), Target::Track(1));
    assert_eq!(read_target(&chars("5"), &tracks), Target::NoSuchIndex);
    assert_eq!(read_target(&chars("next"), &tracks), Target::Track(4));
    assert_eq!(read_target(&chars(""), &tracks), Target::NoSuchTrack);
    assert_eq!(read_target(&chars("99999999999999999999999999"), &tracks), Target::NoSuchTrack);
    assert_eq!(read_target(&chars("0"), &catalog(&[])), Target::NoSuchIndex);
}

#[test]
fn read_level_takes_one_percent_sign() {
    assert_eq!(read_level(&chars("75%")), Some(Volume::from_units(7_500)));
    assert_eq!(read_level(&chars("75")), Some(Volume::from_units(7_500)));
    assert_eq!(read_level(&chars("75%%")), None);
    assert_eq!(read_level(&chars("%")), None);
    assert_eq!(read_level(&chars("")), None);
}
