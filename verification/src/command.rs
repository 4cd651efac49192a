//! The grammar of the console: what each line, once normalised, asks for.

use vstd::prelude::*;
use crate::catalog::{first_match, lemma_first_match, Catalog};
use crate::text::{
    begins_with, chars_of, hundredths, index_value, is_numeral, is_word, lowercase_of,
    parse_hundredths, parse_index, starts_with, strip_whitespace, tail, to_lowercase,
    without_whitespace,
};
use crate::volume::{Volume, FULL_SCALE};

verus! {

/// The track that the argument of a command names.
#[derive(Clone, Copy, Debug, PartialEq, Eq)]
pub enum Target {
    /// The track of this index.
    Track(usize),
    /// A number that is no index of the catalog.
    NoSuchIndex,
    /// Neither a number nor the name of a track.
    NoSuchTrack,
}

/// What a console line asks for.
#[derive(Clone, Copy, Debug, PartialEq, Eq)]
pub enum Command {
    /// An empty line: nothing.
    Nothing,
    Pause,
    Resume,
    TogglePause,
    Mute,
    Unmute,
    ToggleMute,
    VolumeUp,
    VolumeDown,
    SongVolumeUp,
    SongVolumeDown,
    ShowVolume,
    Next,
    Restart,
    Start,
    PauseAfterSong,
    ContinueAfterSong,
    ShowPlaylist,
    EnableKeyboard,
    DisableKeyboard,
    ToggleKeyboard,
    EnableShuffle,
    DisableShuffle,
    ToggleShuffle,
    ResetProbabilities,
    Star,
    Unstar,
    ShowStarred,
    SetLyrics,
    SetNoLyrics,
    ExcludeLyrics,
    IncludeLyrics,
    ToggleLyricsMode,
    ShowStatus,
    ShowIndex,
    ShowProgress,
    ShowProbabilities,
    ShowPlayCount,
    ShowCommands,
    Exit,
    /// Play this track now.
    Choose(Target),
    /// Play this track after the current one.
    ChooseNext(Target),
    /// Set the volume of the playlist; `None` where the argument is no number.
    SetVolume(Option<Volume>),
    /// Set the volume of the current track; `None` where the argument is no
    /// number.
    SetSongVolume(Option<Volume>),
    /// Nothing that the grammar knows.
    Unknown,
}

/// A console line as the grammar reads it: in lower case, without white
/// space.
pub open spec fn normalized(input: Seq<char>) -> Seq<char> {
    without_whitespace(lowercase_of(input))
}

/// Brings a console line into the form that the grammar reads.
pub fn normalize(input: &str) -> (line: Vec<char>)
    ensures
        line@ == normalized(input@),
{
    let lower = to_lowercase(input);
    let chars = chars_of(lower.as_str());
    strip_whitespace(chars.as_slice())
}

/// The command that `input` names among the words that pause, resume, mute and step the volume.
pub open spec fn transport_word(input: Seq<char>) -> Option<Command> {
    if input == "pause"@ {
        Some(Command::Pause)
    } else if input == "resume"@ || input == "r"@ || input == "play"@ {
        Some(Command::Resume)
    } else if input == "p"@ || input == "k"@ {
        Some(Command::TogglePause)
    } else if input == "mute"@ {
        Some(Command::Mute)
    } else if input == "unmute"@ {
        Some(Command::Unmute)
    } else if input == "m"@ {
        Some(Command::ToggleMute)
    } else if input == "volume+"@ || input == "v+"@ || input == "+"@ {
        Some(Command::VolumeUp)
    } else if input == "volume-"@ || input == "v-"@ || input == "-"@ {
        Some(Command::VolumeDown)
    } else if input == "songvolume+"@ || input == "sv+"@ {
        Some(Command::SongVolumeUp)
    } else if input == "songvolume-"@ || input == "sv-"@ {
        Some(Command::SongVolumeDown)
    } else if input == "volume"@ || input == "v"@ {
        Some(Command::ShowVolume)
    } else {
        None
    }
}

fn read_transport_word(input: &[char]) -> (command: Option<Command>)
    ensures
        command == transport_word(input@),
{
    if is_word(input, "pause") {
        Some(Command::Pause)
    } else if is_word(input, "resume") || is_word(input, "r") || is_word(input, "play") {
        Some(Command::Resume)
    } else if is_word(input, "p") || is_word(input, "k") {
        Some(Command::TogglePause)
    } else if is_word(input, "mute") {
        Some(Command::Mute)
    } else if is_word(input, "unmute") {
        Some(Command::Unmute)
    } else if is_word(input, "m") {
        Some(Command::ToggleMute)
    } else if is_word(input, "volume+") || is_word(input, "v+") || is_word(input, "+") {
        Some(Command::VolumeUp)
    } else if is_word(input, "volume-") || is_word(input, "v-") || is_word(input, "-") {
        Some(Command::VolumeDown)
    } else if is_word(input, "songvolume+") || is_word(input, "sv+") {
        Some(Command::SongVolumeUp)
    } else if is_word(input, "songvolume-") || is_word(input, "sv-") {
        Some(Command::SongVolumeDown)
    } else if is_word(input, "volume") || is_word(input, "v") {
        Some(Command::ShowVolume)
    } else {
        None
    }
}

/// The command that `input` names among the words that move through the playlist.
pub open spec fn navigation_word(input: Seq<char>) -> Option<Command> {
    if input == "nextsong"@ || input == "next"@ || input == "n"@ || input == "skip"@ {
        Some(Command::Next)
    } else if input == "restartsong"@ || input == "restart"@ || input == "rs"@ {
        Some(Command::Restart)
    } else if input == "start"@ {
        Some(Command::Start)
    } else if input == "pauseaftersong"@ || input == "pauseaftercurrentsong"@ || input == "pausenext"@ {
        Some(Command::PauseAfterSong)
    } else if input == "continueaftersong"@ || input == "resetaftersong"@ {
        Some(Command::ContinueAfterSong)
    } else if input == "playlist"@ {
        Some(Command::ShowPlaylist)
    } else {
        None
    }
}

fn read_navigation_word(input: &[char]) -> (command: Option<Command>)
    ensures
        command == navigation_word(input@),
{
    if is_word(input, "nextsong") || is_word(input, "next") || is_word(input, "n") || is_word(input, "skip") {
        Some(Command::Next)
    } else if is_word(input, "restartsong") || is_word(input, "restart") || is_word(input, "rs") {
        Some(Command::Restart)
    } else if is_word(input, "start") {
        Some(Command::Start)
    } else if is_word(input, "pauseaftersong") || is_word(input, "pauseaftercurrentsong") || is_word(input, "pausenext") {
        Some(Command::PauseAfterSong)
    } else if is_word(input, "continueaftersong") || is_word(input, "resetaftersong") {
        Some(Command::ContinueAfterSong)
    } else if is_word(input, "playlist") {
        Some(Command::ShowPlaylist)
    } else {
        None
    }
}

/// The command that `input` names among the words that switch keyboard shortcuts and shuffling.
pub open spec fn mode_word(input: Seq<char>) -> Option<Command> {
    if input == "enablekeyboard"@ || input == "ekb"@ {
        Some(Command::EnableKeyboard)
    } else if input == "disablekeyboard"@ || input == "dkb"@ {
        Some(Command::DisableKeyboard)
    } else if input == "keyboard"@ || input == "kb"@ || input == "ks"@ {
        Some(Command::ToggleKeyboard)
    } else if input == "enableshuffle"@ || input == "es"@ {
        Some(Command::EnableShuffle)
    } else if input == "disableshuffle"@ || input == "ds"@ {
        Some(Command::DisableShuffle)
    } else if input == "shuffle"@ || input == "sh"@ {
        Some(Command::ToggleShuffle)
    } else if input == "resetprobabilities"@ {
        Some(Command::ResetProbabilities)
    } else {
        None
    }
}

fn read_mode_word(input: &[char]) -> (command: Option<Command>)
    ensures
        command == mode_word(input@),
{
    if is_word(input, "enablekeyboard") || is_word(input, "ekb") {
        Some(Command::EnableKeyboard)
    } else if is_word(input, "disablekeyboard") || is_word(input, "dkb") {
        Some(Command::DisableKeyboard)
    } else if is_word(input, "keyboard") || is_word(input, "kb") || is_word(input, "ks") {
        Some(Command::ToggleKeyboard)
    } else if is_word(input, "enableshuffle") || is_word(input, "es") {
        Some(Command::EnableShuffle)
    } else if is_word(input, "disableshuffle") || is_word(input, "ds") {
        Some(Command::DisableShuffle)
    } else if is_word(input, "shuffle") || is_word(input, "sh") {
        Some(Command::ToggleShuffle)
    } else if is_word(input, "resetprobabilities") {
        Some(Command::ResetProbabilities)
    } else {
        None
    }
}

/// The command that `input` names among the words that tag the current track and set the lyrics filter.
pub open spec fn tagging_word(input: Seq<char>) -> Option<Command> {
    if input == "star"@ || input == "s"@ {
        Some(Command::Star)
    } else if input == "unstar"@ {
        Some(Command::Unstar)
    } else if input == "starred"@ || input == "starredsongs"@ {
        Some(Command::ShowStarred)
    } else if input == "haslyrics"@ || input == "setlyrics"@ {
        Some(Command::SetLyrics)
    } else if input == "hasnolyrics"@ || input == "setnolyrics"@ {
        Some(Command::SetNoLyrics)
    } else if input == "nolyrics"@ || input == "lyricsoff"@ || input == "nolyricsmode"@ || input == "deactivatelyrics"@ || input == "excludelyrics"@ || input == "focusmode"@ || input == "focus"@ || input == "focusmodeon"@ {
        Some(Command::ExcludeLyrics)
    } else if input == "lyrics"@ || input == "lyricson"@ || input == "lyricsmode"@ || input == "activatelyrics"@ || input == "includelyrics"@ || input == "focusmodeoff"@ {
        Some(Command::IncludeLyrics)
    } else if input == "switchlyricsmode"@ || input == "l"@ {
        Some(Command::ToggleLyricsMode)
    } else {
        None
    }
}

fn read_tagging_word(input: &[char]) -> (command: Option<Command>)
    ensures
        command == tagging_word(input@),
{
    if is_word(input, "star") || is_word(input, "s") {
        Some(Command::Star)
    } else if is_word(input, "unstar") {
        Some(Command::Unstar)
    } else if is_word(input, "starred") || is_word(input, "starredsongs") {
        Some(Command::ShowStarred)
    } else if is_word(input, "haslyrics") || is_word(input, "setlyrics") {
        Some(Command::SetLyrics)
    } else if is_word(input, "hasnolyrics") || is_word(input, "setnolyrics") {
        Some(Command::SetNoLyrics)
    } else if is_word(input, "nolyrics") || is_word(input, "lyricsoff") || is_word(input, "nolyricsmode") || is_word(input, "deactivatelyrics") || is_word(input, "excludelyrics") || is_word(input, "focusmode") || is_word(input, "focus") || is_word(input, "focusmodeon") {
        Some(Command::ExcludeLyrics)
    } else if is_word(input, "lyrics") || is_word(input, "lyricson") || is_word(input, "lyricsmode") || is_word(input, "activatelyrics") || is_word(input, "includelyrics") || is_word(input, "focusmodeoff") {
        Some(Command::IncludeLyrics)
    } else if is_word(input, "switchlyricsmode") || is_word(input, "l") {
        Some(Command::ToggleLyricsMode)
    } else {
        None
    }
}

/// The command that `input` names among the words that ask for a report or end the session.
pub open spec fn report_word(input: Seq<char>) -> Option<Command> {
    if input == "status"@ || input == "info"@ {
        Some(Command::ShowStatus)
    } else if input == "index"@ || input == "playlistindex"@ {
        Some(Command::ShowIndex)
    } else if input == "progress"@ || input == "songprogress"@ {
        Some(Command::ShowProgress)
    } else if input == "songprobabilities"@ || input == "probabilities"@ || input == "showprobabilities"@ {
        Some(Command::ShowProbabilities)
    } else if input == "playcount"@ {
        Some(Command::ShowPlayCount)
    } else if input == "commands"@ || input == "help"@ {
        Some(Command::ShowCommands)
    } else if input == "terminate"@ || input == "exit"@ || input == "close"@ {
        Some(Command::Exit)
    } else {
        None
    }
}

fn read_report_word(input: &[char]) -> (command: Option<Command>)
    ensures
        command == report_word(input@),
{
    if is_word(input, "status") || is_word(input, "info") {
        Some(Command::ShowStatus)
    } else if is_word(input, "index") || is_word(input, "playlistindex") {
        Some(Command::ShowIndex)
    } else if is_word(input, "progress") || is_word(input, "songprogress") {
        Some(Command::ShowProgress)
    } else if is_word(input, "songprobabilities") || is_word(input, "probabilities") || is_word(input, "showprobabilities") {
        Some(Command::ShowProbabilities)
    } else if is_word(input, "playcount") {
        Some(Command::ShowPlayCount)
    } else if is_word(input, "commands") || is_word(input, "help") {
        Some(Command::ShowCommands)
    } else if is_word(input, "terminate") || is_word(input, "exit") || is_word(input, "close") {
        Some(Command::Exit)
    } else {
        None
    }
}

/// The command that `input` names by a single word.
pub open spec fn word_command(input: Seq<char>) -> Option<Command> {
    if transport_word(input) is Some {
        transport_word(input)
    } else if navigation_word(input) is Some {
        navigation_word(input)
    } else if mode_word(input) is Some {
        mode_word(input)
    } else if tagging_word(input) is Some {
        tagging_word(input)
    } else {
        report_word(input)
    }
}

/// The track that `argument` names: by index where it is a number that
/// `usize` holds, else by its name written without white space.
pub open spec fn target_of(argument: Seq<char>, names: Seq<Seq<char>>) -> Target {
    match index_value(argument) {
        Some(index) if index <= usize::MAX => if index < names.len() {
            Target::Track(index as usize)
        } else {
            Target::NoSuchIndex
        },
        _ => match first_match(names, argument) {
            Some(index) => Target::Track(index as usize),
            None => Target::NoSuchTrack,
        },
    }
}

/// The volume that `argument` names: a number of percent, with or without a
/// percent sign behind it, held to the range from silence to full scale.
/// `None` where it is no number.
pub open spec fn level_of(argument: Seq<char>) -> Option<Volume> {
    let number = if argument.len() > 0 && argument.last() == '%' {
        argument.drop_last()
    } else {
        argument
    };
    if is_numeral(number) {
        Some(Volume::of(hundredths(number, FULL_SCALE as nat)))
    } else {
        None
    }
}

/// The command that `input` names by a word and an argument behind it. The
/// words are tried in this order, and the first that `input` begins with
/// decides.
pub open spec fn argument_command(input: Seq<char>, names: Seq<Seq<char>>) -> Command {
    if begins_with(input, "choosesong"@) {
        Command::Choose(target_of(input.skip("choosesong"@.len() as int), names))
    } else if begins_with(input, "choose"@) {
        Command::Choose(target_of(input.skip("choose"@.len() as int), names))
    } else if begins_with(input, "c"@) {
        Command::Choose(target_of(input.skip("c"@.len() as int), names))
    } else if begins_with(input, "play"@) {
        Command::Choose(target_of(input.skip("play"@.len() as int), names))
    } else if begins_with(input, "setvolume"@) {
        Command::SetVolume(level_of(input.skip("setvolume"@.len() as int)))
    } else if begins_with(input, "volume"@) {
        Command::SetVolume(level_of(input.skip("volume"@.len() as int)))
    } else if begins_with(input, "v"@) {
        Command::SetVolume(level_of(input.skip("v"@.len() as int)))
    } else if begins_with(input, "songvolume"@) {
        Command::SetSongVolume(level_of(input.skip("songvolume"@.len() as int)))
    } else if begins_with(input, "sv"@) {
        Command::SetSongVolume(level_of(input.skip("sv"@.len() as int)))
    } else if begins_with(input, "nextsong"@) {
        Command::ChooseNext(target_of(input.skip("nextsong"@.len() as int), names))
    } else if begins_with(input, "aftersong"@) {
        Command::ChooseNext(target_of(input.skip("aftersong"@.len() as int), names))
    } else if begins_with(input, "next"@) {
        Command::ChooseNext(target_of(input.skip("next"@.len() as int), names))
    } else {
        Command::Unknown
    }
}

/// What a normalised console line asks for.
pub open spec fn command_of(input: Seq<char>, names: Seq<Seq<char>>) -> Command {
    if input.len() == 0 {
        Command::Nothing
    } else {
        match word_command(input) {
            Some(command) => command,
            None => argument_command(input, names),
        }
    }
}

/// A track that an argument names is a track of the catalog.
pub proof fn lemma_target_in_range(argument: Seq<char>, names: Seq<Seq<char>>)
    ensures
        target_of(argument, names) matches Target::Track(index) ==> index < names.len(),
{
    lemma_first_match(names, argument);
}

/// A track that a console line sets to follow is a track of the catalog.
pub proof fn lemma_command_in_range(input: Seq<char>, names: Seq<Seq<char>>)
    ensures
        command_of(input, names) matches Command::ChooseNext(Target::Track(index)) ==> index
            < names.len(),
{
    lemma_target_in_range(input.skip("nextsong"@.len() as int), names);
    lemma_target_in_range(input.skip("aftersong"@.len() as int), names);
    lemma_target_in_range(input.skip("next"@.len() as int), names);
}

/// Reads the track that an argument names.
pub fn read_target(argument: &[char], catalog: &Catalog) -> (target: Target)
    ensures
        target == target_of(argument@, catalog@),
{
    match parse_index(argument) {
        Some(index) => if index < catalog.len() {
            Target::Track(index)
        } else {
            Target::NoSuchIndex
        },
        None => match catalog.find_by_name(argument) {
            Some(index) => Target::Track(index),
            None => Target::NoSuchTrack,
        },
    }
}

/// Reads the volume that an argument names.
pub fn read_level(argument: &[char]) -> (level: Option<Volume>)
    ensures
        level == level_of(argument@),
{
    let len = argument.len();
    let end: usize = if len > 0 && argument[len - 1] == '%' {
        len - 1
    } else {
        len
    };
    let number = vstd::slice::slice_subrange(argument, 0, end);
    proof {
        assert(argument@.subrange(0, len as int) =~= argument@);
        assert(argument@.subrange(0, len - 1) =~= argument@.drop_last());
    }
    match parse_hundredths(number, FULL_SCALE) {
        Some(units) => Some(Volume::from_units(units)),
        None => None,
    }
}

/// The rest of `input` behind `word`, where `input` begins with it.
fn after_word(input: &[char], word: &str) -> (rest: Option<Vec<char>>)
    ensures
        match rest {
            Some(rest) => begins_with(input@, word@) && rest@ == input@.skip(word@.len() as int),
            None => !begins_with(input@, word@),
        },
{
    if starts_with(input, word) {
        let word_len = chars_of(word).len();
        Some(tail(input, word_len))
    } else {
        None
    }
}

fn read_argument_command(input: &[char], catalog: &Catalog) -> (command: Command)
    ensures
        command == argument_command(input@, catalog@),
{
    if let Some(rest) = after_word(input, "choosesong") {
        Command::Choose(read_target(rest.as_slice(), catalog))
    } else if let Some(rest) = after_word(input, "choose") {
        Command::Choose(read_target(rest.as_slice(), catalog))
    } else if let Some(rest) = after_word(input, "c") {
        Command::Choose(read_target(rest.as_slice(), catalog))
    } else if let Some(rest) = after_word(input, "play") {
        Command::Choose(read_target(rest.as_slice(), catalog))
    } else if let Some(rest) = after_word(input, "setvolume") {
        Command::SetVolume(read_level(rest.as_slice()))
    } else if let Some(rest) = after_word(input, "volume") {
        Command::SetVolume(read_level(rest.as_slice()))
    } else if let Some(rest) = after_word(input, "v") {
        Command::SetVolume(read_level(rest.as_slice()))
    } else if let Some(rest) = after_word(input, "songvolume") {
        Command::SetSongVolume(read_level(rest.as_slice()))
    } else if let Some(rest) = after_word(input, "sv") {
        Command::SetSongVolume(read_level(rest.as_slice()))
    } else if let Some(rest) = after_word(input, "nextsong") {
        Command::ChooseNext(read_target(rest.as_slice(), catalog))
    } else if let Some(rest) = after_word(input, "aftersong") {
        Command::ChooseNext(read_target(rest.as_slice(), catalog))
    } else if let Some(rest) = after_word(input, "next") {
        Command::ChooseNext(read_target(rest.as_slice(), catalog))
    } else {
        Command::Unknown
    }
}

/// Reads a normalised console line.
pub fn parse_command(input: &[char], catalog: &Catalog) -> (command: Command)
    ensures
        command == command_of(input@, catalog@),
{
    if input.len() == 0 {
        return Command::Nothing;
    }
    if let Some(command) = read_transport_word(input) {
        return command;
    }
    if let Some(command) = read_navigation_word(input) {
        return command;
    }
    if let Some(command) = read_mode_word(input) {
        return command;
    }
    if let Some(command) = read_tagging_word(input) {
        return command;
    }
    if let Some(command) = read_report_word(input) {
        return command;
    }
    read_argument_command(input, catalog)
}

} // verus!
