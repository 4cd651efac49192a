//! What the player was doing when it last changed state, for a report
//! written if the process ends abnormally.

use vstd::prelude::*;
use vstd::string::*;
use crate::playlist_settings::{span_since, span_sum, AfterSong, SessionSettings, SessionView};
use crate::text::{append_decimal, decimal};
use crate::utils::{clock_text, format_duration};

verus! {

/// What was being done when the process ended.
pub enum CrashCause {
    /// This console line was being processed.
    Command(String),
    /// This key event, in the words of whoever observed it, was being
    /// processed.
    KeyEvent(String),
    /// This track was about to start.
    NextSong { next_song: String, after_song: AfterSong },
    /// Nothing in particular.
    Nothing,
}

/// The view of a `CrashCause`.
pub enum CauseView {
    Command(Seq<char>),
    KeyEvent(Seq<char>),
    NextSong { next_song: Seq<char>, after_song: AfterSong },
    Nothing,
}

impl View for CrashCause {
    type V = CauseView;

    open spec fn view(&self) -> CauseView {
        match self {
            CrashCause::Command(command) => CauseView::Command(command@),
            CrashCause::KeyEvent(key_event) => CauseView::KeyEvent(key_event@),
            CrashCause::NextSong { next_song, after_song } => CauseView::NextSong {
                next_song: next_song@,
                after_song: *after_song,
            },
            CrashCause::Nothing => CauseView::Nothing,
        }
    }
}

/// What a report says of the session.
pub struct SessionSnapshot {
    pub shuffle: bool,
    pub exclude_lyrics: bool,
    pub current_song_name: String,
    pub duration_start: u64,
    pub song_progress: u64,
    pub song_duration: Option<u64>,
}

/// The view of a `SessionSnapshot`.
pub struct SnapshotView {
    pub shuffle: bool,
    pub exclude_lyrics: bool,
    pub current_song_name: Seq<char>,
    pub duration_start: u64,
    pub song_progress: u64,
    pub song_duration: Option<u64>,
}

impl View for SessionSnapshot {
    type V = SnapshotView;

    open spec fn view(&self) -> SnapshotView {
        SnapshotView {
            shuffle: self.shuffle,
            exclude_lyrics: self.exclude_lyrics,
            current_song_name: self.current_song_name@,
            duration_start: self.duration_start,
            song_progress: self.song_progress,
            song_duration: self.song_duration,
        }
    }
}

/// What a report says of the session `session`.
pub open spec fn snapshot_of(session: SessionView) -> SnapshotView {
    SnapshotView {
        shuffle: session.shuffle,
        exclude_lyrics: session.exclude_lyrics,
        current_song_name: session.current_song_name,
        duration_start: session.duration_start,
        song_progress: session.song_progress,
        song_duration: session.song_duration,
    }
}

fn take_snapshot(session: &SessionSettings) -> (snapshot: SessionSnapshot)
    ensures
        snapshot@ == snapshot_of(session@),
{
    SessionSnapshot {
        shuffle: session.shuffle,
        exclude_lyrics: session.exclude_lyrics,
        current_song_name: session.current_song_name.clone(),
        duration_start: session.duration_start,
        song_progress: session.song_progress,
        song_duration: session.song_duration,
    }
}

/// Keeps the last known state of the session and the cause at hand.
pub struct CrashReporter {
    pub session_settings: Option<SessionSnapshot>,
    pub crash_cause: CrashCause,
    pub enabled: bool,
}

/// The view of a `CrashReporter`.
pub struct ReporterView {
    pub session_settings: Option<SnapshotView>,
    pub crash_cause: CauseView,
    pub enabled: bool,
}

impl View for CrashReporter {
    type V = ReporterView;

    open spec fn view(&self) -> ReporterView {
        ReporterView {
            session_settings: match self.session_settings {
                Some(snapshot) => Some(snapshot@),
                None => None,
            },
            crash_cause: self.crash_cause@,
            enabled: self.enabled,
        }
    }
}

/// `enabled` or `disabled`.
pub open spec fn on_off(flag: bool) -> Seq<char> {
    if flag {
        "enabled"@
    } else {
        "disabled"@
    }
}

/// The name of what is to happen after the current track.
pub open spec fn after_song_text(after_song: AfterSong) -> Seq<char> {
    match after_song {
        AfterSong::Continue => "Continue"@,
        AfterSong::Pause => "Pause"@,
        AfterSong::PlaySong(index) => "PlaySong("@ + decimal(index as nat) + ")"@,
    }
}

/// The sentence of a report that names the cause.
pub open spec fn cause_text(cause: CauseView) -> Seq<char> {
    match cause {
        CauseView::Command(command) => "the error occurred as the command '"@ + command
            + "' was processed"@,
        CauseView::KeyEvent(key_event) => "the error occurred as the key event '"@ + key_event
            + "' was processed"@,
        CauseView::NextSong { next_song, after_song } =>
            "the error occurred while trying to play a new song\nsong: "@ + next_song
            + "\nafter song option: "@ + after_song_text(after_song),
        CauseView::Nothing => "the error did not occur during a command or after a song finished"@,
    }
}

/// The lines of a report that describe the session at time `now`.
pub open spec fn session_text(snapshot: SnapshotView, now: u64) -> Seq<char> {
    "shuffling is "@ + on_off(snapshot.shuffle) + "\nexclude lyrics mode is "@ + on_off(
        snapshot.exclude_lyrics,
    ) + "\ncurrent song: "@ + snapshot.current_song_name + " ("@ + clock_text(
        span_sum(snapshot.song_progress, span_since(snapshot.duration_start, now)),
    ) + "/"@ + (match snapshot.song_duration {
        Some(duration) => clock_text(duration),
        None => "?"@,
    }) + ")\n\n"@
}

/// The whole report: a heading with the time stamp, then either the session
/// and the cause, or the remark that no session had begun.
pub open spec fn report_text(reporter: ReporterView, timestamp: Seq<char>, now: u64) -> Seq<char> {
    match reporter.session_settings {
        Some(snapshot) => "CRASH REPORT "@ + timestamp + "\n\n"@ + session_text(snapshot, now)
            + cause_text(reporter.crash_cause),
        None => "CRASH REPORT "@ + timestamp + "\n\n"@
            + "the program crashed during the program setup"@,
    }
}

fn on_off_text(flag: bool) -> (text: &'static str)
    ensures
        text@ == on_off(flag),
{
    if flag {
        "enabled"
    } else {
        "disabled"
    }
}

fn describe_after_song(after_song: AfterSong) -> (text: String)
    ensures
        text@ == after_song_text(after_song),
{
    match after_song {
        AfterSong::Continue => "Continue".to_owned(),
        AfterSong::Pause => "Pause".to_owned(),
        AfterSong::PlaySong(index) => {
            let mut text = "PlaySong(".to_owned();
            append_decimal(&mut text, index as u64);
            text.append(")");
            text
        },
    }
}

fn describe_cause(cause: &CrashCause) -> (text: String)
    ensures
        text@ == cause_text(cause@),
{
    match cause {
        CrashCause::Command(command) => {
            let mut text = "the error occurred as the command '".to_owned();
            text.append(command.as_str());
            text.append("' was processed");
            text
        },
        CrashCause::KeyEvent(key_event) => {
            let mut text = "the error occurred as the key event '".to_owned();
            text.append(key_event.as_str());
            text.append("' was processed");
            text
        },
        CrashCause::NextSong { next_song, after_song } => {
            let mut text = "the error occurred while trying to play a new song\nsong: ".to_owned();
            text.append(next_song.as_str());
            text.append("\nafter song option: ");
            let option = describe_after_song(*after_song);
            text.append(option.as_str());
            text
        },
        CrashCause::Nothing => "the error did not occur during a command or after a song finished".to_owned(),
    }
}

fn describe_session(snapshot: &SessionSnapshot, now: u64) -> (text: String)
    ensures
        text@ == session_text(snapshot@, now),
{
    let mut text = "shuffling is ".to_owned();
    text.append(on_off_text(snapshot.shuffle));
    text.append("\nexclude lyrics mode is ");
    text.append(on_off_text(snapshot.exclude_lyrics));
    text.append("\ncurrent song: ");
    text.append(snapshot.current_song_name.as_str());
    text.append(" (");
    let progress = format_duration(
        snapshot.song_progress.saturating_add(now.saturating_sub(snapshot.duration_start)),
    );
    text.append(progress.as_str());
    text.append("/");
    match snapshot.song_duration {
        Some(duration) => {
            let length = format_duration(duration);
            text.append(length.as_str());
        },
        None => {
            text.append("?");
        },
    }
    text.append(")\n\n");
    text
}

impl CrashReporter {
    /// Writes the report, under the time stamp `timestamp`, as of time `now`.
    pub fn report(&self, timestamp: &str, now: u64) -> (text: String)
        ensures
            text@ == report_text(self@, timestamp@, now),
    {
        let mut text = "CRASH REPORT ".to_owned();
        text.append(timestamp);
        text.append("\n\n");
        match &self.session_settings {
            Some(snapshot) => {
                let session = describe_session(snapshot, now);
                text.append(session.as_str());
                let cause = describe_cause(&self.crash_cause);
                text.append(cause.as_str());
            },
            None => {
                text.append("the program crashed during the program setup");
            },
        }
        text
    }

    /// A reporter that knows of no session yet and is switched on.
    pub fn new() -> (reporter: Self)
        ensures
            reporter@ == (ReporterView {
                session_settings: None,
                crash_cause: CauseView::Nothing,
                enabled: true,
            }),
    {
        CrashReporter { session_settings: None, crash_cause: CrashCause::Nothing, enabled: true }
    }

    /// Notes the state of the session, with no cause at hand.
    pub fn set_session_settings(&mut self, session_settings: &SessionSettings)
        ensures
            final(self)@ == (ReporterView {
                session_settings: Some(snapshot_of(session_settings@)),
                crash_cause: CauseView::Nothing,
                enabled: old(self).enabled,
            }),
    {
        self.session_settings = Some(take_snapshot(session_settings));
        self.crash_cause = CrashCause::Nothing;
    }

    /// Notes that the console line `command` is about to be processed.
    pub fn upcoming_command(&mut self, command: String, session_settings: &SessionSettings)
        ensures
            final(self)@ == (ReporterView {
                session_settings: Some(snapshot_of(session_settings@)),
                crash_cause: CauseView::Command(command@),
                enabled: old(self).enabled,
            }),
    {
        self.session_settings = Some(take_snapshot(session_settings));
        self.crash_cause = CrashCause::Command(command);
    }

    /// Notes that the key event described by `key_event` is about to be
    /// processed.
    pub fn upcoming_key_event(&mut self, key_event: String, session_settings: &SessionSettings)
        ensures
            final(self)@ == (ReporterView {
                session_settings: Some(snapshot_of(session_settings@)),
                crash_cause: CauseView::KeyEvent(key_event@),
                enabled: old(self).enabled,
            }),
    {
        self.session_settings = Some(take_snapshot(session_settings));
        self.crash_cause = CrashCause::KeyEvent(key_event);
    }

    /// Notes that the track `next_song` is about to start.
    pub fn next_song(&mut self, next_song: String, session_settings: &SessionSettings)
        ensures
            final(self)@ == (ReporterView {
                session_settings: Some(snapshot_of(session_settings@)),
                crash_cause: CauseView::NextSong {
                    next_song: next_song@,
                    after_song: session_settings.after_song,
                },
                enabled: old(self).enabled,
            }),
    {
        let after_song = session_settings.after_song;
        self.session_settings = Some(take_snapshot(session_settings));
        self.crash_cause = CrashCause::NextSong { next_song, after_song };
    }

    /// Switches the reporter off: the process is about to end in order.
    pub fn disable(&mut self)
        ensures
            final(self)@ == (ReporterView { enabled: false, ..old(self)@ }),
    {
        self.enabled = false;
    }
}

} // verus!
