//! What text layers show: fixed strings, the time, and what commands print.

use vstd::prelude::*;
use vstd::utf8::*;

use crate::project_format::TextSource;
use crate::text::{chars_of, string_of, trim_chars};

verus! {

/// A moment in local time: seconds and nanoseconds since the Unix epoch, and
/// the seconds by which local time is ahead of UTC.
#[derive(Debug, Clone, Copy, PartialEq, Eq, Structural)]
pub struct Moment {
    pub secs: i64,
    pub nanos: u32,
    pub offset: i32,
}

impl Moment {
    /// The moments that a calendar of some 250000 years around the epoch
    /// holds, with an offset of less than a day.
    pub open spec fn valid(self) -> bool {
        &&& -8_000_000_000_000 <= self.secs <= 8_000_000_000_000
        &&& self.nanos < 1_000_000_000
        &&& -86_400 < self.offset < 86_400
    }
}

/// A moment in local time as a strftime-style format writes it; nothing where
/// the format has an unknown specifier.
pub uninterp spec fn clock_text(format: Seq<char>, secs: i64, nanos: u32, offset: i32) -> Option<
    Seq<char>,
>;

/// `chrono::format::StrftimeItems::parse`, then `DateTime::format_with_items`
/// on the items: the moment written by the format, or nothing where the format
/// does not parse. What is written is named, not described.
#[verifier::external_body]
fn clock_text_of(format: &str, now: Moment) -> (r: Option<String>)
    requires
        now.valid(),
    ensures
        match r {
            Some(s) => clock_text(format@, now.secs, now.nanos, now.offset) == Some(s@),
            None => clock_text(format@, now.secs, now.nanos, now.offset) is None,
        },
{
    let items = chrono::format::StrftimeItems::new(format).parse().ok()?;
    let zone = chrono::FixedOffset::east_opt(now.offset)?;
    let utc = chrono::DateTime::from_timestamp(now.secs, now.nanos)?;
    Some(utc.with_timezone(&zone).format_with_items(items.into_iter()).to_string())
}

/// Bytes read as UTF-8, with whatever is no UTF-8 replaced.
pub uninterp spec fn lossy_text(bytes: Seq<u8>) -> Seq<char>;

/// `String::from_utf8_lossy`: bytes that are UTF-8 are decoded. What it puts
/// in place of other bytes is named, not described.
#[verifier::external_body]
pub(crate) fn lossy_text_of(bytes: &[u8]) -> (r: String)
    ensures
        r@ == lossy_text(bytes@),
        valid_utf8(bytes@) ==> r@ == decode_utf8(bytes@),
{
    String::from_utf8_lossy(bytes).to_string()
}

/// What a command that produced nothing shows.
pub const NO_OUTPUT: &'static str = "NULL";

/// How long a command may run, in milliseconds.
pub const COMMAND_TIMEOUT_MS: u64 = 5000;

/// The longest that a command's thread sleeps before it looks whether it has
/// been asked to stop, in milliseconds.
pub const COMMAND_STOP_POLL_MS: u64 = 200;

/// How a run of a command ended.
pub enum CommandOutcome {
    /// It could not be started.
    NotStarted,
    /// It could not be waited for.
    WaitFailed,
    /// It ran longer than its time.
    TimedOut,
    /// It exited.
    Exited { success: bool, stdout: Vec<u8> },
}

/// What a run of a command gives to show: its trimmed output, where it
/// succeeded and printed something.
pub open spec fn outcome_text(outcome: CommandOutcome) -> Option<Seq<char>> {
    match outcome {
        CommandOutcome::Exited { success, stdout } => {
            let text = crate::text::trimmed(lossy_text(stdout@));
            if success && text.len() > 0 {
                Some(text)
            } else {
                None
            }
        },
        _ => None,
    }
}

/// What a run of a command gives to show. A failure of any kind, a run out of
/// time and empty output all give nothing.
pub fn run_command_with_timeout(outcome: &CommandOutcome) -> (r: Option<String>)
    ensures
        match r {
            Some(s) => outcome_text(*outcome) == Some(s@),
            None => outcome_text(*outcome) is None,
        },
{
    match outcome {
        CommandOutcome::Exited { success, stdout } => {
            if !*success {
                return None;
            }
            let text = lossy_text_of(stdout.as_slice());
            let kept = trim_chars(chars_of(text.as_str()).as_slice());
            if kept.len() == 0 {
                None
            } else {
                Some(string_of(kept.as_slice()))
            }
        },
        _ => None,
    }
}

/// How long to sleep next, of `remaining` milliseconds that are left.
pub fn sleep_chunk(remaining: u64) -> (r: u64)
    ensures
        r <= remaining,
        r <= COMMAND_STOP_POLL_MS,
        r == remaining || r == COMMAND_STOP_POLL_MS,
{
    if remaining < COMMAND_STOP_POLL_MS {
        remaining
    } else {
        COMMAND_STOP_POLL_MS
    }
}

/// A fixed string.
pub struct LiteralSource {
    pub text: String,
}

impl LiteralSource {
    pub fn poll(&self, _now: Moment) -> (r: String)
        ensures
            r@ == self.text@,
    {
        self.text.clone()
    }
}

/// The time, by a format.
pub struct ClockSource {
    pub format: String,
}

/// What a clock shows: the time by its format, or the format itself where it
/// cannot be used.
pub open spec fn clock_shows(format: Seq<char>, now: Moment) -> Seq<char> {
    match clock_text(format, now.secs, now.nanos, now.offset) {
        Some(s) => s,
        None => format,
    }
}

/// What a clock with this format shows when the formatted time is `formatted`.
pub fn clock_shown(format: &String, formatted: Option<String>) -> (r: String)
    ensures
        r@ == match formatted {
            Some(s) => s@,
            None => format@,
        },
{
    match formatted {
        Some(s) => s,
        None => format.clone(),
    }
}

impl ClockSource {
    pub fn poll(&self, now: Moment) -> (r: String)
        requires
            now.valid(),
        ensures
            r@ == clock_shows(self.format@, now),
    {
        clock_shown(&self.format, clock_text_of(self.format.as_str(), now))
    }
}

/// The pause between two runs of a command, in seconds.
pub open spec fn pause_of(interval_secs: u32) -> int {
    if interval_secs == 0 {
        1
    } else {
        interval_secs as int
    }
}

/// A command that is run again and again, and what it last gave.
pub struct CommandSource {
    pub command: String,
    pub interval_secs: u32,
    /// Whether the command is ever run.
    pub runs: bool,
    pub latest: Option<String>,
}

impl CommandSource {
    /// What the source shows.
    pub open spec fn shows(self) -> Seq<char> {
        match self.latest {
            Some(s) => s@,
            None => NO_OUTPUT@,
        }
    }

    /// What the command last gave, once a run of it has ended.
    pub open spec fn after_run(self, outcome: CommandOutcome) -> Option<Seq<char>> {
        if self.runs {
            outcome_text(outcome)
        } else {
            crate::text::opt_view(self.latest)
        }
    }

    /// The command is not allowed to run, and has given nothing.
    pub open spec fn refused(self) -> bool {
        !self.runs && self.latest is None
    }

    /// A source for a command that is never run.
    pub fn untrusted(command: String, interval_secs: u32) -> (r: CommandSource)
        ensures
            r.command@ == command@,
            r.interval_secs == interval_secs,
            r.refused(),
    {
        CommandSource { command, interval_secs, runs: false, latest: None }
    }

    /// A source for a command that is run, first at once.
    pub fn spawn(command: String, interval_secs: u32) -> (r: CommandSource)
        ensures
            r.command@ == command@,
            r.interval_secs == interval_secs,
            r.runs,
            r.latest is None,
    {
        CommandSource { command, interval_secs, runs: true, latest: None }
    }

    /// The pause between two runs, in seconds: at least one.
    pub fn pause_secs(&self) -> (r: u64)
        ensures
            r == pause_of(self.interval_secs),
    {
        if self.interval_secs == 0 {
            1
        } else {
            self.interval_secs as u64
        }
    }

    /// Takes in how a run ended. A source that is never run stays as it is.
    pub fn record(&mut self, outcome: &CommandOutcome)
        ensures
            final(self).command == old(self).command,
            final(self).interval_secs == old(self).interval_secs,
            final(self).runs == old(self).runs,
            !old(self).runs ==> *final(self) == *old(self),
            crate::text::opt_view(final(self).latest) == old(self).after_run(*outcome),
    {
        if self.runs {
            self.latest = run_command_with_timeout(outcome);
        }
    }

    pub fn poll(&self, _now: Moment) -> (r: String)
        ensures
            r@ == self.shows(),
    {
        match &self.latest {
            Some(s) => s.clone(),
            None => NO_OUTPUT.to_string(),
        }
    }
}

/// A text layer's source, loaded.
pub enum LoadedTextSource {
    Literal(LiteralSource),
    Clock(ClockSource),
    Command(CommandSource),
}

impl LoadedTextSource {
    /// The configuration that this source was loaded from.
    pub open spec fn config(self) -> crate::project_format::TextSourceModel {
        match self {
            LoadedTextSource::Literal(s) => crate::project_format::TextSourceModel::Literal {
                text: s.text@,
            },
            LoadedTextSource::Clock(s) => crate::project_format::TextSourceModel::Clock {
                format: s.format@,
            },
            LoadedTextSource::Command(s) => crate::project_format::TextSourceModel::Command {
                command: s.command@,
                interval_secs: s.interval_secs,
            },
        }
    }

    /// What the source shows at a moment.
    pub open spec fn shows(self, now: Moment) -> Seq<char> {
        match self {
            LoadedTextSource::Literal(s) => s.text@,
            LoadedTextSource::Clock(s) => clock_shows(s.format@, now),
            LoadedTextSource::Command(s) => s.shows(),
        }
    }

    /// The source as it is when it has just been loaded.
    pub open spec fn fresh(self, allow_commands: bool) -> bool {
        self matches LoadedTextSource::Command(s) ==> s.runs == allow_commands && s.latest is None
    }

    /// Loads a source. A command is run only where `allow_commands` says so.
    pub fn from_project(source: &TextSource, allow_commands: bool) -> (r: LoadedTextSource)
        ensures
            r.config() == source@,
            r.fresh(allow_commands),
    {
        match source {
            TextSource::Literal { text } => LoadedTextSource::Literal(
                LiteralSource { text: text.clone() },
            ),
            TextSource::Clock { format } => LoadedTextSource::Clock(
                ClockSource { format: format.clone() },
            ),
            TextSource::Command { command, interval_secs } => {
                if allow_commands {
                    LoadedTextSource::Command(
                        CommandSource::spawn(command.clone(), *interval_secs),
                    )
                } else {
                    LoadedTextSource::Command(
                        CommandSource::untrusted(command.clone(), *interval_secs),
                    )
                }
            },
        }
    }

    /// Whether `source` is the configuration that this source was loaded from.
    pub fn matches(&self, source: &TextSource) -> (r: bool)
        ensures
            r == (self.config() == source@),
    {
        match (self, source) {
            (LoadedTextSource::Literal(current), TextSource::Literal { text }) => current.text
                == *text,
            (LoadedTextSource::Clock(current), TextSource::Clock { format }) => current.format
                == *format,
            (
                LoadedTextSource::Command(current),
                TextSource::Command { command, interval_secs },
            ) => current.command == *command && current.interval_secs == *interval_secs,
            _ => false,
        }
    }

    /// The string to show.
    pub fn poll(&self, now: Moment) -> (r: String)
        requires
            now.valid(),
        ensures
            r@ == self.shows(now),
    {
        match self {
            LoadedTextSource::Literal(source) => source.poll(now),
            LoadedTextSource::Clock(source) => source.poll(now),
            LoadedTextSource::Command(source) => source.poll(now),
        }
    }

    /// Whether the source can ever give a different string over time.
    pub fn is_dynamic(&self) -> (r: bool)
        ensures
            r == self.config().dynamic(),
    {
        match self {
            LoadedTextSource::Literal(_) => false,
            LoadedTextSource::Clock(_) | LoadedTextSource::Command(_) => true,
        }
    }
}

/// A command of an untrusted project shows `NULL` when it is loaded, and goes
/// on to, whatever runs are reported of it: `record` leaves such a source as
/// it is.
pub proof fn untrusted_command_shows_null(source: LoadedTextSource, now: Moment)
    requires
        source is Command,
        source.fresh(false),
    ensures
        source.shows(now) == NO_OUTPUT@,
        source->Command_0.refused(),
{
}

/// A literal shows its own text at every moment.
pub proof fn literal_never_changes(source: LoadedTextSource, a: Moment, b: Moment)
    requires
        !source.config().dynamic(),
    ensures
        source.shows(a) == source.shows(b),
        source.config() == (crate::project_format::TextSourceModel::Literal {
            text: source.shows(a),
        }),
{
}

/// What a run of a command shows is its output, all of it but the white space
/// at its ends: what is left out in front and behind is white space alone. A run
/// that failed or printed nothing else shows nothing.
pub proof fn command_shows_its_output(outcome: CommandOutcome) -> (ends: (Seq<char>, Seq<char>))
    ensures
        outcome_text(outcome) matches Some(shown) ==> {
            &&& outcome matches CommandOutcome::Exited { success, stdout } && success && lossy_text(
                stdout@,
            ) == ends.0 + shown + ends.1
            &&& shown.len() > 0
            &&& !crate::text::is_space(shown[0])
            &&& !crate::text::is_space(shown.last())
        },
        crate::text::all_space(ends.0),
        crate::text::all_space(ends.1),
        outcome_text(outcome) is None ==> (outcome matches CommandOutcome::Exited {
            success,
            stdout,
        } ==> !success || crate::text::all_space(lossy_text(stdout@))),
{
    match outcome {
        CommandOutcome::Exited { stdout, .. } => {
            let text = lossy_text(stdout@);
            let ends = crate::text::trimming_takes_space_alone(text);
            if crate::text::trimmed(text).len() == 0 {
                assert(crate::text::trimmed(text) =~= seq![]);
                assert(text =~= ends.0 + ends.1);
                assert forall|i: int| 0 <= i < text.len() implies crate::text::is_space(
                    #[trigger] text[i],
                ) by {
                    if i < ends.0.len() {
                        assert(text[i] == ends.0[i]);
                    } else {
                        assert(text[i] == ends.1[i - ends.0.len()]);
                    }
                }
            }
            ends
        },
        _ => (seq![], seq![]),
    }
}

/// A clock shows the time as its format writes it, and the format itself where
/// it cannot be used.
pub proof fn clock_shows_the_time(source: LoadedTextSource, now: Moment)
    requires
        source is Clock,
    ensures
        ({
            let format = source->Clock_0.format@;
            match clock_text(format, now.secs, now.nanos, now.offset) {
                Some(time) => source.shows(now) == time,
                None => source.shows(now) == format,
            }
        }),
{
}

/// A command shows what it last gave at every moment, and `NULL` as long as it
/// has given nothing.
pub proof fn command_shows_what_it_gave(source: LoadedTextSource, now: Moment)
    requires
        source is Command,
    ensures
        match source->Command_0.latest {
            Some(text) => source.shows(now) == text@,
            None => source.shows(now) == "NULL"@,
        },
{
}


/// A run that printed something takes the place of what was shown, and one that
/// failed, took too long or printed nothing does too: nothing old stays. A
/// command that may not run shows what it did.
pub proof fn last_run_is_shown(source: CommandSource, outcome: CommandOutcome)
    ensures
        source.runs ==> match outcome {
            CommandOutcome::Exited { success, stdout } => {
                &&& success && !crate::text::all_space(lossy_text(stdout@))
                    ==> source.after_run(outcome) is Some && source.after_run(outcome)
                    == outcome_text(outcome)
                &&& !success || crate::text::all_space(lossy_text(stdout@)) ==> source.after_run(
                    outcome,
                ) is None
            },
            _ => source.after_run(outcome) is None,
        },
        !source.runs ==> source.after_run(outcome) == crate::text::opt_view(source.latest),
{
    let (front, back) = command_shows_its_output(outcome);
    if outcome_text(outcome) is Some {
        let shown = outcome_text(outcome)->0;
        let text = lossy_text(outcome->stdout@);
        assert(text[front.len() as int] == shown[0]);
    }
}

/// A command pauses for its interval between two runs, and for a second at
/// least.
pub proof fn commands_pause(interval_secs: u32)
    ensures
        pause_of(interval_secs) >= 1,
        pause_of(interval_secs) >= interval_secs,
        interval_secs > 0 ==> pause_of(interval_secs) == interval_secs,
{
}

/// A source is loaded from what the project says, and a command runs just where
/// commands may.
pub proof fn loaded_source_is_the_projects(source: LoadedTextSource, allow_commands: bool)
    requires
        source.fresh(allow_commands),
    ensures
        source is Literal <==> source.config() is Literal,
        source is Clock <==> source.config() is Clock,
        source is Command <==> source.config() is Command,
        source matches LoadedTextSource::Command(c) ==> c.runs == allow_commands && c.latest
            is None && source.config() == (crate::project_format::TextSourceModel::Command {
            command: c.command@,
            interval_secs: c.interval_secs,
        }),
        source.config().dynamic() <==> !(source.config() is Literal),
{
}

} // verus!
