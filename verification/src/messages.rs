//! Log messages: their levels, which of them are written, and how a line
//! reads.
use crate::clock::Moment;
use crate::text::{decimal, decimal_text, same_text};
use vstd::prelude::*;

verus! {

/// How much a message matters. The levels are ordered as declared.
#[derive(Clone, Copy, Debug, PartialEq, Eq, Structural, PartialOrd, Ord)]
pub enum MessageType {
    /// Information; nothing follows from it.
    Info,
    /// Something that changes state.
    Note,
    /// A warning.
    Warning,
    /// An error.
    Error,
}

impl Default for MessageType {
    fn default() -> (r: Self)
        ensures
            r == MessageType::Note,
    {
        MessageType::Note
    }
}

/// The stream that a line is written to.
#[derive(Clone, Copy, Debug, PartialEq, Eq, Structural)]
pub enum Stream {
    /// Standard output.
    Output,
    /// Standard error.
    Error,
}

impl MessageType {
    /// The place of the level in the order of levels.
    pub open spec fn rank(self) -> nat {
        match self {
            MessageType::Info => 0,
            MessageType::Note => 1,
            MessageType::Warning => 2,
            MessageType::Error => 3,
        }
    }

    /// Whether a message of this level is written under `threshold`.
    pub open spec fn passes(self, threshold: MessageType) -> bool {
        self.rank() >= threshold.rank()
    }

    /// The stream for messages of this level.
    pub open spec fn stream(self) -> Stream {
        match self {
            MessageType::Info | MessageType::Note => Stream::Output,
            MessageType::Warning | MessageType::Error => Stream::Error,
        }
    }

    /// The word for the level in a log line.
    pub open spec fn tag(self) -> Seq<char> {
        match self {
            MessageType::Info => "INFO"@,
            MessageType::Note => "NOTE"@,
            MessageType::Warning => "WARNING"@,
            MessageType::Error => "ERROR"@,
        }
    }

    /// The name of the level.
    pub open spec fn name(self) -> Seq<char> {
        match self {
            MessageType::Info => "Info"@,
            MessageType::Note => "Note"@,
            MessageType::Warning => "Warning"@,
            MessageType::Error => "Error"@,
        }
    }

    /// The level that a configuration file names.
    pub open spec fn named(name: Seq<char>) -> Option<MessageType> {
        if name == "info"@ {
            Some(MessageType::Info)
        } else if name == "note"@ {
            Some(MessageType::Note)
        } else if name == "warning"@ {
            Some(MessageType::Warning)
        } else if name == "error"@ {
            Some(MessageType::Error)
        } else {
            None
        }
    }

    /// The place of the level in the order of levels.
    pub fn level(&self) -> (r: u8)
        ensures
            r == self.rank(),
    {
        match self {
            MessageType::Info => 0,
            MessageType::Note => 1,
            MessageType::Warning => 2,
            MessageType::Error => 3,
        }
    }

    /// Whether a message of this level is written under `threshold`: it is
    /// when its level is the threshold or above it.
    pub fn is_written(&self, threshold: MessageType) -> (r: bool)
        ensures
            r == self.passes(threshold),
    {
        self.level() >= threshold.level()
    }

    /// The stream for messages of this level: standard error for warnings and
    /// errors, standard output for the rest.
    pub fn goes_to(&self) -> (r: Stream)
        ensures
            r == self.stream(),
    {
        match self {
            MessageType::Info => Stream::Output,
            MessageType::Note => Stream::Output,
            MessageType::Warning => Stream::Error,
            MessageType::Error => Stream::Error,
        }
    }

    /// The name of the level.
    pub fn to_string(&self) -> (r: String)
        ensures
            r@ == self.name(),
    {
        match self {
            MessageType::Info => String::from_str("Info"),
            MessageType::Note => String::from_str("Note"),
            MessageType::Warning => String::from_str("Warning"),
            MessageType::Error => String::from_str("Error"),
        }
    }

    /// The level that a configuration file names: `info`, `note`, `warning`
    /// or `error`.
    pub fn from_name(name: &str) -> (r: Option<MessageType>)
        ensures
            r == Self::named(name@),
    {
        if same_text(name, "info") {
            Some(MessageType::Info)
        } else if same_text(name, "note") {
            Some(MessageType::Note)
        } else if same_text(name, "warning") {
            Some(MessageType::Warning)
        } else if same_text(name, "error") {
            Some(MessageType::Error)
        } else {
            None
        }
    }

    fn tag_text(&self) -> (r: &'static str)
        ensures
            r@ == self.tag(),
    {
        match self {
            MessageType::Info => "INFO",
            MessageType::Note => "NOTE",
            MessageType::Warning => "WARNING",
            MessageType::Error => "ERROR",
        }
    }
}

/// A message that a step of the scheduler wants logged.
#[derive(Clone, Debug)]
pub struct Message {
    pub level: MessageType,
    pub text: String,
}

/// A message, with its text as a sequence of characters.
pub struct MessageView {
    pub level: MessageType,
    pub text: Seq<char>,
}

impl View for Message {
    type V = MessageView;

    open spec fn view(&self) -> MessageView {
        MessageView { level: self.level, text: self.text@ }
    }
}

impl DeepView for Message {
    type V = MessageView;

    open spec fn deep_view(&self) -> MessageView {
        self@
    }
}

impl Message {
    /// A message of `level` that reads `text`.
    pub fn new(level: MessageType, text: String) -> (r: Message)
        ensures
            r@ == (MessageView { level, text: text@ }),
    {
        Message { level, text }
    }
}

/// A line of the log, ready to be written.
#[derive(Clone, Debug)]
pub struct Line {
    pub stream: Stream,
    pub text: String,
}

/// A line of the log, with its text as a sequence of characters.
pub struct LineView {
    pub stream: Stream,
    pub text: Seq<char>,
}

impl View for Line {
    type V = LineView;

    open spec fn view(&self) -> LineView {
        LineView { stream: self.stream, text: self.text@ }
    }
}

impl DeepView for Line {
    type V = LineView;

    open spec fn deep_view(&self) -> LineView {
        self@
    }
}

/// How a line reads: the local time, the level, the process and the message.
pub open spec fn line_text(stamp: Seq<char>, level: MessageType, pid: u32, message: Seq<char>) -> Seq<
    char,
> {
    stamp + " ["@ + level.tag() + "] Readyset["@ + decimal(pid as nat) + "]: "@ + message
}

/// The lines of a log after a message of `level` was handed to it under
/// `verbosity`.
pub open spec fn lines_after(
    lines: Seq<LineView>,
    verbosity: MessageType,
    pid: u32,
    stamp: Seq<char>,
    level: MessageType,
    message: Seq<char>,
) -> Seq<LineView> {
    if level.passes(verbosity) {
        lines.push(LineView { stream: level.stream(), text: line_text(stamp, level, pid, message) })
    } else {
        lines
    }
}

/// The log of one process: the threshold below which messages are dropped,
/// and the lines that wait to be written.
#[derive(Clone, Debug)]
pub struct Log {
    pub verbosity: MessageType,
    pub pid: u32,
    pub lines: Vec<Line>,
}

impl Log {
    /// An empty log for the process `pid`, which drops what is below a note.
    pub fn new(pid: u32) -> (log: Log)
        ensures
            log.verbosity == MessageType::Note,
            log.pid == pid,
            log.lines.deep_view() == Seq::<LineView>::empty(),
    {
        let log = Log { verbosity: MessageType::Note, pid, lines: Vec::new() };
        assert(log.lines.deep_view() =~= Seq::<LineView>::empty());
        log
    }

    /// Hands out the lines that wait to be written, in the order in which
    /// they were logged, and leaves none behind.
    pub fn take_lines(&mut self) -> (lines: Vec<Line>)
        ensures
            lines.deep_view() == old(self).lines.deep_view(),
            final(self).lines.deep_view() == Seq::<LineView>::empty(),
            final(self).verbosity == old(self).verbosity,
            final(self).pid == old(self).pid,
    {
        let mut lines: Vec<Line> = Vec::new();
        std::mem::swap(&mut lines, &mut self.lines);
        assert(self.lines.deep_view() =~= Seq::<LineView>::empty());
        lines
    }

    /// Logs `message` at its level, with the local time of now.
    pub fn record(&mut self, message: &Message)
        ensures
            final(self).verbosity == old(self).verbosity,
            final(self).pid == old(self).pid,
            exists|stamp: Seq<char>|
                final(self).lines.deep_view() == lines_after(
                    old(self).lines.deep_view(),
                    old(self).verbosity,
                    old(self).pid,
                    stamp,
                    message.level,
                    message.text@,
                ),
    {
        let now = Moment::now();
        print_message_with_ts(self, message.text.as_str(), message.level, now.stamp.as_str());
    }
}

/// Sets the threshold below which messages are dropped.
pub fn set_log_verbosity(log: &mut Log, level: MessageType)
    ensures
        final(log).verbosity == level,
        final(log).pid == old(log).pid,
        final(log).lines == old(log).lines,
{
    log.verbosity = level;
}

/// The threshold below which messages are dropped.
pub fn get_log_verbosity(log: &Log) -> (level: MessageType)
    ensures
        level == log.verbosity,
{
    log.verbosity
}

/// Adds the line for `message` to the log if its level is the threshold or
/// above it, and nothing otherwise. `stamp` is the local time that the line
/// starts with.
pub fn print_message_with_ts(log: &mut Log, message: &str, message_type: MessageType, stamp: &str)
    ensures
        final(log).verbosity == old(log).verbosity,
        final(log).pid == old(log).pid,
        final(log).lines.deep_view() == lines_after(
            old(log).lines.deep_view(),
            old(log).verbosity,
            old(log).pid,
            stamp@,
            message_type,
            message@,
        ),
{
    if message_type.is_written(log.verbosity) {
        let mut text = String::from_str(stamp);
        text.append(" [");
        text.append(message_type.tag_text());
        text.append("] Readyset[");
        text.append(decimal_text(log.pid as u64).as_str());
        text.append("]: ");
        text.append(message);
        let line = Line { stream: message_type.goes_to(), text };
        log.lines.push(line);
        assert(log.lines.deep_view() =~= old(log).lines.deep_view().push(line@));
    }
}

/// Logs `message` as information, with the local time of now.
pub fn print_info(log: &mut Log, message: &str)
    ensures
        final(log).verbosity == old(log).verbosity,
        final(log).pid == old(log).pid,
        exists|stamp: Seq<char>|
            final(log).lines.deep_view() == lines_after(
                old(log).lines.deep_view(),
                old(log).verbosity,
                old(log).pid,
                stamp,
                MessageType::Info,
                message@,
            ),
{
    let now = Moment::now();
    print_message_with_ts(log, message, MessageType::Info, now.stamp.as_str());
}

/// Logs `message` as a note, with the local time of now.
pub fn print_note(log: &mut Log, message: &str)
    ensures
        final(log).verbosity == old(log).verbosity,
        final(log).pid == old(log).pid,
        exists|stamp: Seq<char>|
            final(log).lines.deep_view() == lines_after(
                old(log).lines.deep_view(),
                old(log).verbosity,
                old(log).pid,
                stamp,
                MessageType::Note,
                message@,
            ),
{
    let now = Moment::now();
    print_message_with_ts(log, message, MessageType::Note, now.stamp.as_str());
}

/// Logs `message` as a warning, with the local time of now.
pub fn print_warning(log: &mut Log, message: &str)
    ensures
        final(log).verbosity == old(log).verbosity,
        final(log).pid == old(log).pid,
        exists|stamp: Seq<char>|
            final(log).lines.deep_view() == lines_after(
                old(log).lines.deep_view(),
                old(log).verbosity,
                old(log).pid,
                stamp,
                MessageType::Warning,
                message@,
            ),
{
    let now = Moment::now();
    print_message_with_ts(log, message, MessageType::Warning, now.stamp.as_str());
}

/// Logs `message` as an error, with the local time of now.
pub fn print_error(log: &mut Log, message: &str)
    ensures
        final(log).verbosity == old(log).verbosity,
        final(log).pid == old(log).pid,
        exists|stamp: Seq<char>|
            final(log).lines.deep_view() == lines_after(
                old(log).lines.deep_view(),
                old(log).verbosity,
                old(log).pid,
                stamp,
                MessageType::Error,
                message@,
            ),
{
    let now = Moment::now();
    print_message_with_ts(log, message, MessageType::Error, now.stamp.as_str());
}

} // verus!
