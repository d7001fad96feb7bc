use vstd::prelude::*;

verus! {

/// Where the logger stands: before `init`, while its log file is being opened, with an
/// open log file, or after opening the log file failed (which leaves its one-time
/// initialization poisoned).
#[derive(PartialEq, Eq, Structural, Clone, Copy, Debug)]
pub enum LoggerState {
    Uninitialized,
    Opening,
    Ready,
    Poisoned,
}

/// What a call of `init` has to do.
#[derive(PartialEq, Eq, Structural, Clone, Copy, Debug)]
pub enum InitStep {
    /// Open (create, truncate) the log file, then report with `finish_init`.
    OpenLogFile,
    /// The logger was initialized before: nothing happens.
    AlreadyInitialized,
    /// An earlier initialization panicked: this one panics too.
    Poisoned,
}

/// The lines that one logged message produces: one for the console, and one for the
/// log file when a log file is open.
pub struct LogRecord {
    pub console: String,
    pub file: Option<String>,
}

/// A logger that writes every message to the console and, once initialized with a log
/// file, to that file too. Initialization takes effect once.
pub struct Logger {
    state: LoggerState,
}

impl View for Logger {
    type V = LoggerState;

    closed spec fn view(&self) -> LoggerState {
        self.state
    }
}

/// The state and the step that `init` leads to from state `s`.
pub open spec fn init_transition(s: LoggerState) -> (LoggerState, InitStep) {
    match s {
        LoggerState::Uninitialized => (LoggerState::Opening, InitStep::OpenLogFile),
        LoggerState::Poisoned => (LoggerState::Poisoned, InitStep::Poisoned),
        _ => (s, InitStep::AlreadyInitialized),
    }
}

/// The state that finishing an initialization leads to: a log file when it could be
/// opened, a poisoned initialization otherwise.
pub open spec fn finish_transition(opened: bool) -> LoggerState {
    if opened {
        LoggerState::Ready
    } else {
        LoggerState::Poisoned
    }
}

/// A logged line: the message followed by a line break.
pub open spec fn line(message: Seq<char>) -> Seq<char> {
    message.push('\n')
}

impl Logger {
    /// A logger that has not been initialized: it logs to the console only.
    pub fn new() -> (l: Logger)
        ensures
            l@ == LoggerState::Uninitialized,
    {
        Logger { state: LoggerState::Uninitialized }
    }

    /// The first half of `init`: decides whether the log file is to be opened.
    /// Only the first initialization opens a file; later ones do nothing, or panic
    /// when the first one failed.
    pub fn begin_init(&mut self) -> (step: InitStep)
        requires
            old(self)@ != LoggerState::Opening,
        ensures
            (final(self)@, step) == init_transition(old(self)@),
    {
        match self.state {
            LoggerState::Uninitialized => {
                self.state = LoggerState::Opening;
                InitStep::OpenLogFile
            },
            LoggerState::Poisoned => InitStep::Poisoned,
            _ => InitStep::AlreadyInitialized,
        }
    }

    /// The second half of `init`: records whether the log file could be opened.
    /// When it could not, `init` panics and the logger stays without a log file.
    pub fn finish_init(&mut self, opened: bool)
        requires
            old(self)@ == LoggerState::Opening,
        ensures
            final(self)@ == finish_transition(opened),
    {
        self.state = if opened {
            LoggerState::Ready
        } else {
            LoggerState::Poisoned
        };
    }

    /// Whether messages also go to a log file.
    pub fn has_log_file(&self) -> (b: bool)
        ensures
            b == (self@ == LoggerState::Ready),
    {
        self.state == LoggerState::Ready
    }

    /// The lines that logging `message` writes: always one to the console, and the same
    /// line to the log file exactly when a log file is open.
    pub fn log(&self, message: &str) -> (r: LogRecord)
        ensures
            r.console@ == line(message@),
            r.file is Some <==> self@ == LoggerState::Ready,
            r.file matches Some(f) ==> f@ == line(message@),
    {
        let mut console = String::from_str(message);
        proof {
            reveal_strlit("\n");
        }
        console.append("\n");
        if self.state == LoggerState::Ready {
            let mut file = String::from_str(message);
            file.append("\n");
            LogRecord { console, file: Some(file) }
        } else {
            LogRecord { console, file: None }
        }
    }
}

/// A logged line is the message as it was given, followed by one line break and nothing
/// else.
pub proof fn law_line_is_message_and_break(message: Seq<char>)
    ensures
        line(message).len() == message.len() + 1,
        line(message).take(message.len() as int) == message,
        line(message).last() == '\n',
{
    assert(line(message).take(message.len() as int) =~= message);
}

/// Initialization takes effect once: the first `init` opens the log file, and every later
/// `init` changes nothing (or panics, when opening failed); from then on messages go to the
/// log file exactly when it was opened.
pub proof fn law_init_takes_effect_once(opened: bool)
    ensures
        init_transition(LoggerState::Uninitialized).1 == InitStep::OpenLogFile,
        ({
            let after = finish_transition(opened);
            &&& init_transition(after).0 == after
            &&& init_transition(after).1 == (if opened {
                InitStep::AlreadyInitialized
            } else {
                InitStep::Poisoned
            })
            &&& (after == LoggerState::Ready) == opened
        }),
{
}

} // verus!
