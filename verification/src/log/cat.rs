//! The tagged logger: a small copyable handle whose leveled calls say what
//! is to be written, and where.

use super::format::{backend_message, backend_spec, format_line, format_plain, line_spec, location_view, plain_spec, Location};
use super::router::{dispatch_spec, Backend, RouterView};
use super::severity::Severity;
use vstd::prelude::*;

verus! {

/// How leveled calls are carried out. It is chosen once, when the logger
/// is made, and not per call.
#[derive(Clone, Copy, Debug, PartialEq, Eq, Structural)]
pub enum Mode {
    /// Every call becomes a colorized console line, whatever is installed.
    Local,
    /// Every call goes to the installed router, and is dropped without one.
    Production,
}

/// What a leveled call asks to be written.
#[derive(Debug)]
pub enum Emission {
    /// One line for the console, to be followed by a line break.
    Console(String),
    /// A record for the installed router, with the appenders that take it.
    Backend { level: Severity, message: String, appenders: Vec<usize> },
    /// Nothing.
    Dropped,
}

/// The mathematical content of an [`Emission`].
pub enum EmissionView {
    Console(Seq<char>),
    Backend { level: Severity, message: Seq<char>, appenders: Seq<usize> },
    Dropped,
}

impl View for Emission {
    type V = EmissionView;

    open spec fn view(&self) -> EmissionView {
        match self {
            Emission::Console(line) => EmissionView::Console(line@),
            Emission::Backend { level, message, appenders } => EmissionView::Backend {
                level: *level,
                message: message@,
                appenders: appenders@,
            },
            Emission::Dropped => EmissionView::Dropped,
        }
    }
}

/// What a record with the backend message `message` becomes in production
/// mode: it is dropped where no appender takes it, which is the case while
/// nothing is installed.
pub open spec fn routed_spec(state: Option<RouterView>, level: Severity, message: Seq<char>) -> EmissionView {
    let appenders = dispatch_spec(state, level);
    if appenders.len() == 0 {
        EmissionView::Dropped
    } else {
        EmissionView::Backend { level, message, appenders }
    }
}

/// What a leveled call of a logger tagged `tag` asks for. In local mode it
/// is the colorized line, with the location where one is given, and the
/// state does not matter. In production mode it is the record `tag -
/// message` for the appenders that take it.
pub open spec fn log_spec(
    tag: Seq<char>,
    mode: Mode,
    state: Option<RouterView>,
    level: Severity,
    message: Seq<char>,
    location: Option<(Seq<char>, nat)>,
) -> EmissionView {
    match mode {
        Mode::Local => EmissionView::Console(line_spec(level, tag, message, location)),
        Mode::Production => routed_spec(state, level, backend_spec(tag, message)),
    }
}

/// What an untagged leveled call asks for. Without a message it is an empty
/// console line in either mode. With one it is in local mode the colorized
/// line, and in production mode the record with that message.
pub open spec fn plain_log_spec(
    mode: Mode,
    state: Option<RouterView>,
    level: Severity,
    message: Option<Seq<char>>,
) -> EmissionView {
    match message {
        None => EmissionView::Console(Seq::empty()),
        Some(m) => match mode {
            Mode::Local => EmissionView::Console(plain_spec(level, message)),
            Mode::Production => routed_spec(state, level, m),
        },
    }
}

/// An untagged leveled call. A call without a message asks for one blank
/// line.
pub fn log_plain(mode: Mode, backend: &Backend, level: Severity, message: Option<&str>) -> (r:
    Emission)
    ensures
        r@ == plain_log_spec(
            mode,
            backend@,
            level,
            match message {
                Some(m) => Some(m@),
                None => None,
            },
        ),
{
    match message {
        None => Emission::Console(format_plain(level, None)),
        Some(m) => match mode {
            Mode::Local => Emission::Console(format_plain(level, message)),
            Mode::Production => {
                let appenders = backend.dispatch(level);
                if appenders.len() == 0 {
                    Emission::Dropped
                } else {
                    Emission::Backend { level, message: m.to_owned(), appenders }
                }
            },
        },
    }
}

/// A logger for one subsystem, named by its tag.
#[derive(Debug, Copy, Clone)]
pub struct LogCat {
    tag: &'static str,
    mode: Mode,
}

impl Default for LogCat {
    /// The local logger with an empty tag.
    fn default() -> (r: Self)
        ensures
            r.tag()@ == Seq::<char>::empty(),
            r.mode() == Mode::Local,
    {
        let r = LogCat { tag: "", mode: Mode::Local };
        proof {
            reveal_strlit("");
            assert(r.tag@ =~= Seq::<char>::empty());
        }
        r
    }
}

impl LogCat {
    /// The tag that the logger was made with.
    pub closed spec fn tag(&self) -> &'static str {
        self.tag
    }

    /// The mode that the logger was made with.
    pub closed spec fn mode(&self) -> Mode {
        self.mode
    }

    /// A logger in local mode.
    pub fn new(tag: &'static str) -> (r: Self)
        ensures
            r.tag() == tag,
            r.mode() == Mode::Local,
    {
        Self { tag, mode: Mode::Local }
    }

    /// A logger in the given mode.
    pub fn with_mode(tag: &'static str, mode: Mode) -> (r: Self)
        ensures
            r.tag() == tag,
            r.mode() == mode,
    {
        Self { tag, mode }
    }

    /// The tag.
    pub fn get_tag(&self) -> (r: &'static str)
        ensures
            r == self.tag(),
    {
        self.tag
    }

    /// The mode.
    pub fn get_mode(&self) -> (r: Mode)
        ensures
            r == self.mode(),
    {
        self.mode
    }

    /// A call at `level`. The message is rendered only where something
    /// will be written.
    pub fn log(
        &self,
        backend: &Backend,
        level: Severity,
        message: &str,
        location: Option<Location<'_>>,
    ) -> (r: Emission)
        ensures
            r@ == log_spec(
                self.tag()@,
                self.mode(),
                backend@,
                level,
                message@,
                location_view(location),
            ),
    {
        match self.mode {
            Mode::Local => Emission::Console(format_line(level, self.tag, message, location)),
            Mode::Production => {
                let appenders = backend.dispatch(level);
                if appenders.len() == 0 {
                    Emission::Dropped
                } else {
                    Emission::Backend {
                        level,
                        message: backend_message(self.tag, message),
                        appenders,
                    }
                }
            },
        }
    }

    /// A call at `Trace`.
    #[inline(always)]
    pub fn trace(&self, backend: &Backend, message: &str, location: Option<Location<'_>>) -> (r:
        Emission)
        ensures
            r@ == log_spec(
                self.tag()@,
                self.mode(),
                backend@,
                Severity::Trace,
                message@,
                location_view(location),
            ),
    {
        self.log(backend, Severity::Trace, message, location)
    }

    /// A call at `Debug`.
    #[inline(always)]
    pub fn debug(&self, backend: &Backend, message: &str, location: Option<Location<'_>>) -> (r:
        Emission)
        ensures
            r@ == log_spec(
                self.tag()@,
                self.mode(),
                backend@,
                Severity::Debug,
                message@,
                location_view(location),
            ),
    {
        self.log(backend, Severity::Debug, message, location)
    }

    /// A call at `Info`.
    #[inline(always)]
    pub fn info(&self, backend: &Backend, message: &str, location: Option<Location<'_>>) -> (r:
        Emission)
        ensures
            r@ == log_spec(
                self.tag()@,
                self.mode(),
                backend@,
                Severity::Info,
                message@,
                location_view(location),
            ),
    {
        self.log(backend, Severity::Info, message, location)
    }

    /// A call at `Warn`.
    #[inline(always)]
    pub fn warn(&self, backend: &Backend, message: &str, location: Option<Location<'_>>) -> (r:
        Emission)
        ensures
            r@ == log_spec(
                self.tag()@,
                self.mode(),
                backend@,
                Severity::Warn,
                message@,
                location_view(location),
            ),
    {
        self.log(backend, Severity::Warn, message, location)
    }

    /// A call at `Error`.
    #[inline(always)]
    pub fn error(&self, backend: &Backend, message: &str, location: Option<Location<'_>>) -> (r:
        Emission)
        ensures
            r@ == log_spec(
                self.tag()@,
                self.mode(),
                backend@,
                Severity::Error,
                message@,
                location_view(location),
            ),
    {
        self.log(backend, Severity::Error, message, location)
    }
}

/// In local mode a call is written to the console whatever is installed,
/// or nothing is: the state has no part in it.
pub proof fn lemma_local_ignores_state(
    tag: Seq<char>,
    a: Option<RouterView>,
    b: Option<RouterView>,
    level: Severity,
    message: Seq<char>,
    location: Option<(Seq<char>, nat)>,
)
    ensures
        log_spec(tag, Mode::Local, a, level, message, location) == log_spec(
            tag,
            Mode::Local,
            b,
            level,
            message,
            location,
        ),
        log_spec(tag, Mode::Local, a, level, message, location) is Console,
{
}

/// In production mode a call made before anything is installed is dropped.
pub proof fn lemma_dropped_before_activation(
    tag: Seq<char>,
    level: Severity,
    message: Seq<char>,
    location: Option<(Seq<char>, nat)>,
)
    ensures
        log_spec(tag, Mode::Production, None, level, message, location) == EmissionView::Dropped,
{
}

/// An untagged call without a message asks for one empty line, at every
/// level, in both modes and in every state.
pub proof fn lemma_no_message_blank_line(mode: Mode, state: Option<RouterView>, level: Severity)
    ensures
        plain_log_spec(mode, state, level, None) == EmissionView::Console(Seq::empty()),
{
}

} // verus!
