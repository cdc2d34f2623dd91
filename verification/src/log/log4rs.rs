//! The configuration builder: thresholds, file name, directory and pattern,
//! each optional, and the router that they describe.

use super::router::{ActivateError, Appender, AppenderView, Backend, Destination, DestinationView, Router, RouterView, install_result, install_state};
use super::router::{lemma_route_membership};
use super::severity::{admits_spec, Severity};
use vstd::prelude::*;
use vstd::string::StringExecFns;

verus! {

/// The line pattern that is used where none is set.
pub const DEFAULT_PATTERN: &'static str = "{d} [{l}] {t}[{L}]: {m}{n}";

/// The directory that log files go to where none is set.
pub const DEFAULT_DIRECTORY: &'static str = "logs";

/// The name of the console appender.
pub const CONSOLE_NAME: &'static str = "console";

/// The name of the file appender.
pub const FILE_NAME: &'static str = "file";

/// The form of the moment in a log file's name: date and time of day to
/// the second, in local time.
pub const STAMP_FORMAT: &'static str = "%Y-%m-%d %H_%M_%S";

/// Settings for the logging backend. Every one of them may be left out.
#[derive(Debug)]
pub struct Log4rsConfig<'a> {
    root_level: Option<Severity>,
    console_level: Option<Severity>,
    filename: Option<&'a str>,
    filepath: Option<&'a str>,
    file_level: Option<Severity>,
    pattern: Option<&'a str>,
}

/// The mathematical content of a [`Log4rsConfig`].
pub struct ConfigView {
    pub root_level: Option<Severity>,
    pub console_level: Option<Severity>,
    pub filename: Option<Seq<char>>,
    pub filepath: Option<Seq<char>>,
    pub file_level: Option<Severity>,
    pub pattern: Option<Seq<char>>,
}

/// The view of an optional piece of text.
pub open spec fn text_view(text: Option<&str>) -> Option<Seq<char>> {
    match text {
        Some(t) => Some(t@),
        None => None,
    }
}

impl ConfigView {
    /// The configuration in which nothing is set.
    pub open spec fn empty() -> ConfigView {
        ConfigView {
            root_level: None,
            console_level: None,
            filename: None,
            filepath: None,
            file_level: None,
            pattern: None,
        }
    }

    /// The root threshold: `Trace` unless set.
    pub open spec fn root(self) -> Severity {
        match self.root_level {
            Some(l) => l,
            None => Severity::Trace,
        }
    }

    /// The threshold of the console appender: `Debug` unless set.
    pub open spec fn console(self) -> Severity {
        match self.console_level {
            Some(l) => l,
            None => Severity::Debug,
        }
    }

    /// The threshold of the file appender: `Debug` unless set.
    pub open spec fn file(self) -> Severity {
        match self.file_level {
            Some(l) => l,
            None => Severity::Debug,
        }
    }

    /// The line pattern: the default one unless set.
    pub open spec fn line_pattern(self) -> Seq<char> {
        match self.pattern {
            Some(p) => p,
            None => DEFAULT_PATTERN@,
        }
    }

    /// The directory of the log file: the default one unless set.
    pub open spec fn directory(self) -> Seq<char> {
        match self.filepath {
            Some(p) => p,
            None => DEFAULT_DIRECTORY@,
        }
    }

    /// The console appender, which every router has.
    pub open spec fn console_appender(self) -> AppenderView {
        AppenderView {
            name: CONSOLE_NAME@,
            threshold: self.console(),
            pattern: self.line_pattern(),
            destination: DestinationView::Console,
        }
    }

    /// The file appender for a log file named `base_filename` and stamped
    /// `stamp`.
    pub open spec fn file_appender(self, base_filename: Seq<char>, stamp: Seq<char>) -> AppenderView {
        AppenderView {
            name: FILE_NAME@,
            threshold: self.file(),
            pattern: self.line_pattern(),
            destination: DestinationView::File {
                directory: self.directory(),
                base_filename: base_filename,
                stamp: stamp,
            },
        }
    }

    /// The router that the configuration describes at the moment `stamp`:
    /// the console appender, then the file appender where a file name is
    /// set.
    pub open spec fn router(self, stamp: Seq<char>) -> RouterView {
        RouterView {
            root: self.root(),
            appenders: match self.filename {
                Some(name) => seq![self.console_appender(), self.file_appender(name, stamp)],
                None => seq![self.console_appender()],
            },
        }
    }
}

impl<'a> View for Log4rsConfig<'a> {
    type V = ConfigView;

    closed spec fn view(&self) -> ConfigView {
        ConfigView {
            root_level: self.root_level,
            console_level: self.console_level,
            filename: text_view(self.filename),
            filepath: text_view(self.filepath),
            file_level: self.file_level,
            pattern: text_view(self.pattern),
        }
    }
}

impl<'a> Default for Log4rsConfig<'a> {
    /// The configuration in which nothing is set.
    fn default() -> (r: Self)
        ensures
            r@ == ConfigView::empty(),
    {
        Log4rsConfig {
            root_level: None,
            console_level: None,
            filename: None,
            filepath: None,
            file_level: None,
            pattern: None,
        }
    }
}

/// Reads the clock through chrono: `Local::now()`, rendered by
/// `DateTime::format` with `format`, which must be [`STAMP_FORMAT`], a
/// format that chrono accepts. The text depends on the clock and on the
/// time zone of the machine, so nothing is claimed of it.
#[verifier::external_body]
fn local_time_text(format: &str) -> (r: String)
    requires
        format@ == STAMP_FORMAT@,
{
    chrono::Local::now().format(format).to_string()
}

impl<'a> Log4rsConfig<'a> {
    /// Sets the root threshold.
    #[inline]
    pub fn set_root_level(&mut self, level: Severity) -> (r: &mut Self)
        ensures
            r@ == (ConfigView { root_level: Some(level), ..old(self)@ }),
            *final(self) == *final(r),
    {
        self.root_level = Some(level);
        self
    }

    /// Sets the threshold of the console appender.
    #[inline]
    pub fn set_console_level(&mut self, filter: Severity) -> (r: &mut Self)
        ensures
            r@ == (ConfigView { console_level: Some(filter), ..old(self)@ }),
            *final(self) == *final(r),
    {
        self.console_level = Some(filter);
        self
    }

    /// Sets the threshold of the file appender.
    #[inline]
    pub fn set_file_level(&mut self, filter: Severity) -> (r: &mut Self)
        ensures
            r@ == (ConfigView { file_level: Some(filter), ..old(self)@ }),
            *final(self) == *final(r),
    {
        self.file_level = Some(filter);
        self
    }

    /// Sets the base name of the log file, and with it asks for a file
    /// appender.
    #[inline]
    pub fn set_filename(&mut self, filename: &'a str) -> (r: &mut Self)
        ensures
            r@ == (ConfigView { filename: Some(filename@), ..old(self)@ }),
            *final(self) == *final(r),
    {
        self.filename = Some(filename);
        self
    }

    /// Sets the directory of the log file.
    #[inline]
    pub fn set_filepath(&mut self, filepath: &'a str) -> (r: &mut Self)
        ensures
            r@ == (ConfigView { filepath: Some(filepath@), ..old(self)@ }),
            *final(self) == *final(r),
    {
        self.filepath = Some(filepath);
        self
    }

    /// Sets the line pattern, which is handed on as it is.
    #[inline]
    pub fn set_pattern(&mut self, pattern: &'a str) -> (r: &mut Self)
        ensures
            r@ == (ConfigView { pattern: Some(pattern@), ..old(self)@ }),
            *final(self) == *final(r),
    {
        self.pattern = Some(pattern);
        self
    }

    fn line_pattern(&self) -> (r: &'a str)
        ensures
            r@ == self@.line_pattern(),
    {
        match self.pattern {
            Some(p) => p,
            None => DEFAULT_PATTERN,
        }
    }

    /// The router that the configuration describes at the moment `stamp`:
    /// a console appender always, then a file appender where a file name
    /// is set, each with its threshold or `Debug`, under the root
    /// threshold or `Trace`.
    pub fn router_at(&self, stamp: &str) -> (r: Router)
        ensures
            r@ == self@.router(stamp@),
            r@.names_unique(),
    {
        let pattern = self.line_pattern();
        let console = Appender {
            name: String::from_str(CONSOLE_NAME),
            threshold: match self.console_level {
                Some(l) => l,
                None => Severity::Debug,
            },
            pattern: String::from_str(pattern),
            destination: Destination::Console,
        };
        let mut appenders: Vec<Appender> = Vec::new();
        appenders.push(console);
        match self.filename {
            Some(filename) => {
                let directory = match self.filepath {
                    Some(p) => p,
                    None => DEFAULT_DIRECTORY,
                };
                let file = Appender {
                    name: String::from_str(FILE_NAME),
                    threshold: match self.file_level {
                        Some(l) => l,
                        None => Severity::Debug,
                    },
                    pattern: String::from_str(pattern),
                    destination: Destination::File {
                        directory: String::from_str(directory),
                        base_filename: String::from_str(filename),
                        stamp: String::from_str(stamp),
                    },
                };
                appenders.push(file);
            },
            None => {},
        }
        let router = Router {
            root: match self.root_level {
                Some(l) => l,
                None => Severity::Trace,
            },
            appenders,
        };
        proof {
            assert(router@.appenders =~= self@.router(stamp@).appenders);
            lemma_names_unique(self@, stamp@);
        }
        router
    }

    /// The router that the configuration describes now: the log file, if
    /// there is one, is stamped with the local time of this call.
    pub fn router(&self) -> (r: Router)
        ensures
            exists|stamp: Seq<char>| r@ == self@.router(stamp),
            r@.names_unique(),
    {
        let stamp = local_time_text(STAMP_FORMAT);
        self.router_at(stamp.as_str())
    }

    /// Assembles the router for the moment `stamp` and installs it in
    /// `backend`, once. `prepared` says whether the destinations could be
    /// set up: the directory made and the file opened. Where they could
    /// not, the activation fails with `Configuration`; otherwise, where a
    /// router is installed already, with `AlreadyInstalled`. A failed
    /// activation installs nothing and leaves `backend` as it was.
    pub fn initialize(&self, backend: &mut Backend, stamp: &str, prepared: bool) -> (r: Result<
        (),
        ActivateError,
    >)
        ensures
            r == (if !prepared {
                Err(ActivateError::Configuration)
            } else if old(backend)@ is Some {
                Err(ActivateError::AlreadyInstalled)
            } else {
                Ok(())
            }),
            r is Ok ==> final(backend)@ == Some(self@.router(stamp@)),
            r is Err ==> *final(backend) == *old(backend),
            r == install_result(old(backend)@, self@.router(stamp@), prepared),
            final(backend)@ == install_state(old(backend)@, self@.router(stamp@), prepared),
    {
        let router = self.router_at(stamp);
        backend.install(router, prepared)
    }
}

/// The appenders of a router that a configuration describes have different
/// names, so as far as the names go every such router can be installed.
pub proof fn lemma_names_unique(config: ConfigView, stamp: Seq<char>)
    ensures
        config.router(stamp).names_unique(),
        config.router(stamp).appenders.len() == (if config.filename is Some {
            2nat
        } else {
            1nat
        }),
{
    reveal_strlit("console");
    reveal_strlit("file");
    assert(CONSOLE_NAME@.len() != FILE_NAME@.len());
}

/// The two appenders filter independently. A record reaches the console
/// exactly when it passes the root and the console threshold, and the file
/// exactly when a file name is set and it passes the root and the file
/// threshold. Neither threshold bears on the other appender.
pub proof fn lemma_config_routes(config: ConfigView, stamp: Seq<char>, level: Severity)
    ensures
        config.router(stamp).route(level).contains(0usize) <==> (admits_spec(level, config.root())
            && admits_spec(level, config.console())),
        config.router(stamp).route(level).contains(1usize) <==> (config.filename is Some
            && admits_spec(level, config.root()) && admits_spec(level, config.file())),
{
    lemma_names_unique(config, stamp);
    lemma_route_membership(config.router(stamp), level, 0usize);
    lemma_route_membership(config.router(stamp), level, 1usize);
}

} // verus!
