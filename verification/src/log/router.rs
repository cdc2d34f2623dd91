//! Appenders, the router that filters a record for each of them, and the
//! process-wide slot that holds at most one router.

use super::severity::{admits, admits_spec, Severity};
use vstd::prelude::*;
use vstd::string::StringExecFns;

verus! {

/// Where an appender writes.
#[derive(Debug)]
pub enum Destination {
    /// The error stream of the process.
    Console,
    /// A file of its own under `directory`, named after `base_filename`
    /// and the moment `stamp` at which the router was assembled.
    File { directory: String, base_filename: String, stamp: String },
}

/// The mathematical content of a [`Destination`].
pub enum DestinationView {
    Console,
    File { directory: Seq<char>, base_filename: Seq<char>, stamp: Seq<char> },
}

impl View for Destination {
    type V = DestinationView;

    open spec fn view(&self) -> DestinationView {
        match self {
            Destination::Console => DestinationView::Console,
            Destination::File { directory, base_filename, stamp } => DestinationView::File {
                directory: directory@,
                base_filename: base_filename@,
                stamp: stamp@,
            },
        }
    }
}

/// The path of a log file: `directory/base_filename-stamp.log`.
pub open spec fn path_spec(directory: Seq<char>, base_filename: Seq<char>, stamp: Seq<char>) -> Seq<
    char,
> {
    directory + "/"@ + base_filename + "-"@ + stamp + ".log"@
}

/// Builds the path of a log file: `directory/base_filename-stamp.log`.
pub fn log_file_path(directory: &str, base_filename: &str, stamp: &str) -> (r: String)
    ensures
        r@ == path_spec(directory@, base_filename@, stamp@),
{
    let mut s = String::from_str(directory);
    s.append("/");
    s.append(base_filename);
    s.append("-");
    s.append(stamp);
    s.append(".log");
    s
}

/// A named output sink with its own threshold and line pattern.
#[derive(Debug)]
pub struct Appender {
    pub name: String,
    pub threshold: Severity,
    pub pattern: String,
    pub destination: Destination,
}

/// The mathematical content of an [`Appender`].
pub struct AppenderView {
    pub name: Seq<char>,
    pub threshold: Severity,
    pub pattern: Seq<char>,
    pub destination: DestinationView,
}

impl View for Appender {
    type V = AppenderView;

    open spec fn view(&self) -> AppenderView {
        AppenderView {
            name: self.name@,
            threshold: self.threshold,
            pattern: self.pattern@,
            destination: self.destination@,
        }
    }
}

impl AppenderView {
    /// The file that the appender writes, if it writes one.
    pub open spec fn file_path(self) -> Option<Seq<char>> {
        match self.destination {
            DestinationView::Console => None,
            DestinationView::File { directory, base_filename, stamp } => Some(
                path_spec(directory, base_filename, stamp),
            ),
        }
    }

    /// The directory that must exist before the appender can write.
    pub open spec fn directory(self) -> Option<Seq<char>> {
        match self.destination {
            DestinationView::Console => None,
            DestinationView::File { directory, base_filename, stamp } => Some(directory),
        }
    }
}

impl Appender {
    /// Whether this appender takes a record at `level`: it asks its own
    /// threshold and nothing else.
    pub fn accepts(&self, level: Severity) -> (r: bool)
        ensures
            r == admits_spec(level, self@.threshold),
    {
        admits(level, self.threshold)
    }

    /// The file that the appender writes; a console appender has none.
    pub fn file_path(&self) -> (r: Option<String>)
        ensures
            match r {
                Some(p) => self@.file_path() == Some(p@),
                None => self@.file_path() is None,
            },
    {
        match &self.destination {
            Destination::Console => None,
            Destination::File { directory, base_filename, stamp } => Some(
                log_file_path(directory.as_str(), base_filename.as_str(), stamp.as_str()),
            ),
        }
    }

    /// The directory that must exist before the appender can write; a
    /// console appender needs none.
    pub fn directory(&self) -> (r: Option<&str>)
        ensures
            match r {
                Some(d) => self@.directory() == Some(d@),
                None => self@.directory() is None,
            },
    {
        match &self.destination {
            Destination::Console => None,
            Destination::File { directory, base_filename, stamp } => Some(directory.as_str()),
        }
    }
}

/// A root threshold and the appenders behind it.
#[derive(Debug)]
pub struct Router {
    pub root: Severity,
    pub appenders: Vec<Appender>,
}

/// The mathematical content of a [`Router`].
pub struct RouterView {
    pub root: Severity,
    pub appenders: Seq<AppenderView>,
}

impl View for Router {
    type V = RouterView;

    open spec fn view(&self) -> RouterView {
        RouterView { root: self.root, appenders: self.appenders@.map_values(|a: Appender| a@) }
    }
}

impl RouterView {
    /// No two appenders share a name.
    pub open spec fn names_unique(self) -> bool {
        forall|i: int, j: int|
            0 <= i < j < self.appenders.len() ==> self.appenders[i].name != self.appenders[j].name
    }

    /// Appender `i` receives a record at `level`: the record passes the
    /// root threshold and the appender's own.
    pub open spec fn delivers(self, level: Severity, i: int) -> bool {
        &&& 0 <= i < self.appenders.len()
        &&& admits_spec(level, self.root)
        &&& admits_spec(level, self.appenders[i].threshold)
    }

    /// The receivers of a record at `level` among the first `n` appenders,
    /// in their order.
    pub open spec fn route_upto(self, level: Severity, n: nat) -> Seq<usize>
        decreases n,
    {
        if n == 0 {
            Seq::empty()
        } else if self.delivers(level, n - 1) {
            self.route_upto(level, (n - 1) as nat).push((n - 1) as usize)
        } else {
            self.route_upto(level, (n - 1) as nat)
        }
    }

    /// The receivers of a record at `level`, in their order.
    pub open spec fn route(self, level: Severity) -> Seq<usize> {
        self.route_upto(level, self.appenders.len())
    }
}

impl Router {
    /// Whether no two appenders share a name.
    pub fn has_unique_names(&self) -> (r: bool)
        ensures
            r == self@.names_unique(),
    {
        let n = self.appenders.len();
        let mut j: usize = 0;
        while j < n
            invariant
                n == self.appenders.len(),
                j <= n,
                forall|a: int, b: int|
                    0 <= a < b < j ==> self@.appenders[a].name != self@.appenders[b].name,
            decreases n - j,
        {
            let mut i: usize = 0;
            while i < j
                invariant
                    n == self.appenders.len(),
                    i <= j < n,
                    forall|a: int| 0 <= a < i ==> self@.appenders[a].name != self@.appenders[j as int].name,
                decreases j - i,
            {
                if self.appenders[i].name == self.appenders[j].name {
                    assert(self@.appenders[i as int].name == self@.appenders[j as int].name);
                    return false;
                }
                i += 1;
            }
            j += 1;
        }
        true
    }

    /// The receivers of a record at `level`, by their position among the
    /// appenders and in that order. Each appender is asked on its own.
    pub fn route(&self, level: Severity) -> (r: Vec<usize>)
        ensures
            r@ == self@.route(level),
            forall|k: int| 0 <= k < r@.len() ==> #[trigger] r@[k] < self@.appenders.len(),
    {
        let mut out: Vec<usize> = Vec::new();
        let n = self.appenders.len();
        let root_ok = admits(level, self.root);
        let mut i: usize = 0;
        while i < n
            invariant
                n == self.appenders.len(),
                i <= n,
                root_ok == admits_spec(level, self.root),
                out@ == self@.route_upto(level, i as nat),
            decreases n - i,
        {
            if root_ok && self.appenders[i].accepts(level) {
                out.push(i);
            }
            i += 1;
        }
        proof {
            lemma_route_upto(self@, level, n as nat);
        }
        out
    }
}

/// Why an activation was refused.
#[derive(Clone, Copy, Debug, PartialEq, Eq, Structural)]
pub enum ActivateError {
    /// A destination could not be prepared, or the appenders are not a
    /// valid set.
    Configuration,
    /// A router was installed before.
    AlreadyInstalled,
}

impl ActivateError {
    /// A sentence for the error.
    pub fn message(&self) -> (r: &'static str)
        ensures
            r@ == match *self {
                ActivateError::Configuration => "the log destinations could not be set up"@,
                ActivateError::AlreadyInstalled => "a logging backend is already installed"@,
            },
    {
        match self {
            ActivateError::Configuration => "the log destinations could not be set up",
            ActivateError::AlreadyInstalled => "a logging backend is already installed",
        }
    }
}

/// The logging state of a process: empty at first, then holding the one
/// router that was installed.
#[derive(Debug)]
pub struct Backend {
    router: Option<Router>,
}

impl View for Backend {
    type V = Option<RouterView>;

    closed spec fn view(&self) -> Option<RouterView> {
        match self.router {
            Some(r) => Some(r@),
            None => None,
        }
    }
}

/// What an activation returns in state `state`, for a router `router`
/// whose destinations were prepared or not.
pub open spec fn install_result(state: Option<RouterView>, router: RouterView, prepared: bool) -> Result<
    (),
    ActivateError,
> {
    if !prepared || !router.names_unique() {
        Err(ActivateError::Configuration)
    } else if state is Some {
        Err(ActivateError::AlreadyInstalled)
    } else {
        Ok(())
    }
}

/// The state that an activation leaves: the new router where it was
/// accepted, the old state where it was refused.
pub open spec fn install_state(state: Option<RouterView>, router: RouterView, prepared: bool) -> Option<
    RouterView,
> {
    if install_result(state, router, prepared) is Ok {
        Some(router)
    } else {
        state
    }
}

/// The receivers of a record at `level` in state `state`: those of the
/// installed router, none while nothing is installed.
pub open spec fn dispatch_spec(state: Option<RouterView>, level: Severity) -> Seq<usize> {
    match state {
        Some(r) => r.route(level),
        None => Seq::empty(),
    }
}

impl Backend {
    /// The appenders of an installed router have different names.
    #[verifier::type_invariant]
    spec fn names_are_unique(self) -> bool {
        match self.router {
            Some(r) => r@.names_unique(),
            None => true,
        }
    }

    /// The state of a process in which nothing was installed yet.
    pub fn new() -> (r: Backend)
        ensures
            r@ is None,
    {
        Backend { router: None }
    }

    /// Whether a router is installed.
    pub fn is_installed(&self) -> (r: bool)
        ensures
            r == (self@ is Some),
    {
        self.router.is_some()
    }

    /// The installed router.
    pub fn router(&self) -> (r: Option<&Router>)
        ensures
            match r {
                Some(router) => self@ == Some(router@) && router@.names_unique(),
                None => self@ is None,
            },
    {
        proof {
            use_type_invariant(self);
        }
        self.router.as_ref()
    }

    /// Installs `router`, once. `prepared` says whether its destinations
    /// could be set up. The activation is refused, and the state left as it
    /// was, where they could not or where two appenders share a name
    /// (`Configuration`), and otherwise where a router is installed
    /// already (`AlreadyInstalled`).
    pub fn install(&mut self, router: Router, prepared: bool) -> (r: Result<(), ActivateError>)
        ensures
            r == install_result(old(self)@, router@, prepared),
            final(self)@ == install_state(old(self)@, router@, prepared),
            r is Err ==> *final(self) == *old(self),
    {
        if !prepared || !router.has_unique_names() {
            return Err(ActivateError::Configuration);
        }
        if self.router.is_some() {
            return Err(ActivateError::AlreadyInstalled);
        }
        self.router = Some(router);
        Ok(())
    }

    /// The receivers of a record at `level`: those that the installed
    /// router names, none while nothing is installed.
    pub fn dispatch(&self, level: Severity) -> (r: Vec<usize>)
        ensures
            r@ == dispatch_spec(self@, level),
    {
        match &self.router {
            Some(router) => router.route(level),
            None => Vec::new(),
        }
    }
}

/// The receivers among the first `n` appenders are exactly those of them
/// that the record is delivered to, each once and in rising order.
pub proof fn lemma_route_upto(router: RouterView, level: Severity, n: nat)
    requires
        n <= router.appenders.len() <= usize::MAX,
    ensures
        forall|i: usize|
            router.route_upto(level, n).contains(i) <==> (i < n && router.delivers(level, i as int)),
        forall|a: int| #![auto]
            0 <= a < router.route_upto(level, n).len() ==> router.route_upto(level, n)[a] < n,
        forall|a: int, b: int| #![auto]
            0 <= a < b < router.route_upto(level, n).len() ==> router.route_upto(level, n)[a]
                < router.route_upto(level, n)[b],
    decreases n,
{
    if n > 0 {
        let m = (n - 1) as nat;
        lemma_route_upto(router, level, m);
        let before = router.route_upto(level, m);
        let after = router.route_upto(level, n);
        if router.delivers(level, n - 1) {
            let last = (n - 1) as usize;
            assert(after == before.push(last));
            assert(after[before.len() as int] == last);
            assert forall|i: usize| after.contains(i) <==> (i < n && router.delivers(
                level,
                i as int,
            )) by {
                if after.contains(i) {
                    let k = choose|k: int| 0 <= k < after.len() && after[k] == i;
                    if k < before.len() {
                        assert(before[k] == i);
                        assert(before.contains(i));
                    }
                }
                if i < n && router.delivers(level, i as int) {
                    if i == last {
                        assert(after[before.len() as int] == i);
                    } else {
                        assert(before.contains(i));
                        let k = choose|k: int| 0 <= k < before.len() && before[k] == i;
                        assert(after[k] == i);
                    }
                }
            }
        } else {
            assert(after == before);
        }
    }
}

/// Each appender is asked on its own: appender `i` is among the receivers
/// of a record exactly when the record passes the root threshold and the
/// threshold of appender `i`, whatever the other appenders are set to.
pub proof fn lemma_route_membership(router: RouterView, level: Severity, i: usize)
    requires
        router.appenders.len() <= usize::MAX,
    ensures
        router.route(level).contains(i) <==> router.delivers(level, i as int),
{
    lemma_route_upto(router, level, router.appenders.len());
}

/// Two routers with the same root threshold that agree on the threshold
/// of appender `i` deliver the same records to it.
pub proof fn lemma_appenders_independent(a: RouterView, b: RouterView, level: Severity, i: usize)
    requires
        a.appenders.len() <= usize::MAX,
        b.appenders.len() <= usize::MAX,
        a.root == b.root,
        i < a.appenders.len(),
        i < b.appenders.len(),
        a.appenders[i as int].threshold == b.appenders[i as int].threshold,
    ensures
        a.route(level).contains(i) <==> b.route(level).contains(i),
{
    lemma_route_membership(a, level, i);
    lemma_route_membership(b, level, i);
}

/// A record that the root threshold suppresses reaches no appender.
pub proof fn lemma_root_suppresses(router: RouterView, level: Severity)
    requires
        router.appenders.len() <= usize::MAX,
        !admits_spec(level, router.root),
    ensures
        router.route(level).len() == 0,
{
    lemma_route_upto(router, level, router.appenders.len());
    let r = router.route_upto(level, router.appenders.len());
    if r.len() > 0 {
        assert(r.contains(r[0]));
        assert(router.delivers(level, r[0] as int));
    }
}

/// Activation happens once. After an accepted activation the state holds
/// that router; every later activation is refused and leaves the state,
/// and with it the receivers of every record, as the first one made them.
pub proof fn lemma_activation_once(
    state: Option<RouterView>,
    first: RouterView,
    first_prepared: bool,
    second: RouterView,
    second_prepared: bool,
    level: Severity,
)
    requires
        install_result(state, first, first_prepared) is Ok,
    ensures
        state is None,
        install_state(state, first, first_prepared) == Some(first),
        install_result(Some(first), second, second_prepared) is Err,
        install_state(Some(first), second, second_prepared) == Some(first),
        dispatch_spec(install_state(Some(first), second, second_prepared), level) == first.route(
            level,
        ),
{
}

/// A refused activation changes nothing, whatever the reason.
pub proof fn lemma_refusal_keeps_state(state: Option<RouterView>, router: RouterView, prepared: bool)
    requires
        install_result(state, router, prepared) is Err,
    ensures
        install_state(state, router, prepared) == state,
{
}

} // verus!
