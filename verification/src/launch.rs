//! The launch of an instance, one report of the driver at a time.

use vstd::prelude::*;
use crate::endpoint::Endpoint;
use crate::endpoint::EndpointView;
use crate::endpoint::Platform;
use crate::error::Error;
use crate::error::ErrorInner;
use crate::error::ErrorView;
use crate::layout::db_dir;
use crate::layout::db_dir_path;
use crate::layout::endpoint_for;
use crate::layout::select_endpoint;
use crate::layout::server_args;
use crate::layout::server_arguments;
use crate::teardown::implicit_plan;
use crate::teardown::StepView;
use crate::teardown::Teardown;
use crate::temp_mongo::TempMongo;
use crate::temp_mongo::TempMongoView;
use crate::util::kill_on_drop::KillOnDrop;
use crate::util::kill_on_drop::ProcessView;
use crate::util::port_finder::PortGenerator;
use crate::util::temp_dir::TempDir;
use crate::util::temp_dir::TempDirView;

verus! {

/// How long the client waits for a connection, in milliseconds.
pub const CONNECT_TIMEOUT_MILLIS: u64 = 100;

/// What the driver is asked to do next.
#[derive(Debug, PartialEq)]
pub enum Directive {
    /// Create a fresh temporary directory, inside `parent` or, without one,
    /// in the system's directory for temporary files. Answer with
    /// `Report::TempDir`.
    MakeTempDir { parent: Option<String> },
    /// Create the directory `path`. Answer with `Report::DbDir`.
    MakeDbDir { path: String },
    /// Ask the operating system for a free port on the loopback adapter:
    /// bind a listener to port 0, read its port, close it. Answer with
    /// `Report::Port`.
    FindPort,
    /// Start `program` with `args`, its output captured. Answer with
    /// `Report::Spawn`.
    Spawn { program: String, args: Vec<String> },
    /// Make a client for the one host `endpoint`, with the given time to
    /// connect and, if `direct_connection`, without discovering a topology.
    /// Answer with `Report::Connect`.
    Connect { endpoint: Endpoint, connect_timeout_millis: u64, direct_connection: bool },
    /// List the databases through the client. Answer with `Report::Probe`.
    Probe,
    /// The launch has failed: carry the plan out, telling nobody of a
    /// failure in it, then hand `error` to the caller.
    Abort { teardown: Teardown, error: Error },
    /// The launch has succeeded: the instance runs and answers.
    Ready(TempMongo),
    /// The launch is over: there is nothing to do.
    Idle,
}

/// A directive over sequences of characters.
pub enum DirectiveView {
    MakeTempDir { parent: Option<Seq<char>> },
    MakeDbDir { path: Seq<char> },
    FindPort,
    Spawn { program: Seq<char>, args: Seq<Seq<char>> },
    Connect { endpoint: EndpointView, connect_timeout_millis: u64, direct_connection: bool },
    Probe,
    Abort { teardown: Seq<StepView>, error: ErrorView },
    Ready(TempMongoView),
    Idle,
}

impl View for Directive {
    type V = DirectiveView;

    open spec fn view(&self) -> DirectiveView {
        match self {
            Directive::MakeTempDir { parent } => DirectiveView::MakeTempDir {
                parent: parent.deep_view(),
            },
            Directive::MakeDbDir { path } => DirectiveView::MakeDbDir { path: path@ },
            Directive::FindPort => DirectiveView::FindPort,
            Directive::Spawn { program, args } => DirectiveView::Spawn {
                program: program@,
                args: args.deep_view(),
            },
            Directive::Connect {
                endpoint,
                connect_timeout_millis,
                direct_connection,
            } => DirectiveView::Connect {
                endpoint: endpoint@,
                connect_timeout_millis: *connect_timeout_millis,
                direct_connection: *direct_connection,
            },
            Directive::Probe => DirectiveView::Probe,
            Directive::Abort { teardown, error } => DirectiveView::Abort {
                teardown: teardown@,
                error: error@,
            },
            Directive::Ready(mongo) => DirectiveView::Ready(mongo@),
            Directive::Idle => DirectiveView::Idle,
        }
    }
}

/// What the driver answers once it has done what it was asked. A failure
/// comes with its cause in words.
#[derive(Debug, PartialEq, Eq)]
pub enum Report {
    /// The path of the temporary directory that was created.
    TempDir(Result<String, String>),
    /// The data directory was created.
    DbDir(Result<(), String>),
    /// The port that the operating system assigned, if it assigned one.
    Port(Option<u16>),
    /// The PID of the server process that was started.
    Spawn(Result<u32, String>),
    /// The client was made.
    Connect(Result<(), String>),
    /// The server has answered.
    Probe(Result<(), String>),
}

/// How something went that gives nothing back but that it was done.
pub enum Outcome {
    /// It was done.
    Done,
    /// It failed, with the cause.
    Failed(Seq<char>),
}

/// A report over sequences of characters.
pub enum ReportView {
    TempDir(Result<Seq<char>, Seq<char>>),
    DbDir(Outcome),
    Port(Option<u16>),
    Spawn(Result<u32, Seq<char>>),
    Connect(Outcome),
    Probe(Outcome),
}

impl View for Report {
    type V = ReportView;

    open spec fn view(&self) -> ReportView {
        match self {
            Report::TempDir(Ok(path)) => ReportView::TempDir(Ok(path@)),
            Report::TempDir(Err(cause)) => ReportView::TempDir(Err(cause@)),
            Report::DbDir(Ok(done)) => ReportView::DbDir(Outcome::Done),
            Report::DbDir(Err(cause)) => ReportView::DbDir(Outcome::Failed(cause@)),
            Report::Port(port) => ReportView::Port(*port),
            Report::Spawn(Ok(pid)) => ReportView::Spawn(Ok(*pid)),
            Report::Spawn(Err(cause)) => ReportView::Spawn(Err(cause@)),
            Report::Connect(Ok(done)) => ReportView::Connect(Outcome::Done),
            Report::Connect(Err(cause)) => ReportView::Connect(Outcome::Failed(cause@)),
            Report::Probe(Ok(done)) => ReportView::Probe(Outcome::Done),
            Report::Probe(Err(cause)) => ReportView::Probe(Outcome::Failed(cause@)),
        }
    }
}

/// How far a launch has come, with what it has made so far.
#[derive(Debug, PartialEq)]
pub enum Phase {
    /// The temporary directory is being created.
    MakingTempDir { parent: Option<String>, clean_on_drop: bool },
    /// The data directory is being created.
    MakingDbDir { dir: TempDir },
    /// A free port is being looked for.
    FindingPort { dir: TempDir },
    /// The server is being started.
    Spawning { dir: TempDir, endpoint: Endpoint },
    /// The server runs; the client is being made.
    Connecting { dir: TempDir, endpoint: Endpoint, server: KillOnDrop },
    /// The client exists; the server is being asked whether it answers.
    Probing { dir: TempDir, endpoint: Endpoint, server: KillOnDrop },
    /// The launch has ended, well or badly.
    Over,
}

/// A phase over sequences of characters.
pub enum PhaseView {
    MakingTempDir { parent: Option<Seq<char>>, clean_on_drop: bool },
    MakingDbDir { dir: TempDirView },
    FindingPort { dir: TempDirView },
    Spawning { dir: TempDirView, endpoint: EndpointView },
    Connecting { dir: TempDirView, endpoint: EndpointView, server: ProcessView },
    Probing { dir: TempDirView, endpoint: EndpointView, server: ProcessView },
    Over,
}

impl PhaseView {
    /// The state directory, once it has been made.
    pub open spec fn dir(self) -> Option<TempDirView> {
        match self {
            PhaseView::MakingTempDir { parent, clean_on_drop } => None,
            PhaseView::MakingDbDir { dir } => Some(dir),
            PhaseView::FindingPort { dir } => Some(dir),
            PhaseView::Spawning { dir, endpoint } => Some(dir),
            PhaseView::Connecting { dir, endpoint, server } => Some(dir),
            PhaseView::Probing { dir, endpoint, server } => Some(dir),
            PhaseView::Over => None,
        }
    }

    /// The server process, once it has been started.
    pub open spec fn server(self) -> Option<ProcessView> {
        match self {
            PhaseView::Connecting { dir, endpoint, server } => Some(server),
            PhaseView::Probing { dir, endpoint, server } => Some(server),
            _ => None,
        }
    }

    /// Whether a client has been made.
    pub open spec fn client(self) -> bool {
        self is Probing
    }

    /// The endpoint, once it has been chosen.
    pub open spec fn endpoint(self) -> Option<EndpointView> {
        match self {
            PhaseView::Spawning { dir, endpoint } => Some(endpoint),
            PhaseView::Connecting { dir, endpoint, server } => Some(endpoint),
            PhaseView::Probing { dir, endpoint, server } => Some(endpoint),
            _ => None,
        }
    }
}

impl View for Phase {
    type V = PhaseView;

    open spec fn view(&self) -> PhaseView {
        match self {
            Phase::MakingTempDir { parent, clean_on_drop } => PhaseView::MakingTempDir {
                parent: parent.deep_view(),
                clean_on_drop: *clean_on_drop,
            },
            Phase::MakingDbDir { dir } => PhaseView::MakingDbDir { dir: dir@ },
            Phase::FindingPort { dir } => PhaseView::FindingPort { dir: dir@ },
            Phase::Spawning { dir, endpoint } => PhaseView::Spawning {
                dir: dir@,
                endpoint: endpoint@,
            },
            Phase::Connecting { dir, endpoint, server } => PhaseView::Connecting {
                dir: dir@,
                endpoint: endpoint@,
                server: server@,
            },
            Phase::Probing { dir, endpoint, server } => PhaseView::Probing {
                dir: dir@,
                endpoint: endpoint@,
                server: server@,
            },
            Phase::Over => PhaseView::Over,
        }
    }
}

/// A launch in progress: a snapshot of the configuration, and the phase.
#[derive(Debug, PartialEq)]
pub struct Launch {
    platform: Platform,
    command: String,
    phase: Phase,
}

/// A launch over sequences of characters.
pub struct LaunchView {
    /// The class of platform that the launch runs on.
    pub platform: Platform,
    /// The command that runs the server.
    pub command: Seq<char>,
    /// How far the launch has come.
    pub phase: PhaseView,
}

impl LaunchView {
    /// The launch after it has ended.
    pub open spec fn over(self) -> LaunchView {
        LaunchView { phase: PhaseView::Over, ..self }
    }

    /// The launch in another phase.
    pub open spec fn at(self, phase: PhaseView) -> LaunchView {
        LaunchView { phase, ..self }
    }

    /// What the driver is asked to do while the launch is in its phase.
    pub open spec fn pending(self) -> DirectiveView {
        match self.phase {
            PhaseView::MakingTempDir { parent, clean_on_drop } => DirectiveView::MakeTempDir {
                parent,
            },
            PhaseView::MakingDbDir { dir } => DirectiveView::MakeDbDir { path: db_dir(dir.path) },
            PhaseView::FindingPort { dir } => DirectiveView::FindPort,
            PhaseView::Spawning { dir, endpoint } => DirectiveView::Spawn {
                program: self.command,
                args: server_args(endpoint, dir.path),
            },
            PhaseView::Connecting { dir, endpoint, server } => DirectiveView::Connect {
                endpoint,
                connect_timeout_millis: CONNECT_TIMEOUT_MILLIS,
                direct_connection: true,
            },
            PhaseView::Probing { dir, endpoint, server } => DirectiveView::Probe,
            PhaseView::Over => DirectiveView::Idle,
        }
    }

    /// The launch after a failure, and the directive that ends it: what was
    /// made is taken down as if it had been let go of without a word.
    pub open spec fn fail(
        self,
        client: bool,
        server: Option<ProcessView>,
        dir: TempDirView,
        error: ErrorView,
    ) -> (LaunchView, DirectiveView) {
        (self.over(), DirectiveView::Abort { teardown: implicit_plan(client, server, dir), error })
    }

    /// The launch in its next phase, and what the driver is asked to do
    /// there.
    pub open spec fn enter(self, phase: PhaseView) -> (LaunchView, DirectiveView) {
        (self.at(phase), self.at(phase).pending())
    }

    /// The launch after `report`, and the directive that goes out.
    ///
    /// A good report on what was asked moves the launch to its next phase. A
    /// bad one ends it: what was made so far is taken down, and the error
    /// names what failed. The last good report, that the server answers,
    /// hands the instance out. A report on anything but what was asked
    /// changes nothing: the same directive goes out again.
    pub open spec fn step(self, report: ReportView) -> (LaunchView, DirectiveView) {
        match (self.phase, report) {
            (
                PhaseView::MakingTempDir { parent, clean_on_drop },
                ReportView::TempDir(Ok(path)),
            ) => self.enter(PhaseView::MakingDbDir { dir: TempDirView { path, clean_on_drop } }),
            (PhaseView::MakingTempDir { parent, clean_on_drop }, ReportView::TempDir(Err(cause))) => (
                self.over(),
                DirectiveView::Abort {
                    teardown: Seq::empty(),
                    error: ErrorView::MakeTempDir(cause),
                },
            ),
            (PhaseView::MakingDbDir { dir }, ReportView::DbDir(Outcome::Done)) => match self.platform {
                Platform::LocalSocket => self.enter(
                    PhaseView::Spawning {
                        dir,
                        endpoint: endpoint_for(Platform::LocalSocket, dir.path, 0),
                    },
                ),
                Platform::Loopback => self.enter(PhaseView::FindingPort { dir }),
            },
            (PhaseView::MakingDbDir { dir }, ReportView::DbDir(Outcome::Failed(cause))) => self.fail(
                false,
                None,
                dir,
                ErrorView::MakeDbDir(db_dir(dir.path), cause),
            ),
            (PhaseView::FindingPort { dir }, ReportView::Port(Some(port))) => self.enter(
                PhaseView::Spawning { dir, endpoint: endpoint_for(self.platform, dir.path, port) },
            ),
            (PhaseView::FindingPort { dir }, ReportView::Port(None)) => self.fail(
                false,
                None,
                dir,
                ErrorView::Port,
            ),
            (PhaseView::Spawning { dir, endpoint }, ReportView::Spawn(Ok(pid))) => self.enter(
                PhaseView::Connecting { dir, endpoint, server: ProcessView { pid, alive: true } },
            ),
            (PhaseView::Spawning { dir, endpoint }, ReportView::Spawn(Err(cause))) => self.fail(
                false,
                None,
                dir,
                ErrorView::SpawnServer(self.command, cause),
            ),
            (
                PhaseView::Connecting { dir, endpoint, server },
                ReportView::Connect(Outcome::Done),
            ) => self.enter(PhaseView::Probing { dir, endpoint, server }),
            (
                PhaseView::Connecting { dir, endpoint, server },
                ReportView::Connect(Outcome::Failed(cause)),
            ) => self.fail(false, Some(server), dir, ErrorView::Connect(endpoint.address(), cause)),
            (PhaseView::Probing { dir, endpoint, server }, ReportView::Probe(Outcome::Done)) => (
                self.over(),
                DirectiveView::Ready(TempMongoView { dir, endpoint, server }),
            ),
            (PhaseView::Probing { dir, endpoint, server }, ReportView::Probe(Outcome::Failed(cause))) => self.fail(
                true,
                Some(server),
                dir,
                ErrorView::Connect(endpoint.address(), cause),
            ),
            _ => (self, self.pending()),
        }
    }
}

/// The launch after the reports, taken one after the other.
pub open spec fn run(start: LaunchView, reports: Seq<ReportView>) -> LaunchView
    decreases reports.len(),
{
    if reports.len() == 0 {
        start
    } else {
        run(start, reports.drop_last()).step(reports.last()).0
    }
}

/// The directive that goes out after the last of the reports.
pub open spec fn said(start: LaunchView, reports: Seq<ReportView>) -> DirectiveView {
    if reports.len() == 0 {
        start.pending()
    } else {
        run(start, reports.drop_last()).step(reports.last()).1
    }
}

impl View for Launch {
    type V = LaunchView;

    closed spec fn view(&self) -> LaunchView {
        LaunchView { platform: self.platform, command: self.command@, phase: self.phase@ }
    }
}

impl Launch {
    /// A launch in the given phase, and what the driver is asked to do there.
    pub(crate) fn enter(platform: Platform, command: String, phase: Phase) -> (next: (
        Launch,
        Directive,
    ))
        ensures
            next.0@ == (LaunchView { platform, command: command@, phase: phase@ }),
            next.1@ == next.0@.pending(),
    {
        let launch = Launch { platform, command, phase };
        let directive = launch.pending();
        (launch, directive)
    }

    /// A launch that has ended with `error`, and the directive that says so.
    fn abort(platform: Platform, command: String, teardown: Teardown, inner: ErrorInner) -> (next: (
        Launch,
        Directive,
    ))
        ensures
            next.0@ == (LaunchView { platform, command: command@, phase: PhaseView::Over }),
            next.1@ == (DirectiveView::Abort { teardown: teardown@, error: inner@ }),
    {
        proof {
            crate::error::lemma_from_keeps_kind(inner);
        }
        let error = Error::from(inner);
        (Launch { platform, command, phase: Phase::Over }, Directive::Abort { teardown, error })
    }

    /// The class of platform that the launch runs on.
    pub fn platform(&self) -> (platform: Platform)
        ensures
            platform == self@.platform,
    {
        self.platform
    }

    /// Whether the launch has ended.
    pub fn is_over(&self) -> (over: bool)
        ensures
            over == (self@.phase is Over),
    {
        match &self.phase {
            Phase::Over => true,
            _ => false,
        }
    }

    /// What the driver is asked to do while the launch is in its phase.
    pub fn pending(&self) -> (directive: Directive)
        ensures
            directive@ == self@.pending(),
    {
        match &self.phase {
            Phase::MakingTempDir { parent, clean_on_drop } => match parent {
                Some(dir) => Directive::MakeTempDir { parent: Some(dir.clone()) },
                None => Directive::MakeTempDir { parent: None },
            },
            Phase::MakingDbDir { dir } => Directive::MakeDbDir {
                path: db_dir_path(dir.path().as_str()),
            },
            Phase::FindingPort { dir } => Directive::FindPort,
            Phase::Spawning { dir, endpoint } => Directive::Spawn {
                program: self.command.clone(),
                args: server_arguments(endpoint, dir.path().as_str()),
            },
            Phase::Connecting { dir, endpoint, server } => Directive::Connect {
                endpoint: endpoint.duplicate(),
                connect_timeout_millis: CONNECT_TIMEOUT_MILLIS,
                direct_connection: true,
            },
            Phase::Probing { dir, endpoint, server } => Directive::Probe,
            Phase::Over => Directive::Idle,
        }
    }

    /// Takes the driver's report on what it was asked to do, and says what
    /// comes next.
    pub fn step(self, report: Report) -> (next: (Launch, Directive))
        ensures
            (next.0@, next.1@) == self@.step(report@),
    {
        let Launch { platform, command, phase } = self;
        match (phase, report) {
            (Phase::MakingTempDir { parent, clean_on_drop }, Report::TempDir(Ok(path))) => {
                let dir = TempDir::new(path, clean_on_drop);
                Launch::enter(platform, command, Phase::MakingDbDir { dir })
            },
            (Phase::MakingTempDir { parent, clean_on_drop }, Report::TempDir(Err(cause))) => {
                Launch::abort(platform, command, Teardown::nothing(), ErrorInner::MakeTempDir(cause))
            },
            (Phase::MakingDbDir { dir }, Report::DbDir(Ok(done))) => {
                match platform {
                    Platform::LocalSocket => {
                        let endpoint = select_endpoint(platform, dir.path().as_str(), 0);
                        Launch::enter(platform, command, Phase::Spawning { dir, endpoint })
                    },
                    Platform::Loopback => Launch::enter(
                        platform,
                        command,
                        Phase::FindingPort { dir },
                    ),
                }
            },
            (Phase::MakingDbDir { dir }, Report::DbDir(Err(cause))) => {
                let path = db_dir_path(dir.path().as_str());
                Launch::abort(
                    platform,
                    command,
                    Teardown::implicit(false, None, dir),
                    ErrorInner::MakeDbDir(path, cause),
                )
            },
            (Phase::FindingPort { dir }, Report::Port(assigned)) => {
                let mut generator = PortGenerator::new();
                match generator.generate(assigned).selected_port() {
                    Some(port) => {
                        let endpoint = select_endpoint(platform, dir.path().as_str(), port);
                        Launch::enter(platform, command, Phase::Spawning { dir, endpoint })
                    },
                    None => Launch::abort(
                        platform,
                        command,
                        Teardown::implicit(false, None, dir),
                        ErrorInner::Port,
                    ),
                }
            },
            (Phase::Spawning { dir, endpoint }, Report::Spawn(Ok(pid))) => {
                let server = KillOnDrop::new(pid);
                Launch::enter(platform, command, Phase::Connecting { dir, endpoint, server })
            },
            (Phase::Spawning { dir, endpoint }, Report::Spawn(Err(cause))) => {
                let name = command.clone();
                Launch::abort(
                    platform,
                    command,
                    Teardown::implicit(false, None, dir),
                    ErrorInner::SpawnServer(name, cause),
                )
            },
            (Phase::Connecting { dir, endpoint, server }, Report::Connect(Ok(done))) => {
                Launch::enter(platform, command, Phase::Probing { dir, endpoint, server })
            },
            (Phase::Connecting { dir, endpoint, server }, Report::Connect(Err(cause))) => {
                let address = endpoint.address().clone();
                Launch::abort(
                    platform,
                    command,
                    Teardown::implicit(false, Some(server), dir),
                    ErrorInner::Connect(address, cause),
                )
            },
            (Phase::Probing { dir, endpoint, server }, Report::Probe(Ok(done))) => {
                let mongo = TempMongo::launched(dir, endpoint, server);
                (Launch { platform, command, phase: Phase::Over }, Directive::Ready(mongo))
            },
            (Phase::Probing { dir, endpoint, server }, Report::Probe(Err(cause))) => {
                let address = endpoint.address().clone();
                Launch::abort(
                    platform,
                    command,
                    Teardown::implicit(true, Some(server), dir),
                    ErrorInner::Connect(address, cause),
                )
            },
            (phase, other) => Launch::enter(platform, command, phase),
        }
    }
}

} // verus!
