//! The running instance and the builder that configures its launch.

use vstd::prelude::*;
use mongodb::bson::Document;
use crate::endpoint::Endpoint;
use crate::endpoint::EndpointView;
use crate::endpoint::Platform;
use crate::launch::Directive;
use crate::launch::DirectiveView;
use crate::launch::Launch;
use crate::launch::LaunchView;
use crate::launch::Phase;
use crate::launch::PhaseView;
use crate::layout::log_file;
use crate::layout::log_file_path;
use crate::teardown::clean_plan;
use crate::teardown::implicit_plan;
use crate::teardown::keep_plan;
use crate::teardown::Teardown;
use crate::util::kill_on_drop::KillOnDrop;
use crate::util::kill_on_drop::ProcessView;
use crate::util::seed_data_structures::DataSeeder;
use crate::util::temp_dir::TempDir;
use crate::util::temp_dir::TempDirView;

verus! {

/// A temporary MongoDB instance that runs.
///
/// All state of the MongoDB instance is stored in a temporary directory.
/// The instance ends by one of `kill_and_clean`, `kill_no_clean` and
/// `abandon`, each of which takes it whole and hands out the steps that take
/// it down.
#[derive(Debug, PartialEq)]
pub struct TempMongo {
    tempdir: TempDir,
    endpoint: Endpoint,
    log_path: String,
    server: KillOnDrop,
    seed: DataSeeder,
}

/// A running instance over sequences of characters.
pub struct TempMongoView {
    /// The state directory.
    pub dir: TempDirView,
    /// Where the server listens.
    pub endpoint: EndpointView,
    /// The server process.
    pub server: ProcessView,
}

impl TempMongoView {
    /// The log file of the server: that of the state directory.
    pub open spec fn log_path(self) -> Seq<char> {
        log_file(self.dir.path)
    }
}

impl View for TempMongo {
    type V = TempMongoView;

    closed spec fn view(&self) -> TempMongoView {
        TempMongoView { dir: self.tempdir@, endpoint: self.endpoint@, server: self.server@ }
    }
}

impl TempMongo {
    /// The log path that is kept is the log file of the state directory.
    #[verifier::type_invariant]
    spec fn log_in_directory(self) -> bool {
        self.log_path@ == log_file(self.tempdir@.path)
    }

    /// Start the launch of a new MongoDB instance with the default
    /// configuration.
    pub fn new(platform: Platform) -> (next: (Launch, Directive))
        ensures
            next.0@ == BuilderView::initial().launch(platform),
            next.1@ == (DirectiveView::MakeTempDir { parent: None }),
    {
        Self::from_builder(&TempMongoBuilder::new(), platform)
    }

    /// Start the launch of a MongoDB instance as `builder` configures it.
    ///
    /// The launch takes a snapshot of the configuration and asks for the
    /// temporary directory. Every answer of the driver goes to
    /// [`Launch::step`], which asks for the next thing, until it hands out
    /// the instance or the error.
    pub fn from_builder(builder: &TempMongoBuilder, platform: Platform) -> (next: (
        Launch,
        Directive,
    ))
        ensures
            next.0@ == builder@.launch(platform),
            next.1@ == (DirectiveView::MakeTempDir { parent: builder@.parent_directory }),
    {
        let parent = match &builder.parent_directory {
            Some(dir) => Some(dir.clone()),
            None => None,
        };
        Launch::enter(
            platform,
            builder.get_command_string(),
            Phase::MakingTempDir { parent, clean_on_drop: builder.clean_on_drop },
        )
    }

    /// Create a builder to customize your [`TempMongo`].
    ///
    /// After configuring the desired options, run [`TempMongoBuilder::spawn()`].
    pub fn builder() -> (builder: TempMongoBuilder)
        ensures
            builder@ == BuilderView::initial(),
    {
        TempMongoBuilder::new()
    }

    /// Puts a running instance together from its parts.
    pub(crate) fn launched(tempdir: TempDir, endpoint: Endpoint, server: KillOnDrop) -> (mongo: Self)
        ensures
            mongo@ == (TempMongoView { dir: tempdir@, endpoint: endpoint@, server: server@ }),
    {
        let log_path = log_file_path(tempdir.path().as_str());
        TempMongo { tempdir, endpoint, log_path, server, seed: DataSeeder::new() }
    }

    /// Get the PID of the MongoDB process.
    pub fn process_id(&self) -> (pid: u32)
        ensures
            pid == self@.server.pid,
    {
        self.server.id()
    }

    /// Get the path of the temporary state directory.
    pub fn directory(&self) -> (path: &String)
        ensures
            path@ == self@.dir.path,
    {
        self.tempdir.path()
    }

    /// Get the path of the listening socket of the MongoDB instance, or the
    /// host name where it listens on a port.
    pub fn socket_path(&self) -> (path: &String)
        ensures
            path@ == self@.endpoint.address(),
    {
        self.endpoint.address()
    }

    /// Where the MongoDB instance listens.
    pub fn endpoint(&self) -> (endpoint: &Endpoint)
        ensures
            endpoint@ == self@.endpoint,
    {
        &self.endpoint
    }

    /// Get the path of the log file of the MongoDB instance.
    pub fn log_path(&self) -> (path: &String)
        ensures
            path@ == self@.log_path(),
    {
        proof {
            use_type_invariant(self);
        }
        &self.log_path
    }

    /// Prepare seed documents for a database and a collection named by `&str`.
    pub fn prepare_seed_document(
        &self,
        database_name: &str,
        collection_name: &str,
        documents: Vec<Document>,
    ) -> (seeder: DataSeeder)
        ensures
            seeder.database_name@ == database_name@,
            seeder.collection_name@ == collection_name@,
            seeder.documents == documents,
    {
        self.seed.new_in(database_name, collection_name, documents)
    }

    /// Prepare seed documents for a database and a collection named by
    /// `&String`.
    pub fn prepare_seed_document_string(
        &self,
        database_name: &String,
        collection_name: &String,
        documents: Vec<Document>,
    ) -> (seeder: DataSeeder)
        ensures
            seeder.database_name@ == database_name@,
            seeder.collection_name@ == collection_name@,
            seeder.documents == documents,
    {
        self.seed.new_in_with_string(database_name, collection_name, documents)
    }

    /// Enable or disable clean-up of the temporary directory when this
    /// object is abandoned.
    pub fn set_clean_on_drop(&mut self, clean_on_drop: bool)
        ensures
            final(self)@ == (TempMongoView {
                dir: TempDirView { path: old(self)@.dir.path, clean_on_drop },
                ..old(self)@
            }),
    {
        proof {
            use_type_invariant(&*self);
        }
        self.tempdir.set_clean_on_drop(clean_on_drop);
    }

    /// Kill the server and remove the temporary state directory on the
    /// filesystem.
    ///
    /// This function ignores the value of `clean_on_drop`. The plan that it
    /// hands out says what the driver does; `Teardown::conclude` then says
    /// what the caller is told.
    pub fn kill_and_clean(self) -> (plan: Teardown)
        ensures
            plan@ == clean_plan(self@.server, self@.dir),
    {
        Teardown::clean(self.server, self.tempdir)
    }

    /// Kill the server, but leave the temporary state directory on the
    /// filesystem.
    ///
    /// This function ignores the value of `clean_on_drop`.
    pub fn kill_no_clean(self) -> (plan: Teardown)
        ensures
            plan@ == keep_plan(self@.server, self@.dir),
    {
        Teardown::keep(self.server, self.tempdir)
    }

    /// What happens when the instance is let go of without a word: the
    /// client is shut down, the server is killed, and the state directory
    /// is removed unless
    /// `clean_on_drop` was switched off. The driver carries the plan out and
    /// tells nobody of a failure.
    pub fn abandon(self) -> (plan: Teardown)
        ensures
            plan@ == implicit_plan(true, Some(self@.server), self@.dir),
    {
        Teardown::implicit(true, Some(self.server), self.tempdir)
    }
}

/// Builder for customizing your [`TempMongo`] object.
///
/// After configuring the desired options, run [`TempMongoBuilder::spawn()`].
#[derive(Debug, Clone, PartialEq, Eq)]
pub struct TempMongoBuilder {
    /// The parent directory for the temporary directory.
    ///
    /// Use the system default if set to `None`.
    parent_directory: Option<String>,
    /// Clean up the temporary directory when the [`TempMongo`] object is
    /// abandoned.
    clean_on_drop: bool,
    /// The mongod command to execute.
    command: Option<String>,
}

/// A builder over sequences of characters.
pub struct BuilderView {
    pub parent_directory: Option<Seq<char>>,
    pub clean_on_drop: bool,
    pub command: Option<Seq<char>>,
}

impl BuilderView {
    /// The builder before anything was configured: the system's directory
    /// for temporary files, cleaning on drop, the standard server command.
    pub open spec fn initial() -> Self {
        BuilderView { parent_directory: None, clean_on_drop: true, command: None }
    }

    /// The command that runs the server: the one that was set, else `mongod`.
    pub open spec fn command_name(self) -> Seq<char> {
        match self.command {
            Some(command) => command,
            None => "mongod"@,
        }
    }

    /// The launch that this builder starts on `platform`.
    pub open spec fn launch(self, platform: Platform) -> LaunchView {
        LaunchView {
            platform,
            command: self.command_name(),
            phase: PhaseView::MakingTempDir {
                parent: self.parent_directory,
                clean_on_drop: self.clean_on_drop,
            },
        }
    }
}

impl View for TempMongoBuilder {
    type V = BuilderView;

    closed spec fn view(&self) -> BuilderView {
        BuilderView {
            parent_directory: self.parent_directory.deep_view(),
            clean_on_drop: self.clean_on_drop,
            command: self.command.deep_view(),
        }
    }
}

impl TempMongoBuilder {
    /// Create a new builder.
    pub fn new() -> (builder: Self)
        ensures
            builder@ == BuilderView::initial(),
    {
        TempMongoBuilder { parent_directory: None, command: None, clean_on_drop: true }
    }

    /// Enable or disable cleaning of the temporary state directory when the
    /// [`TempMongo`] object is abandoned.
    ///
    /// This can also be changed after creation with
    /// [`TempMongo::set_clean_on_drop()`].
    pub fn clean_on_drop(self, clean_on_drop: bool) -> (builder: Self)
        ensures
            builder@ == (BuilderView { clean_on_drop, ..self@ }),
    {
        let mut builder = self;
        builder.clean_on_drop = clean_on_drop;
        builder
    }

    /// Overwrite the `mongod` command to run.
    ///
    /// Can be used to run a `mongod` binary from an alternative location.
    pub fn mongod_command(self, command: String) -> (builder: Self)
        ensures
            builder@ == (BuilderView { command: Some(command@), ..self@ }),
    {
        let mut builder = self;
        builder.command = Some(command);
        builder
    }

    /// Create the temporary state directory inside `parent` in place of the
    /// system's directory for temporary files.
    pub fn parent_directory(self, parent: String) -> (builder: Self)
        ensures
            builder@ == (BuilderView { parent_directory: Some(parent@), ..self@ }),
    {
        let mut builder = self;
        builder.parent_directory = Some(parent);
        builder
    }

    /// Get the command to execute to run MongoDB.
    pub fn get_command(&self) -> (command: &str)
        ensures
            command@ == self@.command_name(),
    {
        match &self.command {
            Some(command) => command.as_str(),
            None => "mongod",
        }
    }

    /// Get the command to execute to run MongoDB as a string, for diagnostic
    /// purposes.
    pub fn get_command_string(&self) -> (command: String)
        ensures
            command@ == self@.command_name(),
    {
        String::from_str(self.get_command())
    }

    /// Start the launch of a MongoDB instance with this configuration.
    pub fn spawn(&self, platform: Platform) -> (next: (Launch, Directive))
        ensures
            next.0@ == self@.launch(platform),
            next.1@ == (DirectiveView::MakeTempDir { parent: self@.parent_directory }),
    {
        TempMongo::from_builder(self, platform)
    }

    /// The first thing a launch asks for: a temporary directory, inside the
    /// configured parent where there is one.
    pub fn make_temp_dir(&self) -> (directive: Directive)
        ensures
            directive@ == (DirectiveView::MakeTempDir { parent: self@.parent_directory }),
    {
        match &self.parent_directory {
            Some(dir) => Directive::MakeTempDir { parent: Some(dir.clone()) },
            None => Directive::MakeTempDir { parent: None },
        }
    }
}

impl Default for TempMongoBuilder {
    fn default() -> (builder: Self)
        ensures
            builder@ == BuilderView::initial(),
    {
        Self::new()
    }
}

} // verus!
