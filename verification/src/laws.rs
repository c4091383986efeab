//! What holds of every launch and of every disposal.

use vstd::prelude::*;
use crate::endpoint::Platform;
use crate::error::ErrorView;
use crate::launch::run;
use crate::launch::said;
use crate::launch::DirectiveView;
use crate::launch::LaunchView;
use crate::launch::Outcome;
use crate::launch::PhaseView;
use crate::launch::ReportView;
use crate::layout::child;
use crate::layout::db_dir;
use crate::layout::endpoint_for;
use crate::layout::socket_file;
use crate::teardown::clean_plan;
use crate::teardown::every_failure;
use crate::teardown::first_failure;
use crate::teardown::implicit_plan;
use crate::teardown::in_order;
use crate::teardown::keep_plan;
use crate::teardown::outcome_at;
use crate::teardown::StepView;
use crate::temp_mongo::BuilderView;
use crate::temp_mongo::TempMongoView;
use crate::util::kill_on_drop::ProcessView;
use crate::util::temp_dir::TempDirView;

verus! {

/// Two directories have different entries of the same name.
pub proof fn lemma_children_apart(first: Seq<char>, second: Seq<char>, name: Seq<char>)
    requires
        first != second,
    ensures
        child(first, name) != child(second, name),
{
    if child(first, name) == child(second, name) {
        assert(child(second, name).len() == second.len() + "/"@.len() + name.len());
        assert forall|i: int| 0 <= i < first.len() implies first[i] == second[i] by {
            assert(child(second, name)[i] == second[i]);
        }
        assert(first =~= second);
    }
}

/// Instances in different state directories share nothing on the
/// filesystem: not the data directory, not the log, not the socket file.
/// Where the server is reached through a socket file, their endpoints differ
/// too; where it is reached through a port, they differ as the ports do.
pub proof fn lemma_instances_apart(
    platform: Platform,
    first: TempMongoView,
    second: TempMongoView,
    first_port: u16,
    second_port: u16,
)
    requires
        first.dir.path != second.dir.path,
        first.endpoint == endpoint_for(platform, first.dir.path, first_port),
        second.endpoint == endpoint_for(platform, second.dir.path, second_port),
    ensures
        db_dir(first.dir.path) != db_dir(second.dir.path),
        first.log_path() != second.log_path(),
        socket_file(first.dir.path) != socket_file(second.dir.path),
        platform == Platform::LocalSocket || first_port != second_port ==> first.endpoint
            != second.endpoint,
{
    lemma_children_apart(first.dir.path, second.dir.path, "db"@);
    lemma_children_apart(first.dir.path, second.dir.path, "mongod.log"@);
    lemma_children_apart(first.dir.path, second.dir.path, "mongod.sock"@);
}

/// Every plan goes in the one order: the client is shut down before the
/// process is stopped, and the process is stopped before anything happens to
/// the state directory.
pub proof fn lemma_plans_in_order(client: bool, server: Option<ProcessView>, dir: TempDirView)
    ensures
        in_order(implicit_plan(client, server, dir)),
        match server {
            Some(process) => in_order(clean_plan(process, dir)) && in_order(
                keep_plan(process, dir),
            ),
            None => true,
        },
{
}

/// No two steps of the plan stop a process.
pub open spec fn stops_once(steps: Seq<StepView>) -> bool {
    forall|i: int, j: int|
        0 <= i < steps.len() && 0 <= j < steps.len() && steps[i] is Terminate && steps[j]
            is Terminate ==> i == j
}

/// However an instance ends, a process that still runs is stopped, and
/// stopped once: each of the three plans holds the step that stops it, and
/// holds no second one.
pub proof fn lemma_process_is_stopped(client: bool, server: ProcessView, dir: TempDirView)
    requires
        server.alive,
    ensures
        clean_plan(server, dir).contains(StepView::Terminate { pid: server.pid }),
        keep_plan(server, dir).contains(StepView::Terminate { pid: server.pid }),
        implicit_plan(client, Some(server), dir).contains(StepView::Terminate { pid: server.pid }),
        stops_once(clean_plan(server, dir)),
        stops_once(keep_plan(server, dir)),
        stops_once(implicit_plan(client, Some(server), dir)),
{
    let at = if client {
        1int
    } else {
        0int
    };
    assert(clean_plan(server, dir)[1] == StepView::Terminate { pid: server.pid });
    assert(keep_plan(server, dir)[1] == StepView::Terminate { pid: server.pid });
    assert(implicit_plan(client, Some(server), dir)[at] == StepView::Terminate {
        pid: server.pid,
    });
}

/// Where a client was made, letting go without a word shuts it down first.
pub proof fn lemma_client_goes_first(server: Option<ProcessView>, dir: TempDirView)
    ensures
        implicit_plan(true, server, dir).first() == StepView::ShutdownClient,
        forall|i: int|
            0 <= i < implicit_plan(false, server, dir).len() ==> !(#[trigger] implicit_plan(
                false,
                server,
                dir,
            )[i] is ShutdownClient),
{
}

/// Stopping a process twice is stopping it once: after the first order
/// there is no step left to hand out, and the process is as it was after the
/// first.
pub proof fn lemma_stop_twice(server: ProcessView)
    ensures
        server.stopped().stop() == Seq::<StepView>::empty(),
        server.stopped().stopped() == server.stopped(),
{
}

/// The verdict on a plan is the error of its first step that failed with
/// something to report, and success where there is no such step.
pub proof fn lemma_first_failure(
    steps: Seq<StepView>,
    failures: Seq<Option<Seq<char>>>,
    from: int,
)
    requires
        0 <= from,
    ensures
        match first_failure(steps, failures, from) {
            Some(error) => exists|i: int|
                from <= i < steps.len() && #[trigger] steps[i].blame(outcome_at(failures, i))
                    == Some(error) && forall|j: int|
                    from <= j < i ==> #[trigger] steps[j].blame(outcome_at(failures, j)) is None,
            None => forall|i: int|
                from <= i < steps.len() ==> #[trigger] steps[i].blame(outcome_at(failures, i))
                    is None,
        },
    decreases steps.len() - from,
{
    if from < steps.len() {
        lemma_first_failure(steps, failures, from + 1);
    }
}

/// Among the first `upto` steps, the errors to report begin with that of the
/// first step that failed with one, and there are none where no step did.
pub proof fn lemma_every_failure(
    steps: Seq<StepView>,
    failures: Seq<Option<Seq<char>>>,
    upto: int,
)
    ensures
        every_failure(steps, failures, upto).len() == 0 <==> forall|i: int|
            0 <= i < upto && i < steps.len() ==> #[trigger] steps[i].blame(
                outcome_at(failures, i),
            ) is None,
        forall|i: int|
            0 <= i < upto && i < steps.len() && #[trigger] steps[i].blame(
                outcome_at(failures, i),
            ) is Some && (forall|j: int|
                0 <= j < i ==> #[trigger] steps[j].blame(outcome_at(failures, j)) is None)
                ==> every_failure(steps, failures, upto).len() > 0 && Some(
                every_failure(steps, failures, upto)[0],
            ) == steps[i].blame(outcome_at(failures, i)),
    decreases upto,
{
    if upto > 0 {
        lemma_every_failure(steps, failures, upto - 1);
    }
}

/// What an explicit disposal returns is the first of all its errors, and
/// success where it has none.
pub proof fn lemma_verdict_is_first_error(
    steps: Seq<StepView>,
    failures: Seq<Option<Seq<char>>>,
)
    ensures
        first_failure(steps, failures, 0) == if every_failure(
            steps,
            failures,
            steps.len() as int,
        ).len() > 0 {
            Some(every_failure(steps, failures, steps.len() as int)[0])
        } else {
            None
        },
{
    lemma_first_failure(steps, failures, 0);
    lemma_every_failure(steps, failures, steps.len() as int);
}

/// An explicit disposal does not ask what the state directory says of
/// cleaning on drop: the plan that cleans and the plan that keeps are the
/// same for a directory that cleans on drop and for one that does not.
pub proof fn lemma_explicit_disposal_ignores_mode(
    server: ProcessView,
    path: Seq<char>,
    first: bool,
    second: bool,
)
    ensures
        clean_plan(server, TempDirView { path, clean_on_drop: first }) == clean_plan(
            server,
            TempDirView { path, clean_on_drop: second },
        ),
        keep_plan(server, TempDirView { path, clean_on_drop: first }) == keep_plan(
            server,
            TempDirView { path, clean_on_drop: second },
        ),
{
}

/// An explicit disposal that cleans tells of the process before it tells of
/// the directory. What it returns is the failure to stop the process
/// wherever that step failed, whatever became of the directory; else the
/// failure to remove the directory where that step failed; else success. A
/// step of which the driver said nothing has failed.
pub proof fn lemma_clean_verdict(
    server: ProcessView,
    dir: TempDirView,
    failures: Seq<Option<Seq<char>>>,
)
    ensures
        match first_failure(clean_plan(server, dir), failures, 0) {
            Some(ErrorView::KillServer(cause)) => exists|i: int|
                0 <= i < clean_plan(server, dir).len() && #[trigger] clean_plan(server, dir)[i]
                    is Terminate && outcome_at(failures, i) == Some(cause),
            Some(ErrorView::CleanDir(path, cause)) => path == dir.path && outcome_at(
                failures,
                clean_plan(server, dir).len() - 1,
            ) == Some(cause) && forall|i: int|
                0 <= i < clean_plan(server, dir).len() && #[trigger] clean_plan(server, dir)[i]
                    is Terminate ==> outcome_at(failures, i) is None,
            Some(_) => false,
            None => forall|i: int|
                0 <= i < clean_plan(server, dir).len() && (#[trigger] clean_plan(server, dir)[i]
                    is Terminate || clean_plan(server, dir)[i] is RemoveDir) ==> outcome_at(
                    failures,
                    i,
                ) is None,
        },
{
    let plan = clean_plan(server, dir);
    lemma_first_failure(plan, failures, 0);
    assert forall|i: int|
        0 <= i < plan.len() && (#[trigger] plan[i] is Terminate || plan[i] is RemoveDir)
            && plan[i].blame(outcome_at(failures, i)) is None implies outcome_at(failures, i)
        is None by {}
}

/// An explicit disposal that cleans and reports success has removed the
/// state directory, whatever the directory said of cleaning on drop: the
/// last step of the plan removes it, and success means that the driver gave
/// the outcome of that step, and that the step went well.
pub proof fn lemma_clean_success_removes(
    server: ProcessView,
    dir: TempDirView,
    failures: Seq<Option<Seq<char>>>,
)
    requires
        first_failure(clean_plan(server, dir), failures, 0) is None,
    ensures
        clean_plan(server, dir).last() == (StepView::RemoveDir { path: dir.path }),
        failures.len() >= clean_plan(server, dir).len(),
        failures[clean_plan(server, dir).len() - 1] is None,
        server.alive ==> failures[1] is None,
{
    let plan = clean_plan(server, dir);
    lemma_first_failure(plan, failures, 0);
    assert(plan[plan.len() - 1].blame(outcome_at(failures, plan.len() - 1)) is None);
    if server.alive {
        assert(plan[1].blame(outcome_at(failures, 1)) is None);
    }
}

/// An explicit disposal that keeps the state never removes the state
/// directory, whatever the directory said of cleaning on drop: no step of
/// the plan removes anything, its last step leaves the directory for good,
/// and the only error that it can tell of is that of stopping the process.
pub proof fn lemma_keep_preserves(
    server: ProcessView,
    dir: TempDirView,
    failures: Seq<Option<Seq<char>>>,
)
    ensures
        forall|i: int|
            0 <= i < keep_plan(server, dir).len() ==> !(#[trigger] keep_plan(server, dir)[i]
                is RemoveDir),
        keep_plan(server, dir).last() == (StepView::KeepDir { path: dir.path }),
        match first_failure(keep_plan(server, dir), failures, 0) {
            Some(error) => error is KillServer,
            None => true,
        },
{
    lemma_first_failure(keep_plan(server, dir), failures, 0);
}

/// A launch hands out an instance only on the report that the server has
/// answered, given while the launch waited for just that; and the instance
/// is made of what the launch held then.
pub proof fn lemma_ready_follows_probe(launch: LaunchView, report: ReportView)
    ensures
        match launch.step(report).1 {
            DirectiveView::Ready(mongo) => {
                &&& report == ReportView::Probe(Outcome::Done)
                &&& launch.pending() == DirectiveView::Probe
                &&& match launch.phase {
                    PhaseView::Probing { dir, endpoint, server } => mongo == (TempMongoView {
                        dir,
                        endpoint,
                        server,
                    }),
                    _ => false,
                }
            },
            _ => true,
        },
{
}

/// A launch ends once, with an instance or with an error, and is over from
/// then on: it is over after a step exactly if it was over before or the
/// step said `Ready` or `Abort`; and a launch that is over says `Idle` to
/// every report and stays as it is.
pub proof fn lemma_launch_ends_once(launch: LaunchView, report: ReportView)
    ensures
        launch.step(report).0.phase is Over <==> launch.phase is Over || launch.step(report).1
            is Ready || launch.step(report).1 is Abort,
        launch.phase is Over ==> launch.step(report) == (launch, DirectiveView::Idle),
        !(launch.phase is Over) ==> !(launch.step(report).1 is Idle),
{
}

/// A launch that fails leaves nothing behind: the plan that goes out with
/// the error takes down all that the launch had made. Without a state
/// directory there is nothing to take down; with one, the plan is that of
/// letting go of the directory and of the server, if one runs, without a
/// word. So the plan is in order, it begins with the client where one was
/// made, it stops a server that runs, and it ends with what the directory
/// says of itself.
pub proof fn lemma_abort_takes_all_down(launch: LaunchView, report: ReportView)
    ensures
        match launch.step(report).1 {
            DirectiveView::Abort { teardown, error } => {
                &&& in_order(teardown)
                &&& match launch.phase.dir() {
                    Some(dir) => teardown == implicit_plan(
                        launch.phase.client(),
                        launch.phase.server(),
                        dir,
                    ) && teardown.last() == dir.dispose(),
                    None => teardown == Seq::<StepView>::empty(),
                }
                &&& match launch.phase.server() {
                    Some(server) => server.alive ==> teardown.contains(
                        StepView::Terminate { pid: server.pid },
                    ),
                    None => true,
                }
                &&& launch.phase.client() ==> teardown.first() == StepView::ShutdownClient
            },
            _ => true,
        },
{
    if let DirectiveView::Abort { teardown, error } = launch.step(report).1 {
        if let Some(dir) = launch.phase.dir() {
            lemma_plans_in_order(launch.phase.client(), launch.phase.server(), dir);
            if let Some(server) = launch.phase.server() {
                if server.alive {
                    lemma_process_is_stopped(launch.phase.client(), server, dir);
                }
            }
        }
    }
}

/// What a launch holds comes from its configuration and from the reports.
/// The state directory is one that was reported as created, and it cleans
/// on drop as the builder says; past the making of the data directory, that
/// was reported as created too. The server is one that was reported as
/// started, and it runs. The endpoint is the socket file of the directory,
/// or `localhost` with a port that was reported. The launch waits for the
/// server's answer only after the report that the client was made.
pub open spec fn grounded(
    builder: BuilderView,
    platform: Platform,
    reports: Seq<ReportView>,
    launch: LaunchView,
) -> bool {
    &&& launch.platform == platform
    &&& launch.command == builder.command_name()
    &&& match launch.phase {
        PhaseView::MakingTempDir { parent, clean_on_drop } => parent == builder.parent_directory
            && clean_on_drop == builder.clean_on_drop,
        PhaseView::Probing { dir, endpoint, server } => reports.contains(
            ReportView::Connect(Outcome::Done),
        ),
        _ => true,
    }
    &&& match launch.phase.dir() {
        Some(dir) => dir.clean_on_drop == builder.clean_on_drop && reports.contains(
            ReportView::TempDir(Ok(dir.path)),
        ) && (launch.phase is MakingDbDir || reports.contains(ReportView::DbDir(Outcome::Done))),
        None => true,
    }
    &&& match launch.phase.server() {
        Some(server) => server.alive && reports.contains(ReportView::Spawn(Ok(server.pid))),
        None => true,
    }
    &&& match (launch.phase.endpoint(), launch.phase.dir()) {
        (Some(endpoint), Some(dir)) => match platform {
            Platform::LocalSocket => endpoint == endpoint_for(platform, dir.path, 0),
            Platform::Loopback => exists|port: u16|
                endpoint == endpoint_for(platform, dir.path, port) && #[trigger] reports.contains(
                    ReportView::Port(Some(port)),
                ),
        },
        _ => true,
    }
}

/// A longer list of reports holds the last report, and all that the list
/// without it held.
proof fn lemma_contains_grows(reports: Seq<ReportView>, report: ReportView)
    requires
        reports.len() > 0,
    ensures
        reports.contains(reports.last()),
        reports.drop_last().contains(report) ==> reports.contains(report),
{
}

/// Whatever the driver reports, in whatever order, a launch holds only what
/// its configuration and the reports gave it.
pub proof fn lemma_run_is_grounded(
    builder: BuilderView,
    platform: Platform,
    reports: Seq<ReportView>,
)
    ensures
        grounded(builder, platform, reports, run(builder.launch(platform), reports)),
    decreases reports.len(),
{
    if reports.len() > 0 {
        let earlier = reports.drop_last();
        lemma_run_is_grounded(builder, platform, earlier);
        lemma_contains_grows(reports, reports.last());
        assert forall|known: ReportView| earlier.contains(known) implies reports.contains(
            known,
        ) by {
            lemma_contains_grows(reports, known);
        }
    }
}

/// A launch never hands out an instance before the server has answered.
/// Whatever the driver reports, in whatever order: where the directive after
/// the last report is `Ready`, that report says that the server has
/// answered; the client was reported as made before; the instance sits in a
/// directory that was reported as created, with its data directory; it cleans
/// on drop as the builder says; its server runs and is one that was reported
/// as started; and it listens on the socket file of its directory where the
/// platform has local-domain sockets, else on `localhost` with a port that
/// was reported.
pub proof fn lemma_ready_is_earned(
    builder: BuilderView,
    platform: Platform,
    reports: Seq<ReportView>,
)
    requires
        said(builder.launch(platform), reports) is Ready,
    ensures
        reports.len() > 0,
        reports.last() == ReportView::Probe(Outcome::Done),
        reports.contains(ReportView::Connect(Outcome::Done)),
        match said(builder.launch(platform), reports) {
            DirectiveView::Ready(mongo) => {
                &&& reports.contains(ReportView::TempDir(Ok(mongo.dir.path)))
                &&& reports.contains(ReportView::DbDir(Outcome::Done))
                &&& reports.contains(ReportView::Spawn(Ok(mongo.server.pid)))
                &&& mongo.server.alive
                &&& mongo.dir.clean_on_drop == builder.clean_on_drop
                &&& match platform {
                    Platform::LocalSocket => mongo.endpoint == endpoint_for(
                        platform,
                        mongo.dir.path,
                        0,
                    ),
                    Platform::Loopback => exists|port: u16|
                        mongo.endpoint == endpoint_for(platform, mongo.dir.path, port)
                            && #[trigger] reports.contains(ReportView::Port(Some(port))),
                }
            },
            _ => false,
        },
{
    if reports.len() > 0 {
        let earlier = reports.drop_last();
        lemma_run_is_grounded(builder, platform, earlier);
        lemma_ready_follows_probe(run(builder.launch(platform), earlier), reports.last());
        assert forall|known: ReportView| earlier.contains(known) implies reports.contains(
            known,
        ) by {
            lemma_contains_grows(reports, known);
        }
    }
}

/// Two launches that the driver gave different directories hand out
/// instances that share nothing. Whatever else was reported to them: their
/// state directories differ, and so do their data directories and their
/// logs. Over socket files their endpoints differ; over loopback ports their
/// endpoints differ where no port was reported to both.
pub proof fn lemma_launches_apart(
    platform: Platform,
    first_builder: BuilderView,
    first_reports: Seq<ReportView>,
    second_builder: BuilderView,
    second_reports: Seq<ReportView>,
)
    requires
        said(first_builder.launch(platform), first_reports) is Ready,
        said(second_builder.launch(platform), second_reports) is Ready,
        forall|path: Seq<char>|
            !(#[trigger] first_reports.contains(ReportView::TempDir(Ok(path)))
                && second_reports.contains(ReportView::TempDir(Ok(path)))),
    ensures
        match (
            said(first_builder.launch(platform), first_reports),
            said(second_builder.launch(platform), second_reports),
        ) {
            (DirectiveView::Ready(first), DirectiveView::Ready(second)) => {
                &&& first.dir.path != second.dir.path
                &&& db_dir(first.dir.path) != db_dir(second.dir.path)
                &&& first.log_path() != second.log_path()
                &&& platform == Platform::LocalSocket ==> first.endpoint != second.endpoint
                &&& (forall|port: u16|
                    !(#[trigger] first_reports.contains(ReportView::Port(Some(port)))
                        && second_reports.contains(ReportView::Port(Some(port)))))
                    ==> first.endpoint != second.endpoint
            },
            _ => false,
        },
{
    lemma_ready_is_earned(first_builder, platform, first_reports);
    lemma_ready_is_earned(second_builder, platform, second_reports);
    let first = said(first_builder.launch(platform), first_reports)->Ready_0;
    let second = said(second_builder.launch(platform), second_reports)->Ready_0;
    match platform {
        Platform::LocalSocket => {
            lemma_instances_apart(platform, first, second, 0, 0);
        },
        Platform::Loopback => {
            let first_port = choose|port: u16|
                first.endpoint == endpoint_for(platform, first.dir.path, port)
                    && #[trigger] first_reports.contains(ReportView::Port(Some(port)));
            let second_port = choose|port: u16|
                second.endpoint == endpoint_for(platform, second.dir.path, port)
                    && #[trigger] second_reports.contains(ReportView::Port(Some(port)));
            lemma_instances_apart(platform, first, second, first_port, second_port);
        },
    }
}

} // verus!
