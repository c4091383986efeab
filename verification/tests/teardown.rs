use temp_mongo::teardown::SETTLE_MILLIS;
use temp_mongo::Directive;
use temp_mongo::ErrorInner;
use temp_mongo::Platform;
use temp_mongo::Report;
use temp_mongo::Step;
use temp_mongo::Teardown;
use temp_mongo::TempMongo;
use temp_mongo::TempMongoBuilder;
use temp_mongo::util::KillOnDrop;
use temp_mongo::util::TempDir;

fn text(s: &str) -> String {
    s.to_string()
}

fn instance(builder: TempMongoBuilder, dir: &str, pid: u32) -> TempMongo {
    let (launch, _) = builder.spawn(Platform::LocalSocket);
    let (launch, _) = launch.step(Report::TempDir(Ok(text(dir))));
    let (launch, _) = launch.step(Report::DbDir(Ok(())));
    let (launch, _) = launch.step(Report::Spawn(Ok(pid)));
    let (launch, _) = launch.step(Report::Connect(Ok(())));
    match launch.step(Report::Probe(Ok(()))).1 {
        Directive::Ready(mongo) => mongo,
        other => panic!("expected Ready, got {:?}", other),
    }
}

#[test]
fn kill_and_clean_removes_the_directory_even_where_cleaning_is_off() {
    let mongo = instance(TempMongoBuilder::new().clean_on_drop(false), "/tmp/d", 8);
    let plan = mongo.kill_and_clean();
    assert_eq!(
        plan.steps(),
        &vec![
            Step::ShutdownClient,
            Step::Terminate { pid: 8 },
            Step::Settle { millis: SETTLE_MILLIS },
            Step::RemoveDir { path: text("/tmp/d") },
        ]
    );
    assert_eq!(SETTLE_MILLIS, 50);
    assert_eq!(plan.retained(), None);
}

#[test]
fn kill_no_clean_keeps_the_directory_even_where_cleaning_is_on() {
    let mongo = instance(TempMongoBuilder::new(), "/tmp/d", 8);
    let plan = mongo.kill_no_clean();
    assert_eq!(
        plan.steps(),
        &vec![
            Step::ShutdownClient,
            Step::Terminate { pid: 8 },
            Step::KeepDir { path: text("/tmp/d") },
        ]
    );
    assert_eq!(plan.retained(), Some(&text("/tmp/d")));
    assert_eq!(plan.conclude(&vec![None, None, None]), Ok(()));
}

#[test]
fn kill_no_clean_tells_of_a_failure_to_kill() {
    let mongo = instance(TempMongoBuilder::new(), "/tmp/d", 8);
    let plan = mongo.kill_no_clean();
    let result = plan.conclude(&vec![None, Some(text("not permitted")), Some(text("ignored"))]);
    assert_eq!(result.unwrap_err().inner(), &ErrorInner::KillServer(text("not permitted")));
}

#[test]
fn abandoning_cleans_by_default() {
    let mongo = instance(TempMongoBuilder::new(), "/tmp/d", 8);
    let plan = mongo.abandon();
    assert_eq!(
        plan.steps(),
        &vec![
            Step::ShutdownClient,
            Step::Terminate { pid: 8 },
            Step::RemoveDir { path: text("/tmp/d") },
        ]
    );
}

#[test]
fn abandoning_keeps_the_directory_where_cleaning_was_switched_off() {
    let mut mongo = instance(TempMongoBuilder::new(), "/tmp/d", 8);
    mongo.set_clean_on_drop(false);
    assert_eq!(mongo.directory(), "/tmp/d");
    let plan = mongo.abandon();
    assert_eq!(
        plan.steps(),
        &vec![
            Step::ShutdownClient,
            Step::Terminate { pid: 8 },
            Step::KeepDir { path: text("/tmp/d") },
        ]
    );
}

#[test]
fn cleaning_can_be_switched_back_on() {
    let mut mongo = instance(TempMongoBuilder::new().clean_on_drop(false), "/tmp/d", 8);
    mongo.set_clean_on_drop(true);
    let plan = mongo.abandon();
    assert_eq!(
        plan.steps(),
        &vec![
            Step::ShutdownClient,
            Step::Terminate { pid: 8 },
            Step::RemoveDir { path: text("/tmp/d") },
        ]
    );
}

#[test]
fn a_failure_to_kill_comes_before_a_failure_to_clean() {
    let mongo = instance(TempMongoBuilder::new(), "/tmp/d", 8);
    let plan = mongo.kill_and_clean();
    let both = vec![None, Some(text("no such process")), None, Some(text("busy"))];
    assert_eq!(
        plan.conclude(&both).unwrap_err().inner(),
        &ErrorInner::KillServer(text("no such process"))
    );
    let only_clean = vec![None, None, None, Some(text("busy"))];
    assert_eq!(
        plan.conclude(&only_clean).unwrap_err().inner(),
        &ErrorInner::CleanDir(text("/tmp/d"), text("busy"))
    );
    let only_kill = vec![None, Some(text("no such process")), None, None];
    assert_eq!(
        plan.conclude(&only_kill).unwrap_err().inner(),
        &ErrorInner::KillServer(text("no such process"))
    );
    assert_eq!(plan.conclude(&vec![None, None, None, None]), Ok(()));
}

#[test]
fn steps_that_cannot_fail_are_never_blamed() {
    let mongo = instance(TempMongoBuilder::new(), "/tmp/d", 8);
    let plan = mongo.kill_and_clean();
    let odd = vec![Some(text("client")), None, Some(text("pause")), None];
    assert_eq!(plan.conclude(&odd), Ok(()));
}

#[test]
fn a_step_without_an_outcome_has_failed() {
    let missing = text("no outcome was reported");
    let mongo = instance(TempMongoBuilder::new(), "/tmp/d", 8);
    let plan = mongo.kill_and_clean();
    assert_eq!(
        plan.conclude(&Vec::new()).unwrap_err().inner(),
        &ErrorInner::KillServer(missing.clone())
    );
    assert_eq!(
        plan.conclude(&vec![None]).unwrap_err().inner(),
        &ErrorInner::KillServer(missing.clone())
    );
    assert_eq!(
        plan.conclude(&vec![None, None]).unwrap_err().inner(),
        &ErrorInner::CleanDir(text("/tmp/d"), missing.clone())
    );
    assert_eq!(
        plan.conclude(&vec![None, None, None]).unwrap_err().inner(),
        &ErrorInner::CleanDir(text("/tmp/d"), missing.clone())
    );
    assert_eq!(plan.conclude(&vec![None, None, None, None]), Ok(()));

    let errors = plan.errors(&Vec::new());
    assert_eq!(errors.len(), 2);
    assert_eq!(errors[0].inner(), &ErrorInner::KillServer(missing.clone()));
    assert_eq!(errors[1].inner(), &ErrorInner::CleanDir(text("/tmp/d"), missing.clone()));
    let errors = plan.errors(&vec![None, Some(text("gone"))]);
    assert_eq!(errors.len(), 2);
    assert_eq!(errors[0].inner(), &ErrorInner::KillServer(text("gone")));
    assert_eq!(errors[1].inner(), &ErrorInner::CleanDir(text("/tmp/d"), missing));
}

#[test]
fn outcomes_beyond_the_plan_say_nothing() {
    let mongo = instance(TempMongoBuilder::new(), "/tmp/d", 8);
    let plan = mongo.kill_and_clean();
    let long = vec![None, None, None, None, Some(text("beyond the plan"))];
    assert_eq!(plan.conclude(&long), Ok(()));
    assert!(plan.errors(&long).is_empty());
}

#[test]
fn keeping_the_state_asks_only_for_the_outcome_of_the_kill() {
    let mongo = instance(TempMongoBuilder::new(), "/tmp/d", 8);
    let plan = mongo.kill_no_clean();
    assert_eq!(plan.conclude(&vec![None, None]), Ok(()));
    assert_eq!(
        plan.conclude(&vec![None]).unwrap_err().inner(),
        &ErrorInner::KillServer(text("no outcome was reported"))
    );
}

#[test]
fn the_plan_of_nothing_is_empty() {
    let plan = Teardown::nothing();
    assert!(plan.steps().is_empty());
    assert_eq!(plan.retained(), None);
    assert_eq!(plan.conclude(&vec![Some(text("x"))]), Ok(()));
}

#[test]
fn plans_from_parts() {
    let plan = Teardown::clean(KillOnDrop::new(3), TempDir::new(text("/t"), false));
    assert_eq!(plan.steps().len(), 4);
    let plan = Teardown::keep(KillOnDrop::new(3), TempDir::new(text("/t"), true));
    assert_eq!(plan.steps().last(), Some(&Step::KeepDir { path: text("/t") }));
    let plan = Teardown::implicit(false, None, TempDir::new(text("/t"), true));
    assert_eq!(plan.steps(), &vec![Step::RemoveDir { path: text("/t") }]);
    let plan = Teardown::implicit(false, Some(KillOnDrop::new(3)), TempDir::new(text("/t"), false));
    assert_eq!(plan.steps(), &vec![Step::Terminate { pid: 3 }, Step::KeepDir { path: text("/t") }]);
    let plan = Teardown::implicit(true, Some(KillOnDrop::new(3)), TempDir::new(text("/t"), true));
    assert_eq!(
        plan.steps(),
        &vec![
            Step::ShutdownClient,
            Step::Terminate { pid: 3 },
            Step::RemoveDir { path: text("/t") },
        ]
    );
    let plan = Teardown::implicit(true, None, TempDir::new(text("/t"), false));
    assert_eq!(plan.steps(), &vec![Step::ShutdownClient, Step::KeepDir { path: text("/t") }]);
}

#[test]
fn a_process_that_was_killed_is_not_killed_again() {
    let mut server = KillOnDrop::new(12);
    assert_eq!(server.kill(), Some(Step::Terminate { pid: 12 }));
    let plan = Teardown::clean(server, TempDir::new(text("/t"), true));
    assert_eq!(
        plan.steps(),
        &vec![
            Step::ShutdownClient,
            Step::Settle { millis: 50 },
            Step::RemoveDir { path: text("/t") },
        ]
    );
}

#[test]
fn killing_twice_is_killing_once() {
    let mut server = KillOnDrop::new(12);
    assert_eq!(server.id(), 12);
    assert!(server.is_alive());
    assert_eq!(server.kill(), Some(Step::Terminate { pid: 12 }));
    assert!(!server.is_alive());
    assert_eq!(server.kill(), None);
    assert_eq!(server.kill(), None);
    assert!(!server.is_alive());
    assert_eq!(server.id(), 12);
}

#[test]
fn a_directory_goes_the_way_it_is_told() {
    let dir = TempDir::new(text("/tmp/z"), true);
    assert_eq!(dir.path(), "/tmp/z");
    assert!(dir.clean_on_drop());
    assert_eq!(dir.close(), Step::RemoveDir { path: text("/tmp/z") });

    let dir = TempDir::new(text("/tmp/z"), true);
    assert_eq!(dir.into_path(), Step::KeepDir { path: text("/tmp/z") });

    let dir = TempDir::new(text("/tmp/z"), true);
    assert_eq!(dir.dispose(), Step::RemoveDir { path: text("/tmp/z") });

    let mut dir = TempDir::new(text("/tmp/z"), true);
    dir.set_clean_on_drop(false);
    assert!(!dir.clean_on_drop());
    assert_eq!(dir.path(), "/tmp/z");
    assert_eq!(dir.dispose(), Step::KeepDir { path: text("/tmp/z") });

    let dir = TempDir::new(text("/tmp/z"), false);
    assert_eq!(dir.close(), Step::RemoveDir { path: text("/tmp/z") });
}

#[test]
fn every_failure_of_a_disposal_can_be_told() {
    let mongo = instance(TempMongoBuilder::new(), "/tmp/d", 8);
    let plan = mongo.kill_and_clean();
    let both = vec![None, Some(text("no such process")), None, Some(text("busy"))];
    let errors = plan.errors(&both);
    assert_eq!(errors.len(), 2);
    assert_eq!(errors[0].inner(), &ErrorInner::KillServer(text("no such process")));
    assert_eq!(errors[1].inner(), &ErrorInner::CleanDir(text("/tmp/d"), text("busy")));
    assert_eq!(plan.conclude(&both).unwrap_err(), errors[0]);

    let only_clean = vec![None, None, None, Some(text("busy"))];
    let errors = plan.errors(&only_clean);
    assert_eq!(errors.len(), 1);
    assert_eq!(errors[0].inner(), &ErrorInner::CleanDir(text("/tmp/d"), text("busy")));

    assert!(plan.errors(&vec![None, None, None, None]).is_empty());
    assert!(plan.errors(&vec![Some(text("client")), None, Some(text("pause")), None]).is_empty());
}
