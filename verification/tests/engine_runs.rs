use cargo_restore::config::SharedOptions;
use cargo_restore::engine::{
    execute, BuildResult, Engine, FailureReason, InstallOutcome,
};
use cargo_restore::record::{InstallInfo, InstallRecord, PackageIdentity, VersionNumber};
use cargo_restore::report::{run_failed, summarize, RunSummary};

fn options(quick_fail: bool) -> SharedOptions {
    SharedOptions {
        crates_file: None,
        fix_target: false,
        install_latest: false,
        force_all: false,
        verbose: false,
        quick_fail,
    }
}

fn identity(name: &str) -> PackageIdentity {
    PackageIdentity {
        name: name.to_owned(),
        version: VersionNumber { major: 0, minor: 1, patch: 0, pre: String::new() },
        source: "registry+https://crates.example/index".to_owned(),
    }
}

fn record(name: &str) -> InstallRecord {
    InstallRecord {
        identity: identity(name),
        info: InstallInfo {
            bins: vec![name.to_owned()],
            features: Vec::new(),
            all_features: false,
            no_default_features: false,
            profile: "release".to_owned(),
            target: None,
        },
    }
}

#[test]
fn partial_failure_without_quick_fail_reports_both() {
    let work = vec![record("p1"), record("p2")];
    let target_ok = vec![true, true];
    let builds = vec![BuildResult::Built, BuildResult::BuildFailed("no space".to_owned())];
    let report = execute(&work, &options(false), &target_ok, &builds);
    assert_eq!(report.successes.len(), 1);
    assert_eq!(report.successes[0].name, "p1");
    assert_eq!(report.failures.len(), 1);
    assert_eq!(report.failures[0].identity.name, "p2");
    match &report.failures[0].reason {
        FailureReason::BuildError(m) => assert_eq!(m, "no space"),
        FailureReason::InvalidTarget(_) => panic!("expected a build error"),
    }
    assert!(run_failed(&report));
}

#[test]
fn quick_fail_stops_before_later_records() {
    let work = vec![record("p1"), record("p2")];
    let target_ok = vec![true, true];
    let builds = vec![BuildResult::BuildFailed("broken".to_owned()), BuildResult::Built];
    let report = execute(&work, &options(true), &target_ok, &builds);
    assert!(report.successes.is_empty());
    assert_eq!(report.failures.len(), 1);
    assert_eq!(report.failures[0].identity.name, "p1");
}

#[test]
fn without_quick_fail_every_record_is_attempted_once() {
    let work = vec![record("a"), record("b"), record("c")];
    let target_ok = vec![true, true, true];
    let builds = vec![
        BuildResult::BuildFailed("x".to_owned()),
        BuildResult::Built,
        BuildResult::BuildFailed("y".to_owned()),
    ];
    let report = execute(&work, &options(false), &target_ok, &builds);
    assert_eq!(report.successes.len() + report.failures.len(), work.len());
    assert_eq!(report.successes[0].name, "b");
    assert_eq!(report.failures[0].identity.name, "a");
    assert_eq!(report.failures[1].identity.name, "c");
}

#[test]
fn rejected_target_fails_the_record_without_a_build() {
    let mut bad = record("bad-target");
    bad.info.target = Some("".to_owned());
    let work = vec![bad, record("good")];
    let target_ok = vec![false, true];
    let builds = vec![BuildResult::Built, BuildResult::Built];
    let report = execute(&work, &options(false), &target_ok, &builds);
    assert_eq!(report.successes.len(), 1);
    assert_eq!(report.successes[0].name, "good");
    assert_eq!(report.failures.len(), 1);
    match &report.failures[0].reason {
        FailureReason::InvalidTarget(t) => assert_eq!(t, ""),
        FailureReason::BuildError(_) => panic!("expected a target failure"),
    }
}

#[test]
fn empty_work_list_reports_nothing_and_succeeds() {
    let work: Vec<InstallRecord> = Vec::new();
    let report = execute(&work, &options(true), &Vec::new(), &Vec::new());
    assert!(report.successes.is_empty());
    assert!(report.failures.is_empty());
    assert!(!run_failed(&report));
    assert!(matches!(summarize(0, &report), RunSummary::NothingToDo));
}

#[test]
fn summary_counts_match_the_report() {
    let work = vec![record("p1"), record("p2")];
    let target_ok = vec![true, true];
    let builds = vec![BuildResult::Built, BuildResult::BuildFailed("e".to_owned())];
    let report = execute(&work, &options(false), &target_ok, &builds);
    match summarize(work.len(), &report) {
        RunSummary::Completed { successes, failures } => {
            assert_eq!(successes, 1);
            assert_eq!(failures, 1);
        },
        RunSummary::NothingToDo => panic!("work was planned"),
    }
}

#[test]
fn engine_halts_exactly_on_quick_fail_failure() {
    let mut engine = Engine::new(true);
    assert!(engine.should_continue());
    engine.record_outcome(InstallOutcome::Success(identity("ok")));
    assert!(engine.should_continue());
    engine.record_outcome(
        InstallOutcome::Failure(identity("bad"), FailureReason::BuildError("e".to_owned())),
    );
    assert!(!engine.should_continue());
    let report = engine.finish();
    assert_eq!(report.successes.len(), 1);
    assert_eq!(report.failures.len(), 1);
}

#[test]
fn engine_without_quick_fail_keeps_going_after_a_failure() {
    let mut engine = Engine::new(false);
    engine.record_outcome(
        InstallOutcome::Failure(identity("bad"), FailureReason::BuildError("e".to_owned())),
    );
    assert!(engine.should_continue());
    engine.record_outcome(InstallOutcome::Success(identity("ok")));
    let report = engine.finish();
    assert_eq!(report.successes[0].name, "ok");
    assert_eq!(report.failures[0].identity.name, "bad");
}
