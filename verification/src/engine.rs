//! The execution and aggregation engine: drives the planned records through
//! request building and the external package builder, collects one outcome
//! per attempted record, and stops at the first failure when the fail-fast
//! policy asks for it.
//!
//! The builder itself is outside this library: what it answered for a
//! record enters as a [`BuildResult`], and everything the engine decides
//! from those answers is verified for every possible sequence of them.

use vstd::prelude::*;

use crate::config::SharedOptions;
use crate::record::{InstallRecord, PackageIdentity};
use crate::request::{build_request_checked, target_rejected};

verus! {

/// What the external package builder reported for one build request.
#[derive(Debug)]
pub enum BuildResult {
    Built,
    /// The builder's error, rendered; its internals are not inspected.
    BuildFailed(String),
}

/// Why a record failed, kept as data rather than re-derived later.
#[derive(Debug)]
pub enum FailureReason {
    /// The recorded target triple was rejected on this machine.
    InvalidTarget(String),
    /// The package builder failed to resolve, compile or install.
    BuildError(String),
}

/// One failed record: who failed and why.
#[derive(Debug)]
pub struct FailureDetail {
    pub identity: PackageIdentity,
    pub reason: FailureReason,
}

/// The outcome of one attempted record.
#[derive(Debug)]
pub enum InstallOutcome {
    Success(PackageIdentity),
    Failure(PackageIdentity, FailureReason),
}

/// The aggregated outcomes of a run, each list in processing order.
#[derive(Debug)]
pub struct RestoreReport {
    pub successes: Vec<PackageIdentity>,
    pub failures: Vec<FailureDetail>,
}

/// The mathematical shape of a report: the two outcome lists.
#[verifier::ext_equal]
pub struct ReportModel {
    pub successes: Seq<PackageIdentity>,
    pub failures: Seq<FailureDetail>,
}

impl View for RestoreReport {
    type V = ReportModel;

    open spec fn view(&self) -> ReportModel {
        ReportModel { successes: self.successes@, failures: self.failures@ }
    }
}

/// The model with the given outcome lists.
pub open spec fn model_of(
    successes: Seq<PackageIdentity>,
    failures: Seq<FailureDetail>,
) -> ReportModel {
    ReportModel { successes, failures }
}

/// Two partial reports, one after the other.
pub open spec fn model_concat(a: ReportModel, b: ReportModel) -> ReportModel {
    ReportModel { successes: a.successes + b.successes, failures: a.failures + b.failures }
}

/// The outcome of one record, given the validation verdict for its target
/// and the builder's answer: a target rejection fails the record without a
/// build; otherwise the builder's answer decides.
pub open spec fn outcome_model(
    record: InstallRecord,
    policy: SharedOptions,
    tv: bool,
    b: BuildResult,
) -> InstallOutcome {
    if target_rejected(record, policy, tv) {
        InstallOutcome::Failure(
            record.identity,
            FailureReason::InvalidTarget(record.info.target.unwrap()),
        )
    } else {
        match b {
            BuildResult::Built => InstallOutcome::Success(record.identity),
            BuildResult::BuildFailed(m) => InstallOutcome::Failure(
                record.identity,
                FailureReason::BuildError(m),
            ),
        }
    }
}

/// Whether the record at position `i` of the work list fails.
pub open spec fn fails_at(
    work: Seq<InstallRecord>,
    policy: SharedOptions,
    target_ok: Seq<bool>,
    builds: Seq<BuildResult>,
    i: int,
) -> bool {
    outcome_model(work[i], policy, target_ok[i], builds[i]) is Failure
}

/// The report of a whole run: records are processed in order, each outcome
/// is appended to its list, and under `quick_fail` the run ends with the
/// first failing record, leaving the rest unattempted.
pub open spec fn run_model(
    work: Seq<InstallRecord>,
    policy: SharedOptions,
    target_ok: Seq<bool>,
    builds: Seq<BuildResult>,
) -> ReportModel
    decreases work.len(),
{
    if work.len() == 0 {
        model_of(Seq::empty(), Seq::empty())
    } else {
        match outcome_model(work[0], policy, target_ok[0], builds[0]) {
            InstallOutcome::Success(id) => {
                let rest = run_model(
                    work.drop_first(),
                    policy,
                    target_ok.drop_first(),
                    builds.drop_first(),
                );
                model_of(seq![id] + rest.successes, rest.failures)
            },
            InstallOutcome::Failure(id, reason) => {
                let f = FailureDetail { identity: id, reason };
                if policy.quick_fail {
                    model_of(Seq::empty(), seq![f])
                } else {
                    let rest = run_model(
                        work.drop_first(),
                        policy,
                        target_ok.drop_first(),
                        builds.drop_first(),
                    );
                    model_of(rest.successes, seq![f] + rest.failures)
                }
            },
        }
    }
}

/// Runs the whole work list against the given builder answers: for each
/// record in order, builds the request, fails the record on a target
/// rejection without consulting the builder, otherwise takes the builder's
/// answer, and stops early exactly when `quick_fail` meets a failure.
pub fn execute(
    work: &Vec<InstallRecord>,
    policy: &SharedOptions,
    target_ok: &Vec<bool>,
    builds: &Vec<BuildResult>,
) -> (r: RestoreReport)
    requires
        target_ok@.len() == work@.len(),
        builds@.len() == work@.len(),
    ensures
        r@ == run_model(work@, *policy, target_ok@, builds@),
{
    let ghost full = run_model(work@, *policy, target_ok@, builds@);
    let mut successes: Vec<PackageIdentity> = Vec::new();
    let mut failures: Vec<FailureDetail> = Vec::new();
    let mut halted: bool = false;
    let mut i: usize = 0;
    proof {
        assert(work@.skip(0) =~= work@);
        assert(target_ok@.skip(0) =~= target_ok@);
        assert(builds@.skip(0) =~= builds@);
        assert(full =~= model_concat(
            model_of(successes@, failures@),
            run_model(work@, *policy, target_ok@, builds@),
        ));
    }
    while i < work.len() && !halted
        invariant
            i <= work@.len(),
            target_ok@.len() == work@.len(),
            builds@.len() == work@.len(),
            halted ==> full == model_of(successes@, failures@),
            !halted ==> full == model_concat(
                model_of(successes@, failures@),
                run_model(
                    work@.skip(i as int),
                    *policy,
                    target_ok@.skip(i as int),
                    builds@.skip(i as int),
                ),
            ),
        decreases work@.len() - i,
    {
        let ghost tail = work@.skip(i as int);
        let ghost tail_tv = target_ok@.skip(i as int);
        let ghost tail_b = builds@.skip(i as int);
        proof {
            assert(tail[0] == work@[i as int]);
            assert(tail_tv[0] == target_ok@[i as int]);
            assert(tail_b[0] == builds@[i as int]);
            assert(tail.drop_first() =~= work@.skip(i as int + 1));
            assert(tail_tv.drop_first() =~= target_ok@.skip(i as int + 1));
            assert(tail_b.drop_first() =~= builds@.skip(i as int + 1));
        }
        let req = build_request_checked(&work[i], policy, target_ok[i]);
        match req {
            Err(e) => {
                failures.push(
                    FailureDetail {
                        identity: work[i].identity.dup(),
                        reason: FailureReason::InvalidTarget(e.target),
                    },
                );
                if policy.quick_fail {
                    halted = true;
                    proof {
                        assert(full =~= model_of(successes@, failures@));
                    }
                } else {
                    proof {
                        assert(full =~= model_concat(
                            model_of(successes@, failures@),
                            run_model(
                                work@.skip(i as int + 1),
                                *policy,
                                target_ok@.skip(i as int + 1),
                                builds@.skip(i as int + 1),
                            ),
                        ));
                    }
                }
            },
            Ok(_req) => {
                match &builds[i] {
                    BuildResult::Built => {
                        successes.push(work[i].identity.dup());
                        proof {
                            assert(full =~= model_concat(
                                model_of(successes@, failures@),
                                run_model(
                                    work@.skip(i as int + 1),
                                    *policy,
                                    target_ok@.skip(i as int + 1),
                                    builds@.skip(i as int + 1),
                                ),
                            ));
                        }
                    },
                    BuildResult::BuildFailed(m) => {
                        failures.push(
                            FailureDetail {
                                identity: work[i].identity.dup(),
                                reason: FailureReason::BuildError(m.clone()),
                            },
                        );
                        if policy.quick_fail {
                            halted = true;
                            proof {
                                assert(full =~= model_of(successes@, failures@));
                            }
                        } else {
                            proof {
                                assert(full =~= model_concat(
                                    model_of(successes@, failures@),
                                    run_model(
                                        work@.skip(i as int + 1),
                                        *policy,
                                        target_ok@.skip(i as int + 1),
                                        builds@.skip(i as int + 1),
                                    ),
                                ));
                            }
                        }
                    },
                }
            },
        }
        i += 1;
    }
    proof {
        if !halted {
            assert(work@.skip(i as int) =~= Seq::<InstallRecord>::empty());
            assert(full =~= model_of(successes@, failures@));
        }
    }
    RestoreReport { successes, failures }
}

/// A live run's state, for a driver that obtains the builder's answers one
/// at a time: each outcome is recorded as it happens, and the engine says
/// whether the run goes on.
pub struct Engine {
    pub quick_fail: bool,
    pub report: RestoreReport,
    pub halted: bool,
}

impl Engine {
    /// A fresh engine with an empty report.
    pub fn new(quick_fail: bool) -> (e: Engine)
        ensures
            e.quick_fail == quick_fail,
            e.report.successes@ == Seq::<PackageIdentity>::empty(),
            e.report.failures@ == Seq::<FailureDetail>::empty(),
            !e.halted,
    {
        let e = Engine {
            quick_fail,
            report: RestoreReport { successes: Vec::new(), failures: Vec::new() },
            halted: false,
        };
        proof {
            assert(e.report.successes@ =~= Seq::<PackageIdentity>::empty());
            assert(e.report.failures@ =~= Seq::<FailureDetail>::empty());
        }
        e
    }

    /// Whether the next record may be attempted.
    pub fn should_continue(&self) -> (r: bool)
        ensures
            r == !self.halted,
    {
        !self.halted
    }

    /// Appends one record's outcome to its list; a failure halts the run
    /// exactly when the fail-fast policy is on.
    pub fn record_outcome(&mut self, outcome: InstallOutcome)
        requires
            !old(self).halted,
        ensures
            final(self).quick_fail == old(self).quick_fail,
            outcome matches InstallOutcome::Success(id) ==> (final(self).report.successes@ == old(
                self,
            ).report.successes@.push(id) && final(self).report.failures@ == old(
                self,
            ).report.failures@ && !final(self).halted),
            outcome matches InstallOutcome::Failure(id, reason) ==> (final(self).report.failures@
                == old(self).report.failures@.push(
                (FailureDetail { identity: id, reason }),
            ) && final(self).report.successes@ == old(self).report.successes@ && final(self).halted
                == old(self).quick_fail),
    {
        match outcome {
            InstallOutcome::Success(id) => {
                self.report.successes.push(id);
            },
            InstallOutcome::Failure(id, reason) => {
                self.report.failures.push(FailureDetail { identity: id, reason });
                if self.quick_fail {
                    self.halted = true;
                }
            },
        }
    }

    /// Hands the aggregated report out.
    pub fn finish(self) -> (r: RestoreReport)
        ensures
            r == self.report,
    {
        self.report
    }
}

/// With fail-fast off, every record of the work list is attempted exactly
/// once: the two outcome lists together hold one outcome per record.
pub proof fn lemma_no_quick_fail_processes_all(
    work: Seq<InstallRecord>,
    policy: SharedOptions,
    target_ok: Seq<bool>,
    builds: Seq<BuildResult>,
)
    requires
        !policy.quick_fail,
        target_ok.len() == work.len(),
        builds.len() == work.len(),
    ensures
        run_model(work, policy, target_ok, builds).successes.len() + run_model(
            work,
            policy,
            target_ok,
            builds,
        ).failures.len() == work.len(),
    decreases work.len(),
{
    if work.len() > 0 {
        lemma_no_quick_fail_processes_all(
            work.drop_first(),
            policy,
            target_ok.drop_first(),
            builds.drop_first(),
        );
    }
}

/// When no record fails, every record is attempted and succeeds, in work
/// list order, under either fail-fast policy.
pub proof fn lemma_all_succeed(
    work: Seq<InstallRecord>,
    policy: SharedOptions,
    target_ok: Seq<bool>,
    builds: Seq<BuildResult>,
)
    requires
        target_ok.len() == work.len(),
        builds.len() == work.len(),
        forall|i: int| 0 <= i < work.len() ==> !fails_at(work, policy, target_ok, builds, i),
    ensures
        run_model(work, policy, target_ok, builds).successes.len() == work.len(),
        run_model(work, policy, target_ok, builds).failures.len() == 0,
        forall|i: int|
            0 <= i < work.len() ==> run_model(work, policy, target_ok, builds).successes[i]
                == work[i].identity,
    decreases work.len(),
{
    if work.len() > 0 {
        assert(!fails_at(work, policy, target_ok, builds, 0));
        assert forall|i: int|
            0 <= i < work.drop_first().len() implies !fails_at(
            work.drop_first(),
            policy,
            target_ok.drop_first(),
            builds.drop_first(),
            i,
        ) by {
            assert(!fails_at(work, policy, target_ok, builds, i + 1));
        }
        lemma_all_succeed(
            work.drop_first(),
            policy,
            target_ok.drop_first(),
            builds.drop_first(),
        );
    }
}

/// With fail-fast on, the run stops at the first failing record: every
/// record before it succeeds, its failure is the only one, nothing after
/// it is attempted, and the outcome count is the failure's position + 1.
pub proof fn lemma_quick_fail_stops(
    work: Seq<InstallRecord>,
    policy: SharedOptions,
    target_ok: Seq<bool>,
    builds: Seq<BuildResult>,
    f: int,
)
    requires
        policy.quick_fail,
        target_ok.len() == work.len(),
        builds.len() == work.len(),
        0 <= f < work.len(),
        fails_at(work, policy, target_ok, builds, f),
        forall|i: int| 0 <= i < f ==> !fails_at(work, policy, target_ok, builds, i),
    ensures
        run_model(work, policy, target_ok, builds).successes.len() == f,
        run_model(work, policy, target_ok, builds).failures.len() == 1,
        run_model(work, policy, target_ok, builds).successes.len() + run_model(
            work,
            policy,
            target_ok,
            builds,
        ).failures.len() == f + 1,
        forall|i: int|
            0 <= i < f ==> run_model(work, policy, target_ok, builds).successes[i]
                == work[i].identity,
        run_model(work, policy, target_ok, builds).failures[0].identity == work[f].identity,
    decreases f,
{
    if f == 0 {
        assert(fails_at(work, policy, target_ok, builds, 0));
    } else {
        assert(!fails_at(work, policy, target_ok, builds, 0));
        assert(fails_at(
            work.drop_first(),
            policy,
            target_ok.drop_first(),
            builds.drop_first(),
            f - 1,
        ));
        assert forall|i: int| 0 <= i < f - 1 implies !fails_at(
            work.drop_first(),
            policy,
            target_ok.drop_first(),
            builds.drop_first(),
            i,
        ) by {
            assert(!fails_at(work, policy, target_ok, builds, i + 1));
        }
        lemma_quick_fail_stops(
            work.drop_first(),
            policy,
            target_ok.drop_first(),
            builds.drop_first(),
            f - 1,
        );
    }
}

} // verus!
