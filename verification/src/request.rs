//! The build request builder: maps one install record plus the run's
//! options to the fully-specified request handed to the package builder,
//! resolving the target and pinning the version.

use vstd::prelude::*;

use crate::config::SharedOptions;
use crate::record::{dup_strings, InstallRecord, VersionNumber};

verus! {

/// The platform a build request is aimed at.
#[derive(Debug)]
pub enum ResolvedTarget {
    /// This machine, overriding whatever was recorded.
    Host,
    /// The recorded target triple, validated for this machine.
    Recorded(String),
    /// Nothing requested; the builder uses its own default.
    BuilderDefault,
}

/// The version the builder is asked for.
#[derive(Debug)]
pub enum VersionConstraint {
    /// No constraint: whatever is newest.
    Latest,
    /// Exactly the recorded version.
    Exact(VersionNumber),
}

/// The feature flags carried through to the builder, unchanged from the
/// record; the builder itself judges the combination.
#[derive(Debug)]
pub struct FeatureSelection {
    pub features: Vec<String>,
    pub all_features: bool,
    pub no_default_features: bool,
}

/// Everything the package builder needs for one package.
#[derive(Debug)]
pub struct BuildRequest {
    pub target: ResolvedTarget,
    pub profile: String,
    pub features: FeatureSelection,
    /// Only these binaries are built and installed.
    pub bins: Vec<String>,
    pub constraint: VersionConstraint,
}

/// A recorded target triple that this machine's build engine rejects,
/// named together with the package that recorded it.
#[derive(Debug)]
pub struct TargetError {
    pub package: String,
    pub target: String,
}

/// A target error occurs exactly when the target is not being fixed to the
/// host, the record names a target, and that target does not validate.
pub open spec fn target_rejected(
    record: InstallRecord,
    policy: SharedOptions,
    recorded_target_valid: bool,
) -> bool {
    !policy.fix_target && record.info.target is Some && !recorded_target_valid
}

/// The target a successful request resolves to: the host under
/// `fix_target`; else the recorded triple when there is one; else the
/// builder's default.
pub open spec fn expected_target(fix_target: bool, recorded: Option<String>) -> ResolvedTarget {
    if fix_target {
        ResolvedTarget::Host
    } else {
        match recorded {
            Option::Some(t) => ResolvedTarget::Recorded(t),
            Option::None => ResolvedTarget::BuilderDefault,
        }
    }
}

/// The version constraint of a request: unconstrained under
/// `install_latest`, else exactly the recorded version.
pub open spec fn expected_constraint(install_latest: bool, v: VersionNumber) -> VersionConstraint {
    if install_latest {
        VersionConstraint::Latest
    } else {
        VersionConstraint::Exact(v)
    }
}

/// A request carries the record's profile, features and binary filter
/// verbatim, the resolved target, and the expected version constraint.
pub open spec fn req_matches(
    record: InstallRecord,
    policy: SharedOptions,
    req: BuildRequest,
) -> bool {
    &&& req.target == expected_target(policy.fix_target, record.info.target)
    &&& req.profile == record.info.profile
    &&& req.features.features@ == record.info.features@
    &&& req.features.all_features == record.info.all_features
    &&& req.features.no_default_features == record.info.no_default_features
    &&& req.bins@ == record.info.bins@
    &&& req.constraint == expected_constraint(policy.install_latest, record.identity.version)
}

/// The whole contract of request building, over the validation verdict for
/// the recorded target: an error exactly when the target is rejected, and
/// otherwise a request that matches the record and the options.
pub open spec fn build_request_post(
    record: InstallRecord,
    policy: SharedOptions,
    recorded_target_valid: bool,
    r: Result<BuildRequest, TargetError>,
) -> bool {
    &&& (r is Err) == target_rejected(record, policy, recorded_target_valid)
    &&& (r matches Err(e) ==> record.info.target matches Some(t) && e.package
        == record.identity.name && e.target == t)
    &&& (r matches Ok(req) ==> req_matches(record, policy, req))
}

/// Builds the request for one record, taking the validation verdict for
/// the recorded target as an argument; exact for every value of it.
pub fn build_request_checked(
    record: &InstallRecord,
    policy: &SharedOptions,
    recorded_target_valid: bool,
) -> (r: Result<BuildRequest, TargetError>)
    ensures
        build_request_post(*record, *policy, recorded_target_valid, r),
{
    let target: ResolvedTarget = if policy.fix_target {
        ResolvedTarget::Host
    } else {
        match &record.info.target {
            None => ResolvedTarget::BuilderDefault,
            Some(t) => {
                if recorded_target_valid {
                    ResolvedTarget::Recorded(t.clone())
                } else {
                    return Err(
                        TargetError {
                            package: record.identity.name.clone(),
                            target: t.clone(),
                        },
                    );
                }
            },
        }
    };
    let constraint: VersionConstraint = if policy.install_latest {
        VersionConstraint::Latest
    } else {
        VersionConstraint::Exact(record.identity.version.dup())
    };
    Ok(
        BuildRequest {
            target,
            profile: record.info.profile.clone(),
            features: FeatureSelection {
                features: dup_strings(&record.info.features),
                all_features: record.info.all_features,
                no_default_features: record.info.no_default_features,
            },
            bins: dup_strings(&record.info.bins),
            constraint,
        },
    )
}

/// The verdict the build engine's target parser gives a triple; a function
/// of the characters alone.
pub uninterp spec fn target_verdict(s: Seq<char>) -> bool;

/// Relies on cargo's `CompileTarget::new` to judge a recorded target
/// triple. Its verdict depends on the name alone: the trimmed name must be
/// non-empty and not a `.json` target-spec path.
#[verifier::external_body]
fn target_is_valid(name: &str) -> (r: bool)
    ensures
        r == target_verdict(name@),
{
    cargo::core::compiler::CompileTarget::new(name, false).is_ok()
}

/// Builds the request for one record, validating a recorded target triple
/// through the build engine whenever the target is not fixed to the host.
pub fn build_request(record: &InstallRecord, policy: &SharedOptions) -> (r: Result<
    BuildRequest,
    TargetError,
>)
    ensures
        r matches Ok(req) ==> req_matches(*record, *policy, req),
        r matches Err(e) ==> !policy.fix_target && (record.info.target matches Some(t) && e.package
            == record.identity.name && e.target == t),
        (r is Err) == (!policy.fix_target && (record.info.target matches Some(t)
            && !target_verdict(t@))),
        policy.fix_target ==> r is Ok,
        record.info.target is None ==> r is Ok,
{
    let valid: bool = if policy.fix_target {
        true
    } else {
        match &record.info.target {
            Some(t) => target_is_valid(t.as_str()),
            None => true,
        }
    };
    build_request_checked(record, policy, valid)
}

/// Without `install_latest` the request pins exactly the recorded
/// major.minor.patch and pre-release tag; with it, no version is pinned.
pub proof fn lemma_version_pinning(
    record: InstallRecord,
    policy: SharedOptions,
    req: BuildRequest,
)
    requires
        req_matches(record, policy, req),
    ensures
        !policy.install_latest ==> (req.constraint matches VersionConstraint::Exact(v) && v.major
            == record.identity.version.major && v.minor == record.identity.version.minor && v.patch
            == record.identity.version.patch && v.pre == record.identity.version.pre),
        policy.install_latest ==> req.constraint is Latest,
{
}

/// Fixing the target always resolves to the host, whatever target was
/// recorded and however its validation would have gone: no target error
/// can occur under `fix_target`.
pub proof fn lemma_fix_target_overrides(
    record: InstallRecord,
    policy: SharedOptions,
    recorded_target_valid: bool,
    r: Result<BuildRequest, TargetError>,
)
    requires
        policy.fix_target,
        build_request_post(record, policy, recorded_target_valid, r),
    ensures
        r is Ok,
        r matches Ok(req) ==> req.target is Host,
{
}

} // verus!
