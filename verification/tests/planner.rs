use cargo_restore::plan::{needs_install, plan};
use cargo_restore::record::{InstallInfo, InstallRecord, PackageIdentity, VersionNumber};

fn version(major: u64, minor: u64, patch: u64, pre: &str) -> VersionNumber {
    VersionNumber { major, minor, patch, pre: pre.to_owned() }
}

fn record(name: &str, bins: &[&str]) -> InstallRecord {
    InstallRecord {
        identity: PackageIdentity {
            name: name.to_owned(),
            version: version(1, 0, 0, ""),
            source: "registry+https://crates.example/index".to_owned(),
        },
        info: InstallInfo {
            bins: bins.iter().map(|b| (*b).to_owned()).collect(),
            features: Vec::new(),
            all_features: false,
            no_default_features: false,
            profile: "release".to_owned(),
            target: None,
        },
    }
}

#[test]
fn all_present_record_is_excluded() {
    let records = vec![record("a", &["a"])];
    let presence = vec![vec![true]];
    let idxs = plan(&records, &presence, false);
    assert!(idxs.is_empty());
}

#[test]
fn missing_binary_record_is_included() {
    let records = vec![record("a", &["a", "a-helper"])];
    let presence = vec![vec![true, false]];
    let idxs = plan(&records, &presence, false);
    assert_eq!(idxs, vec![0]);
}

#[test]
fn force_all_includes_present_records() {
    let records = vec![record("a", &["a"]), record("b", &["b"])];
    let presence = vec![vec![true], vec![true]];
    let idxs = plan(&records, &presence, true);
    assert_eq!(idxs, vec![0, 1]);
}

#[test]
fn empty_binary_set_is_always_included() {
    let records = vec![record("empty", &[])];
    let presence = vec![vec![]];
    let idxs = plan(&records, &presence, false);
    assert_eq!(idxs, vec![0]);
}

#[test]
fn present_and_missing_records_plan_only_the_missing_one() {
    // Record A has all binaries present, record B misses one: only B is
    // planned, and in manifest order.
    let records = vec![record("a", &["a"]), record("b", &["b"])];
    let presence = vec![vec![true], vec![false]];
    let idxs = plan(&records, &presence, false);
    assert_eq!(idxs, vec![1]);
}

#[test]
fn needs_install_is_exact_per_record() {
    let a = record("a", &["x", "y"]);
    assert!(!needs_install(&a.info, &vec![true, true], false));
    assert!(needs_install(&a.info, &vec![true, false], false));
    assert!(needs_install(&a.info, &vec![true, true], true));
    let e = record("e", &[]);
    assert!(needs_install(&e.info, &vec![], false));
}
