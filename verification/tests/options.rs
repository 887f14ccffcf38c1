use cargo_restore::config::{effective_options, Config, RestoreCommand, SharedOptions};

fn options(force_all: bool) -> SharedOptions {
    SharedOptions {
        crates_file: None,
        fix_target: true,
        install_latest: false,
        force_all,
        verbose: false,
        quick_fail: false,
    }
}

#[test]
fn subcommand_options_win_over_direct_ones() {
    let config = Config {
        cmd: Some(RestoreCommand::Restore(options(true))),
        opts: options(false),
    };
    let opts = effective_options(config);
    assert!(opts.force_all);
}

#[test]
fn direct_options_are_used_without_a_subcommand() {
    let config = Config { cmd: None, opts: options(false) };
    let opts = effective_options(config);
    assert!(!opts.force_all);
    assert!(opts.fix_target);
}
