use oreutils::probe::first_line_of;
use oreutils::registry::{latest_release, registry_url};
use oreutils::{
    cargo_install, for_each_tool, get_latest_version, install_tool, installed_version, roster,
    uninstall, upgrade_step, FetchError, ProbeError, RegistryReply, SemanticVersion, Tool,
    Unimplemented, UpgradeEvent, UpgradeOutcome, UpgradeStep, VersionRecord,
};

fn v(major: u64, minor: u64, patch: u64) -> SemanticVersion {
    SemanticVersion::new(major, minor, patch, false)
}

fn rec(num: &str, yanked: bool) -> VersionRecord {
    VersionRecord { num: num.to_string(), yanked }
}

fn ok_reply(recs: Vec<VersionRecord>) -> RegistryReply {
    RegistryReply::Response { status: 200, versions: Some(recs) }
}

fn texts(args: &[String]) -> Vec<&str> {
    args.iter().map(|s| s.as_str()).collect()
}

#[test]
fn version_order_follows_triples() {
    assert!(v(1, 2, 3).lt(&v(1, 2, 4)));
    assert!(v(1, 2, 9).lt(&v(1, 3, 0)));
    assert!(v(1, 9, 9).lt(&v(2, 0, 0)));
    assert!(!v(2, 0, 0).lt(&v(1, 9, 9)));
    assert!(!v(1, 2, 3).lt(&v(1, 2, 3)));
}

#[test]
fn prerelease_sorts_below_release() {
    let pre = SemanticVersion::new(2, 0, 0, true);
    assert!(pre.lt(&v(2, 0, 0)));
    assert!(!v(2, 0, 0).lt(&pre));
    assert!(v(1, 9, 0).lt(&pre));
}

#[test]
fn latest_skips_yanked_and_prerelease() {
    let recs = vec![rec("1.2.0", true), rec("1.1.0", false), rec("2.0.0-beta.1", false)];
    assert_eq!(get_latest_version(&ok_reply(recs)), Ok(v(1, 1, 0)));
}

#[test]
fn prerelease_never_latest_even_if_highest() {
    let recs = vec![rec("3.0.0-rc.1", false), rec("2.5.1", false)];
    assert_eq!(latest_release(&recs), Ok(v(2, 5, 1)));
}

#[test]
fn first_eligible_wins_in_registry_order() {
    let recs = vec![rec("1.0.0", false), rec("1.5.0", false)];
    assert_eq!(latest_release(&recs), Ok(v(1, 0, 0)));
}

#[test]
fn empty_versions_is_no_versions() {
    assert_eq!(get_latest_version(&ok_reply(vec![])), Err(FetchError::NoVersions));
}

#[test]
fn all_yanked_or_prerelease_is_no_versions() {
    let recs = vec![rec("1.0.0", true), rec("2.0.0-alpha", false)];
    assert_eq!(get_latest_version(&ok_reply(recs)), Err(FetchError::NoVersions));
}

#[test]
fn not_found_is_no_crate() {
    let reply = RegistryReply::Response { status: 404, versions: None };
    assert_eq!(get_latest_version(&reply), Err(FetchError::NoCrate));
}

#[test]
fn server_error_is_bad_response() {
    let reply = RegistryReply::Response { status: 500, versions: Some(vec![rec("1.0.0", false)]) };
    assert_eq!(get_latest_version(&reply), Err(FetchError::BadResponse));
}

#[test]
fn unreadable_body_is_bad_response() {
    let reply = RegistryReply::Response { status: 200, versions: None };
    assert_eq!(get_latest_version(&reply), Err(FetchError::BadResponse));
}

#[test]
fn unreachable_registry_is_bad_response() {
    assert_eq!(get_latest_version(&RegistryReply::Unreachable), Err(FetchError::BadResponse));
}

#[test]
fn invalid_version_text_is_bad_response() {
    let recs = vec![rec("1.0.0", false), rec("not-a-version", false)];
    assert_eq!(get_latest_version(&ok_reply(recs)), Err(FetchError::BadResponse));
}

#[test]
fn fetch_error_messages_differ() {
    assert_eq!(FetchError::NoCrate.message(), "No crate found");
    assert_eq!(FetchError::BadResponse.message(), "Bad response");
    assert_eq!(FetchError::NoVersions.message(), "Crate has no release versions");
}

#[test]
fn url_names_the_package() {
    assert_eq!(registry_url("fd-find"), "https://crates.io/api/v1/crates/fd-find");
}

#[test]
fn extracts_version_from_tool_output() {
    let r = installed_version(Some(b"bat 0.18.3\n".to_vec()));
    assert_eq!(r.unwrap(), v(0, 18, 3));
}

#[test]
fn output_without_triple_is_broken_with_line() {
    match installed_version(Some(b"unknown".to_vec())) {
        Err(ProbeError::VersionBroken(Some(raw))) => assert_eq!(raw, "unknown"),
        other => panic!("unexpected {:?}", other),
    }
}

#[test]
fn tool_that_cannot_run_is_not_found() {
    assert!(matches!(installed_version(None), Err(ProbeError::NotFound)));
}

#[test]
fn empty_or_non_utf8_output_is_broken_without_text() {
    assert!(matches!(installed_version(Some(vec![])), Err(ProbeError::VersionBroken(None))));
    assert!(matches!(
        installed_version(Some(vec![0x66, 0xff, 0x31])),
        Err(ProbeError::VersionBroken(None))
    ));
}

#[test]
fn only_first_line_is_searched() {
    match installed_version(Some(b"no version here\nrg 13.0.0\n".to_vec())) {
        Err(ProbeError::VersionBroken(Some(raw))) => assert_eq!(raw, "no version here"),
        other => panic!("unexpected {:?}", other),
    }
    let r = installed_version(Some(b"ripgrep 13.0.0 (rev af6b6c543b)\r\n-SIMD -AVX\n".to_vec()));
    assert_eq!(r.unwrap(), v(13, 0, 0));
}

#[test]
fn unparsable_triple_is_broken_with_match() {
    match installed_version(Some(b"exa v01.2.3".to_vec())) {
        Err(ProbeError::VersionBroken(Some(raw))) => assert_eq!(raw, "01.2.3"),
        other => panic!("unexpected {:?}", other),
    }
}

#[test]
fn first_line_strips_line_ending() {
    assert_eq!(first_line_of("a b\r\nc"), Some("a b".to_string()));
    assert_eq!(first_line_of("abc"), Some("abc".to_string()));
    assert_eq!(first_line_of("\nabc"), Some("".to_string()));
    assert_eq!(first_line_of(""), None);
}

#[test]
fn older_version_builds_once_and_reports_latest() {
    let s = upgrade_step(UpgradeStep::QueryVersion, UpgradeEvent::VersionOutput(Some(b"bat 0.18.3".to_vec())));
    assert!(matches!(s, UpgradeStep::FetchLatest(x) if x == v(0, 18, 3)));
    let s = upgrade_step(s, UpgradeEvent::LatestVersion(Ok(v(0, 19, 0))));
    assert!(matches!(s, UpgradeStep::ForceInstall { installed, latest } if installed == v(0, 18, 3) && latest == v(0, 19, 0)));
    let s = upgrade_step(s, UpgradeEvent::InstallFinished);
    assert!(matches!(s, UpgradeStep::Finished(UpgradeOutcome::Upgraded { from, to }) if from == v(0, 18, 3) && to == v(0, 19, 0)));
    let s = upgrade_step(s, UpgradeEvent::InstallFinished);
    assert!(matches!(s, UpgradeStep::Finished(UpgradeOutcome::Upgraded { .. })));
}

#[test]
fn current_or_newer_version_never_builds() {
    let s = upgrade_step(UpgradeStep::FetchLatest(v(0, 19, 0)), UpgradeEvent::LatestVersion(Ok(v(0, 19, 0))));
    assert!(matches!(s, UpgradeStep::Finished(UpgradeOutcome::UpToDate(x)) if x == v(0, 19, 0)));
    let s = upgrade_step(UpgradeStep::FetchLatest(v(1, 0, 0)), UpgradeEvent::LatestVersion(Ok(v(0, 19, 0))));
    assert!(matches!(s, UpgradeStep::Finished(UpgradeOutcome::UpToDate(x)) if x == v(1, 0, 0)));
}

#[test]
fn upgrade_reports_probe_and_registry_failures() {
    let s = upgrade_step(UpgradeStep::QueryVersion, UpgradeEvent::VersionOutput(None));
    assert!(matches!(s, UpgradeStep::Finished(UpgradeOutcome::NotInstalled)));
    let s = upgrade_step(UpgradeStep::QueryVersion, UpgradeEvent::VersionOutput(Some(b"unknown".to_vec())));
    assert!(matches!(s, UpgradeStep::Finished(UpgradeOutcome::VersionUnparsable(Some(ref t))) if t == "unknown"));
    let s = upgrade_step(UpgradeStep::FetchLatest(v(1, 0, 0)), UpgradeEvent::LatestVersion(Err(FetchError::NoCrate)));
    assert!(matches!(s, UpgradeStep::Finished(UpgradeOutcome::RegistryError(FetchError::NoCrate))));
}

#[test]
fn equals_matches_any_name_exactly() {
    let fd = Tool { name: "fd", package: "fd-find", cli: "fd" };
    assert!(fd.equals("fd"));
    assert!(fd.equals("fd-find"));
    assert!(!fd.equals("FD"));
    assert!(!fd.equals("fd-fin"));
    assert!(!fd.equals(""));
}

#[test]
fn selector_rg_picks_only_ripgrep() {
    let tools = roster();
    let picked = for_each_tool(&tools, Some("rg"));
    assert_eq!(picked.len(), 1);
    assert_eq!(picked[0].name, "ripgrep");
}

#[test]
fn no_selector_picks_whole_roster_in_order() {
    let tools = roster();
    let picked = for_each_tool(&tools, None);
    let names: Vec<&str> = picked.iter().map(|t| t.name).collect();
    assert_eq!(names, vec!["ripgrep", "exa", "bat", "fd"]);
    assert!(for_each_tool(&tools, Some("nothing")).is_empty());
    assert_eq!(for_each_tool(&tools, Some("fd-find"))[0].cli, "fd");
}

#[test]
fn install_skips_resolvable_tool() {
    let bat = Tool { name: "bat", package: "bat", cli: "bat" };
    assert!(install_tool(&bat, true).is_none());
}

#[test]
fn install_missing_tool_builds_without_forcing() {
    let only = [Tool { name: "fd", package: "fd-find", cli: "fd" }];
    let picked = for_each_tool(&only, None);
    assert_eq!(picked.len(), 1);
    let cmd = install_tool(&picked[0], false).unwrap();
    assert_eq!(cmd.program, "cargo");
    assert_eq!(texts(&cmd.args), vec!["install", "fd-find"]);
    assert_eq!(cmd.env_key, "RUSTFLAGS");
    assert_eq!(cmd.env_value, "-Ctarget-cpu=native");
}

#[test]
fn forced_build_passes_flag() {
    let cmd = cargo_install("ripgrep", true);
    assert_eq!(texts(&cmd.args), vec!["install", "-f", "ripgrep"]);
}

#[test]
fn uninstall_is_not_implemented() {
    assert_eq!(uninstall(), Err(Unimplemented));
}
