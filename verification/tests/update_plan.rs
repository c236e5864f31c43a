use twitchdesk_desktop::update::asset::{
    expected_bundle_asset_name, main_executable_name, preview_executable_name,
    updater_helper_name,
};
use twitchdesk_desktop::update::feed::{
    github_repo_from_env, is_success_status, latest_release_url, user_agent, AssetDescriptor,
    FeedReply, ReleaseDescriptor,
};
use twitchdesk_desktop::update::plan::{
    check_for_update, find_asset, update_download_path, updater_helper_path, CheckOutcome,
};
use twitchdesk_desktop::update::version::ResolvedVersion;

fn asset(name: &str, url: &str) -> AssetDescriptor {
    AssetDescriptor { name: name.to_string(), download_url: url.to_string() }
}

fn release(tag: &str, assets: Vec<AssetDescriptor>) -> FeedReply {
    FeedReply::Release(ReleaseDescriptor { tag: tag.to_string(), assets })
}

fn current(text: &str) -> ResolvedVersion {
    ResolvedVersion::parse(text).unwrap()
}

#[test]
fn bundle_names_embed_the_platform() {
    assert_eq!(expected_bundle_asset_name("linux", "x86_64"), "twitchdesk-desktop-linux-x86_64.zip");
    assert_eq!(
        expected_bundle_asset_name("windows", "aarch64"),
        "twitchdesk-desktop-windows-aarch64.zip"
    );
    assert_eq!(expected_bundle_asset_name("macos", "x86_64"), "twitchdesk-desktop-macos-x86_64.zip");
    assert_eq!(expected_bundle_asset_name("freebsd", "riscv64"), "twitchdesk-desktop-freebsd-riscv64.zip");
    assert_eq!(expected_bundle_asset_name("", ""), "twitchdesk-desktop--.zip");
}

#[test]
fn bundle_names_are_the_same_on_every_call() {
    for os in ["linux", "windows", "macos", "haiku"] {
        for arch in ["x86_64", "aarch64", "mips"] {
            assert_eq!(expected_bundle_asset_name(os, arch), expected_bundle_asset_name(os, arch));
        }
    }
}

#[test]
fn executables_end_in_exe_on_windows_only() {
    assert_eq!(main_executable_name("windows"), "twitchdesk-desktop.exe");
    assert_eq!(main_executable_name("linux"), "twitchdesk-desktop");
    assert_eq!(preview_executable_name("windows"), "twitchdesk-preview.exe");
    assert_eq!(preview_executable_name("macos"), "twitchdesk-preview");
    assert_eq!(updater_helper_name("windows"), "twitchdesk-desktop-updater.exe");
    assert_eq!(updater_helper_name("linux"), "twitchdesk-desktop-updater");
}

#[test]
fn repository_defaults_and_overrides() {
    let default = ("twitchdesk".to_string(), "twitchdesk-desktop".to_string());
    assert_eq!(github_repo_from_env(None), default);
    assert_eq!(github_repo_from_env(Some("me/fork")), ("me".to_string(), "fork".to_string()));
    assert_eq!(github_repo_from_env(Some("  me / fork ")), ("me".to_string(), "fork".to_string()));
    assert_eq!(github_repo_from_env(Some("a/b/c")), ("a".to_string(), "b/c".to_string()));
    assert_eq!(github_repo_from_env(Some("nofork")), default);
    assert_eq!(github_repo_from_env(Some("/fork")), default);
    assert_eq!(github_repo_from_env(Some("me/")), default);
    assert_eq!(github_repo_from_env(Some(" / ")), default);
    assert_eq!(github_repo_from_env(Some("")), default);
}

#[test]
fn feed_address_and_agent() {
    assert_eq!(
        latest_release_url("twitchdesk", "twitchdesk-desktop"),
        "https://api.github.com/repos/twitchdesk/twitchdesk-desktop/releases/latest"
    );
    assert_eq!(user_agent(), "twitchdesk-desktop-updater");
}

#[test]
fn success_statuses_are_the_two_hundreds() {
    assert!(is_success_status(200));
    assert!(is_success_status(204));
    assert!(is_success_status(299));
    assert!(!is_success_status(199));
    assert!(!is_success_status(300));
    assert!(!is_success_status(404));
    assert!(!is_success_status(500));
}

#[test]
fn download_path_is_keyed_by_version() {
    let v = current("1.3.0");
    assert_eq!(
        update_download_path(&v, "twitchdesk-desktop-linux-x86_64.zip"),
        vec!["updates".to_string(), "1.3.0".to_string(), "twitchdesk-desktop-linux-x86_64.zip".to_string()]
    );
    let pre = current("2.0.0-rc.1+b5");
    assert_eq!(update_download_path(&pre, "a.zip")[1], "2.0.0-rc.1+b5");
    assert_eq!(
        updater_helper_path("windows"),
        vec!["updates".to_string(), "helper".to_string(), "twitchdesk-desktop-updater.exe".to_string()]
    );
}

#[test]
fn find_asset_gives_the_first_match() {
    let assets = vec![asset("a.zip", "u0"), asset("b.zip", "u1"), asset("b.zip", "u2")];
    assert_eq!(find_asset(&assets, "b.zip"), 1);
    assert_eq!(find_asset(&assets, "a.zip"), 0);
    assert_eq!(find_asset(&assets, "c.zip"), 3);
    assert_eq!(find_asset(&Vec::new(), "c.zip"), 0);
}

#[test]
fn newer_release_with_matching_asset_gives_a_plan() {
    let reply = release(
        "v1.3.0",
        vec![
            asset("twitchdesk-desktop-windows-x86_64.zip", "https://example.org/win"),
            asset("twitchdesk-desktop-linux-x86_64.zip", "https://example.org/linux"),
        ],
    );
    match check_for_update(&current("1.2.0"), reply, "linux", "x86_64") {
        CheckOutcome::UpdateAvailable { plan, asset } => {
            assert_eq!(plan.latest_version.to_text(), "1.3.0");
            assert_eq!(plan.current_version.to_text(), "1.2.0");
            assert_eq!(plan.asset_name, "twitchdesk-desktop-linux-x86_64.zip");
            assert_eq!(
                plan.local_download_path,
                vec![
                    "updates".to_string(),
                    "1.3.0".to_string(),
                    "twitchdesk-desktop-linux-x86_64.zip".to_string()
                ]
            );
            assert_eq!(asset.name, "twitchdesk-desktop-linux-x86_64.zip");
            assert_eq!(asset.download_url, "https://example.org/linux");
        },
        other => panic!("no plan: {:?}", other),
    }
}

#[test]
fn same_version_gives_no_plan() {
    let reply = release(
        "v1.3.0",
        vec![asset("twitchdesk-desktop-linux-x86_64.zip", "https://example.org/linux")],
    );
    assert!(matches!(
        check_for_update(&current("1.3.0"), reply, "linux", "x86_64"),
        CheckOutcome::UpToDate
    ));
}

#[test]
fn older_release_gives_no_plan() {
    let reply = release(
        "v1.2.9",
        vec![asset("twitchdesk-desktop-linux-x86_64.zip", "https://example.org/linux")],
    );
    assert!(matches!(
        check_for_update(&current("1.3.0"), reply, "linux", "x86_64"),
        CheckOutcome::UpToDate
    ));
}

#[test]
fn feed_failure_gives_no_release_information() {
    let me = current("1.2.0");
    assert!(matches!(
        check_for_update(&me, FeedReply::TransportFailed, "linux", "x86_64"),
        CheckOutcome::NoReleaseInformation
    ));
    assert!(matches!(
        check_for_update(&me, FeedReply::Rejected(503), "linux", "x86_64"),
        CheckOutcome::NoReleaseInformation
    ));
    assert!(matches!(
        check_for_update(&me, FeedReply::Unreadable, "linux", "x86_64"),
        CheckOutcome::NoReleaseInformation
    ));
}

#[test]
fn newer_release_without_a_bundle_for_the_platform_gives_no_plan() {
    let reply = release(
        "v9.0.0",
        vec![asset("twitchdesk-desktop-windows-x86_64.zip", "https://example.org/win")],
    );
    assert!(matches!(
        check_for_update(&current("1.2.0"), reply, "plan9", "x86_64"),
        CheckOutcome::NoMatchingAsset
    ));
    assert!(matches!(
        check_for_update(&current("1.2.0"), release("v9.0.0", Vec::new()), "linux", "x86_64"),
        CheckOutcome::NoMatchingAsset
    ));
}

#[test]
fn a_tag_that_is_no_version_is_reported() {
    let reply = release(
        "nightly",
        vec![asset("twitchdesk-desktop-linux-x86_64.zip", "https://example.org/linux")],
    );
    match check_for_update(&current("1.2.0"), reply, "linux", "x86_64") {
        CheckOutcome::LatestTagInvalid(e) => assert!(!e.detail.is_empty()),
        other => panic!("{:?}", other),
    }
}

#[test]
fn the_first_of_two_equally_named_assets_is_chosen() {
    let reply = release(
        "1.2.1",
        vec![
            asset("twitchdesk-desktop-macos-aarch64.zip", "first"),
            asset("twitchdesk-desktop-macos-aarch64.zip", "second"),
        ],
    );
    match check_for_update(&current("1.2.0"), reply, "macos", "aarch64") {
        CheckOutcome::UpdateAvailable { asset, .. } => assert_eq!(asset.download_url, "first"),
        other => panic!("{:?}", other),
    }
}
