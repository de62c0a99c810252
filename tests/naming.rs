use erlang_servers::resolver::{advance, begin, Action, Event, Release, ReleaseAsset, Settings};
use erlang_servers::servers::ErlangLanguagePlatform;
use erlang_servers::names::{ends_with, executable_name, is_install, join_path, same_text, starts_with, version_dir_name};
use erlang_servers::platform::{asset_name, Architecture, AssetScheme, Os};
use erlang_servers::store::{find_existing_binary, outdated_paths, InstallEntry};

fn named(name: Option<&str>, path: &str) -> InstallEntry {
    InstallEntry { name: name.map(|n| n.to_string()), path: path.to_string(), is_dir: true, has_binary: true }
}

#[test]
fn prefix_and_suffix() {
    assert!(starts_with("elp-v1-otp-28", "elp"));
    assert!(!starts_with("el", "elp"));
    assert!(ends_with("elp-v1-otp-28", "otp-28"));
    assert!(!ends_with("elp-v1-otp-28", "otp-8x"));
    assert!(ends_with("abc", ""));
    assert!(same_text("abc", "abc"));
    assert!(!same_text("abc", "abcd"));
}

#[test]
fn install_names() {
    assert!(is_install("elp-v1.0.0-otp-28", "elp", "28"));
    assert!(!is_install("elp-v1.0.0-otp-27", "elp", "28"));
    assert!(!is_install("elp-v1.0.0-otp-28", "erlang-ls", "28"));
    assert_eq!(version_dir_name("elp", "1.2.3", "28"), "elp-v1.2.3-otp-28");
    assert_eq!(join_path("elp-v1.2.3-otp-28", "elp"), "elp-v1.2.3-otp-28/elp");
    assert_eq!(executable_name("erlang-ls"), "erlang_ls");
    assert_eq!(executable_name(""), "");
}

#[test]
fn asset_names() {
    assert_eq!(
        asset_name(AssetScheme::OsArchTarget, "elp", Os::Linux, Architecture::Aarch64, "28"),
        Some("elp-linux-aarch64-unknown-linux-gnu-otp-28.tar.gz".to_string())
    );
    assert_eq!(asset_name(AssetScheme::OsArchTarget, "elp", Os::Linux, Architecture::X86, "28"), None);
    assert_eq!(
        asset_name(AssetScheme::OsOnly, "erlang_ls", Os::Mac, Architecture::X86, "27"),
        Some("erlang_ls-macos-27.tar.gz".to_string())
    );
}

#[test]
fn existing_binary_first_match() {
    let entries = vec![
        InstallEntry { name: Some("elp-v0.9-otp-28".to_string()), path: "./elp-v0.9-otp-28".to_string(), is_dir: false, has_binary: true },
        named(Some("elp-v1.0.0-otp-28"), "./elp-v1.0.0-otp-28"),
        named(Some("elp-v1.1.0-otp-28"), "./elp-v1.1.0-otp-28"),
    ];
    assert_eq!(find_existing_binary(&entries, "elp", "28", "elp"), Some("./elp-v1.0.0-otp-28/elp".to_string()));
    assert_eq!(find_existing_binary(&entries, "elp", "27", "elp"), None);
    assert_eq!(find_existing_binary(&vec![], "elp", "28", "elp"), None);
}

#[test]
fn pruning_selection() {
    let entries = vec![
        named(Some("elp-v1.2.3-otp-28"), "./a"),
        named(Some("elp-v1.0.0-otp-28"), "./b"),
        named(Some("elp-v1.0.0-otp-27"), "./c"),
        named(None, "./d"),
        named(Some("notes"), "./e"),
    ];
    assert_eq!(
        outdated_paths(&entries, "elp", "28", "elp-v1.2.3-otp-28"),
        vec!["./b".to_string(), "./d".to_string()]
    );
}

#[test]
fn half_download_is_skipped() {
    let entries = vec![
        InstallEntry { name: Some("elp-v1.1.0-otp-28".to_string()), path: "./elp-v1.1.0-otp-28".to_string(), is_dir: true, has_binary: false },
        named(Some("elp-v1.0.0-otp-28"), "./elp-v1.0.0-otp-28"),
    ];
    assert_eq!(find_existing_binary(&entries, "elp", "28", "elp"), Some("./elp-v1.0.0-otp-28/elp".to_string()));
}

#[test]
fn first_matching_asset_is_downloaded() {
    let mut server = ErlangLanguagePlatform::new();
    let settings = Settings { otp_version: None, binary: None };
    let (mut res, _) = begin(&server.profile, &settings, Os::Linux, Architecture::X8664);
    advance(&server.profile, &mut res, &mut server.cached_binary_path, Event::PathFound(None));
    let name = "elp-linux-x86_64-unknown-linux-gnu-otp-28.tar.gz".to_string();
    let rel = Release {
        version: "2.0.0".to_string(),
        assets: vec![
            ReleaseAsset { name: name.clone(), download_url: "https://example.com/first".to_string() },
            ReleaseAsset { name, download_url: "https://example.com/second".to_string() },
        ],
    };
    advance(&server.profile, &mut res, &mut server.cached_binary_path, Event::ReleaseFetched(Some(rel)));
    let a = advance(&server.profile, &mut res, &mut server.cached_binary_path, Event::FileChecked(false));
    assert!(matches!(a, Action::Download { ref url, .. } if url == "https://example.com/first"));
}
