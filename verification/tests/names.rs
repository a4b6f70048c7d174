use mcp_server_axiom::AcquireError;
use mcp_server_axiom::Arch;
use mcp_server_axiom::Asset;
use mcp_server_axiom::Os;
use mcp_server_axiom::binary_path_name;
use mcp_server_axiom::expected_asset_name;
use mcp_server_axiom::find_asset;
use mcp_server_axiom::stale_entries;
use mcp_server_axiom::version_dir_name;

#[test]
fn version_directory_is_named_after_the_version() {
    assert_eq!(version_dir_name("1.2.3"), "mcp-server-axiom-1.2.3");
    assert_eq!(version_dir_name(""), "mcp-server-axiom-");
}

#[test]
fn binary_path_has_no_suffix_on_mac_and_linux() {
    assert_eq!(
        binary_path_name("1.2.3", Os::Mac),
        "mcp-server-axiom-1.2.3/mcp-server-axiom"
    );
    assert_eq!(
        binary_path_name("1.2.3", Os::Linux),
        "mcp-server-axiom-1.2.3/mcp-server-axiom"
    );
}

#[test]
fn binary_path_has_exe_suffix_on_windows() {
    assert_eq!(
        binary_path_name("1.2.3", Os::Windows),
        "mcp-server-axiom-1.2.3/mcp-server-axiom.exe"
    );
}

#[test]
fn asset_names_combine_os_arch_and_extension() {
    assert_eq!(
        expected_asset_name(Os::Mac, Arch::Aarch64).unwrap(),
        "mcp-server-axiom_Darwin_arm64.tar.gz"
    );
    assert_eq!(
        expected_asset_name(Os::Mac, Arch::X8664).unwrap(),
        "mcp-server-axiom_Darwin_x86_64.tar.gz"
    );
    assert_eq!(
        expected_asset_name(Os::Linux, Arch::Aarch64).unwrap(),
        "mcp-server-axiom_Linux_arm64.tar.gz"
    );
    assert_eq!(
        expected_asset_name(Os::Linux, Arch::X8664).unwrap(),
        "mcp-server-axiom_Linux_x86_64.tar.gz"
    );
    assert_eq!(
        expected_asset_name(Os::Windows, Arch::Aarch64).unwrap(),
        "mcp-server-axiom_Windows_arm64.zip"
    );
    assert_eq!(
        expected_asset_name(Os::Windows, Arch::X8664).unwrap(),
        "mcp-server-axiom_Windows_x86_64.zip"
    );
}

#[test]
fn asset_name_for_x86_is_the_architecture_error() {
    for os in [Os::Mac, Os::Linux, Os::Windows] {
        match expected_asset_name(os, Arch::X86) {
            Err(AcquireError::UnsupportedArchitecture) => {}
            other => panic!("unexpected result {:?}", other),
        }
    }
}

#[test]
fn find_asset_returns_first_exact_match_only() {
    let assets = vec![
        Asset {
            name: "other".to_string(),
            download_url: "https://example.com/0".to_string(),
        },
        Asset {
            name: "wanted".to_string(),
            download_url: "https://example.com/1".to_string(),
        },
        Asset {
            name: "wanted".to_string(),
            download_url: "https://example.com/2".to_string(),
        },
    ];
    assert_eq!(find_asset(&assets, &"wanted".to_string()), Some(1));
    assert_eq!(find_asset(&assets, &"missing".to_string()), None);
    let no_assets: Vec<Asset> = Vec::new();
    assert_eq!(find_asset(&no_assets, &"wanted".to_string()), None);
}

#[test]
fn stale_entries_keep_order_and_spare_the_current_directory() {
    let entries = vec![
        "mcp-server-axiom-1.0.0".to_string(),
        "mcp-server-axiom-1.2.3".to_string(),
        "notes.txt".to_string(),
        "mcp-server-axiom-1.2.3".to_string(),
    ];
    let keep = "mcp-server-axiom-1.2.3".to_string();
    assert_eq!(
        stale_entries(&entries, &keep),
        vec!["mcp-server-axiom-1.0.0".to_string(), "notes.txt".to_string()]
    );
    let no_entries: Vec<String> = Vec::new();
    assert!(stale_entries(&no_entries, &keep).is_empty());
}
