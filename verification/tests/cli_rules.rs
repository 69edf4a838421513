use remotext::cli::{clamp_exit_code, network_mode};
use remotext::files::temp_file_name;
use remotext::server::NetworkMode;
use remotext::update::{
    asset_name_for_current_platform, check_for_update, is_newer_version, plan_self_update, GithubAsset, GithubRelease,
};

#[test]
fn exit_codes_are_clamped() {
    assert_eq!(clamp_exit_code(0), 0);
    assert_eq!(clamp_exit_code(7), 7);
    assert_eq!(clamp_exit_code(255), 255);
    assert_eq!(clamp_exit_code(256), 1);
    assert_eq!(clamp_exit_code(-1), 1);
    assert_eq!(network_mode(true), NetworkMode::LocalOnly);
    assert_eq!(network_mode(false), NetworkMode::Public);
}

#[test]
fn staging_file_names() {
    assert_eq!(temp_file_name("upload", 12, 34, Some("a.txt")), ".remotext-upload-12-34-a.txt.tmp");
    assert_eq!(temp_file_name("download", 0, 0, None), ".remotext-download-0-0-remotext-file.tmp");
}

fn release(tag: &str) -> GithubRelease {
    GithubRelease {
        tag_name: tag.to_string(),
        assets: vec![GithubAsset {
            name: "remotext-linux-x86_64.tar.gz".to_string(),
            browser_download_url: "https://example.invalid/a".to_string(),
        }],
    }
}

#[test]
fn update_checks_version_and_platform() {
    assert_eq!(check_for_update("0.3.0", &release("v0.3.0")), None);
    assert_eq!(check_for_update("0.3.0", &release("v0.4.0")), Some("0.4.0".to_string()));
    assert_eq!(check_for_update("0.3.0", &release("0.4.0")), Some("0.4.0".to_string()));
    assert_eq!(check_for_update("0.3.0", &release("v0.2.0")), None);
    assert_eq!(check_for_update("0.3.0", &release("v0.2.9")), None);
    assert_eq!(check_for_update("0.3.0", &release("v0.10.0")), Some("0.10.0".to_string()));
    assert_eq!(check_for_update("0.3.0", &release("v0.3.0.1")), Some("0.3.0.1".to_string()));
    assert_eq!(check_for_update("0.3.0", &release("v0.3")), None);
    assert_eq!(check_for_update("0.3.0", &release("v1.0.0-rc.1")), Some("1.0.0-rc.1".to_string()));
    assert_eq!(check_for_update("0.3.0", &release("nightly")), Some("nightly".to_string()));
    assert_eq!(check_for_update("nightly", &release("nightly")), None);
    assert!(is_newer_version("1.0.0", "0.99.99"));
    assert!(is_newer_version("1..0", "0.1"));
    assert!(!is_newer_version("1..0", "1..0"));
    assert_eq!(asset_name_for_current_platform("linux", "aarch64"), Ok("remotext-linux-aarch64".to_string()));
    assert!(asset_name_for_current_platform("plan9", "x86_64").is_err());
    assert!(asset_name_for_current_platform("macos", "riscv64").is_err());

    let plan = plan_self_update(&release("v0.4.0"), "0.3.0", "linux", "x86_64", false).unwrap();
    assert_eq!(plan.latest, "0.4.0");
    assert_eq!(plan.filename, "remotext-linux-x86_64.tar.gz");
    assert_eq!(plan.download_url, "https://example.invalid/a");
    assert_eq!(plan.binary_name, "remotext");
    assert_eq!(
        plan_self_update(&release("v0.3.0"), "0.3.0", "linux", "x86_64", false).unwrap_err(),
        "already on latest version v0.3.0"
    );
    assert_eq!(
        plan_self_update(&release("v0.2.0"), "0.3.0", "linux", "x86_64", false).unwrap_err(),
        "already on latest version v0.2.0"
    );
    assert_eq!(
        plan_self_update(&release("v0.4.0"), "0.3.0", "plan9", "x86_64", false).unwrap_err(),
        "unsupported operating system for self-update"
    );
    assert_eq!(
        plan_self_update(&release("v0.4.0"), "0.3.0", "linux", "riscv64", false).unwrap_err(),
        "unsupported architecture for self-update"
    );
    let mut twice = release("v0.4.0");
    twice.assets.push(GithubAsset {
        name: "remotext-linux-x86_64.tar.gz".to_string(),
        browser_download_url: "https://example.invalid/b".to_string(),
    });
    assert_eq!(plan_self_update(&twice, "0.3.0", "linux", "x86_64", false).unwrap().download_url, "https://example.invalid/a");
    assert_eq!(
        plan_self_update(&release("v0.4.0"), "0.3.0", "windows", "x86_64", true).unwrap_err(),
        "release asset remotext-windows-x86_64.zip not found for this platform"
    );
}
