use proto_pdk::{UnresolvedVersionSpec, Version, VersionSpec};
use proto_terraform::error::PluginFailure;
use proto_terraform::platform::{check_supported_os_and_arch, exe_name, Arch, Os};
use proto_terraform::plugin::{
    detect_version_files, download_prebuilt, load_versions, locate_executables,
    parse_version_file, register_tool, release_download, release_versions, resolve_version,
    tool_name, version_file_name, version_resolution, version_text_of_file, ToolKind,
};
use proto_terraform::text::{contains_char, str_ends_with, str_equal, trim};

fn strings(values: &[&str]) -> Vec<String> {
    values.iter().map(|v| v.to_string()).collect()
}

fn version(text: &str) -> VersionSpec {
    VersionSpec::parse(text).unwrap()
}

fn assert_download(os: Os, arch: Arch, url: &str, name: &str) {
    let download = download_prebuilt(os, arch, &version("1.5.7")).unwrap();
    assert_eq!(download.download_url, url);
    assert_eq!(download.download_name, name);
    assert_eq!(
        download.checksum_url,
        "https://releases.hashicorp.com/terraform/1.5.7/terraform_1.5.7_SHA256SUMS"
    );
    assert_eq!(
        download.checksum_public_key,
        "https://www.hashicorp.com/.well-known/pgp-key.txt"
    );
}

#[test]
fn registers_tool_metadata() {
    let output = register_tool("0.1.0");
    assert_eq!(output.name, "Terraform");
    assert_eq!(output.kind, ToolKind::CommandLine);
}

#[test]
fn registration_names_minimum_proto_version_and_plugin_version() {
    let output = register_tool("0.3.1");
    assert_eq!(output.minimum_proto_version, (0, 46, 0));
    assert_eq!(output.plugin_version, Some(Version::new(0, 3, 1)));
    assert_eq!(register_tool("not a version!").plugin_version, None);
    assert_eq!(tool_name(), "Terraform");
}

#[test]
fn loads_versions_from_hashicorp() {
    let published = strings(&["1.5.7", "1.9.0", "0.12.31", "1.6.0-alpha20230719"]);
    let output = load_versions(&published).unwrap();
    assert!(!output.versions.is_empty());
}

#[test]
fn sets_latest_alias() {
    let published = strings(&["1.5.7", "1.9.0", "0.12.31", "1.10.0-beta1"]);
    let output = load_versions(&published).unwrap();
    assert!(output.latest.is_some());
    assert!(output.aliases.contains_key("latest"));
    assert_eq!(output.aliases.get("latest"), output.latest.as_ref());
    assert_eq!(output.latest, Some(UnresolvedVersionSpec::parse("1.9.0").unwrap()));
}

#[test]
fn load_versions_leaves_out_build_metadata() {
    let published = strings(&["1.5.7", "1.6.0+ent", "1.9.0", "0.11.0+ent.hsm"]);
    let output = load_versions(&published).unwrap();
    assert_eq!(output.versions, vec![version("1.5.7"), version("1.9.0")]);
}

#[test]
fn load_versions_rejects_invalid_version_text() {
    let published = strings(&["1.5.7", "not a version!"]);
    assert!(matches!(
        load_versions(&published),
        Err(PluginFailure::InvalidVersion(_))
    ));
}

#[test]
fn release_versions_keep_order_and_drop_plus() {
    let published = strings(&["1.2.0", "1.1.0+ent", "0.9.0", "+", "1.0.0"]);
    assert_eq!(
        release_versions(&published),
        strings(&["1.2.0", "0.9.0", "1.0.0"])
    );
    assert!(release_versions(&Vec::new()).is_empty());
}

#[test]
fn detects_version_files() {
    let output = detect_version_files();
    assert_eq!(output.files, vec![".terraform-version".to_string()]);
    assert!(output.ignore.is_empty());
    assert_eq!(version_file_name(), ".terraform-version");
}

#[test]
fn parses_terraform_version_file() {
    let output = parse_version_file(".terraform-version", "1.5.7\n").unwrap();
    assert_eq!(output.unwrap(), UnresolvedVersionSpec::parse("1.5.7").unwrap());
}

#[test]
fn returns_none_for_empty_version_file() {
    let output = parse_version_file(".terraform-version", "").unwrap();
    assert_eq!(output, None);
}

#[test]
fn version_file_with_only_whitespace_gives_no_version() {
    assert_eq!(parse_version_file(".terraform-version", " \t\r\n ").unwrap(), None);
}

#[test]
fn other_files_give_no_version() {
    assert_eq!(parse_version_file(".tool-versions", "1.5.7").unwrap(), None);
    assert_eq!(parse_version_file(".terraform-version.bak", "1.5.7").unwrap(), None);
}

#[test]
fn version_file_requirements_and_aliases_parse() {
    let range = parse_version_file(".terraform-version", "  ~1.5\n").unwrap();
    assert_eq!(range, Some(UnresolvedVersionSpec::parse("~1.5").unwrap()));
    let alias = parse_version_file(".terraform-version", "latest").unwrap();
    assert_eq!(alias, Some(UnresolvedVersionSpec::parse("latest").unwrap()));
}

#[test]
fn version_file_with_invalid_content_fails() {
    assert!(matches!(
        parse_version_file(".terraform-version", "1.5.7 !!"),
        Err(PluginFailure::InvalidVersion(_))
    ));
}

#[test]
fn surrounding_whitespace_does_not_change_the_version() {
    let plain = parse_version_file(".terraform-version", "1.2.3").unwrap();
    let padded = parse_version_file(".terraform-version", "\u{a0}\t 1.2.3 \r\n\u{3000}").unwrap();
    assert_eq!(plain, padded);
}

#[test]
fn version_text_of_file_trims() {
    assert_eq!(version_text_of_file(".terraform-version", " 1.5.7\n"), Some("1.5.7"));
    assert_eq!(version_text_of_file(".terraform-version", "\n\n"), None);
    assert_eq!(version_text_of_file("terraform-version", "1.5.7"), None);
}

#[test]
fn resolve_version_refuses_canary() {
    let canary = UnresolvedVersionSpec::parse("canary").unwrap();
    assert!(matches!(
        resolve_version(&canary),
        Err(PluginFailure::UnsupportedCanary)
    ));
    let latest = UnresolvedVersionSpec::parse("latest").unwrap();
    let resolution = resolve_version(&latest).unwrap();
    assert!(resolution.candidate.is_none());
    assert!(resolution.version.is_none());
    assert!(matches!(
        version_resolution(true),
        Err(PluginFailure::UnsupportedCanary)
    ));
}

#[test]
fn supports_linux_amd64() {
    assert_download(
        Os::Linux,
        Arch::X64,
        "https://releases.hashicorp.com/terraform/1.5.7/terraform_1.5.7_linux_amd64.zip",
        "terraform_1.5.7_linux_amd64.zip",
    );
}

#[test]
fn supports_linux_arm64() {
    assert_download(
        Os::Linux,
        Arch::Arm64,
        "https://releases.hashicorp.com/terraform/1.5.7/terraform_1.5.7_linux_arm64.zip",
        "terraform_1.5.7_linux_arm64.zip",
    );
}

#[test]
fn supports_macos_arm64() {
    assert_download(
        Os::MacOS,
        Arch::Arm64,
        "https://releases.hashicorp.com/terraform/1.5.7/terraform_1.5.7_darwin_arm64.zip",
        "terraform_1.5.7_darwin_arm64.zip",
    );
}

#[test]
fn supports_macos_x64() {
    assert_download(
        Os::MacOS,
        Arch::X64,
        "https://releases.hashicorp.com/terraform/1.5.7/terraform_1.5.7_darwin_amd64.zip",
        "terraform_1.5.7_darwin_amd64.zip",
    );
}

#[test]
fn supports_windows_x64() {
    assert_download(
        Os::Windows,
        Arch::X64,
        "https://releases.hashicorp.com/terraform/1.5.7/terraform_1.5.7_windows_amd64.zip",
        "terraform_1.5.7_windows_amd64.zip",
    );
}

#[test]
fn supports_linux_x86_and_arm_and_windows_x86() {
    assert_download(
        Os::Linux,
        Arch::X86,
        "https://releases.hashicorp.com/terraform/1.5.7/terraform_1.5.7_linux_386.zip",
        "terraform_1.5.7_linux_386.zip",
    );
    assert_download(
        Os::Linux,
        Arch::Arm,
        "https://releases.hashicorp.com/terraform/1.5.7/terraform_1.5.7_linux_arm.zip",
        "terraform_1.5.7_linux_arm.zip",
    );
    assert_download(
        Os::Windows,
        Arch::X86,
        "https://releases.hashicorp.com/terraform/1.5.7/terraform_1.5.7_windows_386.zip",
        "terraform_1.5.7_windows_386.zip",
    );
}

#[test]
fn unsupported_platforms_are_refused() {
    let v = version("1.5.7");
    assert!(matches!(
        download_prebuilt(Os::Other, Arch::X64, &v),
        Err(PluginFailure::UnsupportedOs)
    ));
    assert!(matches!(
        download_prebuilt(Os::MacOS, Arch::X86, &v),
        Err(PluginFailure::UnsupportedTarget)
    ));
    assert!(matches!(
        download_prebuilt(Os::Windows, Arch::Arm64, &v),
        Err(PluginFailure::UnsupportedTarget)
    ));
    assert!(matches!(
        download_prebuilt(Os::Linux, Arch::Other, &v),
        Err(PluginFailure::UnsupportedTarget)
    ));
    assert!(check_supported_os_and_arch(Os::MacOS, Arch::Arm64).is_ok());
}

#[test]
fn canary_download_is_refused() {
    assert!(matches!(
        download_prebuilt(Os::Linux, Arch::X64, &version("canary")),
        Err(PluginFailure::UnsupportedCanary)
    ));
    assert!(matches!(
        download_prebuilt(Os::Other, Arch::X64, &version("canary")),
        Err(PluginFailure::UnsupportedOs)
    ));
    assert!(matches!(
        release_download(Os::Linux, Arch::X64, "1.0.0", true),
        Err(PluginFailure::UnsupportedCanary)
    ));
}

#[test]
fn release_download_uses_given_version_text() {
    let d = release_download(Os::Windows, Arch::X86, "0.12.31", false).unwrap();
    assert_eq!(
        d.download_url,
        "https://releases.hashicorp.com/terraform/0.12.31/terraform_0.12.31_windows_386.zip"
    );
    assert_eq!(
        d.checksum_url,
        "https://releases.hashicorp.com/terraform/0.12.31/terraform_0.12.31_SHA256SUMS"
    );
}

#[test]
fn platforms_share_checksum_file_and_differ_in_archive() {
    let v = version("1.9.0");
    let a = download_prebuilt(Os::Linux, Arch::Arm, &v).unwrap();
    let b = download_prebuilt(Os::Linux, Arch::Arm64, &v).unwrap();
    assert_eq!(a.checksum_url, b.checksum_url);
    assert_ne!(a.download_name, b.download_name);
    assert!(a.download_url.ends_with(&a.download_name));
}

#[test]
fn locates_unix_bin() {
    let exe = locate_executables(Os::Linux);
    assert_eq!(exe.name, "terraform");
    assert_eq!(exe.exe_path, "terraform");
    assert!(exe.primary);
    assert_eq!(locate_executables(Os::MacOS).exe_path, "terraform");
}

#[test]
fn locates_windows_bin() {
    let exe = locate_executables(Os::Windows);
    assert_eq!(exe.name, "terraform");
    assert_eq!(exe.exe_path, "terraform.exe");
}

#[test]
fn exe_name_keeps_names_ending_in_exe() {
    assert_eq!(exe_name(Os::Windows, "tool.exe"), "tool.exe");
    assert_eq!(exe_name(Os::Windows, "toolexe"), "toolexe");
    assert_eq!(exe_name(Os::Windows, "tool"), "tool.exe");
    assert_eq!(exe_name(Os::Linux, "tool"), "tool");
}

#[test]
fn text_helpers() {
    assert_eq!(trim("  a b \n"), "a b");
    assert_eq!(trim(" \u{2003} "), "");
    assert_eq!(trim("x"), "x");
    assert!(contains_char("1.0+ent", '+'));
    assert!(!contains_char("1.0", '+'));
    assert!(str_equal("abc", "abc"));
    assert!(!str_equal("abc", "abd"));
    assert!(!str_equal("abc", "ab"));
    assert!(str_ends_with("terraform.exe", "exe"));
    assert!(!str_ends_with("ex", "exe"));
}
