//! The functions through which proto drives the Terraform tool: registration,
//! version files, the list of releases, version resolution, prebuilt
//! downloads and the executables of an installation.

use crate::error::PluginFailure;
use crate::outside::{
    load_versions_output_from, parse_unresolved_spec, parse_version, string_views,
    unresolved_is_canary, unresolved_spec_is_canary, unresolved_spec_parse, version_is_canary,
    version_parse, version_spec_is_canary, version_spec_text, version_text, versions_output_from,
};
use crate::platform::{
    arch_archive_label, arch_label, check_supported_os_and_arch, exe_file_name, exe_name,
    os_archive_label, os_label, platform_check, Arch, Os,
};
use crate::text::{contains_char, str_equal, trim, trimmed};
use proto_pdk::{LoadVersionsOutput, UnresolvedVersionSpec, Version, VersionSpec};
use vstd::prelude::*;
use vstd::string::*;

verus! {

/// The kind of tool that a plugin manages.
#[derive(Clone, Copy, Debug, PartialEq, Eq, Structural)]
pub enum ToolKind {
    CommandLine,
    Language,
    DependencyManager,
    VersionManager,
}

/// What the plugin tells proto about the tool when it is registered.
pub struct ToolRegistration {
    /// Human readable name of the tool.
    pub name: String,
    /// Kind of the tool.
    pub kind: ToolKind,
    /// Major, minor and patch number of the oldest proto that runs the plugin.
    pub minimum_proto_version: (u32, u32, u32),
    /// Version of the plugin itself, where its text parses.
    pub plugin_version: Option<Version>,
}

/// The files in which proto looks for a version of the tool.
pub struct VersionFiles {
    pub files: Vec<String>,
    pub ignore: Vec<String>,
}

/// How a requested version is resolved.
pub struct VersionResolution {
    /// A new alias or version to resolve in its place.
    pub candidate: Option<UnresolvedVersionSpec>,
    /// A version to use as it is.
    pub version: Option<VersionSpec>,
}

/// Where a prebuilt release archive and its checksums are downloaded from.
pub struct PrebuiltDownload {
    pub download_url: String,
    pub download_name: String,
    pub checksum_url: String,
    pub checksum_public_key: String,
}

/// An executable of an installed tool.
pub struct Executable {
    /// Name under which proto exposes the executable.
    pub name: String,
    /// Path of the executable file, relative to the installation.
    pub exe_path: String,
    /// Whether it is the tool's primary executable.
    pub primary: bool,
}

/// The tool's name as shown to users.
pub open spec fn tool_label() -> Seq<char> {
    "Terraform"@
}

/// The tool's name as shown to users.
pub fn tool_name() -> (s: &'static str)
    ensures
        s@ == tool_label(),
        s@ == "Terraform"@,
{
    "Terraform"
}

/// Registers the tool: a command line tool named Terraform that needs proto
/// 0.46.0 or newer. `plugin_version` is the plugin package's own version text,
/// reported when it parses as a version.
pub fn register_tool(plugin_version: &str) -> (r: ToolRegistration)
    ensures
        r.name@ == tool_label(),
        r.name@ == "Terraform"@,
        r.kind == ToolKind::CommandLine,
        r.minimum_proto_version == (0u32, 46u32, 0u32),
        r.plugin_version == (match version_parse(plugin_version@) {
            Ok(v) => Some(v),
            Err(_) => None::<Version>,
        }),
{
    let parsed = match parse_version(plugin_version) {
        Ok(v) => Some(v),
        Err(_) => None,
    };
    ToolRegistration {
        name: tool_name().to_owned(),
        kind: ToolKind::CommandLine,
        minimum_proto_version: (0, 46, 0),
        plugin_version: parsed,
    }
}

/// The name of the version file that tfenv and compatible tools read.
pub open spec fn version_file() -> Seq<char> {
    ".terraform-version"@
}

/// The name of the version file that tfenv and compatible tools read.
pub fn version_file_name() -> (s: &'static str)
    ensures
        s@ == version_file(),
        s@ == ".terraform-version"@,
{
    ".terraform-version"
}

/// Proto looks for a version in `.terraform-version` files, and ignores no path.
pub fn detect_version_files() -> (r: VersionFiles)
    ensures
        string_views(r.files@) == seq![version_file()],
        string_views(r.files@) == seq![".terraform-version"@],
        r.ignore@.len() == 0,
{
    let mut files: Vec<String> = Vec::new();
    files.push(version_file_name().to_owned());
    let ignore: Vec<String> = Vec::new();
    assert(string_views(files@) =~= seq![version_file()]);
    VersionFiles { files, ignore }
}

/// The text that is read as a version from a file named `file` holding
/// `content`: the content without surrounding whitespace, for a version file
/// whose trimmed content is not empty; nothing otherwise.
pub open spec fn version_file_text(file: Seq<char>, content: Seq<char>) -> Option<Seq<char>> {
    if file == version_file() && trimmed(content).len() > 0 {
        Some(trimmed(content))
    } else {
        None
    }
}

/// The text to read as a version from a file named `file` holding `content`.
pub fn version_text_of_file<'a>(file: &str, content: &'a str) -> (r: Option<&'a str>)
    ensures
        match r {
            Some(t) => version_file_text(file@, content@) == Some(t@),
            None => version_file_text(file@, content@) is None,
        },
{
    if str_equal(file, version_file_name()) {
        let text = trim(content);
        if !text.is_empty() {
            return Some(text);
        }
    }
    None
}

/// What reading a version from a file named `file` holding `content` gives.
pub open spec fn version_file_outcome(file: Seq<char>, content: Seq<char>) -> Result<
    Option<UnresolvedVersionSpec>,
    PluginFailure,
> {
    match version_file_text(file, content) {
        None => Ok(None),
        Some(text) => match unresolved_spec_parse(text) {
            Ok(spec) => Ok(Some(spec)),
            Err(e) => Err(PluginFailure::InvalidVersion(e)),
        },
    }
}

/// Reads the version in a `.terraform-version` file: its content without
/// surrounding whitespace, parsed as a version specification. Other files,
/// and version files with nothing but whitespace, give no version.
pub fn parse_version_file(file: &str, content: &str) -> (r: Result<
    Option<UnresolvedVersionSpec>,
    PluginFailure,
>)
    ensures
        r == version_file_outcome(file@, content@),
{
    match version_text_of_file(file, content) {
        None => Ok(None),
        Some(text) => match parse_unresolved_spec(text) {
            Ok(spec) => Ok(Some(spec)),
            Err(e) => Err(PluginFailure::InvalidVersion(e)),
        },
    }
}

/// Whether a version text names a release: it carries no build metadata,
/// which follows a `+`.
pub open spec fn is_release_version(v: Seq<char>) -> bool {
    !v.contains('+')
}

/// The version texts, in order, that name releases.
pub open spec fn release_filter(versions: Seq<Seq<char>>) -> Seq<Seq<char>> {
    versions.filter(|v: Seq<char>| is_release_version(v))
}

/// Keeps, in order, the version texts that carry no build metadata.
pub fn release_versions(versions: &Vec<String>) -> (r: Vec<String>)
    ensures
        string_views(r@) == release_filter(string_views(versions@)),
{
    let ghost all = string_views(versions@);
    let mut kept: Vec<String> = Vec::new();
    let mut i: usize = 0;
    while i < versions.len()
        invariant
            i <= versions@.len(),
            all == string_views(versions@),
            string_views(kept@) == release_filter(all.take(i as int)),
        decreases versions@.len() - i,
    {
        let v = &versions[i];
        proof {
            reveal_with_fuel(Seq::filter, 1);
            assert(all.take(i + 1).drop_last() =~= all.take(i as int));
            assert(all.take(i + 1).last() == v@);
        }
        if !contains_char(v.as_str(), '+') {
            kept.push(v.clone());
            assert(string_views(kept@) =~= release_filter(all.take(i as int)).push(v@));
        }
        i = i + 1;
    }
    assert(all.take(versions@.len() as int) =~= all);
    kept
}

/// What loading the releases from a list of published version texts gives.
pub open spec fn versions_outcome(versions: Seq<Seq<char>>) -> Result<
    LoadVersionsOutput,
    PluginFailure,
> {
    match load_versions_output_from(release_filter(versions)) {
        Ok(out) => Ok(out),
        Err(e) => Err(PluginFailure::InvalidVersion(e)),
    }
}

/// Builds the list of installable versions from the version texts that
/// HashiCorp publishes, leaving out those with build metadata.
pub fn load_versions(versions: &Vec<String>) -> (r: Result<LoadVersionsOutput, PluginFailure>)
    ensures
        r == versions_outcome(string_views(versions@)),
{
    let releases = release_versions(versions);
    match versions_output_from(releases) {
        Ok(out) => Ok(out),
        Err(e) => Err(PluginFailure::InvalidVersion(e)),
    }
}

/// How a requested version is resolved, given whether it is canary.
pub open spec fn resolution_outcome(canary: bool) -> Result<VersionResolution, PluginFailure> {
    if canary {
        Err(PluginFailure::UnsupportedCanary)
    } else {
        Ok(VersionResolution { candidate: None, version: None })
    }
}

/// Resolves a request that is, or is not, canary: canary is refused, anything
/// else is left to proto's own resolution.
pub fn version_resolution(canary: bool) -> (r: Result<VersionResolution, PluginFailure>)
    ensures
        r == resolution_outcome(canary),
{
    if canary {
        Err(PluginFailure::UnsupportedCanary)
    } else {
        Ok(VersionResolution { candidate: None, version: None })
    }
}

/// Resolves the requested version: canary is refused, anything else is left
/// to proto's own resolution.
pub fn resolve_version(initial: &UnresolvedVersionSpec) -> (r: Result<
    VersionResolution,
    PluginFailure,
>)
    ensures
        r == resolution_outcome(unresolved_spec_is_canary(*initial)),
        r is Err <==> unresolved_spec_is_canary(*initial),
        r matches Err(e) ==> e == PluginFailure::UnsupportedCanary,
        r matches Ok(res) ==> res.candidate is None && res.version is None,
{
    version_resolution(unresolved_is_canary(initial))
}

/// The directory of a release on the HashiCorp release server.
pub open spec fn release_dir_url(version: Seq<char>) -> Seq<char> {
    "https://releases.hashicorp.com/terraform/"@ + version + "/"@
}

/// The name of the release archive for a platform.
pub open spec fn archive_name(version: Seq<char>, os: Os, arch: Arch) -> Seq<char> {
    "terraform_"@ + version + "_"@ + os_label(os) + "_"@ + arch_label(arch) + ".zip"@
}

/// The name of a release's checksum file.
pub open spec fn checksums_name(version: Seq<char>) -> Seq<char> {
    "terraform_"@ + version + "_SHA256SUMS"@
}

/// The public key that signs HashiCorp's checksum files.
pub open spec fn signing_key_url() -> Seq<char> {
    "https://www.hashicorp.com/.well-known/pgp-key.txt"@
}

/// Whether `d` locates the release `version` for a platform.
pub open spec fn describes_release(d: PrebuiltDownload, version: Seq<char>, os: Os, arch: Arch) -> bool {
    &&& d.download_name@ == archive_name(version, os, arch)
    &&& d.download_url@ == release_dir_url(version) + archive_name(version, os, arch)
    &&& d.checksum_url@ == release_dir_url(version) + checksums_name(version)
    &&& d.checksum_public_key@ == signing_key_url()
}

/// Whether a prebuilt download is owed for a platform and a version that is,
/// or is not, canary; and if not, why.
pub open spec fn download_outcome(os: Os, arch: Arch, canary: bool) -> Result<(), PluginFailure> {
    match platform_check(os, arch) {
        Err(e) => Err(e),
        Ok(()) => if canary {
            Err(PluginFailure::UnsupportedCanary)
        } else {
            Ok(())
        },
    }
}

/// Locates the release archive of the version whose text is `version`, which
/// is or is not canary, for a platform.
pub fn release_download(os: Os, arch: Arch, version: &str, canary: bool) -> (r: Result<
    PrebuiltDownload,
    PluginFailure,
>)
    ensures
        match download_outcome(os, arch, canary) {
            Err(e) => r == Err::<PrebuiltDownload, PluginFailure>(e),
            Ok(_) => r is Ok && describes_release(r->Ok_0, version@, os, arch),
        },
{
    match check_supported_os_and_arch(os, arch) {
        Err(e) => {
            return Err(e);
        },
        Ok(()) => {},
    }
    if canary {
        return Err(PluginFailure::UnsupportedCanary);
    }
    let os_name = os_archive_label(os);
    let arch_name = arch_archive_label(arch);

    let mut name = "terraform_".to_owned();
    name.append(version);
    name.append("_");
    name.append(os_name);
    name.append("_");
    name.append(arch_name);
    name.append(".zip");

    let mut dir = "https://releases.hashicorp.com/terraform/".to_owned();
    dir.append(version);
    dir.append("/");

    let mut download_url = dir.clone();
    download_url.append(name.as_str());

    let mut checksum_url = dir.clone();
    checksum_url.append("terraform_");
    checksum_url.append(version);
    checksum_url.append("_SHA256SUMS");

    let checksum_public_key = "https://www.hashicorp.com/.well-known/pgp-key.txt".to_owned();
    let d = PrebuiltDownload {
        download_url,
        download_name: name,
        checksum_url,
        checksum_public_key,
    };
    assert(d.download_url@ =~= release_dir_url(version@) + archive_name(version@, os, arch));
    assert(d.checksum_url@ =~= release_dir_url(version@) + checksums_name(version@));
    Ok(d)
}

/// Locates the prebuilt release archive of `version` for the host platform:
/// refused for platforms without releases and for canary versions.
pub fn download_prebuilt(os: Os, arch: Arch, version: &VersionSpec) -> (r: Result<
    PrebuiltDownload,
    PluginFailure,
>)
    ensures
        match download_outcome(os, arch, version_spec_is_canary(*version)) {
            Err(e) => r == Err::<PrebuiltDownload, PluginFailure>(e),
            Ok(_) => r is Ok && describes_release(r->Ok_0, version_spec_text(*version), os, arch),
        },
{
    let canary = version_is_canary(version);
    let text = version_text(version);
    release_download(os, arch, text.as_str(), canary)
}

/// The executable name of the tool.
pub open spec fn executable_label() -> Seq<char> {
    "terraform"@
}

/// The tool's one executable, `terraform`, primary, at the installation's
/// root, with `.exe` appended on Windows.
pub fn locate_executables(os: Os) -> (r: Executable)
    ensures
        r.name@ == executable_label(),
        r.name@ == "terraform"@,
        r.exe_path@ == exe_file_name(os, executable_label()),
        r.exe_path@ == (if os is Windows {
            "terraform.exe"@
        } else {
            "terraform"@
        }),
        r.primary,
{
    let exe_path = exe_name(os, "terraform");
    proof {
        reveal_strlit("terraform");
        reveal_strlit("exe");
        reveal_strlit(".exe");
        reveal_strlit("terraform.exe");
        let n = "terraform"@;
        assert(n.subrange(n.len() - 3, n.len() as int) != "exe"@) by {
            assert(n.subrange(n.len() - 3, n.len() as int)[0] == 'o');
        }
        assert(n + ".exe"@ =~= "terraform.exe"@);
    }
    Executable { name: "terraform".to_owned(), exe_path, primary: true }
}

} // verus!
