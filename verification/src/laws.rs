//! Properties of the plugin that span its functions or all of their inputs.

use crate::error::PluginFailure;
use crate::platform::{arch_label, exe_file_name, os_label, platform_check, platform_supported, Arch, Os};
use crate::plugin::{
    archive_name, describes_release, download_outcome, is_release_version, release_dir_url,
    release_filter, resolution_outcome, version_file, version_file_outcome, version_file_text,
    versions_outcome, PrebuiltDownload,
};
use crate::outside::{load_versions_output_from, unresolved_spec_parse};
use crate::text::{is_white_space, trim_end, trim_start, trimmed};
use vstd::prelude::*;

verus! {

/// Whether every character of `s` is whitespace.
pub open spec fn all_white_space(s: Seq<char>) -> bool {
    forall|i: int| 0 <= i < s.len() ==> is_white_space(#[trigger] s[i])
}

proof fn lemma_trim_start_skips_prefix(pre: Seq<char>, s: Seq<char>)
    requires
        all_white_space(pre),
    ensures
        trim_start(pre + s) == trim_start(s),
    decreases pre.len(),
{
    if pre.len() > 0 {
        assert((pre + s)[0] == pre[0]);
        assert((pre + s).drop_first() =~= pre.drop_first() + s);
        lemma_trim_start_skips_prefix(pre.drop_first(), s);
    } else {
        assert(pre + s =~= s);
    }
}

proof fn lemma_trim_end_skips_suffix(s: Seq<char>, post: Seq<char>)
    requires
        all_white_space(post),
    ensures
        trim_end(s + post) == trim_end(s),
    decreases post.len(),
{
    if post.len() > 0 {
        assert((s + post).last() == post.last());
        assert((s + post).drop_last() =~= s + post.drop_last());
        lemma_trim_end_skips_suffix(s, post.drop_last());
    } else {
        assert(s + post =~= s);
    }
}

proof fn lemma_trim_start_of_white_space(s: Seq<char>)
    requires
        all_white_space(s),
    ensures
        trim_start(s).len() == 0,
    decreases s.len(),
{
    if s.len() > 0 {
        lemma_trim_start_of_white_space(s.drop_first());
    }
}

proof fn lemma_trim_start_append(s: Seq<char>, post: Seq<char>)
    requires
        all_white_space(post),
    ensures
        trim_start(s).len() > 0 ==> trim_start(s + post) == trim_start(s) + post,
        trim_start(s).len() == 0 ==> trim_start(s + post).len() == 0,
    decreases s.len(),
{
    if s.len() == 0 {
        assert(s + post =~= post);
        lemma_trim_start_of_white_space(post);
    } else {
        assert((s + post)[0] == s[0]);
        if is_white_space(s[0]) {
            assert((s + post).drop_first() =~= s.drop_first() + post);
            lemma_trim_start_append(s.drop_first(), post);
        }
    }
}

/// Whitespace around a version file's content does not change what is read
/// from it: a version file with a trailing newline reads as one without.
pub proof fn law_surrounding_white_space_ignored(
    file: Seq<char>,
    pre: Seq<char>,
    content: Seq<char>,
    post: Seq<char>,
)
    requires
        all_white_space(pre),
        all_white_space(post),
    ensures
        version_file_outcome(file, pre + content + post) == version_file_outcome(file, content),
{
    lemma_trim_start_skips_prefix(pre, content + post);
    assert(pre + content + post =~= pre + (content + post));
    lemma_trim_start_append(content, post);
    if trim_start(content).len() > 0 {
        lemma_trim_end_skips_suffix(trim_start(content), post);
    } else {
        assert(trimmed(content).len() == 0);
        assert(trimmed(pre + content + post).len() == 0);
    }
    assert(trimmed(pre + content + post) == trimmed(content));
}

/// The versions passed on to proto are exactly the published versions that
/// carry no build metadata: none with a `+`, and every one without.
pub proof fn law_release_versions_exact(versions: Seq<Seq<char>>, v: Seq<char>)
    ensures
        release_filter(versions).contains(v) <==> (versions.contains(v) && !v.contains('+')),
        release_filter(versions) == versions.filter(|x: Seq<char>| !x.contains('+')),
{
    let pred = |x: Seq<char>| is_release_version(x);
    assert(pred =~= (|x: Seq<char>| !x.contains('+')));
    if release_filter(versions).contains(v) {
        versions.lemma_filter_contains_rev(pred, v);
        let i = choose|i: int| 0 <= i < versions.filter(pred).len() && versions.filter(pred)[i] == v;
        versions.lemma_filter_pred(pred, i);
    }
    if versions.contains(v) && !v.contains('+') {
        let i = choose|i: int| 0 <= i < versions.len() && versions[i] == v;
        versions.lemma_filter_contains(pred, i);
    }
}

/// Loading the releases hands the version-list builder exactly the published
/// texts without a `+`, in their order, and fails only where it fails.
pub proof fn law_load_versions_passes_all_releases(versions: Seq<Seq<char>>)
    ensures
        versions_outcome(versions) == (match load_versions_output_from(
            versions.filter(|x: Seq<char>| !x.contains('+')),
        ) {
            Ok(out) => Ok(out),
            Err(e) => Err(PluginFailure::InvalidVersion(e)),
        }),
{
    law_release_versions_exact(versions, Seq::empty());
}

/// Canary versions are refused alike when a version is resolved and when a
/// prebuilt is downloaded on a supported platform.
pub proof fn law_canary_refused(os: Os, arch: Arch)
    requires
        platform_supported(os, arch),
    ensures
        resolution_outcome(true) == Err::<crate::plugin::VersionResolution, PluginFailure>(
            PluginFailure::UnsupportedCanary,
        ),
        download_outcome(os, arch, true) == Err::<(), PluginFailure>(
            PluginFailure::UnsupportedCanary,
        ),
        download_outcome(os, arch, false) == Ok::<(), PluginFailure>(()),
{
}

/// A release's archive and its checksum file lie in the same directory of the
/// release server, and all platforms of a release share the checksum file and
/// the signing key.
pub proof fn law_release_files_share_directory(
    d1: PrebuiltDownload,
    d2: PrebuiltDownload,
    version: Seq<char>,
    os1: Os,
    arch1: Arch,
    os2: Os,
    arch2: Arch,
)
    requires
        describes_release(d1, version, os1, arch1),
        describes_release(d2, version, os2, arch2),
    ensures
        d1.download_url@ == release_dir_url(version) + d1.download_name@,
        d1.checksum_url@ == d2.checksum_url@,
        d1.checksum_public_key@ == d2.checksum_public_key@,
        d1.checksum_url@.subrange(0, release_dir_url(version).len() as int) == release_dir_url(
            version,
        ),
{
    assert(d1.checksum_url@.subrange(0, release_dir_url(version).len() as int)
        =~= release_dir_url(version));
}

/// Each supported platform gets an archive of its own: two supported
/// platforms with the same archive name for a release are the same platform.
pub proof fn law_archive_names_distinct(version: Seq<char>, os1: Os, arch1: Arch, os2: Os, arch2: Arch)
    requires
        platform_supported(os1, arch1),
        platform_supported(os2, arch2),
        archive_name(version, os1, arch1) == archive_name(version, os2, arch2),
    ensures
        os1 == os2,
        arch1 == arch2,
{
    reveal_strlit("terraform_");
    reveal_strlit("_");
    reveal_strlit(".zip");
    reveal_strlit("linux");
    reveal_strlit("darwin");
    reveal_strlit("windows");
    reveal_strlit("amd64");
    reveal_strlit("arm64");
    reveal_strlit("386");
    reveal_strlit("arm");
    let prefix = "terraform_"@ + version + "_"@;
    let tail1 = os_label(os1) + "_"@ + arch_label(arch1) + ".zip"@;
    let tail2 = os_label(os2) + "_"@ + arch_label(arch2) + ".zip"@;
    assert(archive_name(version, os1, arch1) =~= prefix + tail1);
    assert(archive_name(version, os2, arch2) =~= prefix + tail2);
    let n = prefix.len() as int;
    assert((prefix + tail1).subrange(n, (prefix + tail1).len() as int) =~= tail1);
    assert((prefix + tail2).subrange(n, (prefix + tail2).len() as int) =~= tail2);
    assert(tail1 == tail2);
    assert(tail1[0] == os_label(os1)[0]);
    assert(tail2[0] == os_label(os2)[0]);
    assert(os1 == os2);
    let k = os_label(os1).len() as int + 1;
    assert(tail1.len() == k + arch_label(arch1).len() + 4);
    assert(tail2.len() == k + arch_label(arch2).len() + 4);
    assert(tail1[k] == arch_label(arch1)[0]);
    assert(tail2[k] == arch_label(arch2)[0]);
    assert(tail1[k + 1] == arch_label(arch1)[1]);
    assert(tail2[k + 1] == arch_label(arch2)[1]);
}

/// The file that proto is told to look for is the file whose content is read
/// as a version, whenever that content is more than whitespace; any other file
/// name gives no version.
pub proof fn law_detected_file_is_read(file: Seq<char>, content: Seq<char>)
    requires
        trimmed(content).len() > 0,
    ensures
        file == version_file() ==> version_file_text(file, content) == Some(trimmed(content)),
        file != version_file() ==> version_file_outcome(file, content) == Ok::<
            Option<proto_pdk::UnresolvedVersionSpec>,
            PluginFailure,
        >(None),
{
}

/// Trimming removes whitespace and nothing else: spaces, tabs, line feeds
/// and carriage returns are whitespace, and no visible ASCII character (digit,
/// letter or punctuation) is.
pub proof fn law_white_space_is_invisible(c: char)
    ensures
        ('!' <= c && c <= '~') ==> !is_white_space(c),
        (c == ' ' || c == '\t' || c == '\n' || c == '\r') ==> is_white_space(c),
{
}

/// A version file holding a version text `t` that begins and ends with a
/// visible character, padded by spaces, tabs and line breaks, reads as the
/// parse of `t` itself; any other file reads as no version.
pub proof fn law_version_file_reads_padded_text(
    file: Seq<char>,
    pre: Seq<char>,
    t: Seq<char>,
    post: Seq<char>,
)
    requires
        forall|i: int|
            0 <= i < pre.len() ==> (#[trigger] pre[i] == ' ' || pre[i] == '\t' || pre[i] == '\n'
                || pre[i] == '\r'),
        forall|i: int|
            0 <= i < post.len() ==> (#[trigger] post[i] == ' ' || post[i] == '\t' || post[i]
                == '\n' || post[i] == '\r'),
        t.len() > 0,
        '!' <= t[0] && t[0] <= '~',
        '!' <= t.last() && t.last() <= '~',
    ensures
        trimmed(pre + t + post) == t,
        file == ".terraform-version"@ ==> version_file_outcome(file, pre + t + post) == (match unresolved_spec_parse(t) {
            Ok(spec) => Ok(Some(spec)),
            Err(e) => Err(PluginFailure::InvalidVersion(e)),
        }),
        file != ".terraform-version"@ ==> version_file_outcome(file, pre + t + post) == Ok::<
            Option<proto_pdk::UnresolvedVersionSpec>,
            PluginFailure,
        >(None),
{
    law_white_space_is_invisible(t[0]);
    law_white_space_is_invisible(t.last());
    assert forall|i: int| 0 <= i < pre.len() implies is_white_space(#[trigger] pre[i]) by {
        law_white_space_is_invisible(pre[i]);
    }
    assert forall|i: int| 0 <= i < post.len() implies is_white_space(#[trigger] post[i]) by {
        law_white_space_is_invisible(post[i]);
    }
    law_surrounding_white_space_ignored(file, pre, t, post);
    assert(trim_start(t) == t);
    assert(trim_end(t) == t);
    assert(trimmed(pre + t + post) == t) by {
        lemma_trim_start_skips_prefix(pre, t + post);
        assert(pre + t + post =~= pre + (t + post));
        lemma_trim_start_append(t, post);
        lemma_trim_end_skips_suffix(t, post);
    }
    assert(version_file() == ".terraform-version"@);
}

/// Where a prebuilt release lives: for every version text `v`, taken
/// verbatim, the archive is `terraform_{v}_{os}_{arch}.zip` in the directory
/// `https://releases.hashicorp.com/terraform/{v}/`, the checksums are
/// `terraform_{v}_SHA256SUMS` in the same directory, and the checksums are
/// signed with HashiCorp's published PGP key.
pub proof fn law_release_locations(d: PrebuiltDownload, v: Seq<char>, os: Os, arch: Arch)
    requires
        describes_release(d, v, os, arch),
        platform_supported(os, arch),
    ensures
        d.download_url@ == "https://releases.hashicorp.com/terraform/"@ + v + "/"@ + d.download_name@,
        d.checksum_url@ == "https://releases.hashicorp.com/terraform/"@ + v + "/terraform_"@ + v
            + "_SHA256SUMS"@,
        d.checksum_public_key@ == "https://www.hashicorp.com/.well-known/pgp-key.txt"@,
        os == Os::Linux && arch == Arch::X64 ==> d.download_name@ == "terraform_"@ + v
            + "_linux_amd64.zip"@,
        os == Os::Linux && arch == Arch::Arm64 ==> d.download_name@ == "terraform_"@ + v
            + "_linux_arm64.zip"@,
        os == Os::Linux && arch == Arch::X86 ==> d.download_name@ == "terraform_"@ + v
            + "_linux_386.zip"@,
        os == Os::Linux && arch == Arch::Arm ==> d.download_name@ == "terraform_"@ + v
            + "_linux_arm.zip"@,
        os == Os::MacOS && arch == Arch::X64 ==> d.download_name@ == "terraform_"@ + v
            + "_darwin_amd64.zip"@,
        os == Os::MacOS && arch == Arch::Arm64 ==> d.download_name@ == "terraform_"@ + v
            + "_darwin_arm64.zip"@,
        os == Os::Windows && arch == Arch::X64 ==> d.download_name@ == "terraform_"@ + v
            + "_windows_amd64.zip"@,
        os == Os::Windows && arch == Arch::X86 ==> d.download_name@ == "terraform_"@ + v
            + "_windows_386.zip"@,
{
    reveal_strlit("/");
    reveal_strlit("/terraform_");
    reveal_strlit("terraform_");
    reveal_strlit("_");
    reveal_strlit(".zip");
    reveal_strlit("linux");
    reveal_strlit("darwin");
    reveal_strlit("windows");
    reveal_strlit("amd64");
    reveal_strlit("arm64");
    reveal_strlit("386");
    reveal_strlit("arm");
    reveal_strlit("_linux_amd64.zip");
    reveal_strlit("_linux_arm64.zip");
    reveal_strlit("_linux_386.zip");
    reveal_strlit("_linux_arm.zip");
    reveal_strlit("_darwin_amd64.zip");
    reveal_strlit("_darwin_arm64.zip");
    reveal_strlit("_windows_amd64.zip");
    reveal_strlit("_windows_386.zip");
    let base = "https://releases.hashicorp.com/terraform/"@;
    assert(d.download_url@ =~= base + v + "/"@ + d.download_name@);
    assert(d.checksum_url@ =~= base + v + "/terraform_"@ + v + "_SHA256SUMS"@);
    let name = "terraform_"@ + v + "_"@ + os_label(os) + "_"@ + arch_label(arch) + ".zip"@;
    assert(d.download_name@ == name);
    let tail = "_"@ + os_label(os) + "_"@ + arch_label(arch) + ".zip"@;
    assert(name =~= "terraform_"@ + v + tail);
    if os == Os::Linux && arch == Arch::X64 {
        assert(tail =~= "_linux_amd64.zip"@);
    } else if os == Os::Linux && arch == Arch::Arm64 {
        assert(tail =~= "_linux_arm64.zip"@);
    } else if os == Os::Linux && arch == Arch::X86 {
        assert(tail =~= "_linux_386.zip"@);
    } else if os == Os::Linux && arch == Arch::Arm {
        assert(tail =~= "_linux_arm.zip"@);
    } else if os == Os::MacOS && arch == Arch::X64 {
        assert(tail =~= "_darwin_amd64.zip"@);
    } else if os == Os::MacOS && arch == Arch::Arm64 {
        assert(tail =~= "_darwin_arm64.zip"@);
    } else if os == Os::Windows && arch == Arch::X64 {
        assert(tail =~= "_windows_amd64.zip"@);
    } else if os == Os::Windows && arch == Arch::X86 {
        assert(tail =~= "_windows_386.zip"@);
    }
}

/// The published platforms: Linux on x64, arm64, x86 and arm; macOS on x64
/// and arm64; Windows on x64 and x86. An operating system outside these three
/// is refused as such, and a listed one with another architecture is refused
/// for its architecture.
pub proof fn law_platform_table(os: Os, arch: Arch)
    ensures
        platform_check(os, arch) is Ok <==> (
        (os == Os::Linux && (arch == Arch::X64 || arch == Arch::Arm64 || arch == Arch::X86 || arch
            == Arch::Arm)) || (os == Os::MacOS && (arch == Arch::X64 || arch == Arch::Arm64)) || (
        os == Os::Windows && (arch == Arch::X64 || arch == Arch::X86))),
        os == Os::Other ==> platform_check(os, arch) == Err::<(), PluginFailure>(
            PluginFailure::UnsupportedOs,
        ),
        os != Os::Other && !(platform_check(os, arch) is Ok) ==> platform_check(os, arch) == Err::<
            (),
            PluginFailure,
        >(PluginFailure::UnsupportedTarget),
{
}

/// A download is refused for an unsupported platform whatever the version,
/// and on a supported platform exactly when the version is canary.
pub proof fn law_download_refusals(os: Os, arch: Arch, canary: bool)
    ensures
        !(platform_check(os, arch) is Ok) ==> download_outcome(os, arch, canary) == platform_check(
            os,
            arch,
        ),
        platform_check(os, arch) is Ok ==> (download_outcome(os, arch, canary) is Ok <==> !canary),
        platform_check(os, arch) is Ok && canary ==> download_outcome(os, arch, canary) == Err::<
            (),
            PluginFailure,
        >(PluginFailure::UnsupportedCanary),
{
}

/// Executable names: on Windows `.exe` is appended to a name that does not
/// already end with `exe`; every other name, and every name elsewhere, is kept.
pub proof fn law_exe_file_names(os: Os, name: Seq<char>)
    ensures
        os != Os::Windows ==> exe_file_name(os, name) == name,
        os == Os::Windows && name.len() >= 3 && name.subrange(name.len() - 3, name.len() as int)
            == "exe"@ ==> exe_file_name(os, name) == name,
        os == Os::Windows && !(name.len() >= 3 && name.subrange(name.len() - 3, name.len() as int)
            == "exe"@) ==> exe_file_name(os, name) == name + ".exe"@,
{
    reveal_strlit("exe");
}

} // verus!
