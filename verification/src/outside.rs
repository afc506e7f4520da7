//! The version-specification machinery of the proto plugin API, as the rest of
//! the library sees it: its types, carried through unopened, and one trusted
//! item per function that the library calls.

use proto_pdk::{LoadVersionsOutput, SpecError, UnresolvedVersionSpec, Version, VersionSpec};
use vstd::prelude::*;

verus! {

#[verifier::external_type_specification]
#[verifier::external_body]
pub struct ExUnresolvedVersionSpec(UnresolvedVersionSpec);

#[verifier::external_type_specification]
#[verifier::external_body]
pub struct ExVersionSpec(VersionSpec);

#[verifier::external_type_specification]
#[verifier::external_body]
pub struct ExSpecError(SpecError);

#[verifier::external_type_specification]
#[verifier::external_body]
pub struct ExLoadVersionsOutput(LoadVersionsOutput);

#[verifier::external_type_specification]
#[verifier::external_body]
pub struct ExVersion(Version);

/// The views of a sequence of strings.
pub open spec fn string_views(values: Seq<String>) -> Seq<Seq<char>> {
    values.map_values(|s: String| s@)
}

/// What `UnresolvedVersionSpec::parse` gives for a text.
pub uninterp spec fn unresolved_spec_parse(text: Seq<char>) -> Result<
    UnresolvedVersionSpec,
    SpecError,
>;

/// Calls `UnresolvedVersionSpec::parse` (a grammar of versions, requirements,
/// ranges and aliases). Claimed: the result is a function of the text alone.
#[verifier::external_body]
pub(crate) fn parse_unresolved_spec(text: &str) -> (r: Result<UnresolvedVersionSpec, SpecError>)
    ensures
        r == unresolved_spec_parse(text@),
{
    UnresolvedVersionSpec::parse(text)
}

/// What `UnresolvedVersionSpec::is_canary` answers for a specification.
pub uninterp spec fn unresolved_spec_is_canary(spec: UnresolvedVersionSpec) -> bool;

/// Calls `UnresolvedVersionSpec::is_canary`. Claimed: the answer is a function
/// of the specification alone.
#[verifier::external_body]
pub(crate) fn unresolved_is_canary(spec: &UnresolvedVersionSpec) -> (b: bool)
    ensures
        b == unresolved_spec_is_canary(*spec),
{
    spec.is_canary()
}

/// What `VersionSpec::is_canary` answers for a specification.
pub uninterp spec fn version_spec_is_canary(spec: VersionSpec) -> bool;

/// Calls `VersionSpec::is_canary`. Claimed: the answer is a function of the
/// specification alone.
#[verifier::external_body]
pub(crate) fn version_is_canary(spec: &VersionSpec) -> (b: bool)
    ensures
        b == version_spec_is_canary(*spec),
{
    spec.is_canary()
}

/// The text that the `Display` implementation of `VersionSpec` writes.
pub uninterp spec fn version_spec_text(spec: VersionSpec) -> Seq<char>;

/// Calls `ToString::to_string` on a `VersionSpec`, which goes through its
/// `Display` implementation. Claimed: the text is a function of the
/// specification alone.
#[verifier::external_body]
pub(crate) fn version_text(spec: &VersionSpec) -> (s: String)
    ensures
        s@ == version_spec_text(*spec),
{
    spec.to_string()
}

/// What `LoadVersionsOutput::from` gives for a list of version texts.
pub uninterp spec fn load_versions_output_from(values: Seq<Seq<char>>) -> Result<
    LoadVersionsOutput,
    SpecError,
>;

/// Calls `LoadVersionsOutput::from`, which parses each text as a `VersionSpec`
/// and picks the highest stable one as the `latest` alias. Claimed: the result
/// is a function of the list of texts alone.
#[verifier::external_body]
pub(crate) fn versions_output_from(values: Vec<String>) -> (r: Result<LoadVersionsOutput, SpecError>)
    ensures
        r == load_versions_output_from(string_views(values@)),
{
    LoadVersionsOutput::from(values)
}

/// What `Version::parse` gives for a text.
pub uninterp spec fn version_parse(text: Seq<char>) -> Result<Version, SpecError>;

/// Calls `Version::parse` (calendar or semantic versions). Claimed: the result
/// is a function of the text alone.
#[verifier::external_body]
pub(crate) fn parse_version(text: &str) -> (r: Result<Version, SpecError>)
    ensures
        r == version_parse(text@),
{
    Version::parse(text)
}

} // verus!
