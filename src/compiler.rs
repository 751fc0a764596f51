//! Turns a release catalog into declarations to embed in a program: one
//! constant per version and per checksum, the list of versions, a checksum
//! lookup, the platform and the catalog's JSON text.
use vstd::prelude::*;
use vstd::string::*;

use crate::error::YvmError;
use crate::hex_string::{hex_text, serialize};
use crate::platform::{platform_name, platform_named, Platform};
use crate::releases::{BuildInfo, Releases};
use crate::version::{decimal, decimal_text, Version};

verus! {

/// One generated declaration.
#[derive(Clone, Debug, PartialEq, Eq)]
pub enum Declaration {
    /// `pub const name: ty = expr;`
    Constant { name: String, ty: String, expr: String },
    /// A block of source text, emitted as it is.
    Raw(String),
}

/// Where the catalog for a build comes from.
#[derive(Clone, Debug, PartialEq, Eq)]
pub enum CatalogAcquisition {
    /// A catalog file fetched beforehand, at this path.
    FromFile(String),
    /// The catalog of the target platform, fetched now.
    LiveFetch,
    /// No catalog: network access is not allowed.
    Empty,
}

pub open spec fn is_constant(d: Declaration, name: Seq<char>, ty: Seq<char>, expr: Seq<char>) -> bool {
    match d {
        Declaration::Constant { name: n, ty: t, expr: e } => n@ == name && t@ == ty && e@ == expr,
        Declaration::Raw(_) => false,
    }
}

pub open spec fn is_raw(d: Declaration, text: Seq<char>) -> bool {
    match d {
        Declaration::Raw(t) => t@ == text,
        Declaration::Constant { .. } => false,
    }
}

/// `major_minor_patch`, in decimal.
pub open spec fn version_numbers(v: Version, sep: Seq<char>) -> Seq<char> {
    decimal(v.major as nat) + sep + decimal(v.minor as nat) + sep + decimal(v.patch as nat)
}

/// The name of the constant that holds a version.
pub open spec fn version_const(v: Version) -> Seq<char> {
    "YLEM_VERSION_"@ + version_numbers(v, "_"@)
}

/// The name of the constant that holds a version's checksum.
pub open spec fn checksum_const(v: Version) -> Seq<char> {
    version_const(v) + "_CHECKSUM"@
}

/// The expression that builds a version.
pub open spec fn version_expr(v: Version) -> Seq<char> {
    "semver::Version::new("@ + version_numbers(v, ", "@) + ")"@
}

/// A string literal holding a checksum's hexadecimal text.
pub open spec fn checksum_expr(b: BuildInfo) -> Seq<char> {
    "\""@ + hex_text(b.sha256@) + "\""@
}

/// The entries of the version array, one line each.
pub open spec fn version_entries(builds: Seq<BuildInfo>) -> Seq<char>
    decreases builds.len(),
{
    if builds.len() == 0 {
        Seq::empty()
    } else {
        version_entries(builds.drop_last()) + "    "@ + version_const(builds.last().version) + ",\n"@
    }
}

/// The arms of the checksum lookup, one line each.
pub open spec fn checksum_arms(builds: Seq<BuildInfo>) -> Seq<char>
    decreases builds.len(),
{
    if builds.len() == 0 {
        Seq::empty()
    } else {
        checksum_arms(builds.drop_last()) + "        ("@ + version_numbers(
            builds.last().version,
            ", "@,
        ) + ") => "@ + checksum_const(builds.last().version) + ",\n"@
    }
}

/// The static array of every version of the catalog's builds.
pub open spec fn versions_array(platform: Platform, builds: Seq<BuildInfo>) -> Seq<char> {
    "\n/// All available releases for "@ + platform_name(platform)
        + "\npub static ALL_YLEM_VERSIONS: [semver::Version; "@ + decimal(builds.len())
        + "] = [\n"@ + version_entries(builds) + "];\n"@
}

/// The function that looks up a checksum by `(major, minor, patch)`.
pub open spec fn checksum_lookup(builds: Seq<BuildInfo>) -> Seq<char> {
    CHECKSUM_FN_HEAD@ + checksum_arms(builds) + CHECKSUM_FN_TAIL@
}

/// The constant that names the target platform.
pub open spec fn platform_block(platform: Platform) -> Seq<char> {
    PLATFORM_HEAD@ + platform_name(platform) + "\";\n"@
}

/// The constant that holds the catalog's JSON text.
pub open spec fn release_list_block(json: Seq<char>) -> Seq<char> {
    RELEASE_LIST_HEAD@ + json + "\"#;\n"@
}

pub const CHECKSUM_FN_HEAD: &'static str = "\n/// Get the checksum of a ylem version's binary if it exists.\npub fn get_checksum(version: &semver::Version) -> Option<Vec<u8>> {\n    let checksum = match (version.major, version.minor, version.patch) {\n";

pub const CHECKSUM_FN_TAIL: &'static str = "        _ => return None,\n    };\n    Some(hex::decode(checksum).expect(\"valid hex\"))\n}\n";

pub const PLATFORM_HEAD: &'static str = "\n/// The `yvm::Platform` all constants were built for\npub const TARGET_PLATFORM: &str = \"";

pub const RELEASE_LIST_HEAD: &'static str = "\n/// JSON release list\npub static RELEASE_LIST_JSON: &str = r#\"";

/// The name of the constant that holds `version`.
pub fn version_const_name(version: &Version) -> (r: String)
    ensures
        r@ == version_const(*version),
{
    let mut s = String::from_str("YLEM_VERSION_");
    let t = version_numbers_text(version, "_");
    s.append(t.as_str());
    s
}

fn version_numbers_text(v: &Version, sep: &str) -> (r: String)
    ensures
        r@ == version_numbers(*v, sep@),
{
    let mut s = decimal_text(v.major);
    s.append(sep);
    let t = decimal_text(v.minor);
    s.append(t.as_str());
    s.append(sep);
    let t = decimal_text(v.patch);
    s.append(t.as_str());
    s
}

/// The name of the constant that holds the checksum of `version`.
pub fn checksum_const_name(version: &Version) -> (r: String)
    ensures
        r@ == checksum_const(*version),
{
    let mut s = version_const_name(version);
    s.append("_CHECKSUM");
    s
}

/// The declaration of the target platform.
pub fn add_platform_const(platform: Platform) -> (r: Declaration)
    ensures
        is_raw(r, platform_block(platform)),
{
    let mut s = String::from_str(PLATFORM_HEAD);
    s.append(platform.as_str());
    s.append("\";\n");
    Declaration::Raw(s)
}

/// The declaration of the catalog's JSON text.
pub fn add_release_list_const(json: &str) -> (r: Declaration)
    ensures
        is_raw(r, release_list_block(json@)),
{
    let mut s = String::from_str(RELEASE_LIST_HEAD);
    s.append(json);
    s.append("\"#;\n");
    Declaration::Raw(s)
}


/// The version and checksum constants of every build, in the catalog's
/// order, then the array of all versions and the checksum lookup.
pub fn add_build_info_constants(releases: &Releases, platform: Platform) -> (r: Vec<Declaration>)
    ensures
        r@.len() == 2 * releases.builds@.len() + 2,
        forall|j: int|
            #![trigger releases.builds@[j]]
            0 <= j < releases.builds@.len() ==> {
                let b = releases.builds@[j];
                &&& is_constant(r@[2 * j], version_const(b.version), "semver::Version"@, version_expr(b.version))
                &&& is_constant(r@[2 * j + 1], checksum_const(b.version), "&str"@, checksum_expr(b))
            },
        is_raw(r@[2 * releases.builds@.len() as int], versions_array(platform, releases.builds@)),
        is_raw(r@[2 * releases.builds@.len() as int + 1], checksum_lookup(releases.builds@)),
{
    let ghost builds = releases.builds@;
    let n = releases.builds.len();
    let mut out: Vec<Declaration> = Vec::new();
    let mut entries = String::new();
    let mut arms = String::new();
    let mut i: usize = 0;
    assert(builds.subrange(0, 0) =~= Seq::<BuildInfo>::empty());
    while i < n
        invariant
            n == builds.len(),
            builds == releases.builds@,
            i <= n,
            out@.len() == 2 * i,
            entries@ == version_entries(builds.subrange(0, i as int)),
            arms@ == checksum_arms(builds.subrange(0, i as int)),
            forall|j: int|
                #![trigger builds[j]]
                0 <= j < i ==> {
                    let b = builds[j];
                    &&& is_constant(out@[2 * j], version_const(b.version), "semver::Version"@, version_expr(b.version))
                    &&& is_constant(out@[2 * j + 1], checksum_const(b.version), "&str"@, checksum_expr(b))
                },
        decreases n - i,
    {
        let build = &releases.builds[i];
        let version_name = version_const_name(&build.version);
        let mut expr = String::from_str("semver::Version::new(");
        let numbers = version_numbers_text(&build.version, ", ");
        expr.append(numbers.as_str());
        expr.append(")");
        entries.append("    ");
        entries.append(version_name.as_str());
        entries.append(",\n");
        out.push(Declaration::Constant { name: version_name, ty: String::from_str("semver::Version"), expr });

        let checksum_name = checksum_const_name(&build.version);
        let mut literal = String::from_str("\"");
        let hex = serialize(&build.sha256);
        literal.append(hex.as_str());
        literal.append("\"");
        arms.append("        (");
        arms.append(numbers.as_str());
        arms.append(") => ");
        arms.append(checksum_name.as_str());
        arms.append(",\n");
        out.push(Declaration::Constant { name: checksum_name, ty: String::from_str("&str"), expr: literal });

        proof {
            let next = builds.subrange(0, i + 1);
            assert(next.drop_last() =~= builds.subrange(0, i as int));
            assert(next.last() == builds[i as int]);
        }
        i = i + 1;
    }
    assert(builds.subrange(0, n as int) =~= builds);
    let mut array = String::from_str("\n/// All available releases for ");
    array.append(platform.as_str());
    array.append("\npub static ALL_YLEM_VERSIONS: [semver::Version; ");
    let count = decimal_text(n as u64);
    array.append(count.as_str());
    array.append("] = [\n");
    array.append(entries.as_str());
    array.append("];\n");
    out.push(Declaration::Raw(array));

    let mut lookup = String::from_str(CHECKSUM_FN_HEAD);
    lookup.append(arms.as_str());
    lookup.append(CHECKSUM_FN_TAIL);
    out.push(Declaration::Raw(lookup));
    out
}

/// Every declaration for a catalog: the platform, the constants of each
/// build, the version array, the checksum lookup, and the catalog's JSON text.
pub fn compile_catalog(releases: &Releases, platform: Platform, json: &str) -> (r: Vec<Declaration>)
    ensures
        r@.len() == 2 * releases.builds@.len() + 4,
        is_raw(r@[0], platform_block(platform)),
        forall|j: int|
            #![trigger releases.builds@[j]]
            0 <= j < releases.builds@.len() ==> {
                let b = releases.builds@[j];
                &&& is_constant(r@[2 * j + 1], version_const(b.version), "semver::Version"@, version_expr(b.version))
                &&& is_constant(r@[2 * j + 2], checksum_const(b.version), "&str"@, checksum_expr(b))
            },
        is_raw(r@[2 * releases.builds@.len() as int + 1], versions_array(platform, releases.builds@)),
        is_raw(r@[2 * releases.builds@.len() as int + 2], checksum_lookup(releases.builds@)),
        is_raw(r@[2 * releases.builds@.len() as int + 3], release_list_block(json@)),
{
    let mut out: Vec<Declaration> = Vec::new();
    out.push(add_platform_const(platform));
    let mut body = add_build_info_constants(releases, platform);
    let ghost body_view = body@;
    out.append(&mut body);
    out.push(add_release_list_const(json));
    assert forall|j: int|
        #![trigger releases.builds@[j]]
        0 <= j < releases.builds@.len() implies {
            let b = releases.builds@[j];
            &&& is_constant(out@[2 * j + 1], version_const(b.version), "semver::Version"@, version_expr(b.version))
            &&& is_constant(out@[2 * j + 2], checksum_const(b.version), "&str"@, checksum_expr(b))
        } by {
        assert(out@[2 * j + 1] == body_view[2 * j]);
        assert(out@[2 * j + 2] == body_view[2 * j + 1]);
    }
    out
}

/// The declarations of a build without network access: those of the empty
/// catalog, so no version or checksum constant and an empty version array.
pub fn compile_offline(platform: Platform, json: &str) -> (r: Vec<Declaration>)
    ensures
        r@.len() == 4,
        forall|j: int| 0 <= j < r@.len() ==> #[trigger] r@[j] is Raw,
        is_raw(r@[0], platform_block(platform)),
        is_raw(r@[1], versions_array(platform, Seq::empty())),
        is_raw(r@[2], checksum_lookup(Seq::empty())),
        is_raw(r@[3], release_list_block(json@)),
{
    let empty = Releases::new();
    assert(empty.builds@ =~= Seq::<BuildInfo>::empty());
    compile_catalog(&empty, platform, json)
}

/// Where the catalog comes from: a catalog file when a path is given, which
/// rules out any network access; else a fetch when the network may be used;
/// else the empty catalog.
pub fn choose_acquisition(list_path: Option<String>, network_allowed: bool) -> (r: CatalogAcquisition)
    ensures
        match list_path {
            Some(p) => r == CatalogAcquisition::FromFile(p),
            None => r == (if network_allowed {
                CatalogAcquisition::LiveFetch
            } else {
                CatalogAcquisition::Empty
            }),
        },
{
    match list_path {
        Some(p) => CatalogAcquisition::FromFile(p),
        None => if network_allowed {
            CatalogAcquisition::LiveFetch
        } else {
            CatalogAcquisition::Empty
        },
    }
}

/// The platform to build for: the one named by the override when there is
/// one (an unknown name is an error), else the host's.
pub fn target_platform(override_name: Option<&str>, host: Platform) -> (r: Result<Platform, YvmError>)
    ensures
        match override_name {
            Some(s) => match platform_named(s@) {
                Some(p) => r == Ok::<Platform, YvmError>(p),
                None => r matches Err(YvmError::UnknownPlatform(t)) && t@ == s@,
            },
            None => r == Ok::<Platform, YvmError>(host),
        },
{
    match override_name {
        Some(s) => Platform::parse(s),
        None => Ok(host),
    }
}

} // verus!
