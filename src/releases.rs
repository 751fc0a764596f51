//! The release catalog, the choice of catalog for a platform, and download
//! locations.
use vstd::prelude::*;
use vstd::multiset::Multiset;
use vstd::string::*;

use crate::error::YvmError;
use crate::platform::Platform;
use crate::version::{version_less, version_text, Version};

verus! {

broadcast use vstd::seq_lib::group_to_multiset_ensures, vstd::multiset::group_multiset_properties;

/// Where released binaries are published.
pub const YLEM_RELEASES_URL: &'static str = "https://github.com/core-coin/ylem/releases/download";

/// The SHA-256 checksum of one published binary.
#[derive(Clone, Debug, PartialEq, Eq)]
pub struct BuildInfo {
    pub version: Version,
    pub sha256: Vec<u8>,
}

/// The releases known for one catalog: checksums in listing order, and the
/// artifact name of each version.
#[derive(Clone, Debug, PartialEq, Eq)]
pub struct Releases {
    pub builds: Vec<BuildInfo>,
    pub releases: Vec<(Version, String)>,
}

impl Default for Releases {
    fn default() -> (r: Releases)
        ensures
            r.builds@.len() == 0,
            r.releases@.len() == 0,
    {
        Releases::new()
    }
}

/// The versions of a release list, in its order.
pub open spec fn release_versions(r: Seq<(Version, String)>) -> Seq<Version> {
    r.map_values(|p: (Version, String)| p.0)
}

/// Whether `i` is the first build of version `v`.
pub open spec fn is_first_build(builds: Seq<BuildInfo>, v: (u64, u64, u64, Seq<char>, Seq<char>), i: int) -> bool {
    &&& 0 <= i < builds.len()
    &&& builds[i].version@ == v
    &&& forall|j: int| 0 <= j < i ==> builds[j].version@ != v
}

/// Whether `i` is the first release entry of version `v`.
pub open spec fn is_first_release(releases: Seq<(Version, String)>, v: (u64, u64, u64, Seq<char>, Seq<char>), i: int) -> bool {
    &&& 0 <= i < releases.len()
    &&& releases[i].0@ == v
    &&& forall|j: int| 0 <= j < i ==> releases[j].0@ != v
}

/// No version comes strictly before the one in front of it, in semver's full
/// order.
pub open spec fn versions_sorted(s: Seq<Version>) -> bool {
    forall|i: int| 0 < i < s.len() ==> !version_less(#[trigger] s[i], s[i - 1])
}

impl Releases {
    /// The catalog's invariant: each version has at most one artifact.
    pub open spec fn wf(&self) -> bool {
        forall|i: int, j: int|
            0 <= i < j < self.releases@.len() ==> #[trigger] self.releases@[i].0@
                != #[trigger] self.releases@[j].0@
    }

    /// The empty catalog.
    pub fn new() -> (r: Releases)
        ensures
            r.builds@.len() == 0,
            r.releases@.len() == 0,
            r.wf(),
    {
        Releases { builds: Vec::new(), releases: Vec::new() }
    }

    /// The checksum of the first build of `v`, if there is one.
    pub fn get_checksum(&self, v: &Version) -> (r: Option<Vec<u8>>)
        ensures
            r is None <==> forall|i: int| 0 <= i < self.builds@.len() ==> self.builds@[i].version@ != v@,
            r is Some ==> exists|i: int|
                is_first_build(self.builds@, v@, i) && r->0@ == self.builds@[i].sha256@,
    {
        let mut i: usize = 0;
        while i < self.builds.len()
            invariant
                i <= self.builds@.len(),
                forall|j: int| 0 <= j < i ==> self.builds@[j].version@ != v@,
            decreases self.builds@.len() - i,
        {
            let build = &self.builds[i];
            if build.version.eq(v) {
                let sum = build.sha256.clone();
                assert(sum@ =~= build.sha256@);
                assert(is_first_build(self.builds@, v@, i as int));
                return Some(sum);
            }
            i = i + 1;
        }
        None
    }

    /// The artifact name of `version`, if the catalog lists one.
    pub fn get_artifact(&self, version: &Version) -> (r: Option<&String>)
        ensures
            r is None <==> forall|i: int|
                0 <= i < self.releases@.len() ==> self.releases@[i].0@ != version@,
            r is Some ==> exists|i: int|
                is_first_release(self.releases@, version@, i) && *r->0 == self.releases@[i].1,
    {
        let mut i: usize = 0;
        while i < self.releases.len()
            invariant
                i <= self.releases@.len(),
                forall|j: int| 0 <= j < i ==> self.releases@[j].0@ != version@,
            decreases self.releases@.len() - i,
        {
            if self.releases[i].0.eq(version) {
                assert(is_first_release(self.releases@, version@, i as int));
                return Some(&self.releases[i].1);
            }
            i = i + 1;
        }
        None
    }

    /// All versions that have an artifact, ascending in semver's order:
    /// precedence first, then build metadata.
    pub fn into_versions(self) -> (r: Vec<Version>)
        ensures
            r@.to_multiset() == release_versions(self.releases@).to_multiset(),
            versions_sorted(r@),
    {
        broadcast use vstd::multiset::group_multiset_axioms;

        let ghost keys = release_versions(self.releases@);
        let mut rest = self.releases;
        let mut out: Vec<Version> = Vec::new();
        assert(out@.to_multiset() =~= Multiset::empty());
        assert(out@.to_multiset().add(release_versions(rest@).to_multiset()) =~= keys.to_multiset());
        while rest.len() > 0
            invariant
                out@.to_multiset().add(release_versions(rest@).to_multiset()) == keys.to_multiset(),
                versions_sorted(out@),
            decreases rest@.len(),
        {
            let ghost before = rest@;
            let (v, _artifact) = rest.pop().unwrap();
            assert(release_versions(before) =~= release_versions(rest@).push(v));
            let mut pos: usize = 0;
            while pos < out.len() && !v.less_than(&out[pos])
                invariant
                    pos <= out@.len(),
                    forall|j: int| 0 <= j < pos ==> !version_less(v, #[trigger] out@[j]),
                decreases out@.len() - pos,
            {
                pos = pos + 1;
            }
            let ghost old_out = out@;
            assert(pos < old_out.len() ==> version_less(v, old_out[pos as int]));
            out.insert(pos, v);
            assert forall|i: int| 0 < i < out@.len() implies !version_less(
                #[trigger] out@[i],
                out@[i - 1],
            ) by {
                if i == pos {
                    assert(out@[i - 1] == old_out[i - 1]);
                } else if i == pos + 1 {
                    assert(out@[i] == old_out[pos as int]);
                } else if i < pos {
                    assert(out@[i] == old_out[i]);
                    assert(out@[i - 1] == old_out[i - 1]);
                } else {
                    assert(out@[i] == old_out[i - 1]);
                    assert(out@[i - 1] == old_out[i - 2]);
                }
            }
            assert(out@.to_multiset().add(release_versions(rest@).to_multiset()) =~= keys.to_multiset());
        }
        assert(release_versions(rest@).to_multiset() =~= Multiset::empty());
        assert(out@.to_multiset() =~= keys.to_multiset());
        out
    }
}


#[verifier::external_type_specification]
#[verifier::external_body]
pub struct ExUrl(url::Url);

#[verifier::external_type_specification]
#[verifier::external_body]
pub struct ExUrlParseError(url::ParseError);

/// Whether the url crate accepts the text as an absolute URL.
pub uninterp spec fn url_accepts(s: Seq<char>) -> bool;

/// Relies on url::Url::parse: succeeds exactly on the texts it accepts.
#[verifier::external_body]
fn parse_url(s: &str) -> (r: Result<url::Url, url::ParseError>)
    ensures
        r is Ok <==> url_accepts(s@),
{
    url::Url::parse(s)
}

/// The platforms that have a catalog and a download location: the two Linux
/// platforms, one per CPU family.
pub open spec fn is_served(p: Platform) -> bool {
    p == Platform::LinuxAmd64 || p == Platform::LinuxAarch64
}

/// The download location of a version's artifact.
pub open spec fn artifact_location(v: Version, artifact: Seq<char>) -> Seq<char> {
    YLEM_RELEASES_URL@ + "/"@ + version_text(v) + "/"@ + artifact
}

/// The catalog that serves `platform`: `aarch64` for ARM Linux, `amd64` for
/// x86-64 Linux, each `None` when it could not be loaded. Other platforms
/// have none.
pub fn resolve_releases<'a>(
    platform: Platform,
    aarch64: Option<&'a Releases>,
    amd64: Option<&'a Releases>,
) -> (r: Result<&'a Releases, YvmError>)
    ensures
        platform == Platform::LinuxAarch64 ==> r == match aarch64 {
            Some(c) => Ok::<&Releases, YvmError>(c),
            None => Err(YvmError::CatalogUnavailable(platform)),
        },
        platform == Platform::LinuxAmd64 ==> r == match amd64 {
            Some(c) => Ok::<&Releases, YvmError>(c),
            None => Err(YvmError::CatalogUnavailable(platform)),
        },
        !is_served(platform) ==> r == Err::<&Releases, YvmError>(
            YvmError::UnsupportedPlatform(platform),
        ),
{
    let source = if platform == Platform::LinuxAarch64 {
        aarch64
    } else if platform == Platform::LinuxAmd64 {
        amd64
    } else {
        return Err(YvmError::UnsupportedPlatform(platform));
    };
    match source {
        Some(c) => Ok(c),
        None => Err(YvmError::CatalogUnavailable(platform)),
    }
}

/// The text of the download location of `artifact` at `version`, for a
/// served platform.
pub fn artifact_location_text(platform: Platform, version: &Version, artifact: &str) -> (r: Result<
    String,
    YvmError,
>)
    ensures
        is_served(platform) ==> r is Ok && r->Ok_0@ == artifact_location(*version, artifact@),
        !is_served(platform) ==> r == Err::<String, YvmError>(
            YvmError::UnsupportedPlatform(platform),
        ),
{
    if platform == Platform::LinuxAmd64 || platform == Platform::LinuxAarch64 {
        let mut s = String::from_str(YLEM_RELEASES_URL);
        s.append("/");
        let v = version.to_text();
        s.append(v.as_str());
        s.append("/");
        s.append(artifact);
        Ok(s)
    } else {
        Err(YvmError::UnsupportedPlatform(platform))
    }
}

/// The URL of `artifact` at `version`, for a served platform.
pub fn artifact_url(platform: Platform, version: &Version, artifact: &str) -> (r: Result<
    url::Url,
    YvmError,
>)
    ensures
        is_served(platform) ==> (r is Ok <==> url_accepts(artifact_location(*version, artifact@))),
        is_served(platform) && r is Err ==> r == Err::<url::Url, YvmError>(YvmError::InvalidUrl),
        !is_served(platform) ==> r == Err::<url::Url, YvmError>(
            YvmError::UnsupportedPlatform(platform),
        ),
{
    match artifact_location_text(platform, version, artifact) {
        Ok(text) => match parse_url(text.as_str()) {
            Ok(u) => Ok(u),
            Err(_) => Err(YvmError::InvalidUrl),
        },
        Err(e) => Err(e),
    }
}

} // verus!
