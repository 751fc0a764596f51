use vstd::prelude::*;
use vstd::string::*;

use core::cmp::Ordering;

verus! {

/// A semantic version: `major.minor.patch`, with optional pre-release and
/// build metadata texts (empty when absent).
#[derive(Clone, Debug, Eq, Hash)]
pub struct Version {
    pub major: u64,
    pub minor: u64,
    pub patch: u64,
    pub pre: String,
    pub build: String,
}

impl View for Version {
    type V = (u64, u64, u64, Seq<char>, Seq<char>);

    open spec fn view(&self) -> Self::V {
        (self.major, self.minor, self.patch, self.pre@, self.build@)
    }
}

impl PartialEq for Version {
    fn eq(&self, o: &Version) -> (r: bool)
        ensures
            r == (self@ == o@),
    {
        self.major == o.major && self.minor == o.minor && self.patch == o.patch && self.pre
            == o.pre && self.build == o.build
    }
}

impl vstd::std_specs::cmp::PartialEqSpecImpl for Version {
    open spec fn obeys_eq_spec() -> bool {
        true
    }

    open spec fn eq_spec(&self, o: &Version) -> bool {
        self@ == o@
    }
}

/// The order that semver gives two non-empty pre-release texts, or `None`
/// when either is not a valid pre-release.
pub uninterp spec fn prerelease_order(a: Seq<char>, b: Seq<char>) -> Option<Ordering>;

/// The same order, seen from the other side.
pub open spec fn reversed(o: Option<Ordering>) -> Option<Ordering> {
    match o {
        Some(Ordering::Less) => Some(Ordering::Greater),
        Some(Ordering::Greater) => Some(Ordering::Less),
        other => other,
    }
}

/// Relies on semver::Prerelease (`new`, then `Ord::cmp`): the order of two
/// pre-release texts, which semver's total order makes antisymmetric.
#[verifier::external_body]
fn compare_prerelease(a: &str, b: &str) -> (r: Option<Ordering>)
    ensures
        r == prerelease_order(a@, b@),
        prerelease_order(b@, a@) == reversed(r),
{
    match (semver::Prerelease::new(a), semver::Prerelease::new(b)) {
        (Ok(x), Ok(y)) => Some(x.cmp(&y)),
        _ => None,
    }
}

/// The order that semver gives two build metadata texts, or `None` when
/// either is not valid build metadata.
pub uninterp spec fn build_order(a: Seq<char>, b: Seq<char>) -> Option<Ordering>;

/// Relies on semver::BuildMetadata (`new`, then `Ord::cmp`): the order of two
/// build metadata texts, which semver's total order makes antisymmetric.
#[verifier::external_body]
fn compare_build(a: &str, b: &str) -> (r: Option<Ordering>)
    ensures
        r == build_order(a@, b@),
        build_order(b@, a@) == reversed(r),
{
    match (semver::BuildMetadata::new(a), semver::BuildMetadata::new(b)) {
        (Ok(x), Ok(y)) => Some(x.cmp(&y)),
        _ => None,
    }
}

/// How two pre-release texts compare: a release (empty text) follows every
/// pre-release, and two pre-releases go by semver.
pub open spec fn prerelease_cmp(a: Seq<char>, b: Seq<char>) -> Option<Ordering> {
    if a.len() == 0 && b.len() == 0 {
        Some(Ordering::Equal)
    } else if a.len() == 0 {
        Some(Ordering::Greater)
    } else if b.len() == 0 {
        Some(Ordering::Less)
    } else {
        prerelease_order(a, b)
    }
}

/// Semver's full order: `a` comes strictly before `b` by precedence, or has
/// the same precedence and lower build metadata. Texts that semver would not
/// accept are never ordered before another.
pub open spec fn version_less(a: Version, b: Version) -> bool {
    if a.major != b.major {
        a.major < b.major
    } else if a.minor != b.minor {
        a.minor < b.minor
    } else if a.patch != b.patch {
        a.patch < b.patch
    } else {
        match prerelease_cmp(a.pre@, b.pre@) {
            Some(Ordering::Less) => true,
            Some(Ordering::Equal) => build_order(a.build@, b.build@) == Some(Ordering::Less),
            _ => false,
        }
    }
}

/// Pre-release precedence: a release (empty pre-release) follows every
/// pre-release of the same `major.minor.patch`; two pre-releases go by semver.
/// Texts that are not valid pre-releases are never ordered before another.
pub open spec fn prerelease_precedes(a: Seq<char>, b: Seq<char>) -> bool {
    if a.len() == 0 {
        false
    } else if b.len() == 0 {
        true
    } else {
        prerelease_order(a, b) == Some(Ordering::Less)
    }
}

/// Semver precedence: `a` comes strictly before `b`. Build metadata plays no part.
pub open spec fn version_precedes(a: Version, b: Version) -> bool {
    if a.major != b.major {
        a.major < b.major
    } else if a.minor != b.minor {
        a.minor < b.minor
    } else if a.patch != b.patch {
        a.patch < b.patch
    } else {
        prerelease_precedes(a.pre@, b.pre@)
    }
}

/// The decimal digit for `d < 10`.
pub open spec fn digit_char(d: nat) -> char {
    ((d + 48) as u8) as char
}

/// The decimal text of a natural number, without leading zeros.
pub open spec fn decimal(n: nat) -> Seq<char>
    decreases n,
{
    if n < 10 {
        seq![digit_char(n)]
    } else {
        decimal(n / 10).push(digit_char(n % 10))
    }
}

/// The canonical text of a version: `major.minor.patch`, then `-pre` and
/// `+build` where those are present.
pub open spec fn version_text(v: Version) -> Seq<char> {
    let core = decimal(v.major as nat) + "."@ + decimal(v.minor as nat) + "."@ + decimal(
        v.patch as nat,
    );
    let with_pre = if v.pre@.len() == 0 {
        core
    } else {
        core + "-"@ + v.pre@
    };
    if v.build@.len() == 0 {
        with_pre
    } else {
        with_pre + "+"@ + v.build@
    }
}

/// Relies on the standard `Display` of `u64` (through `to_string`): its
/// decimal text.
#[verifier::external_body]
pub(crate) fn decimal_text(n: u64) -> (r: String)
    ensures
        r@ == decimal(n as nat),
{
    n.to_string()
}

impl Version {
    /// The release `major.minor.patch`, with no pre-release or build metadata.
    pub fn new(major: u64, minor: u64, patch: u64) -> (r: Version)
        ensures
            r.major == major,
            r.minor == minor,
            r.patch == patch,
            r.pre@.len() == 0,
            r.build@.len() == 0,
    {
        Version { major, minor, patch, pre: String::new(), build: String::new() }
    }

    /// Whether `self` comes strictly before `other` in semver precedence.
    pub fn precedes(&self, other: &Version) -> (r: bool)
        ensures
            r == version_precedes(*self, *other),
            r ==> !version_precedes(*other, *self),
    {
        if self.major != other.major {
            self.major < other.major
        } else if self.minor != other.minor {
            self.minor < other.minor
        } else if self.patch != other.patch {
            self.patch < other.patch
        } else if self.pre.as_str().is_empty() {
            false
        } else if other.pre.as_str().is_empty() {
            true
        } else {
            match compare_prerelease(self.pre.as_str(), other.pre.as_str()) {
                Some(Ordering::Less) => true,
                _ => false,
            }
        }
    }

    fn compare_pre(&self, other: &Version) -> (r: Option<Ordering>)
        ensures
            r == prerelease_cmp(self.pre@, other.pre@),
            prerelease_cmp(other.pre@, self.pre@) == reversed(r),
    {
        let a = self.pre.as_str().is_empty();
        let b = other.pre.as_str().is_empty();
        if a && b {
            Some(Ordering::Equal)
        } else if a {
            Some(Ordering::Greater)
        } else if b {
            Some(Ordering::Less)
        } else {
            compare_prerelease(self.pre.as_str(), other.pre.as_str())
        }
    }

    /// Whether `self` comes strictly before `other` in semver's full order,
    /// where build metadata breaks ties of precedence.
    pub fn less_than(&self, other: &Version) -> (r: bool)
        ensures
            r == version_less(*self, *other),
            r ==> !version_less(*other, *self),
    {
        if self.major != other.major {
            self.major < other.major
        } else if self.minor != other.minor {
            self.minor < other.minor
        } else if self.patch != other.patch {
            self.patch < other.patch
        } else {
            match self.compare_pre(other) {
                Some(Ordering::Less) => true,
                Some(Ordering::Equal) => match compare_build(self.build.as_str(), other.build.as_str()) {
                    Some(Ordering::Less) => true,
                    _ => false,
                },
                _ => false,
            }
        }
    }

    /// The canonical text of the version.
    pub fn to_text(&self) -> (r: String)
        ensures
            r@ == version_text(*self),
    {
        let mut s = decimal_text(self.major);
        s.append(".");
        let t = decimal_text(self.minor);
        s.append(t.as_str());
        s.append(".");
        let t = decimal_text(self.patch);
        s.append(t.as_str());
        if !self.pre.as_str().is_empty() {
            s.append("-");
            s.append(self.pre.as_str());
        }
        if !self.build.as_str().is_empty() {
            s.append("+");
            s.append(self.build.as_str());
        }
        s
    }
}

} // verus!
