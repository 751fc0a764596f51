use vstd::prelude::*;
use vstd::string::*;

use crate::error::YvmError;

verus! {

/// A host platform for which `ylem` binaries are published.
#[derive(Clone, Copy, Debug, PartialEq, Eq, Hash, Structural)]
pub enum Platform {
    LinuxAmd64,
    LinuxAarch64,
    MacOsAmd64,
    MacOsAarch64,
    WindowsAmd64,
}

/// The canonical name of a platform.
pub open spec fn platform_name(p: Platform) -> Seq<char> {
    match p {
        Platform::LinuxAmd64 => "linux-amd64"@,
        Platform::LinuxAarch64 => "linux-aarch64"@,
        Platform::MacOsAmd64 => "macosx-amd64"@,
        Platform::MacOsAarch64 => "macosx-aarch64"@,
        Platform::WindowsAmd64 => "windows-amd64"@,
    }
}

/// The platform whose canonical name is exactly `s`, if any.
pub open spec fn platform_named(s: Seq<char>) -> Option<Platform> {
    if s == platform_name(Platform::LinuxAmd64) {
        Some(Platform::LinuxAmd64)
    } else if s == platform_name(Platform::LinuxAarch64) {
        Some(Platform::LinuxAarch64)
    } else if s == platform_name(Platform::MacOsAmd64) {
        Some(Platform::MacOsAmd64)
    } else if s == platform_name(Platform::MacOsAarch64) {
        Some(Platform::MacOsAarch64)
    } else if s == platform_name(Platform::WindowsAmd64) {
        Some(Platform::WindowsAmd64)
    } else {
        None
    }
}

/// The platform of a host, from its operating system and CPU architecture
/// as Rust names them (`"linux"`, `"x86_64"`, ...).
pub open spec fn host_platform(os: Seq<char>, arch: Seq<char>) -> Option<Platform> {
    if os == "linux"@ && arch == "x86_64"@ {
        Some(Platform::LinuxAmd64)
    } else if os == "linux"@ && arch == "aarch64"@ {
        Some(Platform::LinuxAarch64)
    } else if os == "macos"@ && arch == "x86_64"@ {
        Some(Platform::MacOsAmd64)
    } else if os == "macos"@ && arch == "aarch64"@ {
        Some(Platform::MacOsAarch64)
    } else if os == "windows"@ && arch == "x86_64"@ {
        Some(Platform::WindowsAmd64)
    } else {
        None
    }
}

/// Canonical names of different platforms differ.
pub proof fn lemma_platform_names_distinct(p: Platform, q: Platform)
    ensures
        platform_name(p) == platform_name(q) ==> p == q,
{
    reveal_strlit("linux-amd64");
    reveal_strlit("linux-aarch64");
    reveal_strlit("macosx-amd64");
    reveal_strlit("macosx-aarch64");
    reveal_strlit("windows-amd64");
    if platform_name(p) == platform_name(q) && p != q {
        assert(platform_name(p).len() == platform_name(q).len());
        assert(platform_name(p)[0] == platform_name(q)[0]);
        assert(platform_name(p)[7] == platform_name(q)[7]);
    }
}

/// Parsing a canonical name gives back its platform.
pub proof fn lemma_parse_name(p: Platform)
    ensures
        platform_named(platform_name(p)) == Some(p),
{
    lemma_platform_names_distinct(p, Platform::LinuxAmd64);
    lemma_platform_names_distinct(p, Platform::LinuxAarch64);
    lemma_platform_names_distinct(p, Platform::MacOsAmd64);
    lemma_platform_names_distinct(p, Platform::MacOsAarch64);
    lemma_platform_names_distinct(p, Platform::WindowsAmd64);
}

/// Round trip: whenever a text parses, formatting the platform and parsing
/// the result gives the same platform again.
pub proof fn lemma_parse_format_parse(s: Seq<char>)
    requires
        platform_named(s) is Some,
    ensures
        platform_named(platform_name(platform_named(s)->0)) == platform_named(s),
        platform_name(platform_named(s)->0) == s,
{
    lemma_parse_name(platform_named(s)->0);
}

/// No guessing: a text parses only when it is a canonical name, and then to
/// the platform of that name.
pub proof fn lemma_parse_exact(s: Seq<char>)
    ensures
        platform_named(s) is None <==> (forall|p: Platform| platform_name(p) != s),
        platform_named(s) matches Some(p) ==> platform_name(p) == s,
{
    if platform_named(s) is None {
        assert forall|p: Platform| platform_name(p) != s by {
            match p {
                Platform::LinuxAmd64 => {},
                Platform::LinuxAarch64 => {},
                Platform::MacOsAmd64 => {},
                Platform::MacOsAarch64 => {},
                Platform::WindowsAmd64 => {},
            }
        }
    }
}

fn same_text(a: &str, b: &str) -> (r: bool)
    ensures
        r == (a@ == b@),
{
    let x = String::from_str(a);
    let y = String::from_str(b);
    x == y
}

impl Platform {
    /// Parses a canonical platform name; anything else is rejected.
    pub fn parse(s: &str) -> (r: Result<Platform, YvmError>)
        ensures
            match platform_named(s@) {
                Some(p) => r == Ok::<Platform, YvmError>(p),
                None => r matches Err(YvmError::UnknownPlatform(t)) && t@ == s@,
            },
    {
        if same_text(s, "linux-amd64") {
            Ok(Platform::LinuxAmd64)
        } else if same_text(s, "linux-aarch64") {
            Ok(Platform::LinuxAarch64)
        } else if same_text(s, "macosx-amd64") {
            Ok(Platform::MacOsAmd64)
        } else if same_text(s, "macosx-aarch64") {
            Ok(Platform::MacOsAarch64)
        } else if same_text(s, "windows-amd64") {
            Ok(Platform::WindowsAmd64)
        } else {
            Err(YvmError::UnknownPlatform(String::from_str(s)))
        }
    }

    /// The canonical name of the platform.
    pub fn as_str(&self) -> (r: &'static str)
        ensures
            r@ == platform_name(*self),
    {
        match self {
            Platform::LinuxAmd64 => "linux-amd64",
            Platform::LinuxAarch64 => "linux-aarch64",
            Platform::MacOsAmd64 => "macosx-amd64",
            Platform::MacOsAarch64 => "macosx-aarch64",
            Platform::WindowsAmd64 => "windows-amd64",
        }
    }

    /// The canonical name of the platform, as an owned string.
    pub fn to_canonical_string(&self) -> (r: String)
        ensures
            r@ == platform_name(*self),
    {
        String::from_str(self.as_str())
    }

    /// The platform of a host with the given operating system and CPU
    /// architecture, or `None` when that combination is not supported.
    pub fn from_host(os: &str, arch: &str) -> (r: Option<Platform>)
        ensures
            r == host_platform(os@, arch@),
    {
        let linux = same_text(os, "linux");
        let macos = same_text(os, "macos");
        let windows = same_text(os, "windows");
        let amd64 = same_text(arch, "x86_64");
        let aarch64 = same_text(arch, "aarch64");
        if linux && amd64 {
            Some(Platform::LinuxAmd64)
        } else if linux && aarch64 {
            Some(Platform::LinuxAarch64)
        } else if macos && amd64 {
            Some(Platform::MacOsAmd64)
        } else if macos && aarch64 {
            Some(Platform::MacOsAarch64)
        } else if windows && amd64 {
            Some(Platform::WindowsAmd64)
        } else {
            None
        }
    }
}

} // verus!
