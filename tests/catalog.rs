use yvm::compiler::{
    add_build_info_constants, checksum_const_name, choose_acquisition, compile_catalog,
    compile_offline, target_platform, version_const_name, CatalogAcquisition, Declaration,
};
use yvm::error::YvmError;
use yvm::hex_string::{deserialize, serialize};
use yvm::platform::Platform;
use yvm::releases::{artifact_location_text, artifact_url, resolve_releases, BuildInfo, Releases};
use yvm::version::Version;

const ALL: [(&str, Platform); 5] = [
    ("linux-amd64", Platform::LinuxAmd64),
    ("linux-aarch64", Platform::LinuxAarch64),
    ("macosx-amd64", Platform::MacOsAmd64),
    ("macosx-aarch64", Platform::MacOsAarch64),
    ("windows-amd64", Platform::WindowsAmd64),
];

fn pre(major: u64, minor: u64, patch: u64, pre: &str) -> Version {
    let mut v = Version::new(major, minor, patch);
    v.pre = pre.to_string();
    v
}

fn catalog_with_builds(builds: Vec<(Version, Vec<u8>)>) -> Releases {
    let mut r = Releases::new();
    for (version, sha256) in builds {
        r.builds.push(BuildInfo { version, sha256 });
    }
    r
}

#[test]
fn platform_round_trip() {
    for (name, p) in ALL {
        let parsed = Platform::parse(name).unwrap();
        assert_eq!(parsed, p);
        assert_eq!(parsed.as_str(), name);
        assert_eq!(Platform::parse(&parsed.to_canonical_string()).unwrap(), parsed);
    }
}

#[test]
fn platform_rejects_unknown_names() {
    for name in ["", "linux", "Linux-amd64", "linux-amd64 ", "linux-x86_64", "macos-amd64"] {
        assert_eq!(Platform::parse(name), Err(YvmError::UnknownPlatform(name.to_string())));
    }
}

#[test]
fn platform_from_host() {
    assert_eq!(Platform::from_host("linux", "x86_64"), Some(Platform::LinuxAmd64));
    assert_eq!(Platform::from_host("linux", "aarch64"), Some(Platform::LinuxAarch64));
    assert_eq!(Platform::from_host("macos", "x86_64"), Some(Platform::MacOsAmd64));
    assert_eq!(Platform::from_host("macos", "aarch64"), Some(Platform::MacOsAarch64));
    assert_eq!(Platform::from_host("windows", "x86_64"), Some(Platform::WindowsAmd64));
    assert_eq!(Platform::from_host("windows", "aarch64"), None);
    assert_eq!(Platform::from_host("freebsd", "x86_64"), None);
}

#[test]
fn checksum_of_listed_and_missing_version() {
    let h = vec![0xcc; 32];
    let r = catalog_with_builds(vec![(Version::new(0, 8, 7), h.clone())]);
    assert_eq!(r.get_checksum(&Version::new(0, 8, 7)), Some(h));
    assert_eq!(r.get_checksum(&Version::new(0, 9, 0)), None);
}

#[test]
fn checksum_first_match_wins() {
    let r = catalog_with_builds(vec![
        (Version::new(0, 8, 6), vec![1; 32]),
        (Version::new(0, 8, 7), vec![2; 32]),
        (Version::new(0, 8, 7), vec![3; 32]),
    ]);
    assert_eq!(r.get_checksum(&Version::new(0, 8, 7)), Some(vec![2; 32]));
    assert_eq!(r.get_checksum(&pre(0, 8, 7, "rc.1")), None);
}

#[test]
fn artifact_lookup() {
    let mut r = Releases::new();
    r.releases.push((Version::new(0, 8, 6), "a".to_string()));
    r.releases.push((Version::new(0, 8, 7), "b".to_string()));
    assert_eq!(r.get_artifact(&Version::new(0, 8, 7)), Some(&"b".to_string()));
    assert_eq!(r.get_artifact(&Version::new(0, 8, 6)), Some(&"a".to_string()));
    assert_eq!(r.get_artifact(&Version::new(0, 8, 8)), None);
}

#[test]
fn versions_sorted_ascending() {
    let mut r = Releases::new();
    r.releases.push((Version::new(0, 8, 7), "b".to_string()));
    r.releases.push((Version::new(0, 8, 6), "a".to_string()));
    assert_eq!(r.into_versions(), vec![Version::new(0, 8, 6), Version::new(0, 8, 7)]);

    let mut r = Releases::new();
    r.releases.push((Version::new(0, 8, 6), "a".to_string()));
    r.releases.push((Version::new(0, 8, 7), "b".to_string()));
    assert_eq!(r.into_versions(), vec![Version::new(0, 8, 6), Version::new(0, 8, 7)]);
}

#[test]
fn versions_sorted_by_precedence() {
    let mut r = Releases::new();
    for v in [
        Version::new(1, 0, 0),
        pre(1, 0, 0, "rc.1"),
        Version::new(0, 10, 0),
        pre(1, 0, 0, "alpha"),
        Version::new(0, 9, 12),
        pre(1, 0, 0, "alpha.2"),
        pre(1, 0, 0, "alpha.10"),
    ] {
        r.releases.push((v, "x".to_string()));
    }
    let expected = vec![
        Version::new(0, 9, 12),
        Version::new(0, 10, 0),
        pre(1, 0, 0, "alpha"),
        pre(1, 0, 0, "alpha.2"),
        pre(1, 0, 0, "alpha.10"),
        pre(1, 0, 0, "rc.1"),
        Version::new(1, 0, 0),
    ];
    assert_eq!(r.into_versions(), expected);
    assert!(Releases::new().into_versions().is_empty());
}

#[test]
fn versions_tied_in_precedence_ordered_by_build() {
    let build = |b: &str| {
        let mut v = Version::new(0, 8, 7);
        v.build = b.to_string();
        v
    };
    let expected = vec![build(""), build("commit.2"), build("commit.10"), build("commit.a")];
    for order in [[0, 1, 2, 3], [3, 2, 1, 0], [2, 0, 3, 1]] {
        let mut r = Releases::new();
        for i in order {
            r.releases.push((expected[i].clone(), "x".to_string()));
        }
        assert_eq!(r.into_versions(), expected);
    }
    assert!(build("").less_than(&build("commit.2")));
    assert!(!build("commit.2").less_than(&build("commit.2")));
    assert!(!build("commit.2").precedes(&build("commit.10")));
}

#[test]
fn checksum_text_with_and_without_prefix() {
    let bare = "cc5c663d1fe17d4eb4aca09253787ac86b8785235fca71d9200569e662677990";
    let expected = deserialize(bare).unwrap();
    assert_eq!(expected.len(), 32);
    assert_eq!(expected[0], 0xcc);
    assert_eq!(expected[31], 0x90);
    assert_eq!(deserialize(&format!("0x{bare}")).unwrap(), expected);
    assert_eq!(deserialize(&format!("0x0x{bare}")), Err(YvmError::InvalidChecksum));
    assert_eq!(deserialize("0x0xab"), Err(YvmError::InvalidChecksum));
    assert_eq!(deserialize(&bare.to_uppercase()).unwrap(), expected);
}

#[test]
fn checksum_text_invalid() {
    assert_eq!(deserialize("abc"), Err(YvmError::InvalidChecksum));
    assert_eq!(deserialize("0xzz"), Err(YvmError::InvalidChecksum));
    assert_eq!(deserialize("0X12"), Err(YvmError::InvalidChecksum));
    assert_eq!(deserialize(""), Ok(vec![]));
    assert_eq!(deserialize("0x"), Ok(vec![]));
}

#[test]
fn checksum_text_round_trip() {
    let bytes: Vec<u8> = vec![0x00, 0x0a, 0xff, 0x10, 0x7e];
    let text = serialize(&bytes);
    assert_eq!(text, "000aff107e");
    assert_eq!(deserialize(&text).unwrap(), bytes);
    assert_eq!(serialize(&vec![]), "");
}

#[test]
fn download_url_for_served_platform() {
    let url = artifact_url(Platform::LinuxAmd64, &Version::new(0, 8, 7), "ylem-linux-amd64").unwrap();
    assert_eq!(
        url.as_str(),
        "https://github.com/core-coin/ylem/releases/download/0.8.7/ylem-linux-amd64"
    );
    let text = artifact_location_text(Platform::LinuxAarch64, &pre(1, 2, 3, "rc.1"), "a").unwrap();
    assert_eq!(text, "https://github.com/core-coin/ylem/releases/download/1.2.3-rc.1/a");
}

#[test]
fn download_url_for_unserved_platform() {
    for p in [Platform::WindowsAmd64, Platform::MacOsAmd64, Platform::MacOsAarch64] {
        assert!(matches!(
            artifact_url(p, &Version::new(0, 8, 7), "ylem"),
            Err(YvmError::UnsupportedPlatform(q)) if q == p
        ));
    }
}

#[test]
fn catalog_choice_per_platform() {
    let arm = catalog_with_builds(vec![(Version::new(1, 0, 0), vec![1])]);
    let amd = catalog_with_builds(vec![(Version::new(2, 0, 0), vec![2])]);
    let (a, b) = (Some(&arm), Some(&amd));
    assert_eq!(resolve_releases(Platform::LinuxAarch64, a, b).unwrap(), &arm);
    assert_eq!(resolve_releases(Platform::LinuxAmd64, a, b).unwrap(), &amd);
    assert_eq!(
        resolve_releases(Platform::LinuxAmd64, a, b).unwrap(),
        resolve_releases(Platform::LinuxAmd64, a, b).unwrap()
    );
    assert_eq!(
        resolve_releases(Platform::MacOsAarch64, a, b),
        Err(YvmError::UnsupportedPlatform(Platform::MacOsAarch64))
    );
    assert_eq!(
        resolve_releases(Platform::LinuxAmd64, a, None),
        Err(YvmError::CatalogUnavailable(Platform::LinuxAmd64))
    );
    assert_eq!(resolve_releases(Platform::LinuxAarch64, a, None).unwrap(), &arm);
}

#[test]
fn constant_names() {
    let v = Version::new(0, 8, 17);
    assert_eq!(version_const_name(&v), "YLEM_VERSION_0_8_17");
    assert_eq!(checksum_const_name(&v), "YLEM_VERSION_0_8_17_CHECKSUM");
}

#[test]
fn build_info_declarations() {
    let r = catalog_with_builds(vec![
        (Version::new(0, 8, 7), vec![0xab, 0x01]),
        (Version::new(0, 8, 6), vec![0xff]),
    ]);
    let d = add_build_info_constants(&r, Platform::LinuxAmd64);
    assert_eq!(d.len(), 6);
    assert_eq!(
        d[0],
        Declaration::Constant {
            name: "YLEM_VERSION_0_8_7".to_string(),
            ty: "semver::Version".to_string(),
            expr: "semver::Version::new(0, 8, 7)".to_string(),
        }
    );
    assert_eq!(
        d[1],
        Declaration::Constant {
            name: "YLEM_VERSION_0_8_7_CHECKSUM".to_string(),
            ty: "&str".to_string(),
            expr: "\"ab01\"".to_string(),
        }
    );
    assert_eq!(
        d[4],
        Declaration::Raw(
            "\n/// All available releases for linux-amd64\npub static ALL_YLEM_VERSIONS: [semver::Version; 2] = [\n    YLEM_VERSION_0_8_7,\n    YLEM_VERSION_0_8_6,\n];\n"
                .to_string()
        )
    );
    match &d[5] {
        Declaration::Raw(text) => {
            assert!(text.contains("        (0, 8, 7) => YLEM_VERSION_0_8_7_CHECKSUM,\n        (0, 8, 6) => YLEM_VERSION_0_8_6_CHECKSUM,\n        _ => return None,"));
        }
        other => panic!("unexpected {other:?}"),
    }
}

#[test]
fn whole_catalog_declarations() {
    let r = catalog_with_builds(vec![(Version::new(0, 8, 7), vec![0x01])]);
    let d = compile_catalog(&r, Platform::LinuxAarch64, "{}");
    assert_eq!(d.len(), 6);
    assert_eq!(
        d[0],
        Declaration::Raw(
            "\n/// The `yvm::Platform` all constants were built for\npub const TARGET_PLATFORM: &str = \"linux-aarch64\";\n"
                .to_string()
        )
    );
    assert_eq!(
        d[5],
        Declaration::Raw("\n/// JSON release list\npub static RELEASE_LIST_JSON: &str = r#\"{}\"#;\n".to_string())
    );
}

#[test]
fn offline_declarations_are_empty() {
    let d = compile_offline(Platform::LinuxAmd64, "{\"builds\":[],\"releases\":{}}");
    assert_eq!(d.len(), 4);
    assert!(d.iter().all(|x| matches!(x, Declaration::Raw(_))));
    assert_eq!(
        d[1],
        Declaration::Raw(
            "\n/// All available releases for linux-amd64\npub static ALL_YLEM_VERSIONS: [semver::Version; 0] = [\n];\n"
                .to_string()
        )
    );
}

#[test]
fn acquisition_choice() {
    assert_eq!(
        choose_acquisition(Some("/tmp/list.json".to_string()), true),
        CatalogAcquisition::FromFile("/tmp/list.json".to_string())
    );
    assert_eq!(
        choose_acquisition(Some("/tmp/list.json".to_string()), false),
        CatalogAcquisition::FromFile("/tmp/list.json".to_string())
    );
    assert_eq!(choose_acquisition(None, true), CatalogAcquisition::LiveFetch);
    assert_eq!(choose_acquisition(None, false), CatalogAcquisition::Empty);
}

#[test]
fn build_target_platform() {
    assert_eq!(target_platform(None, Platform::MacOsAmd64), Ok(Platform::MacOsAmd64));
    assert_eq!(
        target_platform(Some("windows-amd64"), Platform::MacOsAmd64),
        Ok(Platform::WindowsAmd64)
    );
    assert_eq!(
        target_platform(Some("solaris"), Platform::MacOsAmd64),
        Err(YvmError::UnknownPlatform("solaris".to_string()))
    );
}

#[test]
fn version_text_and_precedence() {
    let mut v = pre(1, 2, 3, "beta.1");
    v.build = "commit.e28d00a7".to_string();
    assert_eq!(v.to_text(), "1.2.3-beta.1+commit.e28d00a7");
    assert_eq!(Version::new(10, 0, 0).to_text(), "10.0.0");
    assert!(pre(1, 0, 0, "alpha").precedes(&Version::new(1, 0, 0)));
    assert!(!Version::new(1, 0, 0).precedes(&pre(1, 0, 0, "alpha")));
    assert!(Version::new(0, 9, 9).precedes(&Version::new(0, 10, 0)));
    assert!(!Version::new(0, 10, 0).precedes(&Version::new(0, 10, 0)));
}
