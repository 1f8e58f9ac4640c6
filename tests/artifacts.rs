use std::collections::BTreeMap;

use mcl_rs::archive::SharedZipArchive;
use mcl_rs::artifact::{
    asset_source, hash_path_of, Artifact, AssetIndexConfig, GlobalConfig, JustFile, JvmFiles,
    JvmInfoConfig, VersionInfoConfig, ZippedNatives,
};
use mcl_rs::os::{Os, OsSelector};
use mcl_rs::rules::{Arguments, OsDescription, Rule, RuleAction, Rules};
use mcl_rs::schema::{
    AssetIndex, AssetIndexResource, AssetMetadata, Downloads, JvmAvailability, JvmContent, JvmFile,
    JvmFileDownloads, JvmInfo, JvmManifest, JvmPlatform, JvmResource, JvmVersion, Latest, Library,
    LibraryExtract, LibraryResource, LibraryResources, Resource, Sha1Hash, Timestamp, Version,
    VersionInfo, VersionKind, VersionManifest,
};
use mcl_rs::source::{Source, SourceKind};

fn hash(seed: u8) -> Sha1Hash {
    Sha1Hash { bytes: [seed; 20] }
}

fn res(url: &str, seed: u8, size: u64) -> Resource {
    Resource { hash: hash(seed), size, url: url.to_string() }
}

fn stamp() -> Timestamp {
    Timestamp { seconds: 0 }
}

fn remote_parts(s: &Source) -> (String, String, SourceKind, Option<Sha1Hash>, Option<u64>) {
    match s {
        Source::Remote { url, name, kind, hash, size } => {
            (url.clone(), name.clone(), kind.clone(), *hash, *size)
        }
        Source::Archive { .. } => panic!("expected a remote source"),
    }
}

#[test]
fn manifest_lists_every_version() {
    let m = VersionManifest {
        latest: Latest { release: "1.20".to_string(), snapshot: "23w01a".to_string() },
        versions: vec![
            Version {
                id: "1.20".to_string(),
                version_kind: VersionKind::Release,
                url: "https://example.com/1.20.json".to_string(),
                time: stamp(),
                release_time: stamp(),
            },
            Version {
                id: "23w01a".to_string(),
                version_kind: VersionKind::Snapshot,
                url: "https://example.com/23w01a.json".to_string(),
                time: stamp(),
                release_time: stamp(),
            },
        ],
    };
    let out = m.provides();
    assert_eq!(out.len(), 2);
    let (url, name, kind, h, size) = remote_parts(&out[1]);
    assert_eq!(url, "https://example.com/23w01a.json");
    assert_eq!(name, "23w01a");
    assert!(matches!(kind, SourceKind::VersionInfo));
    assert!(h.is_none() && size.is_none());
}

#[test]
fn assets_get_hash_urls_and_names() {
    let index = AssetIndex {
        map_to_resources: false,
        objects: vec![("icons/icon.png".to_string(), AssetMetadata { hash: hash(0xab), size: 7 })],
    };
    let config = AssetIndexConfig { origin: "http://resources.download.minecraft.net".to_string() };
    let out = index.provides(&config).unwrap();
    let hex = "ab".repeat(20);
    let (url, name, kind, h, size) = remote_parts(&out[0]);
    assert_eq!(url, format!("http://resources.download.minecraft.net/ab/{hex}"));
    assert_eq!(name, format!("ab/{hex}"));
    assert!(matches!(kind, SourceKind::Asset { legacy: false }));
    assert_eq!(h, Some(hash(0xab)));
    assert_eq!(size, Some(7));
}

#[test]
fn legacy_assets_keep_their_logical_path() {
    let index = AssetIndex {
        map_to_resources: true,
        objects: vec![("icons/icon.png".to_string(), AssetMetadata { hash: hash(0x01), size: 7 })],
    };
    let config = AssetIndexConfig { origin: "http://resources.download.minecraft.net/".to_string() };
    let out = index.provides(&config).unwrap();
    let (url, name, kind, _, _) = remote_parts(&out[0]);
    assert_eq!(url, format!("http://resources.download.minecraft.net/01/{}", "01".repeat(20)));
    assert_eq!(name, "icons/icon.png");
    assert!(matches!(kind, SourceKind::Asset { legacy: true }));
}

#[test]
fn assets_need_a_usable_origin() {
    let index = AssetIndex {
        map_to_resources: false,
        objects: vec![("a".to_string(), AssetMetadata { hash: hash(1), size: 1 })],
    };
    assert!(index.provides(&AssetIndexConfig { origin: "not a url".to_string() }).is_none());
    let empty = AssetIndex { map_to_resources: false, objects: vec![] };
    assert!(empty.provides(&AssetIndexConfig { origin: "not a url".to_string() }).unwrap().is_empty());
}

#[test]
fn asset_source_uses_the_given_url() {
    let meta = AssetMetadata { hash: hash(0x10), size: 3 };
    let s = asset_source(&"x/y".to_string(), &meta, false, "u".to_string());
    let (url, name, _, _, _) = remote_parts(&s);
    assert_eq!(url, "u");
    assert_eq!(name, hash_path_of(&meta.hash));
    assert_eq!(name, format!("10/{}", "10".repeat(20)));
}

fn library(name: &str, natives: &[(&str, &str)], extra: &[&str], rules: Rules) -> Library {
    Library {
        resources: LibraryResources {
            artifact: Some(LibraryResource { resource: res("https://example.com/main.jar", 2, 20), path: None }),
            extra: extra
                .iter()
                .map(|c| {
                    (
                        c.to_string(),
                        LibraryResource { resource: res(&format!("https://example.com/{c}.jar"), 3, 30), path: None },
                    )
                })
                .collect(),
        },
        name: name.to_string(),
        natives: natives.iter().map(|(k, v)| (k.to_string(), v.to_string())).collect(),
        extract: LibraryExtract { exclude: vec!["META-INF/".to_string()] },
        rules,
    }
}

fn info(libraries: Vec<Library>, server: bool) -> VersionInfo {
    VersionInfo {
        id: "1.7.10".to_string(),
        version_kind: VersionKind::Release,
        asset_index: AssetIndexResource {
            resource: res("https://example.com/index.json", 4, 40),
            id: "1.7.10".to_string(),
            total_size: 100,
        },
        downloads: Downloads {
            client: res("https://example.com/client.jar", 5, 50),
            server: if server { Some(res("https://example.com/server.jar", 6, 60)) } else { None },
        },
        libraries,
        assets: "1.7.10".to_string(),
        main_class: "net.minecraft.client.main.Main".to_string(),
        arguments: Arguments::Legacy(vec![]),
        minimum_launcher_version: 13,
        release_time: stamp(),
        time: stamp(),
        java_version: None,
        logging: None,
        compliance_level: None,
    }
}

#[test]
fn version_info_heads_then_libraries() {
    let lib = library("org.lwjgl:lwjgl:2.9.1", &[], &[], Rules(vec![]));
    let v = info(vec![lib], true);
    let params = BTreeMap::new();
    let out = v.provides(&VersionInfoConfig { params: &params, os_selector: OsSelector::all() });
    let kinds: Vec<SourceKind> = out.iter().map(|s| remote_parts(s).2).collect();
    assert_eq!(out.len(), 4);
    assert!(matches!(kinds[0], SourceKind::ClientJar));
    assert!(matches!(kinds[1], SourceKind::ServerJar));
    assert!(matches!(kinds[2], SourceKind::AssetIndex));
    assert!(matches!(kinds[3], SourceKind::Library));
    assert_eq!(remote_parts(&out[3]).1, "org/lwjgl/lwjgl/2.9.1/lwjgl-2.9.1.jar");
    assert_eq!(remote_parts(&out[0]).1, "1.7.10");
    assert_eq!(remote_parts(&out[2]).4, Some(40));
}

#[test]
fn disallowed_library_gives_nothing() {
    let rules = Rules(vec![Rule {
        action: RuleAction::Allow,
        os: OsDescription { name: Some("osx".to_string()), version: None, arch: None },
        features: vec![],
    }]);
    let lib = library("a:b:1", &[], &[], rules);
    let params = BTreeMap::new();
    let out = info(vec![lib], false)
        .provides(&VersionInfoConfig { params: &params, os_selector: OsSelector::single(Os::Linux64) });
    assert_eq!(out.len(), 2);
}

#[test]
fn natives_follow_the_selected_systems() {
    let lib = library(
        "org.lwjgl:lwjgl-platform:2.9.1",
        &[("linux", "natives-linux"), ("windows", "natives-windows-${arch}")],
        &["natives-linux", "natives-windows-32", "natives-windows-64"],
        Rules(vec![]),
    );
    let params = BTreeMap::new();
    let selector = OsSelector::single(Os::Linux32)
        .with(Os::Linux64)
        .with(Os::Windows64)
        .with(Os::Windows10_64)
        .with(Os::Windows32);
    let out = info(vec![lib], false).provides(&VersionInfoConfig { params: &params, os_selector: selector });
    let names: Vec<String> = out[2..].iter().map(|s| remote_parts(s).1).collect();
    assert_eq!(
        names,
        vec![
            "org/lwjgl/lwjgl-platform/2.9.1/lwjgl-platform-2.9.1-natives-linux.jar",
            "org/lwjgl/lwjgl-platform/2.9.1/lwjgl-platform-2.9.1-natives-windows-32.jar",
            "org/lwjgl/lwjgl-platform/2.9.1/lwjgl-platform-2.9.1-natives-windows-64.jar",
            "org/lwjgl/lwjgl-platform/2.9.1/lwjgl-platform-2.9.1.jar",
        ]
    );
    match remote_parts(&out[2]).2 {
        SourceKind::ZippedNatives { classifier, exclude } => {
            assert_eq!(classifier, "1.7.10");
            assert_eq!(exclude, vec!["META-INF/".to_string()]);
        }
        other => panic!("unexpected kind {other:?}"),
    }
    assert_eq!(remote_parts(&out[2]).0, "https://example.com/natives-linux.jar");
}

#[test]
fn natives_without_a_resource_are_skipped() {
    let lib = library("a:b:1", &[("osx", "natives-osx")], &[], Rules(vec![]));
    let params = BTreeMap::new();
    let out = info(vec![lib], false).provides(&VersionInfoConfig { params: &params, os_selector: OsSelector::all() });
    assert_eq!(out.len(), 3);
}

fn jvm_file(lzma: bool, executable: bool) -> JvmContent {
    JvmContent::File(JvmFile {
        downloads: JvmFileDownloads {
            lzma: if lzma { Some(res("https://example.com/f.lzma", 7, 70)) } else { None },
            raw: res("https://example.com/f", 8, 80),
        },
        executable,
    })
}

fn jvm_info() -> JvmInfo {
    JvmInfo {
        content: vec![
            ("bin".to_string(), JvmContent::Directory),
            ("bin/java".to_string(), jvm_file(true, true)),
            ("lib/link".to_string(), JvmContent::Link { target: "../x".to_string() }),
            ("lib/rt".to_string(), jvm_file(false, false)),
        ],
    }
}

#[test]
fn jvm_files_prefer_compressed_when_asked() {
    let config = JvmInfoConfig {
        jvm_mojang_name: "java-runtime-gamma".to_string(),
        platform: "linux".to_string(),
        prefer_compressed: true,
    };
    let out = jvm_info().provides(&config);
    assert_eq!(out.len(), 2);
    let (url, name, kind, _, size) = remote_parts(&out[0]);
    assert_eq!(url, "https://example.com/f.lzma");
    assert_eq!(name, "bin/java");
    assert_eq!(size, Some(70));
    assert!(matches!(kind, SourceKind::JvmFile { executable: true, compressed: true, .. }));
    let (url, _, kind, _, _) = remote_parts(&out[1]);
    assert_eq!(url, "https://example.com/f");
    assert!(matches!(kind, SourceKind::JvmFile { executable: false, compressed: false, .. }));
}

#[test]
fn jvm_files_raw_by_default() {
    let config = JvmInfoConfig {
        jvm_mojang_name: "jre-legacy".to_string(),
        platform: "windows-x64".to_string(),
        prefer_compressed: false,
    };
    let out = jvm_info().provides(&config);
    let (url, _, kind, _, _) = remote_parts(&out[0]);
    assert_eq!(url, "https://example.com/f");
    match kind {
        SourceKind::JvmFile { platform, jvm_mojang_name, compressed, .. } => {
            assert_eq!(platform, "windows-x64");
            assert_eq!(jvm_mojang_name, "jre-legacy");
            assert!(!compressed);
        }
        other => panic!("unexpected kind {other:?}"),
    }
}

#[test]
fn jvm_manifest_lists_each_build() {
    let build = |name: &str| JvmResource {
        availability: JvmAvailability { group: 1, progress: 100 },
        resource: res("https://example.com/m.json", 9, 90),
        version: JvmVersion { name: name.to_string(), released: stamp() },
    };
    let m = JvmManifest {
        platforms: vec![
            (
                "linux".to_string(),
                JvmPlatform {
                    resources: vec![
                        ("java-runtime-gamma".to_string(), vec![build("17.0.8")]),
                        ("jre-legacy".to_string(), vec![build("8u51"), build("8u52")]),
                    ],
                },
            ),
            ("mac-os".to_string(), JvmPlatform { resources: vec![] }),
        ],
    };
    let out = m.provides();
    assert_eq!(out.len(), 3);
    let (_, name, kind, _, _) = remote_parts(&out[2]);
    assert_eq!(name, "8u52");
    match kind {
        SourceKind::JvmInfo { platform, jvm_mojang_name } => {
            assert_eq!(platform, "linux");
            assert_eq!(jvm_mojang_name, "jre-legacy");
        }
        other => panic!("unexpected kind {other:?}"),
    }
}

fn zip_of(names: &[&str]) -> Vec<u8> {
    let mut buf = std::io::Cursor::new(Vec::new());
    {
        let mut w = zip::ZipWriter::new(&mut buf);
        for n in names {
            w.start_file(*n, zip::write::SimpleFileOptions::default()).unwrap();
            std::io::Write::write_all(&mut w, n.as_bytes()).unwrap();
        }
        w.finish().unwrap();
    }
    buf.into_inner()
}

#[test]
fn natives_archive_yields_entries_not_excluded() {
    let archive = SharedZipArchive::new(zip_of(&["META-INF/MANIFEST.MF", "liblwjgl.so", "libopenal.so"])).unwrap();
    assert_eq!(archive.len(), 3);
    assert_eq!(archive.name_for_index(1).as_deref(), Some("liblwjgl.so"));
    assert!(archive.name_for_index(3).is_none());
    let z = ZippedNatives { archive, exclude: vec!["META-INF/".to_string()], classifier: "1.7.10".to_string() };
    let out = z.provides();
    assert_eq!(out.len(), 2);
    match &out[1] {
        Source::Archive { index, name, archive, .. } => {
            assert_eq!(*index, 2);
            assert_eq!(name, "libopenal.so");
            assert_eq!(archive.len(), 3);
        }
        other => panic!("unexpected source {other:?}"),
    }
}

#[test]
fn malformed_archive_is_refused() {
    assert!(SharedZipArchive::new(b"not a zip".to_vec()).is_err());
}

#[test]
fn plain_file_provides_nothing() {
    assert!(JustFile { data: vec![1, 2, 3] }.provides().is_empty());
}

#[test]
fn dispatch_uses_the_global_configuration() {
    let assets = AssetIndexConfig { origin: "http://resources.download.minecraft.net".to_string() };
    let params = BTreeMap::new();
    let config = GlobalConfig { assets: &assets, params: &params, os_selector: OsSelector::all(), prefer_compressed: true };
    let files = Artifact::JvmInfo(JvmFiles {
        info: jvm_info(),
        platform: "linux".to_string(),
        jvm_mojang_name: "java-runtime-gamma".to_string(),
    });
    let out = files.provides(&config).unwrap();
    assert_eq!(remote_parts(&out[0]).0, "https://example.com/f.lzma");
    assert!(Artifact::File(JustFile { data: vec![] }).provides(&config).unwrap().is_empty());
    let bad = AssetIndexConfig { origin: "nope".to_string() };
    let config = GlobalConfig { assets: &bad, ..config };
    let index = Artifact::AssetIndex(AssetIndex {
        map_to_resources: false,
        objects: vec![("a".to_string(), AssetMetadata { hash: hash(1), size: 1 })],
    });
    assert!(index.provides(&config).is_none());
}
