use mcl_rs::archive::SharedZipArchive;
use mcl_rs::layout::{build_library_path, Dirs};
use mcl_rs::schema::Sha1Hash;
use mcl_rs::source::{manifest, ArchiveKind, Source, SourceKind};

fn hash() -> Sha1Hash {
    let mut bytes = [0u8; 20];
    for (i, b) in bytes.iter_mut().enumerate() {
        *b = (i as u8) * 13 + 1;
    }
    Sha1Hash { bytes }
}

const HEX: &str = "010e1b2835424f5c697683909daab7c4d1deebf8";

#[test]
fn hash_is_lower_case_hex() {
    assert_eq!(hash().to_hex(), HEX);
    assert_eq!(Sha1Hash { bytes: [0xff; 20] }.to_hex(), "f".repeat(40));
}

#[test]
fn library_path_from_coordinates() {
    assert_eq!(
        build_library_path("com.example:lib:1.0", &hash(), None),
        "com/example/lib/1.0/lib-1.0.jar"
    );
}

#[test]
fn library_path_with_classifier() {
    assert_eq!(
        build_library_path("com.example:lib:1.0", &hash(), Some("linux")),
        "com/example/lib/1.0/lib-1.0-linux.jar"
    );
}

#[test]
fn library_path_of_unreadable_name() {
    assert_eq!(
        build_library_path("invalid_lib", &hash(), Some("linux")),
        format!("invalid_lib-{HEX}.jar")
    );
}

#[test]
fn library_path_of_empty_name() {
    assert_eq!(build_library_path("", &hash(), Some("linux")), format!("{HEX}.jar"));
}

#[test]
fn library_path_version_keeps_later_colons() {
    assert_eq!(
        build_library_path("org.lwjgl:lwjgl:3.3.1:natives", &hash(), None),
        "org/lwjgl/lwjgl/3.3.1:natives/lwjgl-3.3.1:natives.jar"
    );
}

fn dirs() -> Dirs {
    Dirs {
        root: "mc".to_string(),
        assets: "mc/assets".to_string(),
        libraries: "mc/libraries".to_string(),
        versions: "mc/versions".to_string(),
        runtime: "mc/runtime".to_string(),
    }
}

fn remote(name: &str, kind: SourceKind) -> Source {
    Source::Remote {
        url: "https://example.com/x".to_string(),
        name: name.to_string(),
        kind,
        hash: None,
        size: None,
    }
}

#[test]
fn placement_table() {
    let d = dirs();
    let cases: Vec<(Source, &str)> = vec![
        (remote("version_manifest_v2", SourceKind::VersionManifest), "mc/version_manifest_v2.json"),
        (remote("17", SourceKind::AssetIndex), "mc/assets/indexes/17.json"),
        (remote("ab/abcd", SourceKind::Asset { legacy: false }), "mc/assets/objects/ab/abcd"),
        (remote("icons/icon.png", SourceKind::Asset { legacy: true }), "mc/assets/legacy/icons/icon.png"),
        (remote("a/b/c.jar", SourceKind::Library), "mc/libraries/a/b/c.jar"),
        (
            remote(
                "a/b/n.jar",
                SourceKind::ZippedNatives { classifier: "1.7.10".to_string(), exclude: vec![] },
            ),
            "mc/libraries/a/b/n.jar",
        ),
        (remote("1.20", SourceKind::ClientJar), "mc/versions/1.20/1.20.jar"),
        (remote("1.20", SourceKind::ServerJar), "mc/versions/1.20/1.20_server.jar"),
        (remote("1.20", SourceKind::VersionInfo), "mc/versions/1.20/1.20.json"),
        (
            remote(
                "17.0.8",
                SourceKind::JvmInfo { platform: "linux".to_string(), jvm_mojang_name: "java-runtime-gamma".to_string() },
            ),
            "mc/runtime/java-runtime-gamma/linux/java-runtime-gamma/17.0.8_info.json",
        ),
        (
            remote(
                "bin/java",
                SourceKind::JvmFile {
                    platform: "linux".to_string(),
                    jvm_mojang_name: "java-runtime-gamma".to_string(),
                    executable: true,
                    compressed: false,
                },
            ),
            "mc/runtime/java-runtime-gamma/linux/java-runtime-gamma/bin/java",
        ),
    ];
    for (src, expected) in cases {
        assert_eq!(d.locate(&src), expected);
        assert_eq!(src.local_path(&d), expected);
    }
}

#[test]
fn archive_entries_go_to_the_natives_dir() {
    let mut buf = std::io::Cursor::new(Vec::new());
    {
        let mut w = zip::ZipWriter::new(&mut buf);
        w.start_file("liblwjgl.so", zip::write::SimpleFileOptions::default()).unwrap();
        std::io::Write::write_all(&mut w, b"elf").unwrap();
        w.finish().unwrap();
    }
    let archive = SharedZipArchive::new(buf.into_inner()).unwrap();
    let src = Source::Archive {
        archive,
        index: 0,
        name: "liblwjgl.so".to_string(),
        kind: ArchiveKind::Natives { classifier: "1.7.10".to_string() },
    };
    assert_eq!(dirs().locate(&src), "mc/versions/1.7.10/natives/liblwjgl.so");
}

#[test]
fn dirs_under_a_root() {
    let d = Dirs::under("/home/u/.minecraft");
    assert_eq!(d.root, "/home/u/.minecraft");
    assert_eq!(d.assets, "/home/u/.minecraft/assets");
    assert_eq!(d.libraries, "/home/u/.minecraft/libraries");
    assert_eq!(d.versions, "/home/u/.minecraft/versions");
    assert_eq!(d.runtime, "/home/u/.minecraft/runtime");
}

#[test]
fn manifest_source_is_stored_at_the_root() {
    let src = manifest("https://piston-meta.mojang.com/mc/game/version_manifest_v2.json".to_string());
    assert_eq!(dirs().locate(&src), "mc/version_manifest_v2.json");
    match src {
        Source::Remote { url, kind, .. } => {
            assert_eq!(url, "https://piston-meta.mojang.com/mc/game/version_manifest_v2.json");
            assert!(matches!(kind, SourceKind::VersionManifest));
        }
        Source::Archive { .. } => panic!("expected a remote source"),
    }
}
