//! Sources: what to fetch and how to read it.

use vstd::prelude::*;
use vstd::string::*;

use crate::archive::SharedZipArchive;
use crate::schema::Sha1Hash;

verus! {

/// What a remote source holds; decides where it is placed and how its bytes
/// are read.
#[derive(Clone, Debug)]
pub enum SourceKind {
    VersionManifest,
    VersionInfo,
    ClientJar,
    ServerJar,
    Library,
    /// A zip of native libraries, unpacked for the version `classifier`
    /// but for the entries whose names start with one of `exclude`.
    ZippedNatives { classifier: String, exclude: Vec<String> },
    AssetIndex,
    Asset { legacy: bool },
    JvmInfo { platform: String, jvm_mojang_name: String },
    JvmFile { platform: String, jvm_mojang_name: String, executable: bool, compressed: bool },
}

/// What an archive entry is extracted as.
#[derive(Clone, Debug)]
pub enum ArchiveKind {
    /// A native library of the version `classifier`.
    Natives { classifier: String },
}

/// One resolvable unit.
#[allow(inconsistent_fields)]
#[derive(Clone, Debug)]
pub enum Source {
    /// A file behind a URL, with its expected digest and size when known.
    Remote {
        url: String,
        name: String,
        kind: SourceKind,
        hash: Option<Sha1Hash>,
        size: Option<u64>,
    },
    /// Entry `index`, named `name`, of an archive resolved before.
    Archive { archive: SharedZipArchive, index: usize, name: String, kind: ArchiveKind },
}

/// The text of each string.
pub open spec fn texts(v: Seq<String>) -> Seq<Seq<char>> {
    v.map_values(|s: String| s@)
}

pub proof fn lemma_texts_push(v: Seq<String>, s: String)
    ensures
        texts(v.push(s)) == texts(v) + seq![s@],
{
    assert(texts(v.push(s)) =~= texts(v) + seq![s@]);
}

/// A source kind with its strings seen as text.
pub enum KindView {
    VersionManifest,
    VersionInfo,
    ClientJar,
    ServerJar,
    Library,
    ZippedNatives { classifier: Seq<char>, exclude: Seq<Seq<char>> },
    AssetIndex,
    Asset { legacy: bool },
    JvmInfo { platform: Seq<char>, jvm_mojang_name: Seq<char> },
    JvmFile { platform: Seq<char>, jvm_mojang_name: Seq<char>, executable: bool, compressed: bool },
}

/// A source with its strings seen as text and its archive seen as the names
/// of its entries.
pub enum SourceView {
    Remote {
        url: Seq<char>,
        name: Seq<char>,
        kind: KindView,
        hash: Option<Sha1Hash>,
        size: Option<u64>,
    },
    Archive { entries: Seq<Seq<char>>, index: int, name: Seq<char>, classifier: Seq<char> },
}

impl View for SourceKind {
    type V = KindView;

    open spec fn view(&self) -> KindView {
        match *self {
            SourceKind::VersionManifest => KindView::VersionManifest,
            SourceKind::VersionInfo => KindView::VersionInfo,
            SourceKind::ClientJar => KindView::ClientJar,
            SourceKind::ServerJar => KindView::ServerJar,
            SourceKind::Library => KindView::Library,
            SourceKind::ZippedNatives { classifier, exclude } => KindView::ZippedNatives {
                classifier: classifier@,
                exclude: texts(exclude@),
            },
            SourceKind::AssetIndex => KindView::AssetIndex,
            SourceKind::Asset { legacy } => KindView::Asset { legacy },
            SourceKind::JvmInfo { platform, jvm_mojang_name } => KindView::JvmInfo {
                platform: platform@,
                jvm_mojang_name: jvm_mojang_name@,
            },
            SourceKind::JvmFile { platform, jvm_mojang_name, executable, compressed } =>
                KindView::JvmFile {
                platform: platform@,
                jvm_mojang_name: jvm_mojang_name@,
                executable,
                compressed,
            },
        }
    }
}

impl View for Source {
    type V = SourceView;

    open spec fn view(&self) -> SourceView {
        match *self {
            Source::Remote { url, name, kind, hash, size } => SourceView::Remote {
                url: url@,
                name: name@,
                kind: kind@,
                hash,
                size,
            },
            Source::Archive { archive, index, name, kind: ArchiveKind::Natives { classifier } } =>
                SourceView::Archive {
                entries: archive.names(),
                index: index as int,
                name: name@,
                classifier: classifier@,
            },
        }
    }
}

/// The source of the version manifest behind `url`.
pub fn manifest(url: String) -> (r: Source)
    ensures
        r@ == (SourceView::Remote {
            url: url@,
            name: "version_manifest_v2"@,
            kind: KindView::VersionManifest,
            hash: None,
            size: None,
        }),
{
    Source::Remote {
        url,
        name: String::from_str("version_manifest_v2"),
        kind: SourceKind::VersionManifest,
        hash: None,
        size: None,
    }
}

/// The view of each source.
pub open spec fn source_views(v: Seq<Source>) -> Seq<SourceView> {
    v.map_values(|s: Source| s@)
}

} // verus!
