//! Where each source is stored on disk, and the Maven layout of library
//! files.

use vstd::prelude::*;
use vstd::string::*;

use crate::schema::Sha1Hash;
use crate::source::{ArchiveKind, KindView, Source, SourceKind, SourceView};
use crate::text::{find_char, first_of, lemma_first_of};

verus! {

/// The five base directories of an installation.
#[derive(Clone, Debug)]
pub struct Dirs {
    pub root: String,
    pub assets: String,
    pub libraries: String,
    pub versions: String,
    pub runtime: String,
}

impl Dirs {
    /// The usual layout under one root directory.
    pub fn under(root: &str) -> (r: Dirs)
        ensures
            r.root@ == root@,
            r.assets@ == root@ + "/assets"@,
            r.libraries@ == root@ + "/libraries"@,
            r.versions@ == root@ + "/versions"@,
            r.runtime@ == root@ + "/runtime"@,
    {
        Dirs {
            root: root.to_owned(),
            assets: cat(root.to_owned(), "/assets"),
            libraries: cat(root.to_owned(), "/libraries"),
            versions: cat(root.to_owned(), "/versions"),
            runtime: cat(root.to_owned(), "/runtime"),
        }
    }

    /// The path at which `src` is stored.
    pub open spec fn place(self, src: SourceView) -> Seq<char> {
        match src {
            SourceView::Remote { name, kind, .. } => {
                let n = name;
                match kind {
                    KindView::VersionManifest => self.root@ + "/"@ + n + ".json"@,
                    KindView::AssetIndex => self.assets@ + "/indexes/"@ + n + ".json"@,
                    KindView::Asset { legacy } => if legacy {
                        self.assets@ + "/legacy/"@ + n
                    } else {
                        self.assets@ + "/objects/"@ + n
                    },
                    KindView::Library | KindView::ZippedNatives { .. } => self.libraries@
                        + "/"@ + n,
                    KindView::ClientJar => self.versions@ + "/"@ + n + "/"@ + n + ".jar"@,
                    KindView::ServerJar => self.versions@ + "/"@ + n + "/"@ + n
                        + "_server.jar"@,
                    KindView::VersionInfo => self.versions@ + "/"@ + n + "/"@ + n + ".json"@,
                    KindView::JvmInfo { platform, jvm_mojang_name } => self.runtime@ + "/"@
                        + jvm_mojang_name + "/"@ + platform + "/"@ + jvm_mojang_name + "/"@ + n
                        + "_info.json"@,
                    KindView::JvmFile { platform, jvm_mojang_name, .. } => self.runtime@
                        + "/"@ + jvm_mojang_name + "/"@ + platform + "/"@ + jvm_mojang_name
                        + "/"@ + n,
                }
            },
            SourceView::Archive { name, classifier, .. } => self.versions@ + "/"@ + classifier
                + "/natives/"@ + name,
        }
    }

    pub fn locate(&self, src: &Source) -> (r: String)
        ensures
            r@ == self.place(src@),
    {
        match src {
            Source::Remote { name, kind, .. } => {
                let n = name.as_str();
                match kind {
                    SourceKind::VersionManifest => cat(cat(cat(self.root.clone(), "/"), n), ".json"),
                    SourceKind::AssetIndex => cat(
                        cat(cat(self.assets.clone(), "/indexes/"), n),
                        ".json",
                    ),
                    SourceKind::Asset { legacy } => if *legacy {
                        cat(cat(self.assets.clone(), "/legacy/"), n)
                    } else {
                        cat(cat(self.assets.clone(), "/objects/"), n)
                    },
                    SourceKind::Library | SourceKind::ZippedNatives { .. } => cat(
                        cat(self.libraries.clone(), "/"),
                        n,
                    ),
                    SourceKind::ClientJar => cat(
                        cat(cat(cat(cat(self.versions.clone(), "/"), n), "/"), n),
                        ".jar",
                    ),
                    SourceKind::ServerJar => cat(
                        cat(cat(cat(cat(self.versions.clone(), "/"), n), "/"), n),
                        "_server.jar",
                    ),
                    SourceKind::VersionInfo => cat(
                        cat(cat(cat(cat(self.versions.clone(), "/"), n), "/"), n),
                        ".json",
                    ),
                    SourceKind::JvmInfo { platform, jvm_mojang_name } => {
                        let base = runtime_dir(&self.runtime, platform, jvm_mojang_name);
                        cat(cat(base, n), "_info.json")
                    },
                    SourceKind::JvmFile { platform, jvm_mojang_name, .. } => {
                        let base = runtime_dir(&self.runtime, platform, jvm_mojang_name);
                        cat(base, n)
                    },
                }
            },
            Source::Archive { name, kind: ArchiveKind::Natives { classifier }, .. } => cat(
                cat(cat(cat(self.versions.clone(), "/"), classifier.as_str()), "/natives/"),
                name.as_str(),
            ),
        }
    }
}

impl Source {
    /// Where this source is stored under `dirs`.
    pub fn local_path(&self, dirs: &Dirs) -> (r: String)
        ensures
            r@ == dirs.place(self@),
    {
        dirs.locate(self)
    }
}

/// Where a source is stored depends on the source and the directories
/// alone: sources that read the same are stored at the same path.
pub proof fn lemma_placement_is_pure(dirs: Dirs, a: Source, b: Source)
    requires
        a@ == b@,
    ensures
        dirs.place(a@) == dirs.place(b@),
{
}

/// `s` followed by `p`.
fn cat(s: String, p: &str) -> (r: String)
    ensures
        r@ == s@ + p@,
{
    let mut s = s;
    s.append(p);
    s
}

/// `runtime/<jvm>/<platform>/<jvm>/`.
fn runtime_dir(runtime: &String, platform: &String, jvm: &String) -> (r: String)
    ensures
        r@ == runtime@ + "/"@ + jvm@ + "/"@ + platform@ + "/"@ + jvm@ + "/"@,
{
    cat(
        cat(cat(cat(cat(cat(runtime.clone(), "/"), jvm.as_str()), "/"), platform.as_str()), "/"),
        jvm.as_str(),
    ).concat("/")
}

/// The `group`, `artifact` and `version` of Maven coordinates
/// `group:artifact:version`; the version takes whatever follows the second
/// colon.
pub open spec fn coordinates(name: Seq<char>) -> Option<(Seq<char>, Seq<char>, Seq<char>)> {
    match first_of(name, ':', 0) {
        None => None,
        Some(a) => match first_of(name, ':', a + 1) {
            None => None,
            Some(b) => Some(
                (
                    name.subrange(0, a),
                    name.subrange(a + 1, b),
                    name.subrange(b + 1, name.len() as int),
                ),
            ),
        },
    }
}

/// A Maven group with its dots turned into directory separators.
pub open spec fn slashed(group: Seq<char>) -> Seq<char> {
    group.map_values(|c: char| if c == '.' { '/' } else { c })
}

/// The relative path of a library file, built from the library's name when
/// its coordinates can be read, else from its name and digest.
pub open spec fn library_path(name: Seq<char>, hash: Seq<char>, classifier: Option<Seq<char>>) -> Seq<
    char,
> {
    match coordinates(name) {
        Some((group, artifact, version)) => {
            let file = match classifier {
                Some(c) => artifact + "-"@ + version + "-"@ + c + ".jar"@,
                None => artifact + "-"@ + version + ".jar"@,
            };
            slashed(group) + "/"@ + artifact + "/"@ + version + "/"@ + file
        },
        None => if name.len() == 0 {
            hash + ".jar"@
        } else {
            name + "-"@ + hash + ".jar"@
        },
    }
}

/// `group` with each `.` replaced by `/`.
fn slash_group(group: &str) -> (r: String)
    ensures
        r@ == slashed(group@),
{
    let n = group.unicode_len();
    let mut out = String::new();
    let mut i: usize = 0;
    proof {
        reveal_strlit("/");
    }
    while i < n
        invariant
            i <= n,
            n == group@.len(),
            out@ == slashed(group@.subrange(0, i as int)),
            "/"@ == seq!['/'],
        decreases n - i,
    {
        let c = group.get_char(i);
        if c == '.' {
            out.append("/");
        } else {
            out.append(group.substring_char(i, i + 1));
        }
        proof {
            assert(out@ =~= slashed(group@.subrange(0, i + 1)));
        }
        i += 1;
    }
    proof {
        assert(group@.subrange(0, n as int) =~= group@);
    }
    out
}

/// The relative path of a library file; see `library_path`.
pub fn build_library_path(name: &str, hash: &Sha1Hash, classifier: Option<&str>) -> (r: String)
    ensures
        r@ == library_path(name@, hash.hex(), match classifier {
            Some(c) => Some(c@),
            None => None,
        }),
{
    let n = name.unicode_len();
    proof {
        lemma_first_of(name@, ':', 0);
    }
    let first = find_char(name, n, ':', 0);
    let second = match first {
        Some(a) => {
            proof {
                lemma_first_of(name@, ':', a + 1);
            }
            find_char(name, n, ':', a + 1)
        },
        None => None,
    };
    match (first, second) {
        (Some(a), Some(b)) => {
            let group = name.substring_char(0, a);
            let artifact = name.substring_char(a + 1, b);
            let version = name.substring_char(b + 1, n);
            let file = match classifier {
                Some(c) => cat(cat(cat(cat(cat(artifact.to_owned(), "-"), version), "-"), c), ".jar"),
                None => cat(cat(cat(artifact.to_owned(), "-"), version), ".jar"),
            };
            cat(
                cat(cat(cat(cat(cat(slash_group(group), "/"), artifact), "/"), version), "/"),
                file.as_str(),
            )
        },
        _ => {
            let hex = hash.to_hex();
            if n == 0 {
                cat(hex, ".jar")
            } else {
                cat(cat(cat(name.to_owned(), "-"), hex.as_str()), ".jar")
            }
        },
    }
}

} // verus!
