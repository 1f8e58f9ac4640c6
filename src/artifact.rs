//! The child sources each document expands into.

use std::borrow::Cow;
use std::collections::BTreeMap;
use vstd::prelude::*;
use vstd::string::*;

use crate::archive::SharedZipArchive;
use crate::layout::{build_library_path, library_path};
use crate::os::{all_os, Os, OsSelector};
use crate::schema::{
    AssetIndex, AssetMetadata, JvmContent, JvmFile, JvmInfo, JvmManifest, JvmPlatform, JvmResource,
    Library, Resource, Sha1Hash, Version, VersionInfo, VersionManifest,
};
use crate::source::{lemma_texts_push, source_views, texts, ArchiveKind, KindView, Source, SourceKind, SourceView};
use crate::template::{expand, substitute, Binding, Params};
use crate::text::{has_prefix, keyed_by_text, starts_with, text_is};

verus! {

/// What resolving `relative` against the absolute URL `base` gives, if it
/// can be resolved.
pub uninterp spec fn url_join(base: Seq<char>, relative: Seq<char>) -> Option<Seq<char>>;

/// Relies on `url::Url::parse` and `url::Url::join`: `relative` resolved
/// against `base`, serialised; nothing when `base` is no absolute URL or
/// cannot serve as a base.
#[verifier::external_body]
fn join_url(base: &str, relative: &str) -> (r: Option<String>)
    ensures
        match r {
            Some(u) => url_join(base@, relative@) == Some(u@),
            None => url_join(base@, relative@) is None,
        },
{
    match url::Url::parse(base) {
        Ok(b) => match b.join(relative) {
            Ok(u) => Some(String::from(u)),
            Err(_) => None,
        },
        Err(_) => None,
    }
}

/// Configuration for expanding an asset index.
#[derive(Clone, Debug)]
pub struct AssetIndexConfig {
    /// Base URL the assets are downloaded from.
    pub origin: String,
}

/// Configuration for expanding a version.
#[derive(Clone, Copy, Debug)]
pub struct VersionInfoConfig<'cfg> {
    /// Feature flags the rules of libraries are evaluated against.
    pub params: &'cfg BTreeMap<&'cfg str, bool>,
    /// The systems to acquire natives for.
    pub os_selector: OsSelector,
}

/// Configuration for expanding the file list of a JVM runtime.
#[derive(Clone, Debug)]
pub struct JvmInfoConfig {
    pub jvm_mojang_name: String,
    pub platform: String,
    pub prefer_compressed: bool,
}

proof fn lemma_views_push(v: Seq<Source>, s: Source)
    ensures
        source_views(v.push(s)) == source_views(v).push(s@),
{
    assert(source_views(v.push(s)) =~= source_views(v).push(s@));
}

fn clone_texts(v: &Vec<String>) -> (r: Vec<String>)
    ensures
        texts(r@) == texts(v@),
{
    let mut out: Vec<String> = Vec::new();
    let mut i: usize = 0;
    while i < v.len()
        invariant
            i <= v@.len(),
            texts(out@) == texts(v@.subrange(0, i as int)),
        decreases v@.len() - i,
    {
        let ghost prev = out@;
        let item = v[i].clone();
        out.push(item);
        proof {
            lemma_texts_push(prev, item);
            lemma_texts_push(v@.subrange(0, i as int), v@[i as int]);
            assert(v@.subrange(0, i + 1) =~= v@.subrange(0, i as int).push(v@[i as int]));
        }
        i += 1;
    }
    proof {
        assert(v@.subrange(0, v@.len() as int) =~= v@);
    }
    out
}

/// A remote source for a described file.
pub open spec fn resource_view(res: Resource, name: Seq<char>, kind: KindView) -> SourceView {
    SourceView::Remote {
        url: res.url@,
        name,
        kind,
        hash: Some(res.hash),
        size: Some(res.size),
    }
}

fn remote(res: &Resource, name: String, kind: SourceKind) -> (r: Source)
    ensures
        r@ == resource_view(*res, name@, kind@),
{
    Source::Remote {
        url: res.url.clone(),
        name,
        kind,
        hash: Some(res.hash),
        size: Some(res.size),
    }
}

// ---------------------------------------------------------------- manifest

/// The source of a version's info document.
pub open spec fn version_view(v: Version) -> SourceView {
    SourceView::Remote { url: v.url@, name: v.id@, kind: KindView::VersionInfo, hash: None, size: None }
}

impl VersionManifest {
    pub open spec fn children(self) -> Seq<SourceView> {
        self.versions@.map_values(|v: Version| version_view(v))
    }

    /// One version-info source per listed version, in order.
    pub fn provides(&self) -> (r: Vec<Source>)
        ensures
            source_views(r@) == self.children(),
    {
        let mut out: Vec<Source> = Vec::new();
        let mut i: usize = 0;
        while i < self.versions.len()
            invariant
                i <= self.versions@.len(),
                source_views(out@) == self.versions@.subrange(0, i as int).map_values(
                    |v: Version| version_view(v),
                ),
            decreases self.versions@.len() - i,
        {
            let v = &self.versions[i];
            let s = Source::Remote {
                url: v.url.clone(),
                name: v.id.clone(),
                kind: SourceKind::VersionInfo,
                hash: None,
                size: None,
            };
            let ghost prev = out@;
            out.push(s);
            proof {
                lemma_views_push(prev, s);
                assert(source_views(out@) =~= self.versions@.subrange(0, i + 1).map_values(
                    |v: Version| version_view(v),
                ));
            }
            i += 1;
        }
        proof {
            assert(self.versions@.subrange(0, self.versions@.len() as int) =~= self.versions@);
        }
        out
    }
}

// ---------------------------------------------------------------- assets

/// `hh/<hash>`: the first two hex digits, a slash, and the full digest.
pub open spec fn hash_path(h: Sha1Hash) -> Seq<char> {
    h.hex().subrange(0, 2) + "/"@ + h.hex()
}

pub fn hash_path_of(h: &Sha1Hash) -> (r: String)
    ensures
        r@ == hash_path(*h),
{
    let hex = h.to_hex();
    let mut out = hex.as_str().substring_char(0, 2).to_owned();
    out.append("/");
    out.append(hex.as_str());
    out
}

/// The URL an asset is downloaded from.
pub open spec fn asset_url(origin: Seq<char>, meta: AssetMetadata) -> Option<Seq<char>> {
    url_join(origin, hash_path(meta.hash))
}

/// The source of one asset, downloaded from `url`: named by its logical
/// path when the index is legacy, by its hash path otherwise.
pub open spec fn asset_view(path: Seq<char>, meta: AssetMetadata, legacy: bool, url: Seq<char>) -> SourceView {
    SourceView::Remote {
        url,
        name: if legacy {
            path
        } else {
            hash_path(meta.hash)
        },
        kind: KindView::Asset { legacy },
        hash: Some(meta.hash),
        size: Some(meta.size),
    }
}

pub fn asset_source(path: &String, meta: &AssetMetadata, legacy: bool, url: String) -> (r: Source)
    ensures
        r@ == asset_view(path@, *meta, legacy, url@),
{
    let name = if legacy {
        path.clone()
    } else {
        hash_path_of(&meta.hash)
    };
    Source::Remote {
        url,
        name,
        kind: SourceKind::Asset { legacy },
        hash: Some(meta.hash),
        size: Some(meta.size),
    }
}

impl AssetIndex {
    /// Whether the URL of every asset can be formed from `origin`.
    pub open spec fn urls_resolve(self, origin: Seq<char>) -> bool {
        forall|i: int| 0 <= i < self.objects@.len() ==> #[trigger] asset_url(origin, self.objects@[i].1) is Some
    }

    pub open spec fn children(self, origin: Seq<char>) -> Seq<SourceView> {
        self.objects@.map_values(
            |e: (String, AssetMetadata)|
                asset_view(e.0@, e.1, self.map_to_resources, asset_url(origin, e.1)->0),
        )
    }

    /// One asset source per object, in order; nothing when some asset's URL
    /// cannot be formed from the origin.
    pub fn provides(&self, config: &AssetIndexConfig) -> (r: Option<Vec<Source>>)
        ensures
            r is Some == self.urls_resolve(config.origin@),
            r matches Some(v) ==> source_views(v@) == self.children(config.origin@),
    {
        let ghost origin = config.origin@;
        let mut out: Vec<Source> = Vec::new();
        let mut i: usize = 0;
        while i < self.objects.len()
            invariant
                i <= self.objects@.len(),
                origin == config.origin@,
                forall|j: int| 0 <= j < i ==> #[trigger] asset_url(origin, self.objects@[j].1) is Some,
                source_views(out@) == self.objects@.subrange(0, i as int).map_values(
                    |e: (String, AssetMetadata)|
                        asset_view(e.0@, e.1, self.map_to_resources, asset_url(origin, e.1)->0),
                ),
            decreases self.objects@.len() - i,
        {
            let (path, meta) = (&self.objects[i].0, &self.objects[i].1);
            let relative = hash_path_of(&meta.hash);
            match join_url(config.origin.as_str(), relative.as_str()) {
                Some(url) => {
                    let s = asset_source(path, meta, self.map_to_resources, url);
                    let ghost prev = out@;
                    out.push(s);
                    proof {
                        lemma_views_push(prev, s);
                        assert(source_views(out@) =~= self.objects@.subrange(0, i + 1).map_values(
                            |e: (String, AssetMetadata)|
                                asset_view(
                                    e.0@,
                                    e.1,
                                    self.map_to_resources,
                                    asset_url(origin, e.1)->0,
                                ),
                        ));
                    }
                },
                None => {
                    assert(asset_url(origin, self.objects@[i as int].1) is None);
                    return None;
                },
            }
            i += 1;
        }
        proof {
            assert(self.objects@.subrange(0, self.objects@.len() as int) =~= self.objects@);
        }
        Some(out)
    }
}

// ---------------------------------------------------------------- JVM runtimes

/// The source of the file list of one runtime build.
pub open spec fn jvm_build_view(platform: Seq<char>, jvm: Seq<char>, b: JvmResource) -> SourceView {
    resource_view(
        b.resource,
        b.version.name@,
        KindView::JvmInfo { platform, jvm_mojang_name: jvm },
    )
}

/// The sources of the builds of one runtime on one platform.
pub open spec fn runtime_views(platform: Seq<char>, jvm: Seq<char>, builds: Seq<JvmResource>) -> Seq<
    SourceView,
> {
    builds.map_values(|b: JvmResource| jvm_build_view(platform, jvm, b))
}

/// The sources of the runtimes of one platform, in order.
pub open spec fn platform_views(platform: Seq<char>, runtimes: Seq<(String, Vec<JvmResource>)>) -> Seq<
    SourceView,
>
    decreases runtimes.len(),
{
    if runtimes.len() == 0 {
        Seq::empty()
    } else {
        platform_views(platform, runtimes.drop_last()) + runtime_views(
            platform,
            runtimes.last().0@,
            runtimes.last().1@,
        )
    }
}

/// The sources of all platforms, in order.
pub open spec fn platforms_views(platforms: Seq<(String, JvmPlatform)>) -> Seq<SourceView>
    decreases platforms.len(),
{
    if platforms.len() == 0 {
        Seq::empty()
    } else {
        platforms_views(platforms.drop_last()) + platform_views(
            platforms.last().0@,
            platforms.last().1.resources@,
        )
    }
}

fn push_runtime(out: &mut Vec<Source>, platform: &String, jvm: &String, builds: &Vec<JvmResource>)
    ensures
        source_views(final(out)@) == source_views(old(out)@) + runtime_views(
            platform@,
            jvm@,
            builds@,
        ),
{
    let ghost start = out@;
    let mut i: usize = 0;
    while i < builds.len()
        invariant
            i <= builds@.len(),
            source_views(out@) == source_views(start) + runtime_views(
                platform@,
                jvm@,
                builds@.subrange(0, i as int),
            ),
        decreases builds@.len() - i,
    {
        let b = &builds[i];
        let kind = SourceKind::JvmInfo { platform: platform.clone(), jvm_mojang_name: jvm.clone() };
        let s = remote(&b.resource, b.version.name.clone(), kind);
        let ghost prev = out@;
        out.push(s);
        proof {
            lemma_views_push(prev, s);
            assert(runtime_views(platform@, jvm@, builds@.subrange(0, i + 1)) =~= runtime_views(
                platform@,
                jvm@,
                builds@.subrange(0, i as int),
            ).push(s@));
            assert(source_views(out@) =~= source_views(start) + runtime_views(
                platform@,
                jvm@,
                builds@.subrange(0, i + 1),
            ));
        }
        i += 1;
    }
    proof {
        assert(builds@.subrange(0, builds@.len() as int) =~= builds@);
    }
}

fn push_platform(out: &mut Vec<Source>, platform: &String, runtimes: &Vec<(String, Vec<JvmResource>)>)
    ensures
        source_views(final(out)@) == source_views(old(out)@) + platform_views(platform@, runtimes@),
{
    let ghost start = out@;
    let mut i: usize = 0;
    while i < runtimes.len()
        invariant
            i <= runtimes@.len(),
            source_views(out@) == source_views(start) + platform_views(
                platform@,
                runtimes@.subrange(0, i as int),
            ),
        decreases runtimes@.len() - i,
    {
        let ghost before = out@;
        push_runtime(out, platform, &runtimes[i].0, &runtimes[i].1);
        proof {
            let next = runtimes@.subrange(0, i + 1);
            assert(next.drop_last() =~= runtimes@.subrange(0, i as int));
            assert(source_views(out@) =~= source_views(start) + platform_views(platform@, next));
        }
        i += 1;
    }
    proof {
        assert(runtimes@.subrange(0, runtimes@.len() as int) =~= runtimes@);
    }
}

impl JvmManifest {
    pub open spec fn children(self) -> Seq<SourceView> {
        platforms_views(self.platforms@)
    }

    /// One file-list source per build of each runtime of each platform.
    pub fn provides(&self) -> (r: Vec<Source>)
        ensures
            source_views(r@) == self.children(),
    {
        let mut out: Vec<Source> = Vec::new();
        let mut i: usize = 0;
        while i < self.platforms.len()
            invariant
                i <= self.platforms@.len(),
                source_views(out@) == platforms_views(self.platforms@.subrange(0, i as int)),
            decreases self.platforms@.len() - i,
        {
            push_platform(&mut out, &self.platforms[i].0, &self.platforms[i].1.resources);
            proof {
                let next = self.platforms@.subrange(0, i + 1);
                assert(next.drop_last() =~= self.platforms@.subrange(0, i as int));
            }
            i += 1;
        }
        proof {
            assert(self.platforms@.subrange(0, self.platforms@.len() as int) =~= self.platforms@);
        }
        out
    }
}

/// The source of one runtime file: the compressed download when preferred
/// and offered, else the raw one.
pub open spec fn jvm_file_view(path: Seq<char>, f: JvmFile, config: JvmInfoConfig) -> SourceView {
    let compressed = config.prefer_compressed && f.downloads.lzma is Some;
    let res = if compressed {
        f.downloads.lzma->0
    } else {
        f.downloads.raw
    };
    resource_view(
        res,
        path,
        KindView::JvmFile {
            platform: config.platform@,
            jvm_mojang_name: config.jvm_mojang_name@,
            executable: f.executable,
            compressed,
        },
    )
}

/// The sources of the files of a runtime; links and directories give none.
pub open spec fn jvm_files_views(content: Seq<(String, JvmContent)>, config: JvmInfoConfig) -> Seq<
    SourceView,
>
    decreases content.len(),
{
    if content.len() == 0 {
        Seq::empty()
    } else {
        let prev = jvm_files_views(content.drop_last(), config);
        match content.last().1 {
            JvmContent::File(f) => prev.push(jvm_file_view(content.last().0@, f, config)),
            _ => prev,
        }
    }
}

impl JvmInfo {
    pub open spec fn children(self, config: JvmInfoConfig) -> Seq<SourceView> {
        jvm_files_views(self.content@, config)
    }

    pub fn provides(&self, config: &JvmInfoConfig) -> (r: Vec<Source>)
        ensures
            source_views(r@) == self.children(*config),
    {
        let mut out: Vec<Source> = Vec::new();
        let mut i: usize = 0;
        while i < self.content.len()
            invariant
                i <= self.content@.len(),
                source_views(out@) == jvm_files_views(self.content@.subrange(0, i as int), *config),
            decreases self.content@.len() - i,
        {
            let ghost next = self.content@.subrange(0, i + 1);
            proof {
                assert(next.drop_last() =~= self.content@.subrange(0, i as int));
            }
            match &self.content[i].1 {
                JvmContent::File(f) => {
                    let compressed = config.prefer_compressed && f.downloads.lzma.is_some();
                    let res = if compressed {
                        f.downloads.lzma.as_ref().unwrap()
                    } else {
                        &f.downloads.raw
                    };
                    let kind = SourceKind::JvmFile {
                        platform: config.platform.clone(),
                        jvm_mojang_name: config.jvm_mojang_name.clone(),
                        executable: f.executable,
                        compressed,
                    };
                    let s = remote(res, self.content[i].0.clone(), kind);
                    let ghost prev = out@;
                    out.push(s);
                    proof {
                        lemma_views_push(prev, s);
                    }
                },
                _ => {},
            }
            i += 1;
        }
        proof {
            assert(self.content@.subrange(0, self.content@.len() as int) =~= self.content@);
        }
        out
    }
}

// ---------------------------------------------------------------- archives

/// A downloaded file with nothing to expand.
#[derive(Clone, Debug)]
pub struct JustFile {
    pub data: Vec<u8>,
}

impl JustFile {
    pub fn provides(&self) -> (r: Vec<Source>)
        ensures
            r@.len() == 0,
    {
        Vec::new()
    }
}

/// A zip of native libraries of the version `classifier`.
#[derive(Clone, Debug)]
pub struct ZippedNatives {
    pub archive: SharedZipArchive,
    /// Entries whose names start with one of these are not extracted.
    pub exclude: Vec<String>,
    pub classifier: String,
}

/// Whether an entry name starts with one of the excluded prefixes.
pub open spec fn excluded(name: Seq<char>, exclude: Seq<Seq<char>>) -> bool {
    exists|j: int| 0 <= j < exclude.len() && has_prefix(name, #[trigger] exclude[j])
}

/// The indices of the entries to extract, among the first `k`, in order.
pub open spec fn kept_entries(names: Seq<Seq<char>>, exclude: Seq<Seq<char>>, k: int) -> Seq<int>
    decreases k,
{
    if k <= 0 {
        Seq::empty()
    } else if excluded(names[k - 1], exclude) {
        kept_entries(names, exclude, k - 1)
    } else {
        kept_entries(names, exclude, k - 1).push(k - 1)
    }
}

fn is_excluded(name: &str, exclude: &Vec<String>) -> (r: bool)
    ensures
        r == excluded(name@, texts(exclude@)),
{
    let mut j: usize = 0;
    while j < exclude.len()
        invariant
            j <= exclude@.len(),
            forall|m: int| 0 <= m < j ==> !has_prefix(name@, #[trigger] texts(exclude@)[m]),
        decreases exclude@.len() - j,
    {
        if starts_with(name, exclude[j].as_str()) {
            assert(has_prefix(name@, texts(exclude@)[j as int]));
            return true;
        }
        j += 1;
    }
    false
}

impl ZippedNatives {
    pub open spec fn children(self) -> Seq<SourceView> {
        let names = self.archive.names();
        kept_entries(names, texts(self.exclude@), names.len() as int).map_values(
            |i: int|
                SourceView::Archive {
                    entries: names,
                    index: i,
                    name: names[i],
                    classifier: self.classifier@,
                },
        )
    }

    /// One archive-entry source per entry that is not excluded, in the
    /// archive's order.
    pub fn provides(&self) -> (r: Vec<Source>)
        ensures
            source_views(r@) == self.children(),
    {
        let ghost names = self.archive.names();
        let ghost ex = texts(self.exclude@);
        let n = self.archive.len();
        let mut out: Vec<Source> = Vec::new();
        let mut i: usize = 0;
        while i < n
            invariant
                i <= n,
                n == names.len(),
                names == self.archive.names(),
                ex == texts(self.exclude@),
                source_views(out@) == kept_entries(names, ex, i as int).map_values(
                    |k: int|
                        SourceView::Archive {
                            entries: names,
                            index: k,
                            name: names[k],
                            classifier: self.classifier@,
                        },
                ),
            decreases n - i,
        {
            let name = self.archive.name_for_index(i).unwrap();
            if !is_excluded(name.as_str(), &self.exclude) {
                let s = Source::Archive {
                    archive: self.archive.clone(),
                    index: i,
                    name,
                    kind: ArchiveKind::Natives { classifier: self.classifier.clone() },
                };
                let ghost prev = out@;
                out.push(s);
                proof {
                    lemma_views_push(prev, s);
                    assert(source_views(out@) =~= kept_entries(names, ex, i + 1).map_values(
                        |k: int|
                            SourceView::Archive {
                                entries: names,
                                index: k,
                                name: names[k],
                                classifier: self.classifier@,
                            },
                    ));
                }
            }
            i += 1;
        }
        out
    }
}

// ---------------------------------------------------------------- versions

/// Index of the first entry of `entries` at or after `k` keyed `key`.
pub open spec fn entry_from<V>(entries: Seq<(String, V)>, key: Seq<char>, k: int) -> Option<int>
    decreases entries.len() - k,
{
    if k < 0 || k >= entries.len() {
        None
    } else if entries[k].0@ == key {
        Some(k)
    } else {
        entry_from(entries, key, k + 1)
    }
}

/// Index of the first entry of `entries` keyed `key`.
pub open spec fn entry_index<V>(entries: Seq<(String, V)>, key: Seq<char>) -> Option<int> {
    entry_from(entries, key, 0)
}

proof fn lemma_entry_from<V>(entries: Seq<(String, V)>, key: Seq<char>, k: int)
    requires
        0 <= k,
    ensures
        entry_from(entries, key, k) matches Some(i) ==> k <= i < entries.len() && entries[i].0@
            == key,
    decreases entries.len() - k,
{
    if k < entries.len() && entries[k].0@ != key {
        lemma_entry_from(entries, key, k + 1);
    }
}

fn find_entry<V>(entries: &Vec<(String, V)>, key: &str) -> (r: Option<usize>)
    ensures
        match r {
            Some(i) => entry_index(entries@, key@) == Some(i as int) && i < entries@.len(),
            None => entry_index(entries@, key@) is None,
        },
{
    proof {
        lemma_entry_from(entries@, key@, 0);
    }
    let mut k: usize = 0;
    while k < entries.len()
        invariant
            k <= entries@.len(),
            entry_from(entries@, key@, k as int) == entry_index(entries@, key@),
        decreases entries@.len() - k,
    {
        if text_is(entries[k].0.as_str(), key) {
            return Some(k);
        }
        k += 1;
    }
    None
}

/// The natives classifier of `lib` for the system `os`: its template for the
/// system's name with `${arch}` substituted, provided the library offers a
/// resource under that classifier.
pub open spec fn native_classifier(lib: Library, os: Os) -> Option<Seq<char>> {
    match entry_index(lib.natives@, os.name_spec()) {
        None => None,
        Some(i) => {
            let c = expand(lib.natives@[i].1@, map!["arch"@ => os.arch_spec()]);
            if entry_index(lib.resources.extra@, c) is Some {
                Some(c)
            } else {
                None
            }
        },
    }
}

/// The distinct classifiers chosen for the first `k` systems of the table
/// that `os` selects, in table order.
pub open spec fn chosen(lib: Library, os: OsSelector, k: int) -> Seq<Seq<char>>
    decreases k,
{
    if k <= 0 {
        Seq::empty()
    } else {
        let prev = chosen(lib, os, k - 1);
        let sys = all_os()[k - 1];
        match native_classifier(lib, sys) {
            Some(c) => if os.has(sys) && !prev.contains(c) {
                prev.push(c)
            } else {
                prev
            },
            None => prev,
        }
    }
}

/// The name of a library file: its explicit path, else the Maven path.
pub open spec fn library_file_name(
    lib: Library,
    path: Option<String>,
    hash: Sha1Hash,
    classifier: Option<Seq<char>>,
) -> Seq<char> {
    match path {
        Some(p) => p@,
        None => library_path(lib.name@, hash.hex(), classifier),
    }
}

/// The natives source of `lib` for the classifier `c`.
pub open spec fn native_view(info: VersionInfo, lib: Library, c: Seq<char>) -> SourceView {
    let res = lib.resources.extra@[entry_index(lib.resources.extra@, c)->0].1;
    resource_view(
        res.resource,
        library_file_name(lib, res.path, res.resource.hash, Some(c)),
        KindView::ZippedNatives { classifier: info.id@, exclude: texts(lib.extract.exclude@) },
    )
}

/// The natives sources of `lib`: at most one per classifier.
pub open spec fn natives_views(info: VersionInfo, lib: Library, os: OsSelector) -> Seq<SourceView> {
    chosen(lib, os, 10).map_values(|c: Seq<char>| native_view(info, lib, c))
}

/// The source of the main jar of `lib`, if it has one.
pub open spec fn artifact_views(lib: Library) -> Seq<SourceView> {
    match lib.resources.artifact {
        Some(a) => seq![
            resource_view(
                a.resource,
                library_file_name(lib, a.path, a.resource.hash, None),
                KindView::Library,
            ),
        ],
        None => Seq::empty(),
    }
}

/// The sources of `lib`: none when its rules disallow it, else its natives
/// and then its main jar.
pub open spec fn library_views(
    info: VersionInfo,
    lib: Library,
    features: Map<Seq<char>, bool>,
    os: OsSelector,
) -> Seq<SourceView> {
    if lib.rules.allows(features, os) {
        natives_views(info, lib, os) + artifact_views(lib)
    } else {
        Seq::empty()
    }
}

/// The sources of a list of libraries, in order.
pub open spec fn libraries_views(
    info: VersionInfo,
    libs: Seq<Library>,
    features: Map<Seq<char>, bool>,
    os: OsSelector,
) -> Seq<SourceView>
    decreases libs.len(),
{
    if libs.len() == 0 {
        Seq::empty()
    } else {
        libraries_views(info, libs.drop_last(), features, os) + library_views(
            info,
            libs.last(),
            features,
            os,
        )
    }
}

/// The client jar, the server jar if any, and the asset index.
pub open spec fn head_views(info: VersionInfo) -> Seq<SourceView> {
    let client = resource_view(info.downloads.client, info.id@, KindView::ClientJar);
    let index = resource_view(info.asset_index.resource, info.asset_index.id@, KindView::AssetIndex);
    match info.downloads.server {
        Some(server) => seq![client, resource_view(server, info.id@, KindView::ServerJar), index],
        None => seq![client, index],
    }
}

/// The classifier of `lib` for `os` and the index of its resource.
fn native_for(lib: &Library, os: Os) -> (r: Option<(String, usize)>)
    ensures
        match r {
            Some((c, i)) => native_classifier(*lib, os) == Some(c@) && entry_index(
                lib.resources.extra@,
                c@,
            ) == Some(i as int) && i < lib.resources.extra@.len(),
            None => native_classifier(*lib, os) is None,
        },
{
    match find_entry(&lib.natives, os.name()) {
        None => None,
        Some(t) => {
            let binding = Binding { key: "arch", value: os.arch() };
            let expanded = substitute(lib.natives[t].1.as_str(), &binding);
            let c: String = match expanded {
                Cow::Borrowed(b) => b.to_owned(),
                Cow::Owned(o) => o,
            };
            proof {
                assert(binding.table() =~= map!["arch"@ => os.arch_spec()]);
            }
            match find_entry(&lib.resources.extra, c.as_str()) {
                Some(i) => Some((c, i)),
                None => None,
            }
        },
    }
}

fn contains_text(v: &Vec<String>, c: &str) -> (r: bool)
    ensures
        r == texts(v@).contains(c@),
{
    let mut j: usize = 0;
    while j < v.len()
        invariant
            j <= v@.len(),
            forall|m: int| 0 <= m < j ==> texts(v@)[m] != c@,
        decreases v@.len() - j,
    {
        if text_is(v[j].as_str(), c) {
            assert(texts(v@)[j as int] == c@);
            return true;
        }
        j += 1;
    }
    false
}

/// The file name of a library resource; see `library_file_name`.
fn file_name_of(lib: &Library, path: &Option<String>, hash: &Sha1Hash, classifier: Option<&str>) -> (r: String)
    ensures
        r@ == library_file_name(*lib, *path, *hash, match classifier {
            Some(c) => Some(c@),
            None => None,
        }),
{
    match path {
        Some(p) => p.clone(),
        None => build_library_path(lib.name.as_str(), hash, classifier),
    }
}

fn push_natives(out: &mut Vec<Source>, info: &VersionInfo, lib: &Library, os: OsSelector)
    ensures
        source_views(final(out)@) == source_views(old(out)@) + natives_views(*info, *lib, os),
{
    let table = [
        Os::Linux32,
        Os::Linux64,
        Os::Windows32,
        Os::Windows64,
        Os::Windows10_32,
        Os::Windows10_64,
        Os::OSX32,
        Os::OSX64,
        Os::MacOS32,
        Os::MacOS64,
    ];
    proof {
        assert(table@ =~= all_os());
    }
    let ghost start = out@;
    let mut seen: Vec<String> = Vec::new();
    let mut k: usize = 0;
    while k < 10
        invariant
            k <= 10,
            table@ == all_os(),
            texts(seen@) == chosen(*lib, os, k as int),
            source_views(out@) == source_views(start) + chosen(*lib, os, k as int).map_values(
                |c: Seq<char>| native_view(*info, *lib, c),
            ),
        decreases 10 - k,
    {
        let sys = table[k];
        if os.contains(sys) {
            match native_for(lib, sys) {
                Some((c, i)) => {
                    if !contains_text(&seen, c.as_str()) {
                        let res = &lib.resources.extra[i].1;
                        let name = file_name_of(lib, &res.path, &res.resource.hash, Some(c.as_str()));
                        let kind = SourceKind::ZippedNatives {
                            classifier: info.id.clone(),
                            exclude: clone_texts(&lib.extract.exclude),
                        };
                        let s = remote(&res.resource, name, kind);
                        let ghost prev = out@;
                        out.push(s);
                        let ghost seen_before = seen@;
                        seen.push(c);
                        proof {
                            lemma_views_push(prev, s);
                            lemma_texts_push(seen_before, c);
                            assert(s@ == native_view(*info, *lib, c@));
                            assert(chosen(*lib, os, k + 1) == chosen(*lib, os, k as int).push(c@));
                            assert(source_views(out@) =~= source_views(start) + chosen(
                                *lib,
                                os,
                                k + 1,
                            ).map_values(|c: Seq<char>| native_view(*info, *lib, c)));
                        }
                    } else {
                        assert(chosen(*lib, os, k + 1) == chosen(*lib, os, k as int));
                    }
                },
                None => {
                    assert(chosen(*lib, os, k + 1) == chosen(*lib, os, k as int));
                },
            }
        } else {
            assert(chosen(*lib, os, k + 1) == chosen(*lib, os, k as int));
        }
        k += 1;
    }
}

fn push_library(
    out: &mut Vec<Source>,
    info: &VersionInfo,
    lib: &Library,
    features: &BTreeMap<&str, bool>,
    os: OsSelector,
)
    ensures
        source_views(final(out)@) == source_views(old(out)@) + library_views(
            *info,
            *lib,
            keyed_by_text(features@),
            os,
        ),
{
    if !lib.rules.is_allowed(features, os) {
        assert(source_views(old(out)@) + Seq::<SourceView>::empty() =~= source_views(old(out)@));
        return;
    }
    let ghost start = out@;
    push_natives(out, info, lib, os);
    match &lib.resources.artifact {
        Some(a) => {
            let name = file_name_of(lib, &a.path, &a.resource.hash, None);
            let s = remote(&a.resource, name, SourceKind::Library);
            let ghost prev = out@;
            out.push(s);
            proof {
                lemma_views_push(prev, s);
                assert(source_views(out@) =~= source_views(start) + (natives_views(*info, *lib, os)
                    + artifact_views(*lib)));
            }
        },
        None => {
            assert(source_views(out@) =~= source_views(start) + (natives_views(*info, *lib, os)
                + artifact_views(*lib)));
        },
    }
}

impl VersionInfo {
    pub open spec fn children(self, features: Map<Seq<char>, bool>, os: OsSelector) -> Seq<
        SourceView,
    > {
        head_views(self) + libraries_views(self, self.libraries@, features, os)
    }

    /// The client jar, the server jar if any, the asset index, then for each
    /// library its rules allow: its natives for each selected system and its
    /// main jar.
    pub fn provides(&self, config: &VersionInfoConfig) -> (r: Vec<Source>)
        ensures
            source_views(r@) == self.children(keyed_by_text(config.params@), config.os_selector),
    {
        let ghost f = keyed_by_text(config.params@);
        let os = config.os_selector;
        let mut out: Vec<Source> = Vec::new();
        let client = remote(&self.downloads.client, self.id.clone(), SourceKind::ClientJar);
        out.push(client);
        match &self.downloads.server {
            Some(server) => {
                out.push(remote(server, self.id.clone(), SourceKind::ServerJar));
            },
            None => {},
        }
        out.push(remote(&self.asset_index.resource, self.asset_index.id.clone(), SourceKind::AssetIndex));
        proof {
            assert(source_views(out@) =~= head_views(*self));
        }
        let mut i: usize = 0;
        while i < self.libraries.len()
            invariant
                i <= self.libraries@.len(),
                f == keyed_by_text(config.params@),
                os == config.os_selector,
                source_views(out@) == head_views(*self) + libraries_views(
                    *self,
                    self.libraries@.subrange(0, i as int),
                    f,
                    os,
                ),
            decreases self.libraries@.len() - i,
        {
            let ghost before = out@;
            push_library(&mut out, self, &self.libraries[i], config.params, os);
            proof {
                let next = self.libraries@.subrange(0, i + 1);
                assert(next.drop_last() =~= self.libraries@.subrange(0, i as int));
                assert(source_views(out@) =~= head_views(*self) + libraries_views(*self, next, f, os));
            }
            i += 1;
        }
        proof {
            assert(self.libraries@.subrange(0, self.libraries@.len() as int) =~= self.libraries@);
        }
        out
    }
}

// ---------------------------------------------------------------- dispatch

/// The configuration every artifact's own configuration is taken from.
#[derive(Clone, Copy, Debug)]
pub struct GlobalConfig<'cfg> {
    pub assets: &'cfg AssetIndexConfig,
    pub params: &'cfg BTreeMap<&'cfg str, bool>,
    pub os_selector: OsSelector,
    pub prefer_compressed: bool,
}

/// The file list of a runtime, with the platform and runtime it belongs to.
#[derive(Clone, Debug)]
pub struct JvmFiles {
    pub info: JvmInfo,
    pub platform: String,
    pub jvm_mojang_name: String,
}

/// A resolved source: a parsed document, a zip of natives or a plain file.
#[derive(Clone, Debug)]
pub enum Artifact {
    VersionManifest(VersionManifest),
    VersionInfo(VersionInfo),
    AssetIndex(AssetIndex),
    JvmManifest(JvmManifest),
    JvmInfo(JvmFiles),
    Natives(ZippedNatives),
    File(JustFile),
}

/// The configuration of a runtime's file list.
pub open spec fn jvm_config(files: JvmFiles, prefer_compressed: bool) -> JvmInfoConfig {
    JvmInfoConfig {
        jvm_mojang_name: files.jvm_mojang_name,
        platform: files.platform,
        prefer_compressed,
    }
}

impl Artifact {
    /// The children of the artifact, when they can be formed.
    pub open spec fn children(self, config: GlobalConfig) -> Option<Seq<SourceView>> {
        match self {
            Artifact::VersionManifest(m) => Some(m.children()),
            Artifact::VersionInfo(v) => Some(
                v.children(keyed_by_text(config.params@), config.os_selector),
            ),
            Artifact::AssetIndex(a) => if a.urls_resolve(config.assets.origin@) {
                Some(a.children(config.assets.origin@))
            } else {
                None
            },
            Artifact::JvmManifest(m) => Some(m.children()),
            Artifact::JvmInfo(f) => Some(f.info.children(jvm_config(f, config.prefer_compressed))),
            Artifact::Natives(z) => Some(z.children()),
            Artifact::File(_) => Some(Seq::empty()),
        }
    }

    /// The child sources, each artifact configured from `config`; nothing
    /// when an asset URL cannot be formed.
    pub fn provides(&self, config: &GlobalConfig) -> (r: Option<Vec<Source>>)
        ensures
            match r {
                Some(v) => self.children(*config) == Some(source_views(v@)),
                None => self.children(*config) is None,
            },
    {
        match self {
            Artifact::VersionManifest(m) => Some(m.provides()),
            Artifact::VersionInfo(v) => {
                let vc = VersionInfoConfig { params: config.params, os_selector: config.os_selector };
                Some(v.provides(&vc))
            },
            Artifact::AssetIndex(a) => a.provides(config.assets),
            Artifact::JvmManifest(m) => Some(m.provides()),
            Artifact::JvmInfo(f) => {
                let jc = JvmInfoConfig {
                    jvm_mojang_name: f.jvm_mojang_name.clone(),
                    platform: f.platform.clone(),
                    prefer_compressed: config.prefer_compressed,
                };
                proof {
                    assert(jc == jvm_config(*f, config.prefer_compressed));
                }
                Some(f.info.provides(&jc))
            },
            Artifact::Natives(z) => Some(z.provides()),
            Artifact::File(j) => {
                let r = j.provides();
                proof {
                    assert(source_views(r@) =~= Seq::<SourceView>::empty());
                }
                Some(r)
            },
        }
    }
}

} // verus!
