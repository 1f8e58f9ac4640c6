//! The upstream documents: version manifest, version info, asset index, JVM
//! manifest and JVM file lists.
//!
//! Maps of the upstream JSON are held as vectors of entries, whose order is
//! the order children are produced in; upstream keys are unique, and where a
//! lookup is needed the first entry with the key is the one that counts.

use vstd::prelude::*;
use vstd::string::*;

use crate::rules::{Arguments, Rules};

verus! {

/// The sixteen hexadecimal digits, lower case.
pub open spec fn hex_digits() -> Seq<char> {
    seq!['0', '1', '2', '3', '4', '5', '6', '7', '8', '9', 'a', 'b', 'c', 'd', 'e', 'f']
}

/// Two lower-case hexadecimal digits for each byte, high nibble first.
pub open spec fn hex_text(b: Seq<u8>) -> Seq<char>
    decreases b.len(),
{
    if b.len() == 0 {
        Seq::empty()
    } else {
        hex_text(b.drop_last()) + seq![
            hex_digits()[(b.last() / 16) as int],
            hex_digits()[(b.last() % 16) as int],
        ]
    }
}

/// A SHA-1 digest.
#[derive(Clone, Copy, Debug, PartialEq, Eq)]
pub struct Sha1Hash {
    pub bytes: [u8; 20],
}

impl Sha1Hash {
    /// The 40-digit lower-case hexadecimal form.
    pub open spec fn hex(self) -> Seq<char> {
        hex_text(self.bytes@)
    }

    pub fn to_hex(&self) -> (r: String)
        ensures
            r@ == self.hex(),
            r@.len() == 40,
    {
        let digits = "0123456789abcdef";
        proof {
            reveal_strlit("0123456789abcdef");
            assert(digits@ =~= hex_digits());
        }
        let mut out = String::new();
        let mut i: usize = 0;
        while i < 20
            invariant
                i <= 20,
                digits@ == hex_digits(),
                out@ == hex_text(self.bytes@.subrange(0, i as int)),
                out@.len() == 2 * i,
            decreases 20 - i,
        {
            let b = self.bytes[i];
            let hi = (b / 16) as usize;
            let lo = (b % 16) as usize;
            out.append(digits.substring_char(hi, hi + 1));
            out.append(digits.substring_char(lo, lo + 1));
            proof {
                let s = self.bytes@.subrange(0, i + 1);
                assert(s.drop_last() =~= self.bytes@.subrange(0, i as int));
                assert(s.last() == b);
                assert(out@ =~= hex_text(s));
            }
            i += 1;
        }
        proof {
            assert(self.bytes@.subrange(0, 20) =~= self.bytes@);
        }
        out
    }
}

/// A downloadable file.
#[derive(Clone, Debug)]
pub struct Resource {
    pub hash: Sha1Hash,
    pub size: u64,
    pub url: String,
}

#[derive(Clone, Copy, Debug, PartialEq, Eq, Structural)]
pub enum VersionKind {
    Release,
    Snapshot,
    OldAlpha,
    OldBeta,
}

/// A moment, as seconds since the Unix epoch.
#[derive(Clone, Copy, Debug, PartialEq, Eq, Structural)]
pub struct Timestamp {
    pub seconds: i64,
}

#[derive(Clone, Debug)]
pub struct Latest {
    pub release: String,
    pub snapshot: String,
}

#[derive(Clone, Debug)]
pub struct Version {
    pub id: String,
    pub version_kind: VersionKind,
    pub url: String,
    pub time: Timestamp,
    pub release_time: Timestamp,
}

#[derive(Clone, Debug)]
pub struct VersionManifest {
    pub latest: Latest,
    pub versions: Vec<Version>,
}

#[derive(Clone, Debug)]
pub struct AssetIndexResource {
    pub resource: Resource,
    pub id: String,
    pub total_size: u64,
}

#[derive(Clone, Debug)]
pub struct Downloads {
    pub client: Resource,
    pub server: Option<Resource>,
}

#[derive(Clone, Debug)]
pub struct LibraryResource {
    pub resource: Resource,
    pub path: Option<String>,
}

#[derive(Clone, Debug)]
pub struct LibraryResources {
    pub artifact: Option<LibraryResource>,
    /// Resources by classifier.
    pub extra: Vec<(String, LibraryResource)>,
}

#[derive(Clone, Debug, Default)]
pub struct LibraryExtract {
    pub exclude: Vec<String>,
}

#[derive(Clone, Debug)]
pub struct Library {
    pub resources: LibraryResources,
    /// Maven coordinates `group:artifact:version`.
    pub name: String,
    /// Classifier templates by system name; they may hold `${arch}`.
    pub natives: Vec<(String, String)>,
    pub extract: LibraryExtract,
    pub rules: Rules,
}

#[derive(Clone, Debug)]
pub struct JavaVersion {
    pub component: String,
    pub major_version: u32,
}

#[derive(Clone, Debug)]
pub struct LoggerConfig {
    pub resource: Resource,
    pub id: String,
}

#[derive(Clone, Debug)]
pub struct LoggerDescription {
    pub argument: String,
    pub log_type: String,
    pub config: LoggerConfig,
}

#[derive(Clone, Debug)]
pub struct Logging {
    pub client: LoggerDescription,
}

#[derive(Clone, Debug)]
pub struct VersionInfo {
    pub id: String,
    pub version_kind: VersionKind,
    pub asset_index: AssetIndexResource,
    pub downloads: Downloads,
    pub libraries: Vec<Library>,
    pub assets: String,
    pub main_class: String,
    pub arguments: Arguments,
    pub minimum_launcher_version: u64,
    pub release_time: Timestamp,
    pub time: Timestamp,
    pub java_version: Option<JavaVersion>,
    pub logging: Option<Logging>,
    pub compliance_level: Option<u64>,
}

#[derive(Clone, Debug)]
pub struct AssetMetadata {
    pub hash: Sha1Hash,
    pub size: u64,
}

#[derive(Clone, Debug)]
pub struct AssetIndex {
    pub map_to_resources: bool,
    /// Assets by logical path.
    pub objects: Vec<(String, AssetMetadata)>,
}

#[derive(Clone, Copy, Debug, PartialEq, Eq, Structural)]
pub struct JvmAvailability {
    pub group: u32,
    pub progress: u32,
}

#[derive(Clone, Debug)]
pub struct JvmVersion {
    pub name: String,
    pub released: Timestamp,
}

#[derive(Clone, Debug)]
pub struct JvmResource {
    pub availability: JvmAvailability,
    pub resource: Resource,
    pub version: JvmVersion,
}

#[derive(Clone, Debug)]
pub struct JvmPlatform {
    /// Runtime builds by runtime name.
    pub resources: Vec<(String, Vec<JvmResource>)>,
}

#[derive(Clone, Debug)]
pub struct JvmManifest {
    /// Runtimes by platform name.
    pub platforms: Vec<(String, JvmPlatform)>,
}

#[derive(Clone, Debug)]
pub struct JvmFileDownloads {
    pub lzma: Option<Resource>,
    pub raw: Resource,
}

#[derive(Clone, Debug)]
pub struct JvmFile {
    pub downloads: JvmFileDownloads,
    pub executable: bool,
}

#[derive(Clone, Debug)]
pub enum JvmContent {
    File(JvmFile),
    Link { target: String },
    Directory,
}

#[derive(Clone, Debug)]
pub struct JvmInfo {
    /// Entries by path inside the runtime.
    pub content: Vec<(String, JvmContent)>,
}

} // verus!
