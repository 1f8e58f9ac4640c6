//! The decisions taken while resolving a remote source: whether the local
//! copy can be trusted, whether the remote's sizes are acceptable, and how
//! the fetched bytes are read.

use vstd::prelude::*;

use crate::source::SourceKind;

verus! {

/// How a local copy of a source is checked before it is trusted.
#[derive(Clone, Copy, Debug, Default, PartialEq, Eq, Structural)]
pub enum Validation {
    /// Always trust the local copy.
    NoneAtAll,
    /// Always download again.
    Force,
    /// Trust a local copy that exists and, when a size is declared, has it.
    #[default]
    Usual,
}

/// What to do for a remote source.
#[derive(Clone, Copy, Debug, PartialEq, Eq, Structural)]
pub enum Plan {
    ReadLocal,
    Download,
}

/// Whether the local copy, of length `local_len` if it exists, is trusted.
pub open spec fn trusts_local(validation: Validation, local_len: Option<u64>, declared: Option<u64>) -> bool {
    match validation {
        Validation::NoneAtAll => true,
        Validation::Force => false,
        Validation::Usual => match local_len {
            Some(n) => declared is None || declared == Some(n),
            None => false,
        },
    }
}

/// Reads the local copy when it is trusted, downloads otherwise.
pub fn plan_fetch(validation: Validation, local_len: Option<u64>, declared: Option<u64>) -> (r: Plan)
    ensures
        (r == Plan::ReadLocal) == trusts_local(validation, local_len, declared),
{
    let trusted = match validation {
        Validation::NoneAtAll => true,
        Validation::Force => false,
        Validation::Usual => match local_len {
            Some(n) => match declared {
                Some(d) => d == n,
                None => true,
            },
            None => false,
        },
    };
    if trusted {
        Plan::ReadLocal
    } else {
        Plan::Download
    }
}

/// The kind of a failure.
#[derive(Clone, Copy, Debug, PartialEq, Eq, Structural)]
pub enum ErrorKind {
    /// Transport failure or unsuccessful status.
    Network,
    /// Sizes that disagree.
    Integrity,
    /// Malformed JSON, zip or digest.
    Decode,
    /// A file could not be created, written or read.
    Filesystem,
}

/// Why a source could not be resolved; names the source.
#[derive(Clone, Debug)]
pub enum ResolveError {
    /// The remote's size differs from the declared one.
    SizeMismatch { name: String, expected: u64, found: u64 },
    Network { name: String, message: String },
    Decode { name: String, message: String },
    Filesystem { name: String, message: String },
}

impl ResolveError {
    pub open spec fn kind_spec(self) -> ErrorKind {
        match self {
            ResolveError::SizeMismatch { .. } => ErrorKind::Integrity,
            ResolveError::Network { .. } => ErrorKind::Network,
            ResolveError::Decode { .. } => ErrorKind::Decode,
            ResolveError::Filesystem { .. } => ErrorKind::Filesystem,
        }
    }

    pub fn kind(&self) -> (r: ErrorKind)
        ensures
            r == self.kind_spec(),
    {
        match self {
            ResolveError::SizeMismatch { .. } => ErrorKind::Integrity,
            ResolveError::Network { .. } => ErrorKind::Network,
            ResolveError::Decode { .. } => ErrorKind::Decode,
            ResolveError::Filesystem { .. } => ErrorKind::Filesystem,
        }
    }

    pub open spec fn name_spec(self) -> String {
        match self {
            ResolveError::SizeMismatch { name, .. } => name,
            ResolveError::Network { name, .. } => name,
            ResolveError::Decode { name, .. } => name,
            ResolveError::Filesystem { name, .. } => name,
        }
    }

    /// The name of the source that failed.
    pub fn source_name(&self) -> (r: &String)
        ensures
            *r == self.name_spec(),
    {
        match self {
            ResolveError::SizeMismatch { name, .. } => name,
            ResolveError::Network { name, .. } => name,
            ResolveError::Decode { name, .. } => name,
            ResolveError::Filesystem { name, .. } => name,
        }
    }
}

/// Whether a size `found` contradicts the declared size.
pub open spec fn contradicts(declared: Option<u64>, found: Option<u64>) -> bool {
    match (declared, found) {
        (Some(d), Some(f)) => d != f,
        _ => false,
    }
}

/// Checks a size against the declared one: the size a remote advertises
/// before its body is read, or the length of the body received.
pub fn check_size(name: &String, declared: Option<u64>, found: Option<u64>) -> (r: Result<(), ResolveError>)
    ensures
        r is Err == contradicts(declared, found),
        r matches Err(e) ==> e.kind_spec() == ErrorKind::Integrity && e == (ResolveError::SizeMismatch {
            name: *name,
            expected: declared->0,
            found: found->0,
        }),
{
    match (declared, found) {
        (Some(d), Some(f)) => if d != f {
            Err(ResolveError::SizeMismatch { name: name.clone(), expected: d, found: f })
        } else {
            Ok(())
        },
        _ => Ok(()),
    }
}

/// A file stored from a body that passed the size check is trusted, without
/// a request, by the next traversal that validates the usual way.
pub proof fn lemma_stored_body_is_trusted(declared: Option<u64>, body_len: u64)
    requires
        !contradicts(declared, Some(body_len)),
    ensures
        trusts_local(Validation::Usual, Some(body_len), declared),
{
}

/// The documents a source's bytes can hold.
#[derive(Clone, Copy, Debug, PartialEq, Eq, Structural)]
pub enum Document {
    VersionManifest,
    VersionInfo,
    AssetIndex,
    JvmInfo,
}

/// How the bytes of a source are read.
#[derive(Clone, Copy, Debug, PartialEq, Eq, Structural)]
pub enum Content {
    /// A JSON document.
    Json(Document),
    /// A zip archive whose entries become sources.
    Zip,
    /// Bytes kept as they are.
    Raw,
}

impl SourceKind {
    pub open spec fn content_spec(self) -> Content {
        match self {
            SourceKind::VersionManifest => Content::Json(Document::VersionManifest),
            SourceKind::VersionInfo => Content::Json(Document::VersionInfo),
            SourceKind::AssetIndex => Content::Json(Document::AssetIndex),
            SourceKind::JvmInfo { .. } => Content::Json(Document::JvmInfo),
            SourceKind::ZippedNatives { .. } => Content::Zip,
            _ => Content::Raw,
        }
    }

    pub fn content(&self) -> (r: Content)
        ensures
            r == self.content_spec(),
    {
        match self {
            SourceKind::VersionManifest => Content::Json(Document::VersionManifest),
            SourceKind::VersionInfo => Content::Json(Document::VersionInfo),
            SourceKind::AssetIndex => Content::Json(Document::AssetIndex),
            SourceKind::JvmInfo { .. } => Content::Json(Document::JvmInfo),
            SourceKind::ZippedNatives { .. } => Content::Zip,
            _ => Content::Raw,
        }
    }
}

} // verus!
