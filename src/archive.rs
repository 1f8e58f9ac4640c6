//! In-memory zip archives shared between the sources of their entries.

use std::io::Cursor;
use std::sync::Arc;
use vstd::prelude::*;
use zip::result::ZipError;
use zip::ZipArchive;

verus! {

#[verifier::external_type_specification]
#[verifier::external_body]
#[verifier::reject_recursive_types(R)]
pub struct ExZipArchive<R>(ZipArchive<R>);

#[verifier::external_type_specification]
#[verifier::external_body]
#[verifier::reject_recursive_types(T)]
pub struct ExCursor<T>(Cursor<T>);

#[verifier::external_type_specification]
#[verifier::external_body]
pub struct ExZipError(ZipError);

/// The names of the entries of an archive, in its central directory's order.
pub uninterp spec fn entry_names(a: ZipArchive<Cursor<Arc<[u8]>>>) -> Seq<Seq<char>>;

/// A zip archive held in memory; clones share the bytes and the index.
#[derive(Debug)]
pub struct SharedZipArchive {
    pub archive: ZipArchive<Cursor<Arc<[u8]>>>,
}

impl SharedZipArchive {
    /// The names of the entries, in the archive's order.
    pub open spec fn names(&self) -> Seq<Seq<char>> {
        entry_names(self.archive)
    }

    /// Relies on `zip::ZipArchive::new`: reads the central directory of the
    /// archive held in `data`, or fails on a malformed one.
    #[verifier::external_body]
    pub fn new(data: Vec<u8>) -> (r: Result<SharedZipArchive, ZipError>) {
        match ZipArchive::new(Cursor::new(Arc::<[u8]>::from(data))) {
            Ok(archive) => Ok(SharedZipArchive { archive }),
            Err(e) => Err(e),
        }
    }

    /// Relies on `zip::ZipArchive::len`: the number of entries.
    #[verifier::external_body]
    pub fn len(&self) -> (r: usize)
        ensures
            r == entry_names(self.archive).len(),
    {
        self.archive.len()
    }

    /// Relies on `zip::ZipArchive::name_for_index`: the name of entry `index`,
    /// present exactly for the indices below `len`.
    #[verifier::external_body]
    pub fn name_for_index(&self, index: usize) -> (r: Option<String>)
        ensures
            index < entry_names(self.archive).len() ==> r is Some && r->0@ == entry_names(
                self.archive,
            )[index as int],
            index >= entry_names(self.archive).len() ==> r is None,
    {
        match self.archive.name_for_index(index) {
            Some(name) => Some(String::from(name)),
            None => None,
        }
    }

    /// Relies on `Clone` of `zip::ZipArchive`: the copy shares the reader's
    /// bytes and the same entry index.
    #[verifier::external_body]
    pub fn share(&self) -> (r: SharedZipArchive)
        ensures
            entry_names(r.archive) == entry_names(self.archive),
    {
        SharedZipArchive { archive: self.archive.clone() }
    }
}

impl Clone for SharedZipArchive {
    fn clone(&self) -> (r: SharedZipArchive)
        ensures
            r.names() == self.names(),
    {
        self.share()
    }
}

} // verus!
