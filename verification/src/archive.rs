//! An opened ZIP archive and the three operations the tool offers on
//! it: listing entry names, resolving an entry by name, and reading one
//! entry's decompressed content.

use vstd::prelude::*;

use crate::backend;
use crate::directory;
use crate::messages;
use crate::model::ZipEntry;
use crate::model::first_match_readable;
use crate::model::has_entry;
use crate::model::is_first_match;
use crate::model::lemma_first_match_unique;

verus! {

/// A failure reported by the `zip` crate while parsing an archive or
/// decompressing one of its entries.
#[derive(Debug)]
pub struct ArchiveError {
    inner: zip::result::ZipError,
}

impl ArchiveError {
    /// The text of the underlying `zip` failure.
    pub closed spec fn detail(&self) -> Seq<char> {
        backend::error_detail_of(self.inner)
    }

    /// The failure, worded as the tool reports it.
    pub fn message(&self) -> (r: String)
        ensures
            r@ == messages::error_text(self.detail()),
    {
        let detail = backend::zip_error_detail(&self.inner);
        messages::error_message(detail.as_str())
    }
}

/// Why the content of a requested entry cannot be printed.
#[derive(Debug)]
pub enum CatError {
    /// No entry of the archive carries the requested name.
    NotFound,
    /// The requested entry is a directory.
    IsDirectory,
    /// The archive or the entry itself could not be read.
    Archive(ArchiveError),
}

impl CatError {
    /// The diagnostic for this failure, naming the entry and the archive
    /// where the wording calls for them.
    pub fn message(&self, entry_name: &str, archive_name: &str) -> (r: String)
        ensures
            self is NotFound ==> r@ == messages::not_found_text(entry_name@, archive_name@),
            self is IsDirectory ==> r@ == messages::is_directory_text(entry_name@),
            self matches CatError::Archive(e) ==> r@ == messages::error_text(e.detail()),
    {
        match self {
            CatError::NotFound => messages::not_found_message(entry_name, archive_name),
            CatError::IsDirectory => messages::is_directory_message(entry_name),
            CatError::Archive(e) => e.message(),
        }
    }
}

/// An archive held in memory, its central directory fully parsed before
/// any lookup. Its view is the parsed sequence of records, in
/// central-directory order.
#[derive(Debug)]
pub struct Archive {
    inner: zip::ZipArchive<std::io::Cursor<Vec<u8>>>,
}

impl View for Archive {
    type V = Seq<ZipEntry>;

    closed spec fn view(&self) -> Seq<ZipEntry> {
        backend::archive_entries(self.inner)
    }
}

impl Archive {
    /// Parse the central directory of `bytes`; exactly the byte strings
    /// that the parser rejects report an error.
    pub fn parse(bytes: Vec<u8>) -> (r: Result<Archive, ArchiveError>)
        ensures
            r matches Ok(a) ==> backend::zip_parse(bytes@) == Some(a@),
            r is Ok <==> backend::zip_parse(bytes@) is Some,
    {
        match backend::parse_archive(bytes) {
            Ok(inner) => Ok(Archive { inner }),
            Err(e) => Err(ArchiveError { inner: e }),
        }
    }

    /// The number of entries the archive holds.
    pub fn len(&self) -> (n: usize)
        ensures
            n == self@.len(),
    {
        backend::entry_count(&self.inner)
    }

    /// The name of the entry at position `i` of the central directory.
    pub fn name_at(&self, i: usize) -> (r: String)
        requires
            i < self@.len(),
        ensures
            r@ == self@[i as int].name,
    {
        match backend::entry_name_at(&self.inner, i) {
            Some(s) => s,
            None => vstd::pervasive::unreached(),
        }
    }

    /// Every entry name, in central-directory order.
    pub fn names(&self) -> (r: Vec<String>)
        ensures
            r@.len() == self@.len(),
            forall|i: int| 0 <= i < r@.len() ==> r@[i]@ == self@[i].name,
    {
        let n = self.len();
        let mut out: Vec<String> = Vec::new();
        let mut i: usize = 0;
        while i < n
            invariant
                n == self@.len(),
                i <= n,
                out@.len() == i,
                forall|j: int| 0 <= j < i ==> out@[j]@ == self@[j].name,
            decreases n - i,
        {
            let s = self.name_at(i);
            out.push(s);
            i += 1;
        }
        out
    }

    /// The decompressed content of the entry at position `i`: reading
    /// succeeds exactly when the record is readable, and leaves the
    /// parsed directory as it was.
    pub fn entry_data(&mut self, i: usize) -> (r: Result<Vec<u8>, ArchiveError>)
        requires
            i < old(self)@.len(),
        ensures
            final(self)@ == old(self)@,
            r is Ok <==> old(self)@[i as int].readable,
            r matches Ok(d) ==> d@ == old(self)@[i as int].data,
    {
        match backend::read_entry_bytes(&mut self.inner, i) {
            Ok(d) => Ok(d),
            Err(e) => Err(ArchiveError { inner: e }),
        }
    }

    /// The content of the first entry named `name`: absent names are
    /// rejected as not found, directories are refused, and reading
    /// succeeds exactly when that first entry is readable.
    pub fn read_by_name(&mut self, name: &str) -> (r: Result<Vec<u8>, CatError>)
        ensures
            final(self)@ == old(self)@,
            (r matches Err(e) && e is NotFound) <==> !has_entry(old(self)@, name@),
            (r matches Err(e) && e is IsDirectory) <==> (has_entry(old(self)@, name@)
                && directory::is_dir_name(name@)),
            r is Ok <==> (!directory::is_dir_name(name@) && first_match_readable(
                old(self)@,
                name@,
            )),
            r matches Ok(d) ==> (exists|i: int|
                is_first_match(old(self)@, name@, i) && d@ == old(self)@[i].data),
            (r matches Err(e) && e is Archive) <==> (has_entry(old(self)@, name@)
                && !directory::is_dir_name(name@) && !first_match_readable(old(self)@, name@)),
    {
        let names = self.names();
        match directory::find_name(&names, name) {
            None => {
                proof {
                    assert(!first_match_readable(old(self)@, name@)) by {
                        if first_match_readable(old(self)@, name@) {
                            let j = choose|j: int|
                                is_first_match(old(self)@, name@, j) && old(self)@[j].readable;
                            assert(0 <= j < old(self)@.len() && old(self)@[j].name == name@);
                            assert(has_entry(old(self)@, name@));
                        }
                    }
                }
                Err(CatError::NotFound)
            },
            Some(i) => {
                if directory::name_is_dir(name) {
                    Err(CatError::IsDirectory)
                } else {
                    match self.entry_data(i) {
                        Ok(d) => {
                            proof {
                                assert(is_first_match(old(self)@, name@, i as int) && old(
                                    self,
                                )@[i as int].readable && d@ == old(self)@[i as int].data);
                            }
                            Ok(d)
                        },
                        Err(e) => {
                            proof {
                                assert(is_first_match(old(self)@, name@, i as int));
                                assert(!first_match_readable(old(self)@, name@)) by {
                                    if first_match_readable(old(self)@, name@) {
                                        let j = choose|j: int|
                                            is_first_match(old(self)@, name@, j) && old(
                                                self,
                                            )@[j].readable;
                                        lemma_first_match_unique(
                                            old(self)@,
                                            name@,
                                            i as int,
                                            j,
                                        );
                                    }
                                }
                            }
                            Err(CatError::Archive(e))
                        },
                    }
                }
            },
        }
    }
}

} // verus!
