//! The trusted boundary around the `zip` crate: the archive reader type,
//! names for what it parses, and one wrapper per call the library makes.
//! Nothing here is verified; everything else is proved against these
//! contracts.

use vstd::prelude::*;

use crate::model::ZipEntry;

verus! {

#[verifier::external_type_specification]
#[verifier::external_body]
#[verifier::reject_recursive_types(R)]
pub struct ExZipArchive<R>(zip::ZipArchive<R>);

#[verifier::external_type_specification]
#[verifier::external_body]
#[verifier::reject_recursive_types(T)]
pub struct ExCursor<T>(std::io::Cursor<T>);

#[verifier::external_type_specification]
#[verifier::external_body]
pub struct ExZipError(zip::result::ZipError);

/// The records that this opened reader holds, in central-directory
/// order: what `zip` parsed out of the byte source, each with whether a
/// full decompressing read of it succeeds and the content such a read
/// yields. The reader works on bytes held in memory, so both are a
/// function of the archive value alone.
pub uninterp spec fn archive_entries(a: zip::ZipArchive<std::io::Cursor<Vec<u8>>>) -> Seq<
    ZipEntry,
>;

/// The text of a `zip` failure: the Debug formatting of the error,
/// which is a function of the error value alone.
pub uninterp spec fn error_detail_of(e: zip::result::ZipError) -> Seq<char>;

/// What parsing these bytes as a ZIP archive yields: `None` when they are
/// rejected, otherwise the records of their central directory.
pub uninterp spec fn zip_parse(bytes: Seq<u8>) -> Option<Seq<ZipEntry>>;

/// Relies on zip::ZipArchive::new: it parses the central directory of
/// the byte source, and both its success and the records it reads are a
/// function of the bytes alone.
#[verifier::external_body]
pub(crate) fn parse_archive(bytes: Vec<u8>) -> (r: Result<
    zip::ZipArchive<std::io::Cursor<Vec<u8>>>,
    zip::result::ZipError,
>)
    ensures
        r matches Ok(a) ==> zip_parse(bytes@) == Some(archive_entries(a)),
        r is Ok <==> zip_parse(bytes@) is Some,
{
    zip::ZipArchive::new(std::io::Cursor::new(bytes))
}

/// Relies on zip::ZipArchive::len: the number of records in the central
/// directory.
#[verifier::external_body]
pub(crate) fn entry_count(a: &zip::ZipArchive<std::io::Cursor<Vec<u8>>>) -> (n: usize)
    ensures
        n == archive_entries(*a).len(),
{
    a.len()
}

/// Relies on zip::ZipArchive::name_for_index: the decoded name of the
/// record at this position, present exactly for positions below the
/// record count.
#[verifier::external_body]
pub(crate) fn entry_name_at(a: &zip::ZipArchive<std::io::Cursor<Vec<u8>>>, i: usize) -> (r: Option<
    String,
>)
    ensures
        match r {
            Some(s) => i < archive_entries(*a).len() && s@ == archive_entries(*a)[i as int].name,
            None => i >= archive_entries(*a).len(),
        },
{
    match a.name_for_index(i) {
        Some(s) => Some(s.to_string()),
        None => None,
    }
}

/// Relies on zip::ZipArchive::by_index and std::io::Read::read_to_end:
/// whether they succeed is decided by the in-memory archive alone, on
/// success they hand back the record's whole decompressed content, and
/// reading never changes the parsed directory.
#[verifier::external_body]
pub(crate) fn read_entry_bytes(a: &mut zip::ZipArchive<std::io::Cursor<Vec<u8>>>, i: usize) -> (r:
    Result<Vec<u8>, zip::result::ZipError>)
    requires
        i < archive_entries(*old(a)).len(),
    ensures
        archive_entries(*final(a)) == archive_entries(*old(a)),
        r is Ok <==> archive_entries(*old(a))[i as int].readable,
        r matches Ok(d) ==> d@ == archive_entries(*old(a))[i as int].data,
{
    let mut file = a.by_index(i)?;
    let mut buf = Vec::new();
    std::io::Read::read_to_end(&mut file, &mut buf)?;
    Ok(buf)
}

/// Relies on zip::result::ZipError's derived Debug formatting for the
/// wording of the failure diagnostic.
#[verifier::external_body]
pub(crate) fn zip_error_detail(e: &zip::result::ZipError) -> (r: String)
    ensures
        r@ == error_detail_of(*e),
{
    format!("{:?}", e)
}

} // verus!
