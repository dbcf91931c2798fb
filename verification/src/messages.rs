//! The exact text of every diagnostic the tool can print, built and
//! specified character for character.

use vstd::prelude::*;
use vstd::string::StringExecFns;

verus! {

/// Text reported when a requested entry is absent from the archive:
/// it names both the entry and the archive.
pub open spec fn not_found_text(entry: Seq<char>, archive: Seq<char>) -> Seq<char> {
    entry + " not found in "@ + archive + "."@
}

/// Text reported when the requested entry is a directory.
pub open spec fn is_directory_text(entry: Seq<char>) -> Seq<char> {
    entry + " is a directory."@
}

/// Text reported by `extract`, which is not implemented yet: it only
/// echoes the archive and entry it was asked for.
pub open spec fn extract_stub_text(archive: Seq<char>, entry: Seq<char>) -> Seq<char> {
    "extract: zip="@ + archive + ", entry="@ + entry
}

/// Text reported when the archive itself cannot be parsed or an entry
/// cannot be decompressed; `detail` describes the underlying failure.
pub open spec fn error_text(detail: Seq<char>) -> Seq<char> {
    "error: "@ + detail
}

/// The not-found diagnostic references both names: the entry name opens
/// the text, and the archive name stands between the infix and the
/// closing period.
pub proof fn lemma_not_found_text_mentions(entry: Seq<char>, archive: Seq<char>)
    ensures
        not_found_text(entry, archive).subrange(0, entry.len() as int) == entry,
        not_found_text(entry, archive).subrange(
            entry.len() + " not found in "@.len() as int,
            entry.len() + " not found in "@.len() + archive.len() as int,
        ) == archive,
{
    assert(not_found_text(entry, archive).subrange(0, entry.len() as int) =~= entry);
    assert(not_found_text(entry, archive).subrange(
        entry.len() + " not found in "@.len() as int,
        entry.len() + " not found in "@.len() + archive.len() as int,
    ) =~= archive);
}

/// The directory diagnostic names the entry and then states that it is
/// a directory.
pub proof fn lemma_is_directory_text_mentions(entry: Seq<char>)
    ensures
        is_directory_text(entry).subrange(0, entry.len() as int) == entry,
        is_directory_text(entry).subrange(
            entry.len() as int,
            is_directory_text(entry).len() as int,
        ) == " is a directory."@,
{
    assert(is_directory_text(entry).subrange(0, entry.len() as int) =~= entry);
    assert(is_directory_text(entry).subrange(
        entry.len() as int,
        is_directory_text(entry).len() as int,
    ) =~= " is a directory."@);
}

pub fn not_found_message(entry: &str, archive: &str) -> (r: String)
    ensures
        r@ == not_found_text(entry@, archive@),
{
    let mut m = String::from_str(entry);
    m.append(" not found in ");
    m.append(archive);
    m.append(".");
    m
}

pub fn is_directory_message(entry: &str) -> (r: String)
    ensures
        r@ == is_directory_text(entry@),
{
    let mut m = String::from_str(entry);
    m.append(" is a directory.");
    m
}

pub fn extract_stub_message(archive: &str, entry: &str) -> (r: String)
    ensures
        r@ == extract_stub_text(archive@, entry@),
{
    let mut m = String::from_str("extract: zip=");
    m.append(archive);
    m.append(", entry=");
    m.append(entry);
    m
}

pub fn error_message(detail: &str) -> (r: String)
    ensures
        r@ == error_text(detail@),
{
    let mut m = String::from_str("error: ");
    m.append(detail);
    m
}

} // verus!
