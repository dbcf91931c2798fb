//! The mathematical model of a parsed archive: the ordered sequence of
//! entry records that its central directory holds.

use vstd::prelude::*;

verus! {

/// One central-directory record, reduced to what this tool reads of it:
/// the decoded entry name, whether a full decompressing read of the
/// record succeeds, and the content such a read yields.
pub ghost struct ZipEntry {
    pub name: Seq<char>,
    pub readable: bool,
    pub data: Seq<u8>,
}

/// Some record in `entries` carries exactly this name.
pub open spec fn has_entry(entries: Seq<ZipEntry>, name: Seq<char>) -> bool {
    exists|i: int| 0 <= i < entries.len() && entries[i].name == name
}

/// `i` is the position of the first record named `name`.
pub open spec fn is_first_match(entries: Seq<ZipEntry>, name: Seq<char>, i: int) -> bool {
    &&& 0 <= i < entries.len()
    &&& entries[i].name == name
    &&& forall|j: int| 0 <= j < i ==> entries[j].name != name
}

/// A record named `name` exists and reading the first such record
/// succeeds.
pub open spec fn first_match_readable(entries: Seq<ZipEntry>, name: Seq<char>) -> bool {
    exists|i: int| is_first_match(entries, name, i) && entries[i].readable
}

/// At most one position is the first match for a name.
pub proof fn lemma_first_match_unique(entries: Seq<ZipEntry>, name: Seq<char>, i: int, j: int)
    requires
        is_first_match(entries, name, i),
        is_first_match(entries, name, j),
    ensures
        i == j,
{
}

} // verus!
