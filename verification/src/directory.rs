//! Resolving an entry inside a parsed central directory: deciding
//! whether a name denotes a directory, and finding the first entry
//! that carries a requested name.

use vstd::prelude::*;
use vstd::string::StrSliceExecFns;
use vstd::string::StringExecFns;

verus! {

/// A ZIP entry records a directory by ending its name with a slash
/// (either separator is accepted, as some archivers write backslashes).
pub open spec fn is_dir_name(name: Seq<char>) -> bool {
    name.len() > 0 && (name.last() == '/' || name.last() == '\\')
}

/// Some entry in `names` is exactly `name`.
pub open spec fn has_name(names: Seq<String>, name: Seq<char>) -> bool {
    exists|i: int| 0 <= i < names.len() && names[i]@ == name
}

pub fn name_is_dir(name: &str) -> (r: bool)
    ensures
        r == is_dir_name(name@),
{
    let n = name.unicode_len();
    if n == 0 {
        false
    } else {
        let c = name.get_char(n - 1);
        c == '/' || c == '\\'
    }
}

/// The index of the first entry whose name is exactly `name`, if any.
pub fn find_name(names: &Vec<String>, name: &str) -> (r: Option<usize>)
    ensures
        match r {
            Some(i) => i < names@.len() && names@[i as int]@ == name@ && (forall|j: int|
                0 <= j < i ==> names@[j]@ != name@),
            None => forall|j: int| 0 <= j < names@.len() ==> names@[j]@ != name@,
        },
        r is Some <==> has_name(names@, name@),
{
    let target = String::from_str(name);
    let mut i: usize = 0;
    while i < names.len()
        invariant
            i <= names@.len(),
            target@ == name@,
            forall|j: int| 0 <= j < i ==> names@[j]@ != name@,
        decreases names@.len() - i,
    {
        if names[i] == target {
            return Some(i);
        }
        i += 1;
    }
    None
}

} // verus!
