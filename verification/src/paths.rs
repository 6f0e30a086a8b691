//! Computing the path of the generated documentation index.
//!
//! Paths are sequences of components; rendering them with the platform's
//! separator is the caller's business.

use vstd::prelude::*;
use vstd::string::StringExecFns;

verus! {

/// The index of the generated documentation for the crate called `name`:
/// the output directory of the selected target kind, then the `doc`
/// directory, the crate's own directory, and the index file.
pub open spec fn doc_index_path_of(dir: Seq<Seq<char>>, name: Seq<char>) -> Seq<Seq<char>> {
    dir + seq!["doc"@, name, "index.html"@]
}

/// Extends the output directory with `doc`, the crate's directory and the
/// index file name.
pub fn doc_index_path(dir: Vec<String>, name: String) -> (r: Vec<String>)
    ensures
        r.deep_view() == doc_index_path_of(dir.deep_view(), name@),
{
    let ghost dir0 = dir.deep_view();
    let mut r = dir;
    r.push(String::from_str("doc"));
    r.push(name);
    r.push(String::from_str("index.html"));
    proof {
        assert(r.deep_view() =~= doc_index_path_of(dir0, name@));
    }
    r
}

/// A second copy of a path, component for component.
pub fn clone_path(v: &Vec<String>) -> (r: Vec<String>)
    ensures
        r.deep_view() == v.deep_view(),
{
    let mut r: Vec<String> = Vec::new();
    let mut i: usize = 0;
    while i < v.len()
        invariant
            i <= v@.len(),
            r@.len() == i,
            forall|j: int| 0 <= j < i ==> r@[j]@ == v@[j]@,
        decreases v@.len() - i,
    {
        r.push(v[i].clone());
        i = i + 1;
    }
    proof {
        assert(r.deep_view() =~= v.deep_view());
    }
    r
}

} // verus!
