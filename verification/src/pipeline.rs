//! Inputs handed over by the build pipeline and its configuration.
//!
//! The compilation pipeline itself is an external collaborator; this module
//! models the few values the documentation command reads from it: which
//! target kinds were requested, and, per kind, the directory that holds the
//! generated output. Filesystem paths are carried as their sequence of
//! components, so that path computation is ordinary data manipulation.

use vstd::prelude::*;

verus! {

/// A classification of a build output (for example, library versus binary),
/// used to select which output directory holds the generated documentation.
/// Kinds are identified by a small numeric code assigned by the pipeline.
#[derive(Clone, Copy, PartialEq, Eq, Structural, Debug)]
pub struct TargetKind {
    pub id: u64,
}

/// The slice of the build configuration that the documentation command
/// consults: the list of target kinds the user asked to build for.
#[derive(Debug, Clone, PartialEq, Eq)]
pub struct BuildConfig {
    pub requested_kinds: Vec<TargetKind>,
}

/// Options passed through to the compilation pipeline. Only the build
/// configuration is ever read by this library; everything else about the
/// compilation is the pipeline's own business.
#[derive(Debug, Clone, PartialEq, Eq)]
pub struct CompileOptions {
    pub build_config: BuildConfig,
}

/// What a successful run of the compilation pipeline reports back: the names
/// of the root crates that were documented, and, for each target kind, the
/// directory (as path components) under which its output was placed.
#[derive(Debug, Clone, PartialEq, Eq)]
pub struct CompilationResult {
    pub root_crate_names: Vec<String>,
    pub root_output: Vec<(TargetKind, Vec<String>)>,
}

/// Whether some entry of `entries` is keyed by `kind`.
pub open spec fn has_kind(entries: Seq<(TargetKind, Vec<String>)>, kind: TargetKind) -> bool {
    exists|i: int| 0 <= i < entries.len() && entries[i].0 == kind
}

/// The output directory recorded for `kind`: the second component of the
/// first entry keyed by it (the empty path if there is none).
pub open spec fn output_for_kind(
    entries: Seq<(TargetKind, Vec<String>)>,
    kind: TargetKind,
) -> Seq<Seq<char>>
    decreases entries.len(),
{
    if entries.len() == 0 {
        Seq::empty()
    } else if entries[0].0 == kind {
        entries[0].1.deep_view()
    } else {
        output_for_kind(entries.drop_first(), kind)
    }
}

proof fn lemma_output_for_kind_at_first_match(
    entries: Seq<(TargetKind, Vec<String>)>,
    kind: TargetKind,
    i: int,
)
    requires
        0 <= i < entries.len(),
        entries[i].0 == kind,
        forall|j: int| 0 <= j < i ==> entries[j].0 != kind,
    ensures
        output_for_kind(entries, kind) == entries[i].1.deep_view(),
    decreases i,
{
    if i > 0 {
        let rest = entries.drop_first();
        assert forall|j: int| 0 <= j < i - 1 implies rest[j].0 != kind by {
            assert(rest[j] == entries[j + 1]);
        }
        assert(rest[i - 1] == entries[i]);
        lemma_output_for_kind_at_first_match(rest, kind, i - 1);
    }
}

impl CompilationResult {
    /// Hands out the output directory recorded for `kind`, consuming the
    /// result. The pipeline records a directory for every kind it was asked
    /// to build, so the caller must only ask for kinds that are present.
    pub fn take_output_for_kind(self, kind: TargetKind) -> (dir: Vec<String>)
        requires
            has_kind(self.root_output@, kind),
        ensures
            dir.deep_view() == output_for_kind(self.root_output@, kind),
    {
        let mut entries = self.root_output;
        let ghost all = entries@;
        let mut i: usize = 0;
        while i < entries.len()
            invariant
                entries@ == all,
                all == self.root_output@,
                i <= all.len(),
                has_kind(all, kind),
                forall|j: int| 0 <= j < i ==> all[j].0 != kind,
            decreases all.len() - i,
        {
            if entries[i].0 == kind {
                proof {
                    lemma_output_for_kind_at_first_match(all, kind, i as int);
                }
                let entry = entries.remove(i);
                return entry.1;
            }
            i = i + 1;
        }
        proof {
            let w = choose|w: int| 0 <= w < all.len() && all[w].0 == kind;
            assert(0 <= w < all.len() && all[w].0 == kind);
            assert(false);
        }
        vstd::pervasive::unreached()
    }
}

} // verus!
