//! Laws of the declarative-region core that relate several operations.
//!
//! Each proof function here states one global property of the region
//! machinery; the properties that concern a single operation stand as that
//! operation's `ensures` instead (insertion legality on `Region::add_decl`,
//! completion reporting on `Region::close_both`, reference writing on
//! `RefTable::set_reference`, and the index queries on
//! `RefTable::search_reference` and `RefTable::find_all_references`).

use vstd::prelude::*;

use crate::decl::chain_legal_seq;
use crate::region::{in_extends_chain, unique_names, Region};

verus! {

/// Selected lookup purity: which declarations a selected-name lookup may
/// reach depends only on the declared planes and the extends links of the
/// regions.  Two arenas that agree on every region's declared plane and
/// extends link have the same extends chains, so `lookup_selected`, whose
/// contract confines its result to the declared planes of the chain, can
/// never return a declaration reachable only through a visible plane or a
/// parent link.
pub proof fn lemma_selected_lookup_purity(a1: Seq<Region>, a2: Seq<Region>, at: int, ri: int)
    requires
        a1.len() == a2.len(),
        forall|i: int|
            0 <= i < a1.len() ==> (#[trigger] a1[i]).decls@ == a2[i].decls@ && a1[i].extends
                == a2[i].extends,
    ensures
        in_extends_chain(a1, at, ri) == in_extends_chain(a2, at, ri),
    decreases (if at >= 0 { at + 1 } else { 0 }),
{
    if 0 <= at < a1.len() {
        match a1[at].extends {
            Some(e) => {
                if (e as int) < at {
                    lemma_selected_lookup_purity(a1, a2, e as int, ri);
                }
            },
            None => {},
        }
    }
}

/// Duplicate completeness: in a well-formed region every designator has at
/// most one bucket, and a bucket holds more than one definition site only
/// when the accumulation is legal -- all sites overloadable, or each later
/// site completing every earlier one through incomplete-to-full,
/// deferred-to-constant or protected-to-body pairs.  `Region::add_decl`
/// preserves well-formedness, so this holds of every region the analysis
/// builds.
pub proof fn lemma_duplicate_completeness(r: Region, i: int)
    requires
        r.wf(),
        0 <= i < r.decls@.len(),
    ensures
        unique_names(r.decls@),
        r.decls@[i].data@.len() >= 1,
        r.decls@[i].data@.len() > 1 ==> chain_legal_seq(r.decls@[i].data@),
{
    assert(r.decls@[i].wf());
}

} // verus!
