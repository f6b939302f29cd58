//! The reference writer and the reference index.
//!
//! Every name occurrence the resolver visits is recorded here with the span
//! of the occurrence and either the primary declaration position it resolved
//! to, or nothing when the name was unresolved or overloaded.  The index
//! answers go-to-definition (`search_reference`) and find-all-references
//! queries from this table alone.

use vstd::prelude::*;

use crate::decl::VisibleDeclaration;
use crate::diag::Pos;

verus! {

/// One recorded name occurrence: its span and the declaration position its
/// reference slot holds, when it holds one.
#[derive(Clone, Copy, PartialEq, Eq, Structural, Debug)]
pub struct RefEntry {
    pub occ: Pos,
    pub target: Option<Pos>,
}

/// Whether a cursor, as a byte offset, touches the occurrence of `e`: the
/// cursor lies after the start and at or before the end of the span.
pub open spec fn touches(e: RefEntry, cursor: usize) -> bool {
    e.occ.start < cursor <= e.occ.end
}

/// Whether some recorded occurrence at span `p` resolves to `def`.
pub open spec fn is_ref_of(entries: Seq<RefEntry>, def: Pos, p: Pos) -> bool {
    exists|i: int|
        0 <= i < entries.len() && (#[trigger] entries[i]).target == Some(def) && entries[i].occ
            == p
}

/// The table of every recorded name occurrence, in resolution order.
pub struct RefTable {
    pub entries: Vec<RefEntry>,
}

impl RefTable {
    pub fn new() -> (t: RefTable)
        ensures
            t.entries@.len() == 0,
    {
        RefTable { entries: Vec::new() }
    }

    /// Writes the reference slot of the occurrence at `occ` from a resolved
    /// declaration: the slot receives the primary declaration position, and
    /// is cleared instead when the designator is overloaded, since overload
    /// resolution has not picked a single candidate.
    pub fn set_reference(&mut self, occ: Pos, decl: &VisibleDeclaration)
        requires
            decl.data@.len() >= 1,
        ensures
            final(self).entries@ == old(self).entries@.push(
                RefEntry {
                    occ,
                    target: if decl.data@[0].decl is Overloaded {
                        None
                    } else {
                        decl.data@[0].decl_pos
                    },
                },
            ),
    {
        if !decl.is_overloaded() {
            let target = decl.first_pos();
            self.entries.push(RefEntry { occ, target });
        } else {
            self.entries.push(RefEntry { occ, target: None });
        }
    }

    /// Clears the reference slot of the occurrence at `occ`.
    pub fn clear_reference(&mut self, occ: Pos)
        ensures
            final(self).entries@ == old(self).entries@.push(RefEntry { occ, target: None }),
    {
        self.entries.push(RefEntry { occ, target: None });
    }

    /// Writes the reference slot of the occurrence at `occ` to a known
    /// declaration position.
    pub fn set_reference_pos(&mut self, occ: Pos, target: Option<Pos>)
        ensures
            final(self).entries@ == old(self).entries@.push(RefEntry { occ, target }),
    {
        self.entries.push(RefEntry { occ, target });
    }

    /// Go-to-definition: the declaration position recorded for the
    /// occurrence the cursor touches.  A returned position is the recorded
    /// reference of the first occurrence at the cursor that carries one;
    /// `None` is returned exactly when no occurrence at the cursor carries
    /// a reference.
    pub fn search_reference(&self, cursor: usize) -> (r: Option<Pos>)
        ensures
            match r {
                Some(p) => exists|i: int|
                    0 <= i < self.entries@.len() && (#[trigger] touches(self.entries@[i], cursor))
                        && self.entries@[i].target == Some(p) && (forall|j: int|
                        0 <= j < i && touches(#[trigger] self.entries@[j], cursor)
                            ==> self.entries@[j].target is None),
                None => forall|i: int|
                    0 <= i < self.entries@.len() && touches(#[trigger] self.entries@[i], cursor)
                        ==> self.entries@[i].target is None,
            },
    {
        let n: usize = self.entries.len();
        let mut i: usize = 0;
        while i < n
            invariant
                i <= n,
                n == self.entries@.len(),
                forall|j: int|
                    0 <= j < i && touches(#[trigger] self.entries@[j], cursor)
                        ==> self.entries@[j].target is None,
            decreases n - i,
        {
            let e = self.entries[i];
            if e.occ.start < cursor && cursor <= e.occ.end {
                if let Some(p) = e.target {
                    proof {
                        assert(touches(self.entries@[i as int], cursor));
                        assert(self.entries@[i as int].target == Some(p));
                    }
                    return Some(p);
                }
            }
            i = i + 1;
        }
        None
    }

    /// Find-all-references: every recorded occurrence whose reference equals
    /// `def`, in resolution order.  The result holds the span of every such
    /// occurrence and nothing else.
    pub fn find_all_references(&self, def: Pos) -> (r: Vec<Pos>)
        ensures
            forall|i: int|
                0 <= i < self.entries@.len() && (#[trigger] self.entries@[i]).target == Some(def)
                    ==> r@.contains(self.entries@[i].occ),
            forall|k: int| 0 <= k < r@.len() ==> is_ref_of(self.entries@, def, #[trigger] r@[k]),
    {
        let n: usize = self.entries.len();
        let mut out: Vec<Pos> = Vec::new();
        let mut i: usize = 0;
        while i < n
            invariant
                i <= n,
                n == self.entries@.len(),
                forall|j: int|
                    0 <= j < i && (#[trigger] self.entries@[j]).target == Some(def)
                        ==> out@.contains(self.entries@[j].occ),
                forall|k: int|
                    0 <= k < out@.len() ==> is_ref_of(self.entries@, def, #[trigger] out@[k]),
            decreases n - i,
        {
            let ghost pre_out = out@;
            let e = self.entries[i];
            let matches_def = match e.target {
                Some(t) => t.start == def.start && t.end == def.end,
                None => false,
            };
            if matches_def {
                out.push(e.occ);
            }
            proof {
                if matches_def {
                    assert(self.entries@[i as int].target == Some(def));
                    assert(out@ == pre_out.push(self.entries@[i as int].occ));
                }
                assert forall|j: int|
                    0 <= j < i + 1 && (#[trigger] self.entries@[j]).target == Some(def)
                        implies out@.contains(self.entries@[j].occ) by {
                    if j < i {
                        let k = choose|k: int| 0 <= k < pre_out.len() && pre_out[k]
                            == self.entries@[j].occ;
                        assert(out@[k] == self.entries@[j].occ);
                    } else {
                        assert(out@[out@.len() - 1] == self.entries@[j].occ);
                    }
                }
                assert forall|k: int| 0 <= k < out@.len() implies is_ref_of(
                    self.entries@,
                    def,
                    #[trigger] out@[k],
                ) by {
                    if k < pre_out.len() {
                        assert(out@[k] == pre_out[k]);
                        assert(is_ref_of(self.entries@, def, pre_out[k]));
                    } else {
                        assert(out@[k] == self.entries@[i as int].occ);
                        assert(self.entries@[i as int].target == Some(def));
                    }
                }
            }
            i = i + 1;
        }
        out
    }
}


/// The index the analysis hands out: go-to-definition and
/// find-all-references over the recorded occurrences.
pub struct RootIndex {
    pub table: RefTable,
}

impl RootIndex {
    /// Go-to-definition at a byte offset: the reference of the first
    /// occurrence at the cursor that carries one.
    pub fn search_reference(&self, cursor: usize) -> (r: Option<Pos>)
        ensures
            match r {
                Some(p) => exists|i: int|
                    0 <= i < self.table.entries@.len() && (#[trigger] touches(
                        self.table.entries@[i],
                        cursor,
                    )) && self.table.entries@[i].target == Some(p) && (forall|j: int|
                        0 <= j < i && touches(#[trigger] self.table.entries@[j], cursor)
                            ==> self.table.entries@[j].target is None),
                None => forall|i: int|
                    0 <= i < self.table.entries@.len() && touches(
                        #[trigger] self.table.entries@[i],
                        cursor,
                    ) ==> self.table.entries@[i].target is None,
            },
    {
        self.table.search_reference(cursor)
    }

    /// Every recorded occurrence resolving to `def`.
    pub fn find_all_references(&self, def: Pos) -> (r: Vec<Pos>)
        ensures
            forall|i: int|
                0 <= i < self.table.entries@.len() && (#[trigger] self.table.entries@[i]).target
                    == Some(def) ==> r@.contains(self.table.entries@[i].occ),
            forall|k: int|
                0 <= k < r@.len() ==> is_ref_of(self.table.entries@, def, #[trigger] r@[k]),
    {
        self.table.find_all_references(def)
    }
}

} // verus!
