//! Declarative regions.
//!
//! A region is one scope of the analyzed design: the names it declares, the
//! names made potentially visible in it by use and library clauses, a link
//! to its enclosing lexical scope (`parent`) and, for bodies, a link to the
//! header region the body extends (`extends`).  Regions live in an arena
//! (`Vec<Region>`) owned by the analyzer; `parent` and `extends` are indices
//! into that arena, and both always point at earlier entries.
//!
//! The two name planes are kept as association vectors in insertion order,
//! which is source order; this keeps diagnostics deterministic and lets the
//! close-phase checks report in source order.  The well-formedness invariant
//! `Region::wf` says that each plane holds at most one entry per designator
//! and that every entry is a legal accumulation of definition sites.

use vstd::prelude::*;
use vstd::string::StringSliceAdditionalSpecFns;

use crate::decl::{completes, AnyDeclaration, AnyDeclarationData, VisibleDeclaration};
use crate::designator::Designator;
use crate::diag::{push_bytes, push_str_bytes, DiagCode, Diagnostic, Pos, Severity};

verus! {

/// The kinds of region whose legality rules differ: package declarations
/// admit deferred constants, package bodies admit their completions.
#[derive(Clone, Copy, PartialEq, Eq, Structural, Debug)]
pub enum RegionKind {
    PackageDeclaration,
    PackageBody,
    Other,
}

/// One declarative region.
pub struct Region {
    /// Enclosing lexical region, consulted only by unqualified lookup.
    pub parent: Option<usize>,
    /// The header region this region completes, consulted by both lookup
    /// forms and by the close-phase checks.
    pub extends: Option<usize>,
    /// Names made visible by use and library clauses.
    pub visible: Vec<VisibleDeclaration>,
    /// Names declared directly in this region.
    pub decls: Vec<VisibleDeclaration>,
    pub kind: RegionKind,
}

/// Whether `s` holds an entry for `name`.
pub open spec fn has_name(s: Seq<VisibleDeclaration>, name: Seq<u8>) -> bool {
    exists|i: int| 0 <= i < s.len() && s[i].designator@ == name
}

/// At most one entry per designator.
pub open spec fn unique_names(s: Seq<VisibleDeclaration>) -> bool {
    forall|i: int, j: int|
        0 <= i < j < s.len() ==> (#[trigger] s[i]).designator@ != (#[trigger] s[j]).designator@
}

/// All entries well formed.
pub open spec fn all_wf(s: Seq<VisibleDeclaration>) -> bool {
    forall|i: int| 0 <= i < s.len() ==> (#[trigger] s[i]).wf()
}

/// The entry of `s` for `name`, when there is one.  With `unique_names`
/// this is the only such entry.
pub open spec fn entry_of(s: Seq<VisibleDeclaration>, name: Seq<u8>) -> Option<VisibleDeclaration> {
    if has_name(s, name) {
        Some(s[choose|i: int| 0 <= i < s.len() && s[i].designator@ == name])
    } else {
        None
    }
}

/// With unique names, a found index determines `entry_of`.
pub proof fn lemma_entry_of(s: Seq<VisibleDeclaration>, name: Seq<u8>, i: int)
    requires
        unique_names(s),
        0 <= i < s.len(),
        s[i].designator@ == name,
    ensures
        entry_of(s, name) == Some(s[i]),
{
    assert(has_name(s, name));
    let j = choose|j: int| 0 <= j < s.len() && s[j].designator@ == name;
    if j != i {
        assert(s[i].designator@ != s[j].designator@ || s[j].designator@ != s[i].designator@);
    }
}

/// Finds the entry for `name` in an association vector.
pub fn find_entry(s: &Vec<VisibleDeclaration>, name: &Designator) -> (r: Option<usize>)
    ensures
        match r {
            Some(i) => i < s@.len() && s@[i as int].designator@ == name@,
            None => !has_name(s@, name@),
        },
{
    let n: usize = s.len();
    let mut i: usize = 0;
    while i < n
        invariant
            i <= n,
            n == s@.len(),
            forall|j: int| 0 <= j < i ==> (#[trigger] s@[j]).designator@ != name@,
        decreases n - i,
    {
        if s[i].designator.eq_name(name) {
            return Some(i);
        }
        i = i + 1;
    }
    None
}

/// Whether `ds` holds an error diagnostic with the given code at the given
/// position.
pub open spec fn has_diag(ds: Seq<Diagnostic>, code: DiagCode, pos: Pos) -> bool {
    exists|i: int|
        0 <= i < ds.len() && (#[trigger] ds[i]).code == code && ds[i].pos == pos && ds[i].severity
            == Severity::Error
}

/// Pushes a diagnostic built from a leading message part, a name, and a
/// trailing part, as in "No declaration of 'x'".
pub fn push_named_diag(
    diags: &mut Vec<Diagnostic>,
    severity: Severity,
    pos: Pos,
    code: DiagCode,
    before: &str,
    name: &Designator,
    after: &str,
)
    ensures
        final(diags)@.len() == old(diags)@.len() + 1,
        old(diags)@.is_prefix_of(final(diags)@),
        final(diags)@[old(diags)@.len() as int].code == code,
        final(diags)@[old(diags)@.len() as int].pos == pos,
        final(diags)@[old(diags)@.len() as int].severity == severity,
        final(diags)@[old(diags)@.len() as int].message@ == before.spec_bytes() + name@
            + after.spec_bytes(),
        final(diags)@[old(diags)@.len() as int].related@.len() == 0,
{
    let mut message: Vec<u8> = Vec::new();
    push_str_bytes(&mut message, before);
    push_bytes(&mut message, &name.name);
    push_str_bytes(&mut message, after);
    let d = Diagnostic { severity, pos, code, message, related: Vec::new() };
    diags.push(d);
    proof {
        assert(old(diags)@.is_prefix_of(final(diags)@));
    }
}

/// The rule that a full constant may complete a deferred constant only in a
/// package body: false exactly when `decl` is a full constant, `prev` a
/// deferred constant, and the region is not a package body.
pub open spec fn full_constant_placement_ok(
    kind: RegionKind,
    decl: VisibleDeclaration,
    prev: VisibleDeclaration,
) -> bool {
    !(kind != RegionKind::PackageBody && decl.data@[0].decl is Constant && prev.data@[0].decl
        is DeferredConstant)
}

/// The rule that deferred constants live only in package declarations:
/// false exactly when `decl` is deferred and the region is not a package
/// declaration.
pub open spec fn deferred_placement_ok(kind: RegionKind, decl: VisibleDeclaration) -> bool {
    !(kind != RegionKind::PackageDeclaration && decl.data@[0].decl is DeferredConstant)
}

/// Whether adding `decl` on top of the prior entry `prev` duplicates
/// nothing: either both buckets are overloadable, or the new primary
/// completes every prior definition site.
pub open spec fn dup_free_against(decl: VisibleDeclaration, prev: VisibleDeclaration) -> bool {
    (decl.data@[0].decl is Overloaded && prev.data@[0].decl is Overloaded) || (forall|k: int|
        0 <= k < prev.data@.len() ==> completes(
            (#[trigger] prev.data@[k]).decl,
            decl.data@[0].decl,
        ))
}

/// Whether every insertion check passes for `decl` against this region and
/// the region it extends: deferred-constant placement, full-constant
/// placement against both prior entries, and duplicate freedom against both
/// prior entries.
pub open spec fn add_checks_pass(
    r: Region,
    decl: VisibleDeclaration,
    ext: Option<Region>,
) -> bool {
    let name = decl.designator@;
    let ext_prev = match ext {
        Some(e) => entry_of(e.decls@, name),
        None => None,
    };
    let prev = entry_of(r.decls@, name);
    &&& deferred_placement_ok(r.kind, decl)
    &&& match ext_prev {
        Some(p) => full_constant_placement_ok(r.kind, decl, p) && dup_free_against(decl, p),
        None => true,
    }
    &&& match prev {
        Some(p) => full_constant_placement_ok(r.kind, decl, p) && dup_free_against(decl, p),
        None => true,
    }
}


/// Appending a duplicate-free singleton to a legally accumulated entry list
/// keeps it legal.
pub proof fn lemma_chain_extend(prev: VisibleDeclaration, decl: VisibleDeclaration)
    requires
        prev.wf(),
        decl.data@.len() == 1,
        dup_free_against(decl, prev),
    ensures
        crate::decl::chain_legal_seq(prev.data@ + decl.data@),
{
    let merged = prev.data@ + decl.data@;
    let n = prev.data@.len() as int;
    assert forall|j: int| 1 <= j < merged.len() implies ((merged[0].decl is Overloaded
        && (#[trigger] merged[j]).decl is Overloaded) || (forall|k: int|
        0 <= k < j ==> completes((#[trigger] merged[k]).decl, merged[j].decl))) by {
        if j < n {
            assert(merged[j] == prev.data@[j]);
            assert(merged[0] == prev.data@[0]);
            if !(prev.data@[0].decl is Overloaded && prev.data@[j].decl is Overloaded) {
                assert(forall|k: int|
                    0 <= k < j ==> completes((#[trigger] prev.data@[k]).decl, prev.data@[j].decl));
                assert(forall|k: int|
                    0 <= k < j ==> completes((#[trigger] merged[k]).decl, merged[j].decl));
            }
        } else {
            assert(j == n);
            assert(merged[j] == decl.data@[0]);
            if !(merged[0].decl is Overloaded && merged[j].decl is Overloaded) {
                assert(!(decl.data@[0].decl is Overloaded && prev.data@[0].decl is Overloaded));
                assert(forall|k: int|
                    0 <= k < n ==> completes((#[trigger] prev.data@[k]).decl, decl.data@[0].decl));
                assert(forall|k: int|
                    0 <= k < j ==> completes((#[trigger] merged[k]).decl, merged[j].decl));
            }
        }
    }
}

impl Region {
    /// A well-formed region: unique, legally accumulated entries in both
    /// planes.
    pub open spec fn wf(self) -> bool {
        &&& unique_names(self.decls@)
        &&& unique_names(self.visible@)
        &&& all_wf(self.decls@)
        &&& all_wf(self.visible@)
    }

    /// A fresh root region of kind `Other`.
    pub fn default() -> (r: Region)
        ensures
            r.wf(),
            r.parent is None,
            r.extends is None,
            r.kind == RegionKind::Other,
            r.decls@.len() == 0,
            r.visible@.len() == 0,
    {
        Region {
            parent: None,
            extends: None,
            visible: Vec::new(),
            decls: Vec::new(),
            kind: RegionKind::Other,
        }
    }

    /// A fresh child of the region at arena index `parent`.
    pub fn nested(parent: usize) -> (r: Region)
        ensures
            r.wf(),
            r.parent == Some(parent),
            r.extends is None,
            r.kind == RegionKind::Other,
            r.decls@.len() == 0,
            r.visible@.len() == 0,
    {
        Region {
            parent: Some(parent),
            extends: None,
            visible: Vec::new(),
            decls: Vec::new(),
            kind: RegionKind::Other,
        }
    }

    /// A fresh body region extending the header at arena index `header`:
    /// a package declaration header makes this a package body, anything
    /// else an ordinary region.
    pub fn extend(header: usize, header_kind: RegionKind, parent: Option<usize>) -> (r: Region)
        ensures
            r.wf(),
            r.parent == parent,
            r.extends == Some(header),
            r.kind == (if header_kind == RegionKind::PackageDeclaration {
                RegionKind::PackageBody
            } else {
                RegionKind::Other
            }),
            r.decls@.len() == 0,
            r.visible@.len() == 0,
    {
        let kind = if header_kind == RegionKind::PackageDeclaration {
            RegionKind::PackageBody
        } else {
            RegionKind::Other
        };
        Region { parent, extends: Some(header), visible: Vec::new(), decls: Vec::new(), kind }
    }

    /// Detaches a region from its lexical context, used when a sealed
    /// region is handed out of the unit that built it.
    pub fn without_parent(self) -> (r: Region)
        ensures
            r.parent is None,
            r.extends is None,
            r.visible@ == self.visible@,
            r.decls@ == self.decls@,
            r.kind == self.kind,
    {
        Region {
            parent: None,
            extends: None,
            visible: self.visible,
            decls: self.decls,
            kind: self.kind,
        }
    }

    /// Marks this region as a package declaration.
    pub fn in_package_declaration(&mut self)
        ensures
            final(self).kind == RegionKind::PackageDeclaration,
            final(self).parent == old(self).parent,
            final(self).extends == old(self).extends,
            final(self).decls@ == old(self).decls@,
            final(self).visible@ == old(self).visible@,
    {
        self.kind = RegionKind::PackageDeclaration;
    }

    /// Checks that a deferred constant stands in a package declaration;
    /// reports and refuses it otherwise.
    fn check_deferred_constant_only_in_package(
        &self,
        decl: &VisibleDeclaration,
        diags: &mut Vec<Diagnostic>,
    ) -> (ok: bool)
        requires
            decl.data@.len() >= 1,
        ensures
            ok == deferred_placement_ok(self.kind, *decl),
            old(diags)@.is_prefix_of(final(diags)@),
            ok ==> final(diags)@ == old(diags)@,
            decl.data@[0].decl_pos is None ==> final(diags)@ == old(diags)@,
            !ok && decl.data@[0].decl_pos is Some ==> has_diag(
                final(diags)@,
                DiagCode::DeferredOutsidePackage,
                decl.data@[0].decl_pos->0,
            ),
    {
        if self.kind != RegionKind::PackageDeclaration && decl.first().is_deferred_constant() {
            if let Some(pos) = decl.first_pos() {
                let d = Diagnostic::error(
                    pos,
                    "Deferred constants are only allowed in package declarations (not body)",
                );
                let d = Diagnostic { code: DiagCode::DeferredOutsidePackage, ..d };
                diags.push(d);
                proof {
                    assert(final(diags)@[old(diags)@.len() as int].code
                        == DiagCode::DeferredOutsidePackage);
                }
            }
            false
        } else {
            true
        }
    }

    /// Checks that a full constant completing a deferred constant stands in
    /// a package body; reports and refuses it otherwise.
    fn check_full_constant_of_deferred_only_in_body(
        &self,
        decl: &VisibleDeclaration,
        prev_decl: &VisibleDeclaration,
        diags: &mut Vec<Diagnostic>,
    ) -> (ok: bool)
        requires
            decl.data@.len() >= 1,
            prev_decl.data@.len() >= 1,
        ensures
            ok == full_constant_placement_ok(self.kind, *decl, *prev_decl),
            old(diags)@.is_prefix_of(final(diags)@),
            ok ==> final(diags)@ == old(diags)@,
            decl.data@[0].decl_pos is None ==> final(diags)@ == old(diags)@,
            !ok && decl.data@[0].decl_pos is Some ==> has_diag(
                final(diags)@,
                DiagCode::FullConstantOutsideBody,
                decl.data@[0].decl_pos->0,
            ),
    {
        if self.kind != RegionKind::PackageBody && decl.first().is_non_deferred_constant()
            && prev_decl.first().is_deferred_constant() {
            if let Some(pos) = decl.first_pos() {
                let d = Diagnostic::error(
                    pos,
                    "Full declaration of deferred constant is only allowed in a package body",
                );
                let d = Diagnostic { code: DiagCode::FullConstantOutsideBody, ..d };
                diags.push(d);
                proof {
                    assert(final(diags)@[old(diags)@.len() as int].code
                        == DiagCode::FullConstantOutsideBody);
                }
            }
            false
        } else {
            true
        }
    }

    /// Checks `decl` against a prior entry under the same designator.
    /// Reports a duplicate at the new position, with a related note at the
    /// prior site when that is known, and returns whether the addition is
    /// duplicate-free.
    fn check_duplicate(
        decl: &VisibleDeclaration,
        prev_decl: &VisibleDeclaration,
        diags: &mut Vec<Diagnostic>,
    ) -> (ok: bool)
        requires
            decl.data@.len() >= 1,
            prev_decl.data@.len() >= 1,
        ensures
            ok == dup_free_against(*decl, *prev_decl),
            old(diags)@.is_prefix_of(final(diags)@),
            ok ==> final(diags)@ == old(diags)@,
            decl.data@[0].decl_pos is None ==> final(diags)@ == old(diags)@,
            !ok && decl.data@[0].decl_pos is Some ==> has_diag(
                final(diags)@,
                DiagCode::Duplicate,
                decl.data@[0].decl_pos->0,
            ),
    {
        match decl.find_duplicate_of(prev_decl) {
            Some(k) => {
                if let Some(pos) = decl.first_pos() {
                    let mut d = Diagnostic::error(pos, "Duplicate declaration of '");
                    let mut message: Vec<u8> = Vec::new();
                    push_str_bytes(&mut message, "Duplicate declaration of '");
                    push_bytes(&mut message, &decl.designator.name);
                    push_str_bytes(&mut message, "'");
                    d.message = message;
                    d.code = DiagCode::Duplicate;
                    if let Some(prev_pos) = prev_decl.data[k].decl_pos {
                        d.add_related(prev_pos, "Previously defined here");
                    }
                    diags.push(d);
                    proof {
                        assert(final(diags)@[old(diags)@.len() as int].code
                            == DiagCode::Duplicate);
                    }
                }
                false
            },
            None => true,
        }
    }

    /// Checks `decl` against the prior entry in this region and the prior
    /// entry in the extended region, reporting every duplicate found.
    fn check_add(
        decl: &VisibleDeclaration,
        prev_decl: Option<&VisibleDeclaration>,
        ext_decl: Option<&VisibleDeclaration>,
        diags: &mut Vec<Diagnostic>,
    ) -> (ok: bool)
        requires
            decl.data@.len() >= 1,
            match prev_decl {
                Some(p) => p.data@.len() >= 1,
                None => true,
            },
            match ext_decl {
                Some(p) => p.data@.len() >= 1,
                None => true,
            },
        ensures
            ok == (match prev_decl {
                Some(p) => dup_free_against(*decl, *p),
                None => true,
            } && match ext_decl {
                Some(p) => dup_free_against(*decl, *p),
                None => true,
            }),
            old(diags)@.is_prefix_of(final(diags)@),
            ok ==> final(diags)@ == old(diags)@,
            decl.data@[0].decl_pos is None ==> final(diags)@ == old(diags)@,
            !ok && decl.data@[0].decl_pos is Some ==> has_diag(
                final(diags)@,
                DiagCode::Duplicate,
                decl.data@[0].decl_pos->0,
            ),
    {
        let mut check_ok = true;
        if let Some(prev_decl) = prev_decl {
            if !Self::check_duplicate(decl, prev_decl, diags) {
                check_ok = false;
            }
        }
        if let Some(ext_decl) = ext_decl {
            if !Self::check_duplicate(decl, ext_decl, diags) {
                check_ok = false;
            }
        }
        check_ok
    }

    /// Inserts `decl` with full legality checks: deferred-constant
    /// placement, full-constant placement, and duplicate detection against
    /// both this region and the extended region `ext`.  On success the
    /// definition site is appended to the existing bucket for the
    /// designator, or a new bucket is pushed; on failure the region is
    /// unchanged and the offense has been reported.
    pub fn add_decl(
        &mut self,
        decl: VisibleDeclaration,
        ext: Option<&Region>,
        diags: &mut Vec<Diagnostic>,
    )
        requires
            old(self).wf(),
            decl.wf(),
            decl.data@.len() == 1,
            match ext {
                Some(e) => e.wf(),
                None => true,
            },
        ensures
            final(self).wf(),
            final(self).parent == old(self).parent,
            final(self).extends == old(self).extends,
            final(self).kind == old(self).kind,
            final(self).visible@ == old(self).visible@,
            old(diags)@.is_prefix_of(final(diags)@),
            add_checks_pass(
                *old(self),
                decl,
                match ext {
                    Some(e) => Some(*e),
                    None => None,
                },
            ) ==> {
                &&& final(diags)@ == old(diags)@
                &&& if has_name(old(self).decls@, decl.designator@) {
                    &&& final(self).decls@.len() == old(self).decls@.len()
                    &&& forall|i: int|
                        0 <= i < old(self).decls@.len() && old(self).decls@[i].designator@
                            != decl.designator@ ==> final(self).decls@[i] == old(self).decls@[i]
                    &&& forall|i: int|
                        0 <= i < old(self).decls@.len() && (#[trigger] old(
                            self,
                        ).decls@[i]).designator@ == decl.designator@ ==> {
                            &&& final(self).decls@[i].designator@ == decl.designator@
                            &&& final(self).decls@[i].data@ == old(self).decls@[i].data@
                                + decl.data@
                        }
                } else {
                    final(self).decls@ == old(self).decls@.push(decl)
                }
            },
            !add_checks_pass(
                *old(self),
                decl,
                match ext {
                    Some(e) => Some(*e),
                    None => None,
                },
            ) ==> final(self).decls@ == old(self).decls@,
            decl.data@[0].decl_pos is None ==> final(diags)@ == old(diags)@,
            ({
                let extv = match ext {
                    Some(e) => Some(*e),
                    None => None,
                };
                !add_checks_pass(*old(self), decl, extv) && decl.data@[0].decl_pos is Some
                    ==> has_diag(
                    final(diags)@,
                    refusal_code(*old(self), decl.designator@, decl.data@[0].decl, extv),
                    decl.data@[0].decl_pos->0,
                )
            }),
    {
        let ghost ext_view: Option<Region> = match ext {
            Some(e) => Some(*e),
            None => None,
        };
        let ext_idx: Option<usize> = match ext {
            Some(e) => find_entry(&e.decls, &decl.designator),
            None => None,
        };
        proof {
            match ext {
                Some(e) => {
                    match ext_idx {
                        Some(i) => lemma_entry_of(e.decls@, decl.designator@, i as int),
                        None => {},
                    }
                },
                None => {},
            }
        }

        if !self.check_deferred_constant_only_in_package(&decl, diags) {
            return;
        }

        if let Some(e) = ext {
            if let Some(i) = ext_idx {
                if !self.check_full_constant_of_deferred_only_in_body(&decl, &e.decls[i], diags) {
                    return;
                }
            }
        }

        let prev_idx = find_entry(&self.decls, &decl.designator);
        proof {
            match prev_idx {
                Some(i) => lemma_entry_of(self.decls@, decl.designator@, i as int),
                None => {},
            }
        }
        if let Some(i) = prev_idx {
            let prev_ref = &self.decls[i];
            if !self.check_full_constant_of_deferred_only_in_body(&decl, prev_ref, diags) {
                return;
            }
        }

        match prev_idx {
            Some(i) => {
                let ok = match (ext, ext_idx) {
                    (Some(e), Some(j)) => Self::check_add(
                        &decl,
                        Some(&self.decls[i]),
                        Some(&e.decls[j]),
                        diags,
                    ),
                    _ => Self::check_add(&decl, Some(&self.decls[i]), None, diags),
                };
                if ok {
                    let ghost pre = self.decls@;
                    let VisibleDeclaration { designator: _, data } = decl;
                    let mut data = data;
                    let moved = data.remove(0);
                    let entry = &mut self.decls[i];
                    entry.data.push(moved);
                    proof {
                        assert(self.decls@[i as int].data@ =~= pre[i as int].data@ + decl.data@);
                        lemma_chain_extend(pre[i as int], decl);
                        assert(self.decls@[i as int].wf());
                        assert(unique_names(self.decls@));
                        assert(all_wf(self.decls@));
                    }
                }
            },
            None => {
                let ok = match (ext, ext_idx) {
                    (Some(e), Some(j)) => Self::check_add(&decl, None, Some(&e.decls[j]), diags),
                    _ => Self::check_add(&decl, None, None, diags),
                };
                if ok {
                    self.decls.push(decl);
                }
            },
        }
    }
}


/// Duplicate freedom of a single new definition site against the prior
/// entry `prev`: either both are overloadable, or the new kind completes
/// every prior site.
pub open spec fn site_dup_free_against(decl: AnyDeclaration, prev: VisibleDeclaration) -> bool {
    (decl is Overloaded && prev.data@[0].decl is Overloaded) || (forall|k: int|
        0 <= k < prev.data@.len() ==> completes((#[trigger] prev.data@[k]).decl, decl))
}

/// Whether every insertion check passes for one new definition site of
/// kind `decl` under `name`: deferred-constant placement, full-constant
/// placement, and duplicate freedom, against this region and the region it
/// extends.
pub open spec fn insertion_allowed(
    r: Region,
    name: Seq<u8>,
    decl: AnyDeclaration,
    ext: Option<Region>,
) -> bool {
    let ext_prev = match ext {
        Some(e) => entry_of(e.decls@, name),
        None => None,
    };
    let prev = entry_of(r.decls@, name);
    &&& !(r.kind != RegionKind::PackageDeclaration && decl is DeferredConstant)
    &&& match ext_prev {
        Some(p) => !(r.kind != RegionKind::PackageBody && decl is Constant && p.data@[0].decl
            is DeferredConstant) && site_dup_free_against(decl, p),
        None => true,
    }
    &&& match prev {
        Some(p) => !(r.kind != RegionKind::PackageBody && decl is Constant && p.data@[0].decl
            is DeferredConstant) && site_dup_free_against(decl, p),
        None => true,
    }
}

/// The diagnostic a refused insertion reports, following the order of the
/// checks: misplaced deferred constant first, then a misplaced full
/// constant, then a duplicate.
pub open spec fn refusal_code(
    r: Region,
    name: Seq<u8>,
    decl: AnyDeclaration,
    ext: Option<Region>,
) -> DiagCode {
    let ext_prev = match ext {
        Some(e) => entry_of(e.decls@, name),
        None => None,
    };
    let prev = entry_of(r.decls@, name);
    if r.kind != RegionKind::PackageDeclaration && decl is DeferredConstant {
        DiagCode::DeferredOutsidePackage
    } else if (ext_prev matches Some(p) && r.kind != RegionKind::PackageBody && decl is Constant
        && p.data@[0].decl is DeferredConstant) || (prev matches Some(p) && r.kind
        != RegionKind::PackageBody && decl is Constant && p.data@[0].decl is DeferredConstant) {
        DiagCode::FullConstantOutsideBody
    } else {
        DiagCode::Duplicate
    }
}

/// What a successful checked insertion leaves behind: the definition site
/// joined its designator's bucket, or opened a new bucket at the end.
pub open spec fn added_one(
    old_decls: Seq<VisibleDeclaration>,
    new_decls: Seq<VisibleDeclaration>,
    name: Seq<u8>,
    site: AnyDeclarationData,
) -> bool {
    if has_name(old_decls, name) {
        &&& new_decls.len() == old_decls.len()
        &&& forall|i: int|
            0 <= i < old_decls.len() && (#[trigger] old_decls[i]).designator@ != name
                ==> new_decls[i] == old_decls[i]
        &&& forall|i: int|
            0 <= i < old_decls.len() && (#[trigger] old_decls[i]).designator@ == name
                ==> new_decls[i].designator@ == name && new_decls[i].data@ == old_decls[
                i].data@.push(site)
    } else {
        &&& new_decls.len() == old_decls.len() + 1
        &&& forall|i: int| 0 <= i < old_decls.len() ==> #[trigger] new_decls[i] == old_decls[i]
        &&& new_decls.last().designator@ == name
        &&& new_decls.last().data@ =~= seq![site]
    }
}

impl Region {
    /// Inserts a declaration at a known position with full legality
    /// checks: on success the definition site joins or opens its
    /// designator's bucket; on failure the declared plane is unchanged and
    /// the offense has been reported.
    pub fn add(
        &mut self,
        designator: Designator,
        pos: Pos,
        decl: AnyDeclaration,
        ext: Option<&Region>,
        diags: &mut Vec<Diagnostic>,
    )
        requires
            old(self).wf(),
            match ext {
                Some(e) => e.wf(),
                None => true,
            },
        ensures
            final(self).wf(),
            final(self).parent == old(self).parent,
            final(self).extends == old(self).extends,
            final(self).kind == old(self).kind,
            final(self).visible@ == old(self).visible@,
            old(diags)@.is_prefix_of(final(diags)@),
            ({
                let extv = match ext {
                    Some(e) => Some(*e),
                    None => None,
                };
                let site = AnyDeclarationData {
                    decl_pos: Some(pos),
                    decl,
                    typ: None,
                    sig: None,
                };
                &&& insertion_allowed(*old(self), designator@, decl, extv) ==> added_one(
                    old(self).decls@,
                    final(self).decls@,
                    designator@,
                    site,
                ) && final(diags)@ == old(diags)@
                &&& !insertion_allowed(*old(self), designator@, decl, extv)
                    ==> final(self).decls@ == old(self).decls@
                &&& !insertion_allowed(*old(self), designator@, decl, extv) ==> has_diag(
                    final(diags)@,
                    refusal_code(*old(self), designator@, decl, extv),
                    pos,
                )
            }),
    {
        self.add_implicit(designator, Some(pos), decl, ext, diags);
    }

    /// Inserts a declaration that may lack a source position, as builtin
    /// and implicit declarations do, with full legality checks.
    pub fn add_implicit(
        &mut self,
        designator: Designator,
        decl_pos: Option<Pos>,
        decl: AnyDeclaration,
        ext: Option<&Region>,
        diags: &mut Vec<Diagnostic>,
    )
        requires
            old(self).wf(),
            match ext {
                Some(e) => e.wf(),
                None => true,
            },
        ensures
            final(self).wf(),
            final(self).parent == old(self).parent,
            final(self).extends == old(self).extends,
            final(self).kind == old(self).kind,
            final(self).visible@ == old(self).visible@,
            old(diags)@.is_prefix_of(final(diags)@),
            ({
                let extv = match ext {
                    Some(e) => Some(*e),
                    None => None,
                };
                let site = AnyDeclarationData { decl_pos, decl, typ: None, sig: None };
                &&& insertion_allowed(*old(self), designator@, decl, extv) ==> added_one(
                    old(self).decls@,
                    final(self).decls@,
                    designator@,
                    site,
                ) && final(diags)@ == old(diags)@
                &&& !insertion_allowed(*old(self), designator@, decl, extv)
                    ==> final(self).decls@ == old(self).decls@
                &&& decl_pos is None ==> final(diags)@ == old(diags)@
                &&& !insertion_allowed(*old(self), designator@, decl, extv) && decl_pos is Some
                    ==> has_diag(
                    final(diags)@,
                    refusal_code(*old(self), designator@, decl, extv),
                    decl_pos->0,
                )
            }),
    {
        let mut data: Vec<AnyDeclarationData> = Vec::new();
        data.push(AnyDeclarationData { decl_pos, decl, typ: None, sig: None });
        let vd = VisibleDeclaration { designator, data };
        let ghost pre = *self;
        let ghost predg = vd;
        self.add_decl(vd, ext, diags);
        proof {
            let extv = match ext {
                Some(e) => Some(*e),
                None => None,
            };
            let site = AnyDeclarationData { decl_pos, decl, typ: None, sig: None };
            assert(predg.data@ =~= seq![site]);
            assert(insertion_allowed(pre, predg.designator@, decl, extv)
                == add_checks_pass(pre, predg, extv));
            if add_checks_pass(pre, predg, extv) {
                if has_name(pre.decls@, predg.designator@) {
                    assert forall|i: int|
                        0 <= i < pre.decls@.len() && (#[trigger] pre.decls@[i]).designator@
                            == predg.designator@ implies self.decls@[i].designator@
                        == predg.designator@ && self.decls@[i].data@ == pre.decls@[i].data@.push(
                        site,
                    ) by {
                        assert(self.decls@[i].data@ =~= pre.decls@[i].data@ + predg.data@);
                        assert(pre.decls@[i].data@ + seq![site] =~= pre.decls@[i].data@.push(
                            site,
                        ));
                    }
                } else {
                    assert(self.decls@ =~= pre.decls@.push(predg));
                    assert(self.decls@.last().data@ =~= seq![site]);
                }
            }
        }
    }

    /// Unchecked replacement used by the orchestrator for synthesized
    /// bindings, such as a unit's own name inside its region: afterwards
    /// the designator's bucket holds exactly the given definition site.
    pub fn overwrite(&mut self, designator: Designator, decl_pos: Option<Pos>, decl: AnyDeclaration)
        requires
            old(self).wf(),
        ensures
            final(self).wf(),
            final(self).parent == old(self).parent,
            final(self).extends == old(self).extends,
            final(self).kind == old(self).kind,
            final(self).visible@ == old(self).visible@,
            has_name(final(self).decls@, designator@),
            ({
                let site = AnyDeclarationData { decl_pos, decl, typ: None, sig: None };
                if has_name(old(self).decls@, designator@) {
                    &&& final(self).decls@.len() == old(self).decls@.len()
                    &&& forall|j: int|
                        0 <= j < old(self).decls@.len() && (#[trigger] old(self).decls@[
                        j]).designator@ != designator@ ==> final(self).decls@[j] == old(
                            self,
                        ).decls@[j]
                    &&& forall|j: int|
                        0 <= j < old(self).decls@.len() && (#[trigger] old(self).decls@[
                        j]).designator@ == designator@ ==> final(self).decls@[j].designator@
                            == designator@ && final(self).decls@[j].data@ =~= seq![site]
                } else {
                    &&& final(self).decls@.len() == old(self).decls@.len() + 1
                    &&& forall|j: int|
                        0 <= j < old(self).decls@.len() ==> #[trigger] final(self).decls@[j]
                            == old(self).decls@[j]
                    &&& final(self).decls@.last().designator@ == designator@
                    &&& final(self).decls@.last().data@ =~= seq![site]
                }
            }),
    {
        let mut data: Vec<AnyDeclarationData> = Vec::new();
        data.push(AnyDeclarationData { decl_pos, decl, typ: None, sig: None });
        let vd = VisibleDeclaration { designator, data };
        match find_entry(&self.decls, &vd.designator) {
            Some(i) => {
                let ghost pre = self.decls@;
                self.decls[i] = vd;
                proof {
                    assert(self.decls@ =~= pre.update(i as int, vd));
                    assert(has_name(self.decls@, vd.designator@));
                }
            },
            None => {
                self.decls.push(vd);
                proof {
                    assert(self.decls@.last().designator@ == vd.designator@);
                    assert(has_name(self.decls@, vd.designator@));
                }
            },
        }
    }

    /// Inserts `decl` into the visible plane, replacing any prior entry for
    /// the same designator, as a later use clause shadows an earlier one.
    pub fn insert_visible(&mut self, decl: VisibleDeclaration)
        requires
            old(self).wf(),
            decl.wf(),
        ensures
            final(self).wf(),
            final(self).parent == old(self).parent,
            final(self).extends == old(self).extends,
            final(self).kind == old(self).kind,
            final(self).decls@ == old(self).decls@,
            has_name(final(self).visible@, decl.designator@),
            exists|i: int|
                0 <= i < final(self).visible@.len() && final(self).visible@[i] == decl,
            forall|n: Seq<u8>|
                has_name(old(self).visible@, n) ==> has_name(final(self).visible@, n),
    {
        match find_entry(&self.visible, &decl.designator) {
            Some(i) => {
                let ghost pre = self.visible@;
                let ghost dname = decl.designator@;
                self.visible[i] = decl;
                proof {
                    assert(self.visible@ =~= pre.update(i as int, decl));
                    assert(self.visible@[i as int] == decl);
                    assert forall|n: Seq<u8>| has_name(pre, n) implies has_name(
                        self.visible@,
                        n,
                    ) by {
                        let k = choose|k: int| 0 <= k < pre.len() && pre[k].designator@ == n;
                        if k == i {
                            assert(self.visible@[i as int].designator@ == dname);
                            assert(pre[k].designator@ == dname);
                        } else {
                            assert(self.visible@[k] == pre[k]);
                        }
                    }
                }
            },
            None => {
                let ghost pre = self.visible@;
                self.visible.push(decl);
                proof {
                    assert(self.visible@.last() == decl);
                    assert forall|n: Seq<u8>| has_name(pre, n) implies has_name(
                        self.visible@,
                        n,
                    ) by {
                        let k = choose|k: int| 0 <= k < pre.len() && pre[k].designator@ == n;
                        assert(self.visible@[k] == pre[k]);
                    }
                }
            },
        }
    }
}

/// Whether `ri` lies on the extends chain that starts at `at`: it is `at`
/// itself, or on the chain of the region `at` extends.  The chain follows
/// only indices that strictly decrease, which every analyzer-built arena
/// satisfies.
pub open spec fn in_extends_chain(a: Seq<Region>, at: int, ri: int) -> bool
    decreases at,
{
    0 <= at < a.len() && (at == ri || (match a[at].extends {
        Some(e) => e < at && in_extends_chain(a, e as int, ri),
        None => false,
    }))
}

/// The entry a selected-name lookup returns: the region's own declared
/// entry when it has one, else the result for the region it extends, and
/// nothing otherwise.  This is the exact model of `lookup_selected`.
pub open spec fn selected_model(a: Seq<Region>, at: int, name: Seq<u8>) -> Option<
    VisibleDeclaration,
>
    decreases at,
{
    if 0 <= at < a.len() {
        if has_name(a[at].decls@, name) {
            entry_of(a[at].decls@, name)
        } else {
            match a[at].extends {
                Some(e) => {
                    if (e as int) < at {
                        selected_model(a, e as int, name)
                    } else {
                        None
                    }
                },
                None => None,
            }
        }
    } else {
        None
    }
}

/// Resolves a designator as the suffix of a selected name whose prefix
/// denotes the region at `at`: only names the region chain itself declared
/// are consulted, never the visible plane and never enclosing regions.  On
/// success the result names the declared entry; the `None` case says no
/// region of the chain declares the designator.
pub fn lookup_selected(arena: &Vec<Region>, at: usize, name: &Designator) -> (r: Option<
    (usize, usize),
>)
    requires
        at < arena@.len(),
        forall|i: int| 0 <= i < arena@.len() ==> unique_names((#[trigger] arena@[i]).decls@),
    ensures
        match r {
            Some((ri, di)) => {
                &&& in_extends_chain(arena@, at as int, ri as int)
                &&& ri < arena@.len()
                &&& di < arena@[ri as int].decls@.len()
                &&& arena@[ri as int].decls@[di as int].designator@ == name@
                &&& selected_model(arena@, at as int, name@) == Some(
                    arena@[ri as int].decls@[di as int],
                )
            },
            None => {
                &&& forall|ri: int|
                    in_extends_chain(arena@, at as int, ri) ==> !has_name(
                        #[trigger] arena@[ri].decls@,
                        name@,
                    )
                &&& selected_model(arena@, at as int, name@) is None
            },
        },
    decreases at,
{
    match find_entry(&arena[at].decls, name) {
        Some(i) => {
            proof {
                assert(in_extends_chain(arena@, at as int, at as int));
                lemma_entry_of(arena@[at as int].decls@, name@, i as int);
            }
            Some((at, i))
        },
        None => {
            let ext = arena[at].extends;
            match ext {
                Some(e) => {
                    if e < at {
                        let r = lookup_selected(arena, e, name);
                        proof {
                            if r is None {
                                assert forall|ri: int|
                                    in_extends_chain(arena@, at as int, ri) implies !has_name(
                                    #[trigger] arena@[ri].decls@,
                                    name@,
                                ) by {
                                    if ri != at {
                                        assert(in_extends_chain(arena@, e as int, ri));
                                    }
                                }
                            }
                        }
                        r
                    } else {
                        proof {
                            assert forall|ri: int|
                                in_extends_chain(arena@, at as int, ri) implies !has_name(
                                #[trigger] arena@[ri].decls@,
                                name@,
                            ) by {}
                        }
                        None
                    }
                },
                None => {
                    proof {
                        assert forall|ri: int|
                            in_extends_chain(arena@, at as int, ri) implies !has_name(
                            #[trigger] arena@[ri].decls@,
                            name@,
                        ) by {}
                    }
                    None
                },
            }
        },
    }
}

/// Whether an unqualified lookup of `name` from the region at `at` can
/// reach any declaration: the region's declared plane, the full lookup of
/// the region it extends, the region's visible plane, or the full lookup of
/// its parent, in that precedence order.
/// The entry an unqualified lookup returns, in the precedence order of the
/// declarative-region rules: the region's own declarations first, then the
/// declared plane of the chain of regions it extends, then the names its
/// use clauses made visible, then the enclosing region, searched the same
/// way.  This is the exact model of `lookup_within`.
pub open spec fn within_model(a: Seq<Region>, at: int, name: Seq<u8>) -> Option<
    VisibleDeclaration,
>
    decreases at,
{
    if 0 <= at < a.len() {
        if has_name(a[at].decls@, name) {
            entry_of(a[at].decls@, name)
        } else {
            let from_ext = match a[at].extends {
                Some(e) => {
                    if (e as int) < at {
                        selected_model(a, e as int, name)
                    } else {
                        None
                    }
                },
                None => None,
            };
            if from_ext is Some {
                from_ext
            } else if has_name(a[at].visible@, name) {
                entry_of(a[at].visible@, name)
            } else {
                match a[at].parent {
                    Some(p) => {
                        if (p as int) < at {
                            within_model(a, p as int, name)
                        } else {
                            None
                        }
                    },
                    None => None,
                }
            }
        }
    } else {
        None
    }
}

/// Whether an unqualified lookup of `name` from the region at `at` reaches
/// any declaration.
pub open spec fn within_has(a: Seq<Region>, at: int, name: Seq<u8>) -> bool {
    within_model(a, at, name) is Some
}

/// Resolves a designator from within the region at `at`: declarations
/// first, then the declared plane of the extended region chain, then
/// use-clause visibility, then the enclosing region.  Returns the arena
/// index of the region, the entry index, and whether the entry lies in the
/// declared plane (`true`) or the visible plane (`false`).  The result is
/// exactly `within_model`: `None` says no reachable plane holds the
/// designator.
pub fn lookup_within(arena: &Vec<Region>, at: usize, name: &Designator) -> (r: Option<
    (usize, usize, bool),
>)
    requires
        at < arena@.len(),
        forall|i: int| 0 <= i < arena@.len() ==> unique_names((#[trigger] arena@[i]).decls@),
        forall|i: int| 0 <= i < arena@.len() ==> unique_names((#[trigger] arena@[i]).visible@),
    ensures
        match r {
            Some((ri, di, declared)) => {
                &&& ri < arena@.len()
                &&& if declared {
                    di < arena@[ri as int].decls@.len() && arena@[ri as int].decls@[
                        di as int].designator@ == name@ && within_model(
                        arena@,
                        at as int,
                        name@,
                    ) == Some(arena@[ri as int].decls@[di as int])
                } else {
                    di < arena@[ri as int].visible@.len() && arena@[ri as int].visible@[
                        di as int].designator@ == name@ && within_model(
                        arena@,
                        at as int,
                        name@,
                    ) == Some(arena@[ri as int].visible@[di as int])
                }
            },
            None => !within_has(arena@, at as int, name@),
        },
    decreases at,
{
    match find_entry(&arena[at].decls, name) {
        Some(i) => {
            proof {
                lemma_entry_of(arena@[at as int].decls@, name@, i as int);
            }
            Some((at, i, true))
        },
        None => {
            let ext = arena[at].extends;
            match ext {
                Some(e) => {
                    if e < at {
                        match lookup_selected(arena, e, name) {
                            Some((ri, di)) => {
                                return Some((ri, di, true));
                            },
                            None => {},
                        }
                    }
                },
                None => {},
            }
            match find_entry(&arena[at].visible, name) {
                Some(i) => {
                    proof {
                        lemma_entry_of(arena@[at as int].visible@, name@, i as int);
                    }
                    Some((at, i, false))
                },
                None => {
                    let par = arena[at].parent;
                    match par {
                        Some(p) => {
                            if p < at {
                                lookup_within(arena, p, name)
                            } else {
                                None
                            }
                        },
                        None => None,
                    }
                },
            }
        },
    }
}

/// An incomplete type whose full declaration is absent from its bucket.
pub open spec fn unmatched_incomplete(vd: VisibleDeclaration) -> bool {
    vd.data@.len() >= 1 && vd.data@[0].decl is IncompleteType && !(vd.data@.len() >= 2
        && vd.data@[1].decl is TypeDeclaration)
}

/// A protected type whose body is absent from its bucket.
pub open spec fn unmatched_protected(vd: VisibleDeclaration) -> bool {
    vd.data@.len() >= 1 && vd.data@[0].decl is ProtectedType && !(vd.data@.len() >= 2
        && vd.data@[1].decl is ProtectedTypeBody)
}

/// Whether `s` pairs the deferred constant named `name` with a full
/// constant declaration.
pub open spec fn has_full_constant(s: Seq<VisibleDeclaration>, name: Seq<u8>) -> bool {
    exists|j: int|
        0 <= j < s.len() && (#[trigger] s[j]).designator@ == name && s[j].data@.len() >= 1
            && s[j].data@[0].decl is Constant
}

/// Whether `s` declares a protected type body under `name`.
pub open spec fn has_protected_body(s: Seq<VisibleDeclaration>, name: Seq<u8>) -> bool {
    exists|j: int|
        0 <= j < s.len() && (#[trigger] s[j]).designator@ == name && s[j].data@.len() >= 1
            && s[j].data@[0].decl is ProtectedTypeBody
}

/// No incomplete type with a known position is left uncompleted.
pub open spec fn no_unmatched_incomplete(s: Seq<VisibleDeclaration>) -> bool {
    forall|i: int|
        0 <= i < s.len() ==> !(unmatched_incomplete(#[trigger] s[i]) && s[i].data@[0].decl_pos
            is Some)
}

/// No protected type with a known position lacks its body in its own
/// bucket.
pub open spec fn no_unmatched_protected(s: Seq<VisibleDeclaration>) -> bool {
    forall|i: int|
        0 <= i < s.len() ==> !(unmatched_protected(#[trigger] s[i]) && s[i].data@[0].decl_pos
            is Some)
}

/// No deferred constant with a known position is declared in `s`.
pub open spec fn no_deferred_with_pos(s: Seq<VisibleDeclaration>) -> bool {
    forall|i: int|
        0 <= i < s.len() ==> !((#[trigger] s[i]).data@.len() >= 1 && s[i].data@[0].decl
            is DeferredConstant && s[i].data@[0].decl_pos is Some)
}

/// Every deferred constant of the extended header with a known position has
/// its full constant in the body's declarations.
pub open spec fn no_unmatched_ext_deferred(
    ext_decls: Seq<VisibleDeclaration>,
    body_decls: Seq<VisibleDeclaration>,
) -> bool {
    forall|i: int|
        0 <= i < ext_decls.len() ==> !((#[trigger] ext_decls[i]).data@.len() >= 1 && ext_decls[
        i].data@[0].decl is DeferredConstant && ext_decls[i].data@[0].decl_pos is Some
            && !has_full_constant(body_decls, ext_decls[i].designator@))
}

/// Every protected type of the extended header with a known position has
/// its body, either in its own bucket or among the body's declarations.
pub open spec fn no_unmatched_ext_protected(
    ext_decls: Seq<VisibleDeclaration>,
    body_decls: Seq<VisibleDeclaration>,
) -> bool {
    forall|i: int|
        0 <= i < ext_decls.len() ==> !(unmatched_protected(#[trigger] ext_decls[i]) && ext_decls[
        i].data@[0].decl_pos is Some && !has_protected_body(body_decls, ext_decls[i].designator@))
}

/// A diagnostic present in a prefix is present in the whole.
pub proof fn lemma_has_diag_prefix(d1: Seq<Diagnostic>, d2: Seq<Diagnostic>, code: DiagCode, pos: Pos)
    requires
        has_diag(d1, code, pos),
        d1.is_prefix_of(d2),
    ensures
        has_diag(d2, code, pos),
{
    let i = choose|i: int|
        0 <= i < d1.len() && (#[trigger] d1[i]).code == code && d1[i].pos == pos && d1[i].severity
            == Severity::Error;
    assert(d2[i] == d1[i]);
}

impl Region {
    /// Reports every incomplete type of this region that its immediate
    /// region never completed with a full type declaration.
    pub fn check_incomplete_types_are_defined(&self, diags: &mut Vec<Diagnostic>)
        requires
            self.wf(),
        ensures
            old(diags)@.is_prefix_of(final(diags)@),
            forall|i: int|
                0 <= i < self.decls@.len() && unmatched_incomplete(#[trigger] self.decls@[i])
                    && self.decls@[i].data@[0].decl_pos is Some ==> has_diag(
                    final(diags)@,
                    DiagCode::MissingFullType,
                    self.decls@[i].data@[0].decl_pos->0,
                ),
            no_unmatched_incomplete(self.decls@) ==> final(diags)@ == old(diags)@,
    {
        let n: usize = self.decls.len();
        let mut i: usize = 0;
        while i < n
            invariant
                i <= n,
                n == self.decls@.len(),
                self.wf(),
                old(diags)@.is_prefix_of(diags@),
                forall|j: int|
                    0 <= j < i && unmatched_incomplete(#[trigger] self.decls@[j])
                        && self.decls@[j].data@[0].decl_pos is Some ==> has_diag(
                        diags@,
                        DiagCode::MissingFullType,
                        self.decls@[j].data@[0].decl_pos->0,
                    ),
                (forall|j: int|
                    0 <= j < i ==> !(unmatched_incomplete(#[trigger] self.decls@[j])
                        && self.decls@[j].data@[0].decl_pos is Some)) ==> diags@ == old(diags)@,
            decreases n - i,
        {
            let ghost pre = diags@;
            let decl = &self.decls[i];
            if decl.first().is_incomplete_type() {
                let mut check_ok = false;
                if let Some(second) = decl.second() {
                    if second.is_type_declaration() {
                        check_ok = true;
                    }
                }
                if !check_ok {
                    if let Some(pos) = decl.first_pos() {
                        push_named_diag(
                            diags,
                            Severity::Error,
                            pos,
                            DiagCode::MissingFullType,
                            "Missing full type declaration of incomplete type '",
                            &decl.designator,
                            "'",
                        );
                        let ghost mid = diags@;
                        let d = Diagnostic::hint(
                            pos,
                            "The full type declaration shall occur immediately within the same declarative part",
                        );
                        let d = Diagnostic { code: DiagCode::FullTypeHint, ..d };
                        diags.push(d);
                        proof {
                            let w = pre.len() as int;
                            assert(diags@[w] == mid[w]);
                            assert(diags@[w].code == DiagCode::MissingFullType);
                            assert(has_diag(diags@, DiagCode::MissingFullType, pos));
                        }
                    }
                }
            }
            proof {
                assert(pre.is_prefix_of(diags@));
                assert forall|j: int|
                    0 <= j < i + 1 && unmatched_incomplete(#[trigger] self.decls@[j])
                        && self.decls@[j].data@[0].decl_pos is Some implies has_diag(
                    diags@,
                    DiagCode::MissingFullType,
                    self.decls@[j].data@[0].decl_pos->0,
                ) by {
                    if j < i {
                        lemma_has_diag_prefix(
                            pre,
                            diags@,
                            DiagCode::MissingFullType,
                            self.decls@[j].data@[0].decl_pos->0,
                        );
                    }
                }
            }
            i = i + 1;
        }
    }

    /// Reports deferred constants without full declarations: in a package
    /// declaration every deferred constant, since no body completes it; in
    /// a package body every deferred constant of the extended header that
    /// the body leaves without a full constant.
    pub fn check_deferred_constant_pairs(&self, ext: Option<&Region>, diags: &mut Vec<Diagnostic>)
        requires
            self.wf(),
            match ext {
                Some(e) => e.wf(),
                None => true,
            },
        ensures
            old(diags)@.is_prefix_of(final(diags)@),
            self.kind == RegionKind::PackageDeclaration ==> forall|i: int|
                0 <= i < self.decls@.len() && (#[trigger] self.decls@[i]).data@.len() >= 1
                    && self.decls@[i].data@[0].decl is DeferredConstant
                    && self.decls@[i].data@[0].decl_pos is Some ==> has_diag(
                    final(diags)@,
                    DiagCode::MissingDeferredConstant,
                    self.decls@[i].data@[0].decl_pos->0,
                ),
            self.kind == RegionKind::PackageBody && ext is Some ==> forall|i: int|
                0 <= i < ext->0.decls@.len() && (#[trigger] ext->0.decls@[i]).data@.len() >= 1
                    && ext->0.decls@[i].data@[0].decl is DeferredConstant
                    && ext->0.decls@[i].data@[0].decl_pos is Some && !has_full_constant(
                    self.decls@,
                    ext->0.decls@[i].designator@,
                ) ==> has_diag(
                    final(diags)@,
                    DiagCode::MissingDeferredConstant,
                    ext->0.decls@[i].data@[0].decl_pos->0,
                ),
            self.kind == RegionKind::Other ==> final(diags)@ == old(diags)@,
            self.kind == RegionKind::PackageDeclaration && no_deferred_with_pos(self.decls@)
                ==> final(diags)@ == old(diags)@,
            self.kind == RegionKind::PackageBody && ext is None ==> final(diags)@ == old(diags)@,
            self.kind == RegionKind::PackageBody && (ext matches Some(e)
                && no_unmatched_ext_deferred(e.decls@, self.decls@)) ==> final(diags)@ == old(
                diags,
            )@,
    {
        if self.kind == RegionKind::PackageDeclaration {
            let n: usize = self.decls.len();
            let mut i: usize = 0;
            while i < n
                invariant
                    i <= n,
                    n == self.decls@.len(),
                    self.wf(),
                    old(diags)@.is_prefix_of(diags@),
                    forall|j: int|
                        0 <= j < i && (#[trigger] self.decls@[j]).data@.len() >= 1
                            && self.decls@[j].data@[0].decl is DeferredConstant
                            && self.decls@[j].data@[0].decl_pos is Some ==> has_diag(
                            diags@,
                            DiagCode::MissingDeferredConstant,
                            self.decls@[j].data@[0].decl_pos->0,
                        ),
                    (forall|j: int|
                        0 <= j < i ==> !((#[trigger] self.decls@[j]).data@.len() >= 1
                            && self.decls@[j].data@[0].decl is DeferredConstant
                            && self.decls@[j].data@[0].decl_pos is Some)) ==> diags@ == old(
                        diags,
                    )@,
                decreases n - i,
            {
                let ghost pre = diags@;
                let decl = &self.decls[i];
                if decl.first().is_deferred_constant() {
                    if let Some(pos) = decl.first_pos() {
                        push_named_diag(
                            diags,
                            Severity::Error,
                            pos,
                            DiagCode::MissingDeferredConstant,
                            "Deferred constant '",
                            &decl.designator,
                            "' lacks corresponding full constant declaration in package body",
                        );
                    }
                }
                proof {
                    assert forall|j: int|
                        0 <= j < i + 1 && (#[trigger] self.decls@[j]).data@.len() >= 1
                            && self.decls@[j].data@[0].decl is DeferredConstant
                            && self.decls@[j].data@[0].decl_pos is Some implies has_diag(
                        diags@,
                        DiagCode::MissingDeferredConstant,
                        self.decls@[j].data@[0].decl_pos->0,
                    ) by {
                        if j < i {
                            lemma_has_diag_prefix(
                                pre,
                                diags@,
                                DiagCode::MissingDeferredConstant,
                                self.decls@[j].data@[0].decl_pos->0,
                            );
                        }
                    }
                }
                i = i + 1;
            }
        } else if self.kind == RegionKind::PackageBody {
            if let Some(e) = ext {
                let n: usize = e.decls.len();
                let mut i: usize = 0;
                while i < n
                    invariant
                        i <= n,
                        n == e.decls@.len(),
                        self.wf(),
                        e.wf(),
                        old(diags)@.is_prefix_of(diags@),
                        forall|j: int|
                            0 <= j < i && (#[trigger] e.decls@[j]).data@.len() >= 1
                                && e.decls@[j].data@[0].decl is DeferredConstant
                                && e.decls@[j].data@[0].decl_pos is Some && !has_full_constant(
                                self.decls@,
                                e.decls@[j].designator@,
                            ) ==> has_diag(
                                diags@,
                                DiagCode::MissingDeferredConstant,
                                e.decls@[j].data@[0].decl_pos->0,
                            ),
                        (forall|j: int|
                            0 <= j < i ==> !((#[trigger] e.decls@[j]).data@.len() >= 1
                                && e.decls@[j].data@[0].decl is DeferredConstant
                                && e.decls@[j].data@[0].decl_pos is Some && !has_full_constant(
                                self.decls@,
                                e.decls@[j].designator@,
                            ))) ==> diags@ == old(diags)@,
                    decreases n - i,
                {
                    let ghost pre = diags@;
                    let ext_decl = &e.decls[i];
                    if ext_decl.first().is_deferred_constant() {
                        let mut found = false;
                        match find_entry(&self.decls, &ext_decl.designator) {
                            Some(j) => {
                                let vd = &self.decls[j];
                                if vd.first().is_non_deferred_constant() {
                                    found = true;
                                    proof {
                                        assert(has_full_constant(
                                            self.decls@,
                                            ext_decl.designator@,
                                        ));
                                    }
                                }
                            },
                            None => {},
                        }
                        if !found {
                            if let Some(pos) = ext_decl.first_pos() {
                                push_named_diag(
                                    diags,
                                    Severity::Error,
                                    pos,
                                    DiagCode::MissingDeferredConstant,
                                    "Deferred constant '",
                                    &ext_decl.designator,
                                    "' lacks corresponding full constant declaration in package body",
                                );
                            }
                        }
                    }
                    proof {
                        assert forall|j: int|
                            0 <= j < i + 1 && (#[trigger] e.decls@[j]).data@.len() >= 1
                                && e.decls@[j].data@[0].decl is DeferredConstant
                                && e.decls@[j].data@[0].decl_pos is Some && !has_full_constant(
                                self.decls@,
                                e.decls@[j].designator@,
                            ) implies has_diag(
                            diags@,
                            DiagCode::MissingDeferredConstant,
                            e.decls@[j].data@[0].decl_pos->0,
                        ) by {
                            if j < i {
                                lemma_has_diag_prefix(
                                    pre,
                                    diags@,
                                    DiagCode::MissingDeferredConstant,
                                    e.decls@[j].data@[0].decl_pos->0,
                                );
                            }
                        }
                    }
                    i = i + 1;
                }
            }
        }
    }

    /// Reports protected types without bodies, both in this region and in
    /// the region it extends; a body satisfies the requirement either as
    /// the second entry of the same bucket or, for an extended header, as a
    /// separate declaration in this region.
    pub fn check_protected_types_have_body(&self, ext: Option<&Region>, diags: &mut Vec<Diagnostic>)
        requires
            self.wf(),
            match ext {
                Some(e) => e.wf(),
                None => true,
            },
        ensures
            old(diags)@.is_prefix_of(final(diags)@),
            forall|i: int|
                0 <= i < self.decls@.len() && unmatched_protected(#[trigger] self.decls@[i])
                    && self.decls@[i].data@[0].decl_pos is Some ==> has_diag(
                    final(diags)@,
                    DiagCode::MissingProtectedBody,
                    self.decls@[i].data@[0].decl_pos->0,
                ),
            ext is Some ==> forall|i: int|
                0 <= i < ext->0.decls@.len() && unmatched_protected(#[trigger] ext->0.decls@[i])
                    && ext->0.decls@[i].data@[0].decl_pos is Some && !has_protected_body(
                    self.decls@,
                    ext->0.decls@[i].designator@,
                ) ==> has_diag(
                    final(diags)@,
                    DiagCode::MissingProtectedBody,
                    ext->0.decls@[i].data@[0].decl_pos->0,
                ),
            no_unmatched_protected(self.decls@) && ext is None ==> final(diags)@ == old(diags)@,
            no_unmatched_protected(self.decls@) && (ext matches Some(e)
                && no_unmatched_ext_protected(e.decls@, self.decls@)) ==> final(diags)@ == old(
                diags,
            )@,
    {
        let ghost mid_target = diags@;
        let n: usize = self.decls.len();
        let mut i: usize = 0;
        while i < n
            invariant
                i <= n,
                n == self.decls@.len(),
                self.wf(),
                old(diags)@.is_prefix_of(diags@),
                forall|j: int|
                    0 <= j < i && unmatched_protected(#[trigger] self.decls@[j])
                        && self.decls@[j].data@[0].decl_pos is Some ==> has_diag(
                        diags@,
                        DiagCode::MissingProtectedBody,
                        self.decls@[j].data@[0].decl_pos->0,
                    ),
                (forall|j: int|
                    0 <= j < i ==> !(unmatched_protected(#[trigger] self.decls@[j])
                        && self.decls@[j].data@[0].decl_pos is Some)) ==> diags@ == old(diags)@,
            decreases n - i,
        {
            let ghost pre = diags@;
            let decl = &self.decls[i];
            if decl.first().is_protected_type() {
                let mut ok = false;
                if let Some(second) = decl.second() {
                    if second.is_protected_type_body() {
                        ok = true;
                    }
                }
                if !ok {
                    if let Some(pos) = decl.first_pos() {
                        push_named_diag(
                            diags,
                            Severity::Error,
                            pos,
                            DiagCode::MissingProtectedBody,
                            "Missing body for protected type '",
                            &decl.designator,
                            "'",
                        );
                    }
                }
            }
            proof {
                assert forall|j: int|
                    0 <= j < i + 1 && unmatched_protected(#[trigger] self.decls@[j])
                        && self.decls@[j].data@[0].decl_pos is Some implies has_diag(
                    diags@,
                    DiagCode::MissingProtectedBody,
                    self.decls@[j].data@[0].decl_pos->0,
                ) by {
                    if j < i {
                        lemma_has_diag_prefix(
                            pre,
                            diags@,
                            DiagCode::MissingProtectedBody,
                            self.decls@[j].data@[0].decl_pos->0,
                        );
                    }
                }
            }
            i = i + 1;
        }
        let ghost own_done = diags@;
        if let Some(e) = ext {
            let m: usize = e.decls.len();
            let mut i2: usize = 0;
            while i2 < m
                invariant
                    i2 <= m,
                    m == e.decls@.len(),
                    self.wf(),
                    e.wf(),
                    old(diags)@.is_prefix_of(diags@),
                    own_done.is_prefix_of(diags@),
                    forall|j: int|
                        0 <= j < self.decls@.len() && unmatched_protected(
                            #[trigger] self.decls@[j],
                        ) && self.decls@[j].data@[0].decl_pos is Some ==> has_diag(
                            own_done,
                            DiagCode::MissingProtectedBody,
                            self.decls@[j].data@[0].decl_pos->0,
                        ),
                    forall|j: int|
                        0 <= j < i2 && unmatched_protected(#[trigger] e.decls@[j])
                            && e.decls@[j].data@[0].decl_pos is Some && !has_protected_body(
                            self.decls@,
                            e.decls@[j].designator@,
                        ) ==> has_diag(
                            diags@,
                            DiagCode::MissingProtectedBody,
                            e.decls@[j].data@[0].decl_pos->0,
                        ),
                    (no_unmatched_protected(self.decls@) && forall|j: int|
                        0 <= j < i2 ==> !(unmatched_protected(#[trigger] e.decls@[j])
                            && e.decls@[j].data@[0].decl_pos is Some && !has_protected_body(
                            self.decls@,
                            e.decls@[j].designator@,
                        ))) ==> diags@ == old(diags)@,
                decreases m - i2,
            {
                let ghost pre = diags@;
                let ext_decl = &e.decls[i2];
                if ext_decl.first().is_protected_type() {
                    let mut ok = false;
                    if let Some(second) = ext_decl.second() {
                        if second.is_protected_type_body() {
                            ok = true;
                        }
                    }
                    if !ok {
                        match find_entry(&self.decls, &ext_decl.designator) {
                            Some(j) => {
                                let vd = &self.decls[j];
                                if vd.first().is_protected_type_body() {
                                    ok = true;
                                    proof {
                                        assert(has_protected_body(
                                            self.decls@,
                                            ext_decl.designator@,
                                        ));
                                    }
                                }
                            },
                            None => {},
                        }
                    }
                    if !ok {
                        if let Some(pos) = ext_decl.first_pos() {
                            push_named_diag(
                                diags,
                                Severity::Error,
                                pos,
                                DiagCode::MissingProtectedBody,
                                "Missing body for protected type '",
                                &ext_decl.designator,
                                "'",
                            );
                        }
                    }
                }
                proof {
                    assert forall|j: int|
                        0 <= j < i2 + 1 && unmatched_protected(#[trigger] e.decls@[j])
                            && e.decls@[j].data@[0].decl_pos is Some && !has_protected_body(
                            self.decls@,
                            e.decls@[j].designator@,
                        ) implies has_diag(
                        diags@,
                        DiagCode::MissingProtectedBody,
                        e.decls@[j].data@[0].decl_pos->0,
                    ) by {
                        if j < i2 {
                            lemma_has_diag_prefix(
                                pre,
                                diags@,
                                DiagCode::MissingProtectedBody,
                                e.decls@[j].data@[0].decl_pos->0,
                            );
                        }
                    }
                }
                i2 = i2 + 1;
            }
        }
        proof {
            assert forall|j: int|
                0 <= j < self.decls@.len() && unmatched_protected(#[trigger] self.decls@[j])
                    && self.decls@[j].data@[0].decl_pos is Some implies has_diag(
                diags@,
                DiagCode::MissingProtectedBody,
                self.decls@[j].data@[0].decl_pos->0,
            ) by {
                lemma_has_diag_prefix(
                    own_done,
                    diags@,
                    DiagCode::MissingProtectedBody,
                    self.decls@[j].data@[0].decl_pos->0,
                );
            }
        }
    }

    /// Close of a region that no body can extend: checks incomplete types.
    pub fn close_immediate(&self, diags: &mut Vec<Diagnostic>)
        requires
            self.wf(),
        ensures
            old(diags)@.is_prefix_of(final(diags)@),
            forall|i: int|
                0 <= i < self.decls@.len() && unmatched_incomplete(#[trigger] self.decls@[i])
                    && self.decls@[i].data@[0].decl_pos is Some ==> has_diag(
                    final(diags)@,
                    DiagCode::MissingFullType,
                    self.decls@[i].data@[0].decl_pos->0,
                ),
            no_unmatched_incomplete(self.decls@) ==> final(diags)@ == old(diags)@,
    {
        self.check_incomplete_types_are_defined(diags);
    }

    /// Close at the end of a body: every completion requirement is checked,
    /// and every violation has been reported when this returns -- no
    /// unmatched incomplete type, no unmatched protected type, and no
    /// deferred constant without its full declaration escapes undiagnosed.
    pub fn close_both(&self, ext: Option<&Region>, diags: &mut Vec<Diagnostic>)
        requires
            self.wf(),
            match ext {
                Some(e) => e.wf(),
                None => true,
            },
        ensures
            old(diags)@.is_prefix_of(final(diags)@),
            forall|i: int|
                0 <= i < self.decls@.len() && unmatched_incomplete(#[trigger] self.decls@[i])
                    && self.decls@[i].data@[0].decl_pos is Some ==> has_diag(
                    final(diags)@,
                    DiagCode::MissingFullType,
                    self.decls@[i].data@[0].decl_pos->0,
                ),
            self.kind == RegionKind::PackageDeclaration ==> forall|i: int|
                0 <= i < self.decls@.len() && (#[trigger] self.decls@[i]).data@.len() >= 1
                    && self.decls@[i].data@[0].decl is DeferredConstant
                    && self.decls@[i].data@[0].decl_pos is Some ==> has_diag(
                    final(diags)@,
                    DiagCode::MissingDeferredConstant,
                    self.decls@[i].data@[0].decl_pos->0,
                ),
            self.kind == RegionKind::PackageBody && ext is Some ==> forall|i: int|
                0 <= i < ext->0.decls@.len() && (#[trigger] ext->0.decls@[i]).data@.len() >= 1
                    && ext->0.decls@[i].data@[0].decl is DeferredConstant
                    && ext->0.decls@[i].data@[0].decl_pos is Some && !has_full_constant(
                    self.decls@,
                    ext->0.decls@[i].designator@,
                ) ==> has_diag(
                    final(diags)@,
                    DiagCode::MissingDeferredConstant,
                    ext->0.decls@[i].data@[0].decl_pos->0,
                ),
            forall|i: int|
                0 <= i < self.decls@.len() && unmatched_protected(#[trigger] self.decls@[i])
                    && self.decls@[i].data@[0].decl_pos is Some ==> has_diag(
                    final(diags)@,
                    DiagCode::MissingProtectedBody,
                    self.decls@[i].data@[0].decl_pos->0,
                ),
            ext is Some ==> forall|i: int|
                0 <= i < ext->0.decls@.len() && unmatched_protected(#[trigger] ext->0.decls@[i])
                    && ext->0.decls@[i].data@[0].decl_pos is Some && !has_protected_body(
                    self.decls@,
                    ext->0.decls@[i].designator@,
                ) ==> has_diag(
                    final(diags)@,
                    DiagCode::MissingProtectedBody,
                    ext->0.decls@[i].data@[0].decl_pos->0,
                ),
            ({
                let deferred_clean = (self.kind == RegionKind::Other) || (self.kind
                    == RegionKind::PackageDeclaration && no_deferred_with_pos(self.decls@)) || (
                self.kind == RegionKind::PackageBody && (ext is None || (ext matches Some(e)
                    && no_unmatched_ext_deferred(e.decls@, self.decls@))));
                let protected_clean = no_unmatched_protected(self.decls@) && (ext is None || (
                ext matches Some(e) && no_unmatched_ext_protected(e.decls@, self.decls@)));
                no_unmatched_incomplete(self.decls@) && deferred_clean && protected_clean
                    ==> final(diags)@ == old(diags)@
            }),
    {
        let ghost d0 = diags@;
        self.check_incomplete_types_are_defined(diags);
        let ghost d1 = diags@;
        self.check_deferred_constant_pairs(ext, diags);
        let ghost d2 = diags@;
        self.check_protected_types_have_body(ext, diags);
        proof {
            assert(d1.is_prefix_of(diags@)) by {
                assert(d1.is_prefix_of(d2));
                assert(d2.is_prefix_of(diags@));
                assert(forall|k: int| 0 <= k < d1.len() ==> d1[k] == d2[k] && d2[k] == diags@[k]);
            }
            assert forall|i: int|
                0 <= i < self.decls@.len() && unmatched_incomplete(#[trigger] self.decls@[i])
                    && self.decls@[i].data@[0].decl_pos is Some implies has_diag(
                diags@,
                DiagCode::MissingFullType,
                self.decls@[i].data@[0].decl_pos->0,
            ) by {
                lemma_has_diag_prefix(
                    d1,
                    diags@,
                    DiagCode::MissingFullType,
                    self.decls@[i].data@[0].decl_pos->0,
                );
            }
            if self.kind == RegionKind::PackageDeclaration {
                assert forall|i: int|
                    0 <= i < self.decls@.len() && (#[trigger] self.decls@[i]).data@.len() >= 1
                        && self.decls@[i].data@[0].decl is DeferredConstant
                        && self.decls@[i].data@[0].decl_pos is Some implies has_diag(
                    diags@,
                    DiagCode::MissingDeferredConstant,
                    self.decls@[i].data@[0].decl_pos->0,
                ) by {
                    lemma_has_diag_prefix(
                        d2,
                        diags@,
                        DiagCode::MissingDeferredConstant,
                        self.decls@[i].data@[0].decl_pos->0,
                    );
                }
            }
            if self.kind == RegionKind::PackageBody && ext is Some {
                assert forall|i: int|
                    0 <= i < ext->0.decls@.len() && (#[trigger] ext->0.decls@[i]).data@.len() >= 1
                        && ext->0.decls@[i].data@[0].decl is DeferredConstant
                        && ext->0.decls@[i].data@[0].decl_pos is Some && !has_full_constant(
                        self.decls@,
                        ext->0.decls@[i].designator@,
                    ) implies has_diag(
                    diags@,
                    DiagCode::MissingDeferredConstant,
                    ext->0.decls@[i].data@[0].decl_pos->0,
                ) by {
                    lemma_has_diag_prefix(
                        d2,
                        diags@,
                        DiagCode::MissingDeferredConstant,
                        ext->0.decls@[i].data@[0].decl_pos->0,
                    );
                }
            }
        }
    }
}

} // verus!
