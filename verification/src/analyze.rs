//! The analyzer: orchestration, visibility and name resolution.
//!
//! The analyzer owns the region arena, the diagnostics and the reference
//! table.  Units are analyzed in source order; each unit builds its region,
//! resolves every name occurrence against the regions built so far, and is
//! closed with the completion checks of its kind.

use vstd::prelude::*;
use vstd::string::StringSliceAdditionalSpecFns;

use crate::ast::{
    ActualPart, Association, Choice, ConcStmt, ConstraintItem, ContextItem, Declaration,
    DesignFile, ElemAssoc, Expr, Ident, IndexDef, InterfaceObject, Name, RangeExpr, Rhs, SeqStmt,
    SubpgmHead, SubtypeInd, Target, TypeDef, Unit,
};
use crate::decl::{
    completes, data_eq, decl_eq, dup_detail, dup_vd, vd_eq, AnyDeclaration, AnyDeclarationData,
    DeclForm, ObjectClass, SigInfo, SigParam, TypeData, TypeDetail, TypeKind,
    VisibleDeclaration,
};
use crate::designator::Designator;
use crate::diag::{push_bytes, push_str_bytes, DiagCode, Diagnostic, Pos, Related, Severity};
use crate::lexer::word_is;
use crate::reference::RefTable;
use crate::region::{
    find_entry, has_diag, has_name, insertion_allowed, lookup_selected, lookup_within,
    push_named_diag, Region,
};

verus! {

/// Equal declaration kinds lie in the same variant.
pub proof fn lemma_decl_eq_variants(a: AnyDeclaration, b: AnyDeclaration)
    requires
        decl_eq(a, b),
    ensures
        (a is Overloaded <==> b is Overloaded),
        (a is Constant <==> b is Constant),
        (a is DeferredConstant <==> b is DeferredConstant),
        (a is ProtectedType <==> b is ProtectedType),
        (a is ProtectedTypeBody <==> b is ProtectedTypeBody),
        (a is IncompleteType <==> b is IncompleteType),
        (a is TypeDeclaration <==> b is TypeDeclaration),
{
}

/// A copy that is `vd_eq` to a well-formed declaration is well formed.
pub proof fn lemma_vd_eq_wf(a: VisibleDeclaration, b: VisibleDeclaration)
    requires
        vd_eq(a, b),
        b.wf(),
    ensures
        a.wf(),
{
    assert forall|j: int|
        1 <= j < a.data@.len() implies ((a.data@[0].decl is Overloaded
        && (#[trigger] a.data@[j]).decl is Overloaded) || (forall|k: int|
        0 <= k < j ==> completes((#[trigger] a.data@[k]).decl, a.data@[j].decl))) by {
        assert(data_eq(a.data@[0], b.data@[0]));
        assert(data_eq(a.data@[j], b.data@[j]));
        lemma_decl_eq_variants(a.data@[0].decl, b.data@[0].decl);
        lemma_decl_eq_variants(a.data@[j].decl, b.data@[j].decl);
        if !(a.data@[0].decl is Overloaded && a.data@[j].decl is Overloaded) {
            assert(!(b.data@[0].decl is Overloaded && b.data@[j].decl is Overloaded));
            assert forall|k: int|
                0 <= k < j implies completes((#[trigger] a.data@[k]).decl, a.data@[j].decl) by {
                assert(data_eq(a.data@[k], b.data@[k]));
                lemma_decl_eq_variants(a.data@[k].decl, b.data@[k].decl);
                assert(completes(b.data@[k].decl, b.data@[j].decl));
            }
        }
    }
}

/// Copies the declared plane of a region, as the insertion and close checks
/// need it from the region a body extends.
pub fn dup_region(r: &Region) -> (c: Region)
    requires
        r.wf(),
    ensures
        c.wf(),
        c.kind == r.kind,
        c.decls@.len() == r.decls@.len(),
        forall|i: int| 0 <= i < r.decls@.len() ==> vd_eq(#[trigger] c.decls@[i], r.decls@[i]),
{
    let n: usize = r.decls.len();
    let mut decls: Vec<VisibleDeclaration> = Vec::new();
    let mut i: usize = 0;
    while i < n
        invariant
            i <= n,
            n == r.decls@.len(),
            r.wf(),
            decls@.len() == i,
            forall|j: int| 0 <= j < i ==> vd_eq(#[trigger] decls@[j], r.decls@[j]),
        decreases n - i,
    {
        let c = dup_vd(&r.decls[i]);
        decls.push(c);
        i = i + 1;
    }
    let out = Region {
        parent: r.parent,
        extends: r.extends,
        visible: Vec::new(),
        decls,
        kind: r.kind,
    };
    proof {
        assert forall|a: int, b: int|
            0 <= a < b < out.decls@.len() implies (#[trigger] out.decls@[a]).designator@ != (
        #[trigger] out.decls@[b]).designator@ by {
            assert(vd_eq(out.decls@[a], r.decls@[a]));
            assert(vd_eq(out.decls@[b], r.decls@[b]));
        }
        assert forall|a: int| 0 <= a < out.decls@.len() implies (#[trigger] out.decls@[a]).wf() by {
            assert(vd_eq(out.decls@[a], r.decls@[a]));
            assert(r.decls@[a].wf());
            lemma_vd_eq_wf(out.decls@[a], r.decls@[a]);
        }
    }
    out
}

/// Appends the decimal digits of `n` to `out`.
pub fn push_usize(out: &mut Vec<u8>, n: usize)
{
    let mut digits: Vec<u8> = Vec::new();
    let mut v: usize = n;
    if v == 0 {
        out.push(48);
        return;
    }
    while v > 0
        decreases v,
    {
        let d = (v % 10) as u8;
        digits.push(48 + d);
        v = v / 10;
    }
    let m: usize = digits.len();
    let mut i: usize = m;
    while i > 0
        invariant
            i <= digits@.len(),
        decreases i,
    {
        i = i - 1;
        out.push(digits[i]);
    }
}

/// The class of a literal, for initial-value checking.
pub enum LitClass {
    IntLit,
    RealLit,
    CharLit(Designator),
    NullLit,
    StrLit,
    CompositeLit,
}

/// Whether every association of a parenthesized name is a plain positional
/// expression, the shape of an index list.
pub open spec fn all_plain_exprs(assocs: Seq<Association>) -> bool {
    forall|i: int|
        0 <= i < assocs.len() ==> (#[trigger] assocs[i]).formal is None && assocs[i].actual
            is ActualExpr
}

/// Whether some association of a parenthesized name is a positional range,
/// the shape of a slice.
pub open spec fn any_plain_range(assocs: Seq<Association>) -> bool {
    exists|i: int|
        0 <= i < assocs.len() && (#[trigger] assocs[i]).formal is None && assocs[i].actual
            is ActualRange
}

/// Whether a parenthesized name carries only positional expressions or
/// ranges, the shape of indexing or slicing rather than of a call with
/// named or open associations.
pub open spec fn positional_shape(assocs: Seq<Association>) -> bool {
    assocs.len() > 0 && forall|i: int|
        0 <= i < assocs.len() ==> (#[trigger] assocs[i]).formal is None && !(assocs[i].actual
            is ActualOpen)
}

/// What a resolved name denotes, as far as further resolution needs it.
pub enum Info {
    /// A region that selected names may search: a package, entity, context
    /// or library.
    ScopeInfo(usize),
    /// An object with the structural detail of its type.
    TypedInfo(TypeDetail),
    /// A type name itself, with its structural detail.
    TypeNameInfo(TypeDetail),
    /// Anything else.
    NoInfo,
}

/// The analyzer state.
pub struct Analyzer {
    pub arena: Vec<Region>,
    pub diags: Vec<Diagnostic>,
    pub refs: RefTable,
    /// Set when the analysis depth budget ran out somewhere, so that the
    /// run can be reported as incomplete rather than clean.
    pub depth_exceeded: bool,
    /// Region of the predefined package of builtin names.
    pub std_region: usize,
    /// Region whose visible plane carries the builtin names and libraries.
    pub universe: usize,
    /// Region holding the analyzed library's units by name.
    pub lib_region: usize,
}

impl Analyzer {
    /// Every region of the arena is well formed and the three distinguished
    /// regions exist.
    pub open spec fn wf(self) -> bool {
        &&& forall|i: int| 0 <= i < self.arena@.len() ==> (#[trigger] self.arena@[i]).wf()
        &&& self.std_region < self.arena@.len()
        &&& self.universe < self.arena@.len()
        &&& self.lib_region < self.arena@.len()
    }

    /// Adds a fresh region to the arena and returns its index.
    fn new_region(&mut self, r: Region) -> (idx: usize)
        requires
            old(self).wf(),
            r.wf(),
        ensures
            final(self).wf(),
            final(self).arena@.len() == old(self).arena@.len() + 1,
            idx == old(self).arena@.len(),
            final(self).diags@ == old(self).diags@,
            final(self).refs == old(self).refs,
            final(self).std_region == old(self).std_region,
            final(self).universe == old(self).universe,
            final(self).lib_region == old(self).lib_region,
            final(self).depth_exceeded == old(self).depth_exceeded,
            forall|i: int|
                0 <= i < old(self).arena@.len() ==> final(self).arena@[i] == old(self).arena@[i],
    {
        let idx = self.arena.len();
        self.arena.push(r);
        idx
    }

    /// Inserts a declaration into the region at `at` with full legality
    /// checks, records the defining occurrence in the reference table, and
    /// keeps the arena well formed.
    pub fn declare_full(
        &mut self,
        at: usize,
        d: Designator,
        pos: Option<Pos>,
        kind: AnyDeclaration,
        typ: Option<TypeDetail>,
        sig: Option<SigInfo>,
        ext: Option<&Region>,
    )
        requires
            old(self).wf(),
            at < old(self).arena@.len(),
            match ext {
                Some(e) => e.wf(),
                None => true,
            },
        ensures
            final(self).wf(),
            final(self).arena@.len() == old(self).arena@.len(),
            final(self).std_region == old(self).std_region,
            final(self).universe == old(self).universe,
            final(self).lib_region == old(self).lib_region,
            final(self).depth_exceeded == old(self).depth_exceeded,
            forall|i: int|
                0 <= i < old(self).arena@.len() && i != at ==> final(self).arena@[i] == old(
                    self,
                ).arena@[i],
            ({
                let extv = match ext {
                    Some(e) => Some(*e),
                    None => None,
                };
                let site = AnyDeclarationData { decl_pos: pos, decl: kind, typ, sig };
                let before = old(self).arena@[at as int];
                let after = final(self).arena@[at as int];
                &&& insertion_allowed(before, d@, kind, extv) ==> crate::region::added_one(
                    before.decls@,
                    after.decls@,
                    d@,
                    site,
                )
                &&& !insertion_allowed(before, d@, kind, extv) ==> after.decls@ == before.decls@
                &&& pos is None ==> final(self).diags@ == old(self).diags@ && final(self).refs
                    == old(self).refs
                &&& !insertion_allowed(before, d@, kind, extv) && pos is Some ==> has_diag(
                    final(self).diags@,
                    crate::region::refusal_code(before, d@, kind, extv),
                    pos->0,
                )
                &&& insertion_allowed(before, d@, kind, extv) && pos is Some
                    ==> final(self).diags@ == old(self).diags@ && (crate::region::entry_of(
                    after.decls@,
                    d@,
                ) matches Some(en) && final(self).refs.entries@ == old(self).refs.entries@.push(
                    crate::reference::RefEntry {
                        occ: pos->0,
                        target: if en.data@[0].decl is Overloaded {
                            None
                        } else {
                            en.data@[0].decl_pos
                        },
                    },
                ))
            }),
    {
        let dref = d.dup();
        let mut data: Vec<AnyDeclarationData> = Vec::new();
        data.push(AnyDeclarationData { decl_pos: pos, decl: kind, typ, sig });
        let vd = VisibleDeclaration { designator: d, data };
        let ghost site = vd.data@[0];
        let ghost pre = self.arena@[at as int];
        let ghost extv: Option<Region> = match ext {
            Some(e) => Some(*e),
            None => None,
        };
        proof {
            assert(vd.wf());
            assert(vd.data@ =~= seq![site]);
        }
        let region = &mut self.arena[at];
        region.add_decl(vd, ext, &mut self.diags);
        proof {
            assert(crate::region::insertion_allowed(pre, vd.designator@, vd.data@[0].decl, extv)
                == crate::region::add_checks_pass(pre, vd, extv));
            if crate::region::add_checks_pass(pre, vd, extv) {
                let after = self.arena@[at as int];
                if has_name(pre.decls@, vd.designator@) {
                    assert forall|i: int|
                        0 <= i < pre.decls@.len() && (#[trigger] pre.decls@[i]).designator@
                            == vd.designator@ implies after.decls@[i].designator@
                        == vd.designator@ && after.decls@[i].data@ == pre.decls@[i].data@.push(
                        site,
                    ) by {
                        assert(after.decls@[i].data@ =~= pre.decls@[i].data@ + vd.data@);
                        assert(pre.decls@[i].data@ + seq![site] =~= pre.decls@[i].data@.push(
                            site,
                        ));
                    }
                } else {
                    assert(after.decls@ =~= pre.decls@.push(vd));
                    assert(after.decls@.last().data@ =~= seq![site]);
                }
                assert(crate::region::added_one(pre.decls@, after.decls@, vd.designator@, site));
            }
        }
        if let Some(p) = pos {
            match find_entry(&self.arena[at].decls, &dref) {
                Some(i) => {
                    proof {
                        crate::region::lemma_entry_of(
                            self.arena@[at as int].decls@,
                            dref@,
                            i as int,
                        );
                    }
                    let entry = &self.arena[at].decls[i];
                    self.refs.set_reference(p, entry);
                },
                None => {
                    proof {
                        if crate::region::add_checks_pass(pre, vd, extv) {
                            assert(crate::region::added_one(
                                pre.decls@,
                                self.arena@[at as int].decls@,
                                vd.designator@,
                                site,
                            ));
                            if has_name(pre.decls@, vd.designator@) {
                                let k = choose|k: int|
                                    0 <= k < pre.decls@.len() && pre.decls@[k].designator@
                                        == vd.designator@;
                                assert(self.arena@[at as int].decls@[k].designator@
                                    == vd.designator@);
                                assert(has_name(self.arena@[at as int].decls@, vd.designator@));
                            } else {
                                assert(self.arena@[at as int].decls@.last().designator@
                                    == vd.designator@);
                                assert(has_name(self.arena@[at as int].decls@, vd.designator@));
                            }
                            assert(false);
                        }
                    }
                },
            }
        }
    }

    /// Inserts a declaration without a recorded signature; the contract of
    /// `declare_full` carries over with an empty signature note.
    pub fn declare(
        &mut self,
        at: usize,
        d: Designator,
        pos: Option<Pos>,
        kind: AnyDeclaration,
        typ: Option<TypeDetail>,
        ext: Option<&Region>,
    )
        requires
            old(self).wf(),
            at < old(self).arena@.len(),
            match ext {
                Some(e) => e.wf(),
                None => true,
            },
        ensures
            final(self).wf(),
            final(self).arena@.len() == old(self).arena@.len(),
            final(self).std_region == old(self).std_region,
            final(self).universe == old(self).universe,
            final(self).lib_region == old(self).lib_region,
            final(self).depth_exceeded == old(self).depth_exceeded,
            forall|i: int|
                0 <= i < old(self).arena@.len() && i != at ==> final(self).arena@[i] == old(
                    self,
                ).arena@[i],
            ({
                let extv = match ext {
                    Some(e) => Some(*e),
                    None => None,
                };
                let site = AnyDeclarationData { decl_pos: pos, decl: kind, typ, sig: None };
                let before = old(self).arena@[at as int];
                let after = final(self).arena@[at as int];
                &&& insertion_allowed(before, d@, kind, extv) ==> crate::region::added_one(
                    before.decls@,
                    after.decls@,
                    d@,
                    site,
                )
                &&& !insertion_allowed(before, d@, kind, extv) ==> after.decls@ == before.decls@
                &&& pos is None ==> final(self).diags@ == old(self).diags@ && final(self).refs
                    == old(self).refs
                &&& !insertion_allowed(before, d@, kind, extv) && pos is Some ==> has_diag(
                    final(self).diags@,
                    crate::region::refusal_code(before, d@, kind, extv),
                    pos->0,
                )
                &&& insertion_allowed(before, d@, kind, extv) && pos is Some
                    ==> final(self).diags@ == old(self).diags@ && (crate::region::entry_of(
                    after.decls@,
                    d@,
                ) matches Some(en) && final(self).refs.entries@ == old(self).refs.entries@.push(
                    crate::reference::RefEntry {
                        occ: pos->0,
                        target: if en.data@[0].decl is Overloaded {
                            None
                        } else {
                            en.data@[0].decl_pos
                        },
                    },
                ))
            }),
    {
        self.declare_full(at, d, pos, kind, typ, None, ext);
    }

    /// Replaces a binding without checks, as the orchestrator does for a
    /// unit's own name: afterwards the designator's bucket in the region at
    /// `at` holds exactly the given definition site, every other bucket is
    /// untouched, and the defining occurrence refers to itself.
    pub fn overwrite(&mut self, at: usize, d: Designator, pos: Option<Pos>, kind: AnyDeclaration)
        requires
            old(self).wf(),
            at < old(self).arena@.len(),
        ensures
            final(self).wf(),
            final(self).arena@.len() == old(self).arena@.len(),
            final(self).std_region == old(self).std_region,
            final(self).universe == old(self).universe,
            final(self).lib_region == old(self).lib_region,
            final(self).depth_exceeded == old(self).depth_exceeded,
            forall|i: int|
                0 <= i < old(self).arena@.len() && i != at ==> final(self).arena@[i] == old(
                    self,
                ).arena@[i],
            has_name(final(self).arena@[at as int].decls@, d@),
            final(self).diags@ == old(self).diags@,
            ({
                let site = AnyDeclarationData { decl_pos: pos, decl: kind, typ: None, sig: None };
                let before = old(self).arena@[at as int];
                let after = final(self).arena@[at as int];
                &&& if has_name(before.decls@, d@) {
                    &&& after.decls@.len() == before.decls@.len()
                    &&& forall|j: int|
                        0 <= j < before.decls@.len() && (#[trigger] before.decls@[j]).designator@
                            != d@ ==> after.decls@[j] == before.decls@[j]
                    &&& forall|j: int|
                        0 <= j < before.decls@.len() && (#[trigger] before.decls@[j]).designator@
                            == d@ ==> after.decls@[j].designator@ == d@ && after.decls@[j].data@
                            =~= seq![site]
                } else {
                    &&& after.decls@.len() == before.decls@.len() + 1
                    &&& forall|j: int|
                        0 <= j < before.decls@.len() ==> #[trigger] after.decls@[j]
                            == before.decls@[j]
                    &&& after.decls@.last().designator@ == d@
                    &&& after.decls@.last().data@ =~= seq![site]
                }
                &&& pos is None ==> final(self).refs == old(self).refs
                &&& pos matches Some(p) ==> final(self).refs.entries@ == old(
                    self,
                ).refs.entries@.push(crate::reference::RefEntry { occ: p, target: Some(p) })
            }),
    {
        let region = &mut self.arena[at];
        region.overwrite(d, pos, kind);
        if let Some(p) = pos {
            self.refs.set_reference_pos(p, Some(p));
        }
    }

    /// The implicit region a declaration carries, seen through aliases.
    fn implicit_of_decl(d: &AnyDeclaration, fuel: u64) -> (r: Option<usize>)
        decreases fuel,
    {
        if fuel == 0 {
            return None;
        }
        match d {
            AnyDeclaration::AliasOf(inner) => Self::implicit_of_decl(inner, fuel - 1),
            AnyDeclaration::TypeDeclaration(td) => td.implicit,
            _ => None,
        }
    }

    /// Makes one declaration potentially visible in the region at `at`,
    /// first promoting the implicit declarations of its type, so that for
    /// example enumeration literals become usable wherever their type is.
    pub fn make_potentially_visible(&mut self, at: usize, vd: VisibleDeclaration, fuel: u64)
        requires
            old(self).wf(),
            at < old(self).arena@.len(),
            vd.wf(),
        ensures
            final(self).wf(),
            final(self).arena@.len() == old(self).arena@.len(),
            final(self).std_region == old(self).std_region,
            final(self).universe == old(self).universe,
            final(self).lib_region == old(self).lib_region,
            final(self).depth_exceeded == old(self).depth_exceeded,
            forall|i: int|
                0 <= i < old(self).arena@.len() && i != at ==> final(self).arena@[i] == old(
                    self,
                ).arena@[i],
            forall|i: int|
                0 <= i < old(self).arena@.len() ==> (#[trigger] final(self).arena@[i]).decls@
                    == old(self).arena@[i].decls@,
            final(self).arena@[at as int].parent == old(self).arena@[at as int].parent,
            final(self).arena@[at as int].extends == old(self).arena@[at as int].extends,
            final(self).arena@[at as int].kind == old(self).arena@[at as int].kind,
            final(self).diags@ == old(self).diags@,
            final(self).refs == old(self).refs,
            has_name(final(self).arena@[at as int].visible@, vd.designator@),
            exists|i: int|
                0 <= i < final(self).arena@[at as int].visible@.len() && final(self).arena@[
                at as int].visible@[i] == vd,
            forall|n: Seq<u8>|
                has_name(old(self).arena@[at as int].visible@, n) ==> has_name(
                    final(self).arena@[at as int].visible@,
                    n,
                ),
        decreases fuel,
    {
        if fuel > 0 && vd.data.len() > 0 {
            // the primary definition site decides what is promoted with
            // the declaration: the implicit members of a type become
            // visible with it
            let implicit = Self::implicit_of_decl(&vd.data[0].decl, 8);
            if let Some(ir) = implicit {
                if ir < self.arena.len() && ir != at {
                    let m = self.arena[ir].decls.len();
                    let mut k: usize = 0;
                    while k < m
                        invariant
                            fuel >= 1,
                            k <= m,
                            self.wf(),
                            at < self.arena@.len(),
                            ir < self.arena@.len(),
                            m == self.arena@[ir as int].decls@.len(),
                            self.arena@.len() == old(self).arena@.len(),
                            self.std_region == old(self).std_region,
                            self.universe == old(self).universe,
                            self.lib_region == old(self).lib_region,
                            self.depth_exceeded == old(self).depth_exceeded,
                            forall|i: int|
                                0 <= i < old(self).arena@.len() && i != at ==> self.arena@[i]
                                    == old(self).arena@[i],
                            forall|i: int|
                                0 <= i < old(self).arena@.len() ==> (#[trigger] self.arena@[
                                i]).decls@ == old(self).arena@[i].decls@,
                            self.arena@[at as int].parent == old(self).arena@[at as int].parent,
                            self.arena@[at as int].extends == old(self).arena@[
                                at as int].extends,
                            self.arena@[at as int].kind == old(self).arena@[at as int].kind,
                            self.diags@ == old(self).diags@,
                            self.refs == old(self).refs,
                            forall|n: Seq<u8>|
                                has_name(old(self).arena@[at as int].visible@, n) ==> has_name(
                                    self.arena@[at as int].visible@,
                                    n,
                                ),
                        decreases m - k,
                    {
                        let copy = dup_vd(&self.arena[ir].decls[k]);
                        proof {
                            lemma_vd_eq_wf(copy, self.arena@[ir as int].decls@[k as int]);
                        }
                        self.make_potentially_visible(at, copy, fuel - 1);
                        k = k + 1;
                    }
                }
            }
        }
        let region = &mut self.arena[at];
        region.insert_visible(vd);
    }

    /// Makes every declaration of the region at `from` potentially visible
    /// in the region at `at`, as a use clause naming `all` does.
    pub fn make_all_potentially_visible(&mut self, at: usize, from: usize, fuel: u64)
        requires
            old(self).wf(),
            at < old(self).arena@.len(),
            from < old(self).arena@.len(),
        ensures
            final(self).wf(),
            final(self).arena@.len() == old(self).arena@.len(),
            final(self).std_region == old(self).std_region,
            final(self).universe == old(self).universe,
            final(self).lib_region == old(self).lib_region,
            final(self).depth_exceeded == old(self).depth_exceeded,
            forall|i: int|
                0 <= i < old(self).arena@.len() && i != at ==> final(self).arena@[i] == old(
                    self,
                ).arena@[i],
            forall|i: int|
                0 <= i < old(self).arena@.len() ==> (#[trigger] final(self).arena@[i]).decls@
                    == old(self).arena@[i].decls@,
            final(self).diags@ == old(self).diags@,
            final(self).refs == old(self).refs,
            forall|j: int|
                0 <= j < old(self).arena@[from as int].decls@.len() ==> has_name(
                    final(self).arena@[at as int].visible@,
                    old(self).arena@[from as int].decls@[j].designator@,
                ),
            forall|n: Seq<u8>|
                has_name(old(self).arena@[at as int].visible@, n) ==> has_name(
                    final(self).arena@[at as int].visible@,
                    n,
                ),
    {
        let n = self.arena[from].decls.len();
        let mut k: usize = 0;
        while k < n
            invariant
                k <= n,
                self.wf(),
                at < self.arena@.len(),
                from < self.arena@.len(),
                n == self.arena@[from as int].decls@.len(),
                self.arena@.len() == old(self).arena@.len(),
                self.std_region == old(self).std_region,
                self.universe == old(self).universe,
                self.lib_region == old(self).lib_region,
                self.depth_exceeded == old(self).depth_exceeded,
                forall|i: int|
                    0 <= i < old(self).arena@.len() && i != at ==> self.arena@[i] == old(
                        self,
                    ).arena@[i],
                forall|i: int|
                    0 <= i < old(self).arena@.len() ==> (#[trigger] self.arena@[i]).decls@ == old(
                        self,
                    ).arena@[i].decls@,
                self.diags@ == old(self).diags@,
                self.refs == old(self).refs,
                forall|j: int|
                    0 <= j < k ==> has_name(
                        self.arena@[at as int].visible@,
                        old(self).arena@[from as int].decls@[j].designator@,
                    ),
                forall|n2: Seq<u8>|
                    has_name(old(self).arena@[at as int].visible@, n2) ==> has_name(
                        self.arena@[at as int].visible@,
                        n2,
                    ),
            decreases n - k,
        {
            let copy = dup_vd(&self.arena[from].decls[k]);
            proof {
                lemma_vd_eq_wf(copy, self.arena@[from as int].decls@[k as int]);
            }
            self.make_potentially_visible(at, copy, 8);
            k = k + 1;
        }
    }

    /// Copies the visible plane of the region at `from` into the region at
    /// `at`, as a context clause reference does.
    pub fn copy_visibility_from(&mut self, at: usize, from: usize)
        requires
            old(self).wf(),
            at < old(self).arena@.len(),
            from < old(self).arena@.len(),
        ensures
            final(self).wf(),
            final(self).arena@.len() == old(self).arena@.len(),
            final(self).std_region == old(self).std_region,
            final(self).universe == old(self).universe,
            final(self).lib_region == old(self).lib_region,
            final(self).depth_exceeded == old(self).depth_exceeded,
            forall|i: int|
                0 <= i < old(self).arena@.len() && i != at ==> final(self).arena@[i] == old(
                    self,
                ).arena@[i],
            forall|i: int|
                0 <= i < old(self).arena@.len() ==> (#[trigger] final(self).arena@[i]).decls@
                    == old(self).arena@[i].decls@,
            forall|j: int|
                0 <= j < old(self).arena@[from as int].visible@.len() ==> has_name(
                    final(self).arena@[at as int].visible@,
                    old(self).arena@[from as int].visible@[j].designator@,
                ),
            forall|n: Seq<u8>|
                has_name(old(self).arena@[at as int].visible@, n) ==> has_name(
                    final(self).arena@[at as int].visible@,
                    n,
                ),
    {
        let n = self.arena[from].visible.len();
        let mut copies: Vec<VisibleDeclaration> = Vec::new();
        let mut k: usize = 0;
        while k < n
            invariant
                k <= n,
                self.wf(),
                from < self.arena@.len(),
                n == self.arena@[from as int].visible@.len(),
                copies@.len() == k,
                forall|i: int| 0 <= i < k ==> (#[trigger] copies@[i]).wf(),
                forall|i: int|
                    0 <= i < k ==> (#[trigger] copies@[i]).designator@ == self.arena@[
                    from as int].visible@[i].designator@,
            decreases n - k,
        {
            let copy = dup_vd(&self.arena[from].visible[k]);
            proof {
                lemma_vd_eq_wf(copy, self.arena@[from as int].visible@[k as int]);
            }
            copies.push(copy);
            k = k + 1;
        }
        let m = copies.len();
        let mut j: usize = 0;
        while j < m
            invariant
                j <= m,
                m == copies@.len(),
                m == old(self).arena@[from as int].visible@.len(),
                self.wf(),
                at < self.arena@.len(),
                self.arena@.len() == old(self).arena@.len(),
                self.std_region == old(self).std_region,
                self.universe == old(self).universe,
                self.lib_region == old(self).lib_region,
                self.depth_exceeded == old(self).depth_exceeded,
                forall|i: int| 0 <= i < copies@.len() ==> (#[trigger] copies@[i]).wf(),
                forall|i: int|
                    0 <= i < copies@.len() ==> (#[trigger] copies@[i]).designator@ == old(
                        self,
                    ).arena@[from as int].visible@[i].designator@,
                forall|i: int|
                    0 <= i < old(self).arena@.len() && i != at ==> self.arena@[i] == old(
                        self,
                    ).arena@[i],
                forall|i: int|
                    0 <= i < old(self).arena@.len() ==> (#[trigger] self.arena@[i]).decls@ == old(
                        self,
                    ).arena@[i].decls@,
                forall|i: int|
                    0 <= i < j ==> has_name(
                        self.arena@[at as int].visible@,
                        old(self).arena@[from as int].visible@[i].designator@,
                    ),
                forall|n2: Seq<u8>|
                    has_name(old(self).arena@[at as int].visible@, n2) ==> has_name(
                        self.arena@[at as int].visible@,
                        n2,
                    ),
            decreases m - j,
        {
            let item = dup_vd(&copies[j]);
            proof {
                lemma_vd_eq_wf(item, copies@[j as int]);
            }
            self.make_potentially_visible(at, item, 8);
            j = j + 1;
        }
    }

    /// Makes a library name potentially visible in the region at `at`.
    pub fn make_library_visible(&mut self, at: usize, name: &Designator, pos: Option<Pos>)
        requires
            old(self).wf(),
            at < old(self).arena@.len(),
        ensures
            final(self).wf(),
            final(self).arena@.len() == old(self).arena@.len(),
            final(self).std_region == old(self).std_region,
            final(self).universe == old(self).universe,
            final(self).lib_region == old(self).lib_region,
            final(self).depth_exceeded == old(self).depth_exceeded,
            final(self).diags@ == old(self).diags@,
            final(self).refs == old(self).refs,
            forall|i: int|
                0 <= i < old(self).arena@.len() && i != at ==> final(self).arena@[i] == old(
                    self,
                ).arena@[i],
            forall|i: int|
                0 <= i < old(self).arena@.len() ==> (#[trigger] final(self).arena@[i]).decls@
                    == old(self).arena@[i].decls@,
            has_name(final(self).arena@[at as int].visible@, name@),
    {
        let mut data: Vec<AnyDeclarationData> = Vec::new();
        data.push(
            AnyDeclarationData {
                decl_pos: pos,
                decl: AnyDeclaration::Library(name.dup()),
                typ: None,
                sig: None,
            },
        );
        let vd = VisibleDeclaration { designator: name.dup(), data };
        proof {
            assert(vd.wf());
        }
        self.make_potentially_visible(at, vd, 8);
    }
}


impl Analyzer {
    /// Reports an unresolved name.
    fn no_declaration_of(&mut self, pos: Pos, name: &Designator)
        requires
            old(self).wf(),
        ensures
            final(self).wf(),
            final(self).arena@ == old(self).arena@,
            final(self).std_region == old(self).std_region,
            final(self).universe == old(self).universe,
            final(self).lib_region == old(self).lib_region,
            final(self).refs == old(self).refs,
            final(self).diags@.len() == old(self).diags@.len() + 1,
            old(self).diags@.is_prefix_of(final(self).diags@),
            final(self).diags@.last().code == DiagCode::NoDeclaration,
            final(self).diags@.last().pos == pos,
            final(self).diags@.last().severity == Severity::Error,
            final(self).diags@.last().message@ == "No declaration of '".spec_bytes() + name@
                + "'".spec_bytes(),
            final(self).diags@.last().related@.len() == 0,
    {
        push_named_diag(
            &mut self.diags,
            Severity::Error,
            pos,
            DiagCode::NoDeclaration,
            "No declaration of '",
            name,
            "'",
        );
    }

    /// Reports an unresolved suffix within a record or protected type.
    fn no_declaration_within(
        &mut self,
        pos: Pos,
        name: &Designator,
        type_word: &str,
        tname: &Designator,
    )
        requires
            old(self).wf(),
        ensures
            final(self).wf(),
            final(self).arena@ == old(self).arena@,
            final(self).std_region == old(self).std_region,
            final(self).universe == old(self).universe,
            final(self).lib_region == old(self).lib_region,
            final(self).refs == old(self).refs,
            final(self).diags@.len() == old(self).diags@.len() + 1,
            old(self).diags@.is_prefix_of(final(self).diags@),
            final(self).diags@.last().code == DiagCode::NoDeclaration,
            final(self).diags@.last().pos == pos,
            final(self).diags@.last().severity == Severity::Error,
            final(self).diags@.last().message@ == "No declaration of '".spec_bytes() + name@
                + "' within ".spec_bytes() + type_word.spec_bytes() + " type '".spec_bytes()
                + tname@ + "'".spec_bytes(),
    {
        let mut message: Vec<u8> = Vec::new();
        push_str_bytes(&mut message, "No declaration of '");
        push_bytes(&mut message, &name.name);
        push_str_bytes(&mut message, "' within ");
        push_str_bytes(&mut message, type_word);
        push_str_bytes(&mut message, " type '");
        push_bytes(&mut message, &tname.name);
        push_str_bytes(&mut message, "'");
        let d = Diagnostic {
            severity: Severity::Error,
            pos,
            code: DiagCode::NoDeclaration,
            message,
            related: Vec::new(),
        };
        self.diags.push(d);
    }

    /// What a resolved declaration denotes: the entry's recorded object
    /// type when one was noted, else what its kind carries.  An incomplete
    /// type completed later in its bucket answers with the completion.
    fn entry_info(&self, ri: usize, di: usize, declared: bool) -> (r: Info)
        requires
            self.wf(),
            ri < self.arena@.len(),
            declared ==> di < self.arena@[ri as int].decls@.len(),
            !declared ==> di < self.arena@[ri as int].visible@.len(),
    {
        let entry = if declared {
            &self.arena[ri].decls[di]
        } else {
            &self.arena[ri].visible[di]
        };
        let n = entry.data.len();
        let mut chosen: usize = 0;
        let mut j: usize = 0;
        while j < n
            invariant
                j <= n,
                n == entry.data@.len(),
                chosen == 0 || chosen < n,
            decreases n - j,
        {
            let is_type = match &entry.data[j].decl {
                AnyDeclaration::TypeDeclaration(..) => true,
                _ => false,
            };
            if is_type {
                chosen = j;
                break;
            }
            j = j + 1;
        }
        if chosen >= entry.data.len() {
            return Info::NoInfo;
        }
        let dd = &entry.data[chosen];
        if let Some(t) = &dd.typ {
            return Info::TypedInfo(dup_detail(t));
        }
        self.info_of_decl(&dd.decl, &entry.designator, 8)
    }

    /// What a declaration kind denotes, seen through aliases.
    fn info_of_decl(&self, d: &AnyDeclaration, desig: &Designator, fuel: u64) -> (r: Info)
        decreases fuel,
    {
        self.info_of_decl_inner(d, desig, false, fuel)
    }

    /// As `info_of_decl`; `aliased` remembers that an alias was crossed, so
    /// that a structureless type is reported in its alias form.
    fn info_of_decl_inner(
        &self,
        d: &AnyDeclaration,
        desig: &Designator,
        aliased: bool,
        fuel: u64,
    ) -> (r: Info)
        decreases fuel,
    {
        if fuel == 0 {
            return Info::NoInfo;
        }
        match d {
            AnyDeclaration::AliasOf(inner) => self.info_of_decl_inner(inner, desig, true, fuel - 1),
            AnyDeclaration::TypedObject(t) => Info::TypedInfo(dup_detail(t)),
            AnyDeclaration::TypeDeclaration(td) => {
                let detail = match &td.detail {
                    TypeDetail::Plain => {
                        let form = if aliased {
                            DeclForm::FormAlias
                        } else {
                            td.form
                        };
                        TypeDetail::Named(desig.dup(), form, td.kind)
                    },
                    other => dup_detail(other),
                };
                Info::TypeNameInfo(detail)
            },
            AnyDeclaration::ProtectedType(r2) => Info::TypeNameInfo(
                TypeDetail::Protected(*r2, desig.dup()),
            ),
            AnyDeclaration::Package(_, r2) => Info::ScopeInfo(*r2),
            AnyDeclaration::UninstPackage(_, r2) => Info::ScopeInfo(*r2),
            AnyDeclaration::PackageInstance(_, r2) => Info::ScopeInfo(*r2),
            AnyDeclaration::Context(_, r2) => Info::ScopeInfo(*r2),
            AnyDeclaration::LocalPackageInstance(_, r2) => Info::ScopeInfo(*r2),
            AnyDeclaration::Entity(_, r2) => Info::ScopeInfo(*r2),
            AnyDeclaration::Configuration(_, r2) => Info::ScopeInfo(*r2),
            AnyDeclaration::Library(_) => Info::ScopeInfo(self.lib_region),
            _ => Info::NoInfo,
        }
    }

    /// Resolves a simple name from within a region and writes its reference
    /// slot.  Reference soundness holds by contract: a written slot is
    /// exactly the primary declaration position of a found bucket whose
    /// designator equals the occurrence's designator, the slot is cleared
    /// when that bucket is overloadable, and an unresolved name is reported
    /// and writes no slot.
    pub fn lookup_and_ref(&mut self, scope: usize, id: &Ident) -> (r: Option<(usize, usize, bool)>)
        requires
            old(self).wf(),
            scope < old(self).arena@.len(),
        ensures
            final(self).wf(),
            final(self).arena@ == old(self).arena@,
            final(self).std_region == old(self).std_region,
            final(self).universe == old(self).universe,
            final(self).lib_region == old(self).lib_region,
            match r {
                Some((ri, di, declared)) => {
                    let entry = if declared {
                        final(self).arena@[ri as int].decls@[di as int]
                    } else {
                        final(self).arena@[ri as int].visible@[di as int]
                    };
                    &&& ri < final(self).arena@.len()
                    &&& (declared ==> di < final(self).arena@[ri as int].decls@.len())
                    &&& (!declared ==> di < final(self).arena@[ri as int].visible@.len())
                    &&& entry.designator@ == id.name@
                    &&& crate::region::within_model(final(self).arena@, scope as int, id.name@)
                        == Some(entry)
                    &&& final(self).refs.entries@ == old(self).refs.entries@.push(
                        crate::reference::RefEntry {
                            occ: id.pos,
                            target: if entry.data@[0].decl is Overloaded {
                                None
                            } else {
                                entry.data@[0].decl_pos
                            },
                        },
                    )
                },
                None => {
                    &&& !crate::region::within_has(
                        old(self).arena@,
                        scope as int,
                        id.name@,
                    )
                    &&& final(self).refs == old(self).refs
                    &&& final(self).diags@.len() == old(self).diags@.len() + 1
                    &&& old(self).diags@.is_prefix_of(final(self).diags@)
                    &&& final(self).diags@.last().code == DiagCode::NoDeclaration
                    &&& final(self).diags@.last().pos == id.pos
                    &&& final(self).diags@.last().severity == Severity::Error
                    &&& final(self).diags@.last().message@ == "No declaration of '".spec_bytes()
                        + id.name@ + "'".spec_bytes()
                },
            },
            r is Some ==> final(self).diags@ == old(self).diags@,
    {
        let found = lookup_within(&self.arena, scope, &id.name);
        match found {
            Some((ri, di, declared)) => {
                if declared {
                    let entry = &self.arena[ri].decls[di];
                    self.refs.set_reference(id.pos, entry);
                } else {
                    let entry = &self.arena[ri].visible[di];
                    self.refs.set_reference(id.pos, entry);
                }
                Some((ri, di, declared))
            },
            None => {
                self.no_declaration_of(id.pos, &id.name);
                None
            },
        }
    }

    /// Resolves the suffix of a selected name against the type of its
    /// prefix: record element lookup, protected method lookup, and the
    /// implicit dereference of an access type.
    fn resolve_field(&mut self, det: &TypeDetail, id: &Ident, fuel: u64) -> (r: Option<Info>)
        requires
            old(self).wf(),
        ensures
            final(self).wf(),
            final(self).arena@ == old(self).arena@,
            final(self).std_region == old(self).std_region,
            final(self).universe == old(self).universe,
            final(self).lib_region == old(self).lib_region,
            ({
                let a = old(self).arena@;
                det matches TypeDetail::Record(reg, tname) ==> (reg as int) < a.len() ==> {
                    if has_name(a[reg as int].decls@, id.name@) {
                        &&& final(self).diags@ == old(self).diags@
                        &&& (crate::region::entry_of(a[reg as int].decls@, id.name@)
                            matches Some(en) && final(self).refs.entries@ == old(
                            self,
                        ).refs.entries@.push(
                            crate::reference::RefEntry {
                                occ: id.pos,
                                target: if en.data@[0].decl is Overloaded {
                                    None
                                } else {
                                    en.data@[0].decl_pos
                                },
                            },
                        ))
                    } else {
                        &&& final(self).refs == old(self).refs
                        &&& final(self).diags@.len() == old(self).diags@.len() + 1
                        &&& old(self).diags@.is_prefix_of(final(self).diags@)
                        &&& final(self).diags@.last().code == DiagCode::NoDeclaration
                        &&& final(self).diags@.last().pos == id.pos
                        &&& final(self).diags@.last().severity == Severity::Error
                        &&& final(self).diags@.last().message@ == "No declaration of '".spec_bytes()
                            + id.name@ + "' within ".spec_bytes() + "record".spec_bytes()
                            + " type '".spec_bytes() + tname@ + "'".spec_bytes()
                    }
                }
            }),
            ({
                let a = old(self).arena@;
                det matches TypeDetail::Protected(reg, tname) ==> (reg as int) < a.len() ==> {
                    if has_name(a[reg as int].decls@, id.name@) {
                        &&& final(self).diags@ == old(self).diags@
                        &&& (crate::region::entry_of(a[reg as int].decls@, id.name@)
                            matches Some(en) && final(self).refs.entries@ == old(
                            self,
                        ).refs.entries@.push(
                            crate::reference::RefEntry {
                                occ: id.pos,
                                target: if en.data@[0].decl is Overloaded {
                                    None
                                } else {
                                    en.data@[0].decl_pos
                                },
                            },
                        ))
                    } else {
                        &&& final(self).refs == old(self).refs
                        &&& final(self).diags@.len() == old(self).diags@.len() + 1
                        &&& old(self).diags@.is_prefix_of(final(self).diags@)
                        &&& final(self).diags@.last().code == DiagCode::NoDeclaration
                        &&& final(self).diags@.last().pos == id.pos
                        &&& final(self).diags@.last().severity == Severity::Error
                        &&& final(self).diags@.last().message@ == "No declaration of '".spec_bytes()
                            + id.name@ + "' within ".spec_bytes() + "protected".spec_bytes()
                            + " type '".spec_bytes() + tname@ + "'".spec_bytes()
                    }
                }
            }),
        decreases fuel,
    {
        match det {
            TypeDetail::Record(reg, tname) => {
                if *reg < self.arena.len() {
                    match find_entry(&self.arena[*reg].decls, &id.name) {
                        Some(i) => {
                            proof {
                                crate::region::lemma_entry_of(
                                    self.arena@[*reg as int].decls@,
                                    id.name@,
                                    i as int,
                                );
                            }
                            let entry = &self.arena[*reg].decls[i];
                            self.refs.set_reference(id.pos, entry);
                            Some(self.entry_info(*reg, i, true))
                        },
                        None => {
                            self.no_declaration_within(id.pos, &id.name, "record", tname);
                            None
                        },
                    }
                } else {
                    None
                }
            },
            TypeDetail::Protected(reg, tname) => {
                if *reg < self.arena.len() {
                    match find_entry(&self.arena[*reg].decls, &id.name) {
                        Some(i) => {
                            proof {
                                crate::region::lemma_entry_of(
                                    self.arena@[*reg as int].decls@,
                                    id.name@,
                                    i as int,
                                );
                            }
                            let entry = &self.arena[*reg].decls[i];
                            self.refs.set_reference(id.pos, entry);
                            Some(self.entry_info(*reg, i, true))
                        },
                        None => {
                            self.no_declaration_within(id.pos, &id.name, "protected", tname);
                            None
                        },
                    }
                } else {
                    None
                }
            },
            TypeDetail::Access(reg, mark) => {
                if fuel == 0 {
                    self.depth_exceeded = true;
                    return None;
                }
                if *reg < self.arena.len() {
                    match lookup_within(&self.arena, *reg, mark) {
                        Some((ri, di, declared)) => {
                            let target_info = self.entry_info(ri, di, declared);
                            match target_info {
                                Info::TypedInfo(inner) => self.resolve_field(&inner, id, fuel - 1),
                                Info::TypeNameInfo(inner) => self.resolve_field(
                                    &inner,
                                    id,
                                    fuel - 1,
                                ),
                                _ => None,
                            }
                        },
                        None => None,
                    }
                } else {
                    None
                }
            },
            _ => None,
        }
    }

    /// The legality check of an indexed or sliced name: an object of a
    /// structureless type can be neither indexed nor sliced, and the
    /// diagnostic names the type and its declaration form.
    fn check_indexability(&mut self, info: &Info, assocs: &Vec<Association>, prefix: &Name)
        requires
            old(self).wf(),
        ensures
            final(self).wf(),
            final(self).arena@ == old(self).arena@,
            final(self).std_region == old(self).std_region,
            final(self).universe == old(self).universe,
            final(self).lib_region == old(self).lib_region,
            final(self).refs == old(self).refs,
            ({
                info matches Info::TypedInfo(det) ==> (det matches TypeDetail::Named(
                    tname,
                    form,
                    tkind,
                ) ==> (prefix matches Name::Simple(pid) ==> {
                    if any_plain_range(assocs@) || positional_shape(assocs@) {
                        &&& final(self).diags@.len() == old(self).diags@.len() + 1
                        &&& old(self).diags@.is_prefix_of(final(self).diags@)
                        &&& final(self).diags@.last().code == DiagCode::NoDeclaration
                        &&& final(self).diags@.last().pos == pid.pos
                        &&& final(self).diags@.last().severity == Severity::Error
                    } else {
                        final(self).diags@ == old(self).diags@
                    }
                }))
            }),
            !(info matches Info::TypedInfo(d2)) ==> final(self).diags@ == old(self).diags@,
            info matches Info::TypedInfo(d2) ==> (!(d2 matches TypeDetail::Named(a2, b2, c2))
                ==> final(self).diags@ == old(self).diags@),
    {
        let (tname, form, tkind): (&Designator, DeclForm, TypeKind) = match info {
            Info::TypedInfo(TypeDetail::Named(n, f, k)) => (n, *f, *k),
            _ => {
                return;
            },
        };
        let ppos: Pos = match prefix {
            Name::Simple(id) => id.pos,
            Name::Selected(_, id) => id.pos,
            _ => {
                return;
            },
        };
        let n = assocs.len();
        let mut any_range = false;
        let mut all_plain = n > 0;
        let mut i: usize = 0;
        while i < n
            invariant
                i <= n,
                n == assocs@.len(),
                any_range == (exists|j: int|
                    0 <= j < i && (#[trigger] assocs@[j]).formal is None && assocs@[j].actual
                        is ActualRange),
                all_plain == (n > 0 && forall|j: int|
                    0 <= j < i ==> (#[trigger] assocs@[j]).formal is None && !(assocs@[j].actual
                        is ActualOpen)),
            decreases n - i,
        {
            match (&assocs[i].formal, &assocs[i].actual) {
                (Option::None, ActualPart::ActualRange(_)) => {
                    any_range = true;
                },
                (Option::None, ActualPart::ActualExpr(_)) => {},
                _ => {
                    all_plain = false;
                },
            }
            i = i + 1;
        }
        proof {
            assert(any_range == any_plain_range(assocs@));
            assert(all_plain == positional_shape(assocs@));
        }
        if !any_range && !all_plain {
            return;
        }
        let mut message: Vec<u8> = Vec::new();
        push_form_word(&mut message, form, tkind);
        push_upper(&mut message, tname);
        if any_range {
            push_str_bytes(&mut message, "' cannot be sliced");
        } else {
            push_str_bytes(&mut message, "' cannot be indexed");
        }
        let d = Diagnostic {
            severity: Severity::Error,
            pos: ppos,
            code: DiagCode::NoDeclaration,
            message,
            related: Vec::new(),
        };
        self.diags.push(d);
    }

    /// The dimension check of an indexed name: when the prefix is an array
    /// object and every association is a plain positional expression, the
    /// index count must match the array's dimensionality.
    fn check_index_count(
        &mut self,
        info: &Info,
        assocs: &Vec<Association>,
        pos: Pos,
    )
        requires
            old(self).wf(),
        ensures
            final(self).wf(),
            final(self).arena@ == old(self).arena@,
            final(self).std_region == old(self).std_region,
            final(self).universe == old(self).universe,
            final(self).lib_region == old(self).lib_region,
            final(self).refs == old(self).refs,
            ({
                info matches Info::TypedInfo(det) ==> (det matches TypeDetail::Array(
                    dims,
                    tname,
                    tpos,
                ) ==> {
                    if all_plain_exprs(assocs@) && assocs@.len() != dims {
                        &&& final(self).diags@.len() == old(self).diags@.len() + 1
                        &&& old(self).diags@.is_prefix_of(final(self).diags@)
                        &&& final(self).diags@.last().code == DiagCode::DimensionMismatch
                        &&& final(self).diags@.last().pos == pos
                        &&& final(self).diags@.last().severity == Severity::Error
                        &&& final(self).diags@.last().message@
                            == "Number of indexes does not match array dimension".spec_bytes()
                        &&& (tpos matches Some(tp) ==> final(self).diags@.last().related@.len()
                            == 1 && final(self).diags@.last().related@[0].pos == tp)
                        &&& tpos is None ==> final(self).diags@.last().related@.len() == 0
                    } else {
                        final(self).diags@ == old(self).diags@
                    }
                })
            }),
            !(info matches Info::TypedInfo(d2)) ==> final(self).diags@ == old(self).diags@,
            info matches Info::TypedInfo(d2) ==> (!(d2 matches TypeDetail::Array(a2, b2, c2))
                ==> final(self).diags@ == old(self).diags@),
    {
        let (dims, tname, tpos): (usize, &Designator, Option<Pos>) = match info {
            Info::TypedInfo(TypeDetail::Array(d, n, p)) => (*d, n, *p),
            _ => {
                return;
            },
        };
        let n = assocs.len();
        let mut all_exprs = true;
        let mut i: usize = 0;
        while i < n
            invariant
                i <= n,
                n == assocs@.len(),
                all_exprs == (forall|j: int|
                    0 <= j < i ==> (#[trigger] assocs@[j]).formal is None && assocs@[j].actual
                        is ActualExpr),
            decreases n - i,
        {
            let plain = match (&assocs[i].formal, &assocs[i].actual) {
                (Option::None, ActualPart::ActualExpr(_)) => true,
                _ => false,
            };
            if !plain {
                all_exprs = false;
            }
            i = i + 1;
        }
        proof {
            assert(all_exprs == all_plain_exprs(assocs@));
        }
        if all_exprs && n != dims {
            let mut d = Diagnostic::error(pos, "Number of indexes does not match array dimension");
            d.code = DiagCode::DimensionMismatch;
            if let Some(tp) = tpos {
                let mut note: Vec<u8> = Vec::new();
                push_str_bytes(&mut note, "Array type '");
                push_bytes(&mut note, &tname.name);
                push_str_bytes(&mut note, "' has ");
                push_usize(&mut note, dims);
                if dims == 1 {
                    push_str_bytes(&mut note, " dimension, got ");
                } else {
                    push_str_bytes(&mut note, " dimensions, got ");
                }
                push_usize(&mut note, n);
                if n == 1 {
                    push_str_bytes(&mut note, " index");
                } else {
                    push_str_bytes(&mut note, " indexes");
                }
                d.related.push(Related { pos: tp, message: note });
            }
            self.diags.push(d);
        }
    }

    /// Resolves a name expression, writing a reference slot for every
    /// designator occurrence in it, and returns what the name denotes.
    pub fn resolve_name(&mut self, scope: usize, n: &Name, fuel: u64) -> (r: Option<Info>)
        requires
            old(self).wf(),
            scope < old(self).arena@.len(),
        ensures
            final(self).wf(),
            final(self).arena@ == old(self).arena@,
            final(self).std_region == old(self).std_region,
            final(self).universe == old(self).universe,
            final(self).lib_region == old(self).lib_region,
            n matches Name::Simple(id) ==> {
                if crate::region::within_has(old(self).arena@, scope as int, id.name@) {
                    &&& final(self).diags@ == old(self).diags@
                    &&& (crate::region::within_model(old(self).arena@, scope as int, id.name@)
                        matches Some(entry) && final(self).refs.entries@ == old(
                        self,
                    ).refs.entries@.push(
                        crate::reference::RefEntry {
                            occ: id.pos,
                            target: if entry.data@[0].decl is Overloaded {
                                None
                            } else {
                                entry.data@[0].decl_pos
                            },
                        },
                    ))
                } else {
                    &&& final(self).refs == old(self).refs
                    &&& final(self).diags@.len() == old(self).diags@.len() + 1
                    &&& old(self).diags@.is_prefix_of(final(self).diags@)
                    &&& final(self).diags@.last().code == DiagCode::NoDeclaration
                    &&& final(self).diags@.last().pos == id.pos
                    &&& final(self).diags@.last().severity == Severity::Error
                    &&& final(self).diags@.last().message@ == "No declaration of '".spec_bytes()
                        + id.name@ + "'".spec_bytes()
                }
            },
        decreases fuel,
    {
        if let Name::Simple(id) = n {
            // a simple name needs no recursion, so it resolves regardless
            // of the remaining depth budget
            return match self.lookup_and_ref(scope, id) {
                Some((ri, di, declared)) => Some(self.entry_info(ri, di, declared)),
                None => None,
            };
        }
        if fuel == 0 {
            self.depth_exceeded = true;
            return None;
        }
        match n {
            Name::Simple(id) => {
                match self.lookup_and_ref(scope, id) {
                    Some((ri, di, declared)) => Some(self.entry_info(ri, di, declared)),
                    None => None,
                }
            },
            Name::Selected(prefix, id) => {
                let pinfo = self.resolve_name(scope, prefix, fuel - 1);
                match pinfo {
                    Some(Info::ScopeInfo(reg)) => {
                        if reg < self.arena.len() {
                            match lookup_selected(&self.arena, reg, &id.name) {
                                Some((ri, di)) => {
                                    let entry = &self.arena[ri].decls[di];
                                    self.refs.set_reference(id.pos, entry);
                                    Some(self.entry_info(ri, di, true))
                                },
                                None => {
                                    self.no_declaration_of(id.pos, &id.name);
                                    None
                                },
                            }
                        } else {
                            None
                        }
                    },
                    Some(Info::TypedInfo(det)) => self.resolve_field(&det, id, fuel - 1),
                    Some(Info::TypeNameInfo(_)) => None,
                    Some(Info::NoInfo) => None,
                    None => None,
                }
            },
            Name::SelectedAll(prefix, _) => {
                let _ = self.resolve_name(scope, prefix, fuel - 1);
                Some(Info::NoInfo)
            },
            Name::Call(prefix, assocs, pos) => {
                let pinfo = self.resolve_name(scope, prefix, fuel - 1);
                // a call with named associations cannot apply to an object:
                // a named association selects a formal parameter
                let mut named = false;
                let mm = assocs.len();
                let mut mi: usize = 0;
                while mi < mm
                    invariant
                        mi <= mm,
                        mm == assocs@.len(),
                    decreases mm - mi,
                {
                    if assocs[mi].formal.is_some() {
                        named = true;
                    }
                    mi = mi + 1;
                }
                if named {
                    match &**prefix {
                        Name::Simple(id) => {
                            let mut is_constant = false;
                            match lookup_within(&self.arena, scope, &id.name) {
                                Some((ri, di, declared)) => {
                                    let entry = if declared {
                                        &self.arena[ri].decls[di]
                                    } else {
                                        &self.arena[ri].visible[di]
                                    };
                                    match entry.first() {
                                        AnyDeclaration::Constant => {
                                            is_constant = true;
                                        },
                                        AnyDeclaration::DeferredConstant => {
                                            is_constant = true;
                                        },
                                        _ => {},
                                    }
                                },
                                None => {},
                            }
                            if is_constant {
                                let mut message: Vec<u8> = Vec::new();
                                push_str_bytes(&mut message, "constant '");
                                push_bytes(&mut message, &id.name.name);
                                push_str_bytes(
                                    &mut message,
                                    "' cannot be the prefix of a function call",
                                );
                                let d = Diagnostic {
                                    severity: Severity::Error,
                                    pos: id.pos,
                                    code: DiagCode::NoDeclaration,
                                    message,
                                    related: Vec::new(),
                                };
                                self.diags.push(d);
                            }
                        },
                        _ => {},
                    }
                }
                let m = assocs.len();
                let mut i: usize = 0;
                while i < m
                    invariant
                        fuel >= 1,
                        m == assocs@.len(),
                        self.wf(),
                        scope < self.arena@.len(),
                        self.arena@ == old(self).arena@,
                        self.std_region == old(self).std_region,
                        self.universe == old(self).universe,
                        self.lib_region == old(self).lib_region,
                    decreases m - i,
                {
                    match &assocs[i].actual {
                        ActualPart::ActualExpr(e) => {
                            self.resolve_expr(scope, e, fuel - 1);
                        },
                        ActualPart::ActualRange(r2) => {
                            self.resolve_range(scope, r2, fuel - 1);
                        },
                        ActualPart::ActualOpen => {},
                    }
                    i = i + 1;
                }
                match &pinfo {
                    Some(info) => {
                        self.check_index_count(info, assocs, *pos);
                        self.check_indexability(info, assocs, prefix);
                    },
                    None => {},
                }
                Some(Info::NoInfo)
            },
            Name::Attr(prefix, _, _) => {
                let _ = self.resolve_name(scope, prefix, fuel - 1);
                Some(Info::NoInfo)
            },
            Name::External(_, mark) => {
                let _ = self.resolve_name(scope, mark, fuel - 1);
                Some(Info::NoInfo)
            },
        }
    }

    /// Resolves every name occurrence of an expression.
    pub fn resolve_expr(&mut self, scope: usize, e: &Expr, fuel: u64)
        requires
            old(self).wf(),
            scope < old(self).arena@.len(),
        ensures
            final(self).wf(),
            final(self).arena@ == old(self).arena@,
            final(self).std_region == old(self).std_region,
            final(self).universe == old(self).universe,
            final(self).lib_region == old(self).lib_region,
        decreases fuel,
    {
        if fuel == 0 {
            self.depth_exceeded = true;
            return;
        }
        match e {
            Expr::Binary(a, b) => {
                self.resolve_expr(scope, a, fuel - 1);
                self.resolve_expr(scope, b, fuel - 1);
            },
            Expr::Unary(a) => {
                self.resolve_expr(scope, a, fuel - 1);
            },
            Expr::NameExpr(n) => {
                let _ = self.resolve_name(scope, n, fuel - 1);
            },
            Expr::Physical(_, unit) => {
                let _ = self.resolve_name(scope, unit, fuel - 1);
            },
            Expr::Aggregate(elems, _) => {
                self.resolve_elems(scope, elems, fuel - 1);
            },
            Expr::Qualified(mark, inner) => {
                let _ = self.resolve_name(scope, mark, fuel - 1);
                self.resolve_expr(scope, inner, fuel - 1);
            },
            Expr::NewExpr(inner) => {
                self.resolve_expr(scope, inner, fuel - 1);
            },
            _ => {},
        }
    }

    /// Resolves the element associations of an aggregate.
    fn resolve_elems(&mut self, scope: usize, elems: &Vec<ElemAssoc>, fuel: u64)
        requires
            old(self).wf(),
            scope < old(self).arena@.len(),
        ensures
            final(self).wf(),
            final(self).arena@ == old(self).arena@,
            final(self).std_region == old(self).std_region,
            final(self).universe == old(self).universe,
            final(self).lib_region == old(self).lib_region,
        decreases fuel,
    {
        if fuel == 0 {
            self.depth_exceeded = true;
            return;
        }
        let n = elems.len();
        let mut i: usize = 0;
        while i < n
            invariant
                fuel >= 1,
                n == elems@.len(),
                self.wf(),
                scope < self.arena@.len(),
                self.arena@ == old(self).arena@,
                self.std_region == old(self).std_region,
                self.universe == old(self).universe,
                self.lib_region == old(self).lib_region,
            decreases n - i,
        {
            let m = elems[i].choices.len();
            let mut j: usize = 0;
            while j < m
                invariant
                    fuel >= 1,
                    i < elems@.len(),
                    m == elems@[i as int].choices@.len(),
                    self.wf(),
                    scope < self.arena@.len(),
                    self.arena@ == old(self).arena@,
                    self.std_region == old(self).std_region,
                    self.universe == old(self).universe,
                    self.lib_region == old(self).lib_region,
                decreases m - j,
            {
                // an aggregate choice that is a bare identifier names a
                // record element of the aggregate's type, which unqualified
                // lookup cannot see; every other choice resolves
                let skip = match &elems[i].choices[j] {
                    Choice::ChExpr(e) => match &**e {
                        Expr::NameExpr(n) => match &**n {
                            Name::Simple(_) => true,
                            _ => false,
                        },
                        _ => false,
                    },
                    _ => false,
                };
                if !skip {
                    self.resolve_choice(scope, &elems[i].choices[j], fuel - 1);
                }
                j = j + 1;
            }
            self.resolve_expr(scope, &elems[i].expr, fuel - 1);
            i = i + 1;
        }
    }

    /// Resolves one choice.
    fn resolve_choice(&mut self, scope: usize, c: &Choice, fuel: u64)
        requires
            old(self).wf(),
            scope < old(self).arena@.len(),
        ensures
            final(self).wf(),
            final(self).arena@ == old(self).arena@,
            final(self).std_region == old(self).std_region,
            final(self).universe == old(self).universe,
            final(self).lib_region == old(self).lib_region,
        decreases fuel,
    {
        if fuel == 0 {
            self.depth_exceeded = true;
            return;
        }
        match c {
            Choice::ChExpr(e) => {
                self.resolve_expr(scope, e, fuel - 1);
            },
            Choice::ChRange(r2) => {
                self.resolve_range(scope, r2, fuel - 1);
            },
            Choice::ChOthers => {},
        }
    }

    /// Resolves a range.
    pub fn resolve_range(&mut self, scope: usize, r2: &RangeExpr, fuel: u64)
        requires
            old(self).wf(),
            scope < old(self).arena@.len(),
        ensures
            final(self).wf(),
            final(self).arena@ == old(self).arena@,
            final(self).std_region == old(self).std_region,
            final(self).universe == old(self).universe,
            final(self).lib_region == old(self).lib_region,
        decreases fuel,
    {
        if fuel == 0 {
            self.depth_exceeded = true;
            return;
        }
        match r2 {
            RangeExpr::Span(a, b) => {
                self.resolve_expr(scope, a, fuel - 1);
                self.resolve_expr(scope, b, fuel - 1);
            },
            RangeExpr::Single(e) => {
                self.resolve_expr(scope, e, fuel - 1);
            },
            RangeExpr::BoxRange => {},
        }
    }

    /// Resolves a subtype indication and returns the structural detail of
    /// the named type, which object declarations record for later selected
    /// and indexed names.
    pub fn resolve_subtype_ind(&mut self, scope: usize, ind: &SubtypeInd, fuel: u64) -> (r:
        TypeDetail)
        requires
            old(self).wf(),
            scope < old(self).arena@.len(),
        ensures
            final(self).wf(),
            final(self).arena@ == old(self).arena@,
            final(self).std_region == old(self).std_region,
            final(self).universe == old(self).universe,
            final(self).lib_region == old(self).lib_region,
        decreases fuel,
    {
        if fuel == 0 {
            self.depth_exceeded = true;
            return TypeDetail::Plain;
        }
        let info = self.resolve_name(scope, &ind.mark, fuel - 1);
        if let Some(rc) = &ind.range_c {
            self.resolve_range(scope, rc, fuel - 1);
        }
        let n = ind.groups.len();
        let mut i: usize = 0;
        while i < n
            invariant
                fuel >= 1,
                n == ind.groups@.len(),
                self.wf(),
                scope < self.arena@.len(),
                self.arena@ == old(self).arena@,
                self.std_region == old(self).std_region,
                self.universe == old(self).universe,
                self.lib_region == old(self).lib_region,
            decreases n - i,
        {
            let m = ind.groups[i].items.len();
            let mut j: usize = 0;
            while j < m
                invariant
                    fuel >= 1,
                    i < ind.groups@.len(),
                    m == ind.groups@[i as int].items@.len(),
                    self.wf(),
                    scope < self.arena@.len(),
                    self.arena@ == old(self).arena@,
                    self.std_region == old(self).std_region,
                    self.universe == old(self).universe,
                    self.lib_region == old(self).lib_region,
                decreases m - j,
            {
                match &ind.groups[i].items[j] {
                    ConstraintItem::ItemRange(r2) => {
                        self.resolve_range(scope, r2, fuel - 1);
                    },
                    ConstraintItem::ItemOpen => {},
                    ConstraintItem::ItemElem(_, ranges) => {
                        let p = ranges.len();
                        let mut k: usize = 0;
                        while k < p
                            invariant
                                fuel >= 1,
                                i < ind.groups@.len(),
                                j < ind.groups@[i as int].items@.len(),
                                ind.groups@[i as int].items@[j as int] matches
                                    ConstraintItem::ItemElem(_, rs) && p == rs@.len(),
                                self.wf(),
                                scope < self.arena@.len(),
                                self.arena@ == old(self).arena@,
                                self.std_region == old(self).std_region,
                                self.universe == old(self).universe,
                                self.lib_region == old(self).lib_region,
                            decreases p - k,
                        {
                            match &ind.groups[i].items[j] {
                                ConstraintItem::ItemElem(_, rs) => {
                                    self.resolve_range(scope, &rs[k], fuel - 1);
                                },
                                _ => {},
                            }
                            k = k + 1;
                        }
                    },
                    ConstraintItem::ItemExpr(e) => {
                        self.resolve_expr(scope, e, fuel - 1);
                    },
                }
                j = j + 1;
            }
            i = i + 1;
        }
        match info {
            Some(Info::TypedInfo(det)) => det,
            Some(Info::TypeNameInfo(det)) => det,
            _ => TypeDetail::Plain,
        }
    }
}


/// A designator spelled from a literal word.
pub fn des(s: &str) -> (d: Designator) {
    let mut v: Vec<u8> = Vec::new();
    push_str_bytes(&mut v, s);
    Designator::new(v)
}

impl Analyzer {
    /// Resolves the actual parts of a map aspect; formal names designate
    /// the instantiated interface and are not resolved here.
    fn resolve_assoc_actuals(&mut self, scope: usize, assocs: &Vec<Association>, fuel: u64)
        requires
            old(self).wf(),
            scope < old(self).arena@.len(),
        ensures
            final(self).wf(),
            final(self).arena@ == old(self).arena@,
            final(self).std_region == old(self).std_region,
            final(self).universe == old(self).universe,
            final(self).lib_region == old(self).lib_region,
        decreases fuel,
    {
        if fuel == 0 {
            self.depth_exceeded = true;
            return;
        }
        let n = assocs.len();
        let mut i: usize = 0;
        while i < n
            invariant
                fuel >= 1,
                n == assocs@.len(),
                self.wf(),
                scope < self.arena@.len(),
                self.arena@ == old(self).arena@,
                self.std_region == old(self).std_region,
                self.universe == old(self).universe,
                self.lib_region == old(self).lib_region,
            decreases n - i,
        {
            match &assocs[i].actual {
                ActualPart::ActualExpr(e) => {
                    self.resolve_expr(scope, e, fuel - 1);
                },
                ActualPart::ActualRange(r2) => {
                    self.resolve_range(scope, r2, fuel - 1);
                },
                ActualPart::ActualOpen => {},
            }
            i = i + 1;
        }
    }

    /// Declares the objects of an interface list and resolves their
    /// subtype indications and defaults.
    fn analyze_interface_list(&mut self, scope: usize, list: &Vec<InterfaceObject>, fuel: u64)
        requires
            old(self).wf(),
            scope < old(self).arena@.len(),
        ensures
            final(self).wf(),
            final(self).arena@.len() >= old(self).arena@.len(),
            final(self).std_region == old(self).std_region,
            final(self).universe == old(self).universe,
            final(self).lib_region == old(self).lib_region,
        decreases fuel,
    {
        if fuel == 0 {
            self.depth_exceeded = true;
            return;
        }
        let n = list.len();
        let mut i: usize = 0;
        while i < n
            invariant
                fuel >= 1,
                n == list@.len(),
                self.wf(),
                scope < self.arena@.len(),
                self.arena@.len() >= old(self).arena@.len(),
                self.std_region == old(self).std_region,
                self.universe == old(self).universe,
                self.lib_region == old(self).lib_region,
            decreases n - i,
        {
            let det = self.resolve_subtype_ind(scope, &list[i].ind, fuel - 1);
            let m = list[i].names.len();
            let mut j: usize = 0;
            while j < m
                invariant
                    fuel >= 1,
                    i < list@.len(),
                    m == list@[i as int].names@.len(),
                    self.wf(),
                    scope < self.arena@.len(),
                    self.arena@.len() >= old(self).arena@.len(),
                    self.std_region == old(self).std_region,
                    self.universe == old(self).universe,
                    self.lib_region == old(self).lib_region,
                decreases m - j,
            {
                let nm = &list[i].names[j];
                self.declare(
                    scope,
                    nm.name.dup(),
                    Some(nm.pos),
                    AnyDeclaration::Other,
                    Some(dup_detail(&det)),
                    None,
                );
                j = j + 1;
            }
            if let Some(e) = &list[i].default {
                self.resolve_expr(scope, e, fuel - 1);
            }
            i = i + 1;
        }
    }

    /// Applies one use-clause name: a name ending in `all` makes a whole
    /// region visible, any other resolved name becomes visible itself.
    fn analyze_use_name(&mut self, at: usize, n: &Name, fuel: u64)
        requires
            old(self).wf(),
            at < old(self).arena@.len(),
        ensures
            final(self).wf(),
            final(self).arena@.len() >= old(self).arena@.len(),
            final(self).std_region == old(self).std_region,
            final(self).universe == old(self).universe,
            final(self).lib_region == old(self).lib_region,
        decreases fuel,
    {
        if fuel == 0 {
            self.depth_exceeded = true;
            return;
        }
        match n {
            Name::SelectedAll(prefix, _) => {
                let info = self.resolve_name(at, prefix, fuel - 1);
                match info {
                    Some(Info::ScopeInfo(reg)) => {
                        if reg < self.arena.len() {
                            self.make_all_potentially_visible(at, reg, 8);
                        }
                    },
                    _ => {},
                }
            },
            Name::Selected(prefix, id) => {
                let info = self.resolve_name(at, prefix, fuel - 1);
                match info {
                    Some(Info::ScopeInfo(reg)) => {
                        if reg < self.arena.len() {
                            match lookup_selected(&self.arena, reg, &id.name) {
                                Some((ri, di)) => {
                                    let entry = &self.arena[ri].decls[di];
                                    self.refs.set_reference(id.pos, entry);
                                    let copy = dup_vd(&self.arena[ri].decls[di]);
                                    proof {
                                        lemma_vd_eq_wf(
                                            copy,
                                            self.arena@[ri as int].decls@[di as int],
                                        );
                                    }
                                    self.make_potentially_visible(at, copy, 8);
                                },
                                None => {
                                    self.no_declaration_of(id.pos, &id.name);
                                },
                            }
                        }
                    },
                    _ => {},
                }
            },
            Name::Simple(id) => {
                match self.lookup_and_ref(at, id) {
                    Some((ri, di, declared)) => {
                        let copy = if declared {
                            dup_vd(&self.arena[ri].decls[di])
                        } else {
                            dup_vd(&self.arena[ri].visible[di])
                        };
                        proof {
                            if declared {
                                lemma_vd_eq_wf(copy, self.arena@[ri as int].decls@[di as int]);
                            } else {
                                lemma_vd_eq_wf(copy, self.arena@[ri as int].visible@[di as int]);
                            }
                        }
                        self.make_potentially_visible(at, copy, 8);
                    },
                    None => {},
                }
            },
            _ => {
                let _ = self.resolve_name(at, n, fuel - 1);
            },
        }
    }

    /// Analyzes one object declaration.
    fn analyze_object_decl(
        &mut self,
        scope: usize,
        class: ObjectClass,
        names: &Vec<Ident>,
        ind: &SubtypeInd,
        init: &Option<Expr>,
        ext: Option<&Region>,
        fuel: u64,
    )
        requires
            old(self).wf(),
            scope < old(self).arena@.len(),
            match ext {
                Some(e) => e.wf(),
                None => true,
            },
        ensures
            final(self).wf(),
            final(self).arena@.len() >= old(self).arena@.len(),
            final(self).std_region == old(self).std_region,
            final(self).universe == old(self).universe,
            final(self).lib_region == old(self).lib_region,
        decreases fuel,
    {
        if fuel == 0 {
            self.depth_exceeded = true;
            return;
        }
        let det = self.resolve_subtype_ind(scope, ind, fuel - 1);
        let has_expression = match init {
            Some(e) => {
                let mut handled = false;
                match e {
                    Expr::NameExpr(n) => {
                        match &**n {
                            Name::Simple(id) => {
                                let expected = self.base_of_mark(scope, &ind.mark);
                                self.resolve_overloaded_init(scope, id, expected, ind);
                                handled = true;
                            },
                            _ => {},
                        }
                    },
                    _ => {},
                }
                if !handled {
                    self.resolve_expr(scope, e, fuel - 1);
                    self.check_literal_init(scope, ind, e);
                }
                true
            },
            None => false,
        };
        let n = names.len();
        let mut i: usize = 0;
        while i < n
            invariant
                n == names@.len(),
                self.wf(),
                scope < self.arena@.len(),
                self.arena@.len() >= old(self).arena@.len(),
                self.std_region == old(self).std_region,
                self.universe == old(self).universe,
                self.lib_region == old(self).lib_region,
                match ext {
                    Some(e) => e.wf(),
                    None => true,
                },
            decreases n - i,
        {
            let od = crate::decl::ObjectDeclaration { class, has_expression };
            let kind = AnyDeclaration::from_object_declaration(&od);
            let nm = &names[i];
            self.declare(
                scope,
                nm.name.dup(),
                Some(nm.pos),
                kind,
                Some(dup_detail(&det)),
                ext,
            );
            i = i + 1;
        }
    }

    /// Analyzes one type declaration.
    fn analyze_type_decl(
        &mut self,
        scope: usize,
        name: &Ident,
        def: &TypeDef,
        ext: Option<&Region>,
        fuel: u64,
    )
        requires
            old(self).wf(),
            scope < old(self).arena@.len(),
            match ext {
                Some(e) => e.wf(),
                None => true,
            },
        ensures
            final(self).wf(),
            final(self).arena@.len() >= old(self).arena@.len(),
            final(self).std_region == old(self).std_region,
            final(self).universe == old(self).universe,
            final(self).lib_region == old(self).lib_region,
        decreases fuel,
    {
        if fuel == 0 {
            self.depth_exceeded = true;
            return;
        }
        match def {
            TypeDef::Incomplete => {
                self.declare(
                    scope,
                    name.name.dup(),
                    Some(name.pos),
                    AnyDeclaration::IncompleteType,
                    None,
                    ext,
                );
            },
            TypeDef::IntegerDef(r2) => {
                self.resolve_range(scope, r2, fuel - 1);
                self.declare(
                    scope,
                    name.name.dup(),
                    Some(name.pos),
                    AnyDeclaration::TypeDeclaration(
                        TypeData {
                            implicit: None,
                            detail: TypeDetail::Plain,
                            base: Some(name.name.dup()),
                            form: DeclForm::FormType,
                            kind: TypeKind::IntegerKind,
                        },
                    ),
                    None,
                    ext,
                );
            },
            TypeDef::EnumDef(lits) => {
                let ir = self.new_region(Region::default());
                let n = lits.len();
                let mut i: usize = 0;
                while i < n
                    invariant
                        n == lits@.len(),
                        self.wf(),
                        scope < self.arena@.len(),
                        ir < self.arena@.len(),
                        self.arena@.len() >= old(self).arena@.len(),
                        self.std_region == old(self).std_region,
                        self.universe == old(self).universe,
                        self.lib_region == old(self).lib_region,
                        match ext {
                            Some(e) => e.wf(),
                            None => true,
                        },
                    decreases n - i,
                {
                    let lit = &lits[i];
                    self.declare_full(
                        ir,
                        lit.name.dup(),
                        Some(lit.pos),
                        AnyDeclaration::Overloaded,
                        None,
                        Some(SigInfo {
                            params: Vec::new(),
                            ret_mark: Some(name.name.dup()),
                            ret_base: Some(name.name.dup()),
                        }),
                        None,
                    );
                    self.declare_full(
                        scope,
                        lit.name.dup(),
                        Some(lit.pos),
                        AnyDeclaration::Overloaded,
                        None,
                        Some(SigInfo {
                            params: Vec::new(),
                            ret_mark: Some(name.name.dup()),
                            ret_base: Some(name.name.dup()),
                        }),
                        ext,
                    );
                    i = i + 1;
                }
                self.declare(
                    scope,
                    name.name.dup(),
                    Some(name.pos),
                    AnyDeclaration::TypeDeclaration(
                        TypeData {
                            implicit: Some(ir),
                            detail: TypeDetail::Plain,
                            base: Some(name.name.dup()),
                            form: DeclForm::FormType,
                            kind: TypeKind::EnumKind,
                        },
                    ),
                    None,
                    ext,
                );
            },
            TypeDef::ArrayDef(indexes, elem) => {
                let n = indexes.len();
                let mut i: usize = 0;
                while i < n
                    invariant
                        fuel >= 1,
                        n == indexes@.len(),
                        self.wf(),
                        scope < self.arena@.len(),
                        self.arena@.len() >= old(self).arena@.len(),
                        self.std_region == old(self).std_region,
                        self.universe == old(self).universe,
                        self.lib_region == old(self).lib_region,
                    decreases n - i,
                {
                    match &indexes[i] {
                        IndexDef::IdxRange(r2) => {
                            self.resolve_range(scope, r2, fuel - 1);
                        },
                        IndexDef::IdxMarkBox(m) => {
                            let _ = self.resolve_name(scope, m, fuel - 1);
                        },
                        IndexDef::IdxMarkRange(m, r2) => {
                            let _ = self.resolve_name(scope, m, fuel - 1);
                            self.resolve_range(scope, r2, fuel - 1);
                        },
                    }
                    i = i + 1;
                }
                let _ = self.resolve_subtype_ind(scope, elem, fuel - 1);
                self.declare(
                    scope,
                    name.name.dup(),
                    Some(name.pos),
                    AnyDeclaration::TypeDeclaration(
                        TypeData {
                            implicit: None,
                            detail: TypeDetail::Array(
                                indexes.len(),
                                name.name.dup(),
                                Some(name.pos),
                            ),
                            base: Some(name.name.dup()),
                            form: DeclForm::FormType,
                            kind: TypeKind::ArrayKind,
                        },
                    ),
                    None,
                    ext,
                );
            },
            TypeDef::RecordDef(fields) => {
                let fr = self.new_region(Region::default());
                let n = fields.len();
                let mut i: usize = 0;
                while i < n
                    invariant
                        fuel >= 1,
                        n == fields@.len(),
                        self.wf(),
                        scope < self.arena@.len(),
                        fr < self.arena@.len(),
                        self.arena@.len() >= old(self).arena@.len(),
                        self.std_region == old(self).std_region,
                        self.universe == old(self).universe,
                        self.lib_region == old(self).lib_region,
                    decreases n - i,
                {
                    let det = self.resolve_subtype_ind(scope, &fields[i].ind, fuel - 1);
                    let m = fields[i].names.len();
                    let mut j: usize = 0;
                    while j < m
                        invariant
                            i < fields@.len(),
                            m == fields@[i as int].names@.len(),
                            self.wf(),
                            scope < self.arena@.len(),
                            fr < self.arena@.len(),
                            self.arena@.len() >= old(self).arena@.len(),
                            self.std_region == old(self).std_region,
                            self.universe == old(self).universe,
                            self.lib_region == old(self).lib_region,
                        decreases m - j,
                    {
                        let nm = &fields[i].names[j];
                        self.declare(
                            fr,
                            nm.name.dup(),
                            Some(nm.pos),
                            AnyDeclaration::Other,
                            Some(dup_detail(&det)),
                            None,
                        );
                        j = j + 1;
                    }
                    i = i + 1;
                }
                self.declare(
                    scope,
                    name.name.dup(),
                    Some(name.pos),
                    AnyDeclaration::TypeDeclaration(
                        TypeData {
                            implicit: None,
                            detail: TypeDetail::Record(fr, name.name.dup()),
                            base: Some(name.name.dup()),
                            form: DeclForm::FormType,
                            kind: TypeKind::OtherKind,
                        },
                    ),
                    None,
                    ext,
                );
            },
            TypeDef::AccessDef(ind) => {
                let _ = self.resolve_subtype_ind(scope, ind, fuel - 1);
                let detail = match &ind.mark {
                    Name::Simple(id) => TypeDetail::Access(scope, id.name.dup()),
                    _ => TypeDetail::Plain,
                };
                self.declare(
                    scope,
                    name.name.dup(),
                    Some(name.pos),
                    AnyDeclaration::TypeDeclaration(
                        TypeData {
                            implicit: None,
                            detail,
                            base: Some(name.name.dup()),
                            form: DeclForm::FormType,
                            kind: TypeKind::AccessKind,
                        },
                    ),
                    None,
                    ext,
                );
            },
            TypeDef::FileDef(mark) => {
                let _ = self.resolve_name(scope, mark, fuel - 1);
                self.declare(
                    scope,
                    name.name.dup(),
                    Some(name.pos),
                    AnyDeclaration::TypeDeclaration(
                        TypeData {
                            implicit: None,
                            detail: TypeDetail::Plain,
                            base: Some(name.name.dup()),
                            form: DeclForm::FormType,
                            kind: TypeKind::OtherKind,
                        },
                    ),
                    None,
                    ext,
                );
            },
            TypeDef::ProtectedDef(decls) => {
                let mr = self.new_region(Region::nested(scope));
                self.analyze_declarations(mr, decls, None, fuel - 1);
                self.declare(
                    scope,
                    name.name.dup(),
                    Some(name.pos),
                    AnyDeclaration::ProtectedType(mr),
                    None,
                    ext,
                );
            },
            TypeDef::ProtectedBodyDef(decls) => {
                let mut method_region: Option<usize> = None;
                match find_entry(&self.arena[scope].decls, &name.name) {
                    Some(i) => {
                        let entry = &self.arena[scope].decls[i];
                        match entry.first() {
                            AnyDeclaration::ProtectedType(mr) => {
                                method_region = Some(*mr);
                            },
                            _ => {},
                        }
                    },
                    None => {},
                }
                match method_region {
                    Some(mr) => {
                        if mr < self.arena.len() {
                            let kindc = self.arena[mr].kind;
                            let br = self.new_region(
                                Region::extend(mr, kindc, Some(scope)),
                            );
                            self.analyze_declarations(br, decls, None, fuel - 1);
                        }
                    },
                    None => {},
                }
                self.declare(
                    scope,
                    name.name.dup(),
                    Some(name.pos),
                    AnyDeclaration::ProtectedTypeBody,
                    None,
                    ext,
                );
            },
        }
    }

    /// Analyzes one alias declaration, enforcing the signature rules: an
    /// alias of an overloadable name requires a signature, an alias of
    /// anything else must not carry one.
    fn analyze_alias(
        &mut self,
        scope: usize,
        name: &Ident,
        target: &Name,
        signature: &Option<crate::ast::Signature>,
        ext: Option<&Region>,
        fuel: u64,
    )
        requires
            old(self).wf(),
            scope < old(self).arena@.len(),
            match ext {
                Some(e) => e.wf(),
                None => true,
            },
        ensures
            final(self).wf(),
            final(self).arena@.len() >= old(self).arena@.len(),
            final(self).std_region == old(self).std_region,
            final(self).universe == old(self).universe,
            final(self).lib_region == old(self).lib_region,
            fuel >= 1 ==> (target matches Name::Simple(tid) ==> {
                let found = crate::region::within_model(old(self).arena@, scope as int, tid.name@);
                &&& (found matches Some(entry) ==> (entry.data@[0].decl is Overloaded
                    && signature is None ==> has_diag(
                    final(self).diags@,
                    DiagCode::SignatureRequired,
                    tid.pos,
                )))
                &&& (found matches Some(entry) ==> (!(entry.data@[0].decl is Overloaded) ==> (
                signature matches Some(sig) ==> has_diag(
                    final(self).diags@,
                    DiagCode::SignatureForbidden,
                    sig.pos,
                ))))
            }),
        decreases fuel,
    {
        if fuel == 0 {
            self.depth_exceeded = true;
            return;
        }
        let mut resolved = false;
        let mut overloaded = false;
        let mut alias_kind: AnyDeclaration = AnyDeclaration::Other;
        let mut typ: Option<TypeDetail> = None;
        let mut target_pos = name.pos;
        let mut found_at: Option<(usize, usize, bool, Pos)> = None;
        let ghost sig_model = match target {
            Name::Simple(tid) => crate::region::within_model(
                old(self).arena@,
                scope as int,
                tid.name@,
            ),
            _ => None,
        };
        match target {
            Name::Simple(id) => {
                target_pos = id.pos;
                match self.lookup_and_ref(scope, id) {
                    Some((ri, di, declared)) => {
                        resolved = true;
                        found_at = Some((ri, di, declared, id.pos));
                        proof {
                            assert(sig_model == Some(
                                if declared {
                                    self.arena@[ri as int].decls@[di as int]
                                } else {
                                    self.arena@[ri as int].visible@[di as int]
                                },
                            ));
                        }
                        let entry = if declared {
                            &self.arena[ri].decls[di]
                        } else {
                            &self.arena[ri].visible[di]
                        };
                        overloaded = entry.is_overloaded();
                        proof {
                            assert(overloaded == (sig_model->Some_0.data@[0].decl
                                is Overloaded));
                        }
                        // take over the target's kind and type note, so the
                        // alias behaves as its target
                        let n = entry.data.len();
                        let mut chosen: usize = 0;
                        let mut j: usize = 0;
                        while j < n
                            invariant
                                j <= n,
                                n == entry.data@.len(),
                                chosen == 0 || chosen < n,
                            decreases n - j,
                        {
                            let is_type = match &entry.data[j].decl {
                                AnyDeclaration::TypeDeclaration(..) => true,
                                _ => false,
                            };
                            if is_type {
                                chosen = j;
                                break;
                            }
                            j = j + 1;
                        }
                        if chosen < entry.data.len() {
                            alias_kind = AnyDeclaration::AliasOf(
                                Box::new(crate::decl::dup_decl(&entry.data[chosen].decl)),
                            );
                            typ = match &entry.data[chosen].typ {
                                Some(t) => Some(dup_detail(t)),
                                None => None,
                            };
                        }
                    },
                    None => {
                        proof {
                            assert(sig_model is None);
                        }
                    },
                }
            },
            _ => {
                let info = self.resolve_name(scope, target, fuel - 1);
                match info {
                    Some(Info::TypedInfo(det)) => {
                        resolved = true;
                        typ = Some(det);
                    },
                    Some(Info::TypeNameInfo(det)) => {
                        resolved = true;
                        typ = Some(det);
                    },
                    Some(_) => {
                        resolved = true;
                    },
                    None => {},
                }
            },
        }
        if let Some(sig) = signature {
            let n = sig.args.len();
            let mut i: usize = 0;
            while i < n
                invariant
                    fuel >= 1,
                    n == sig.args@.len(),
                    self.wf(),
                    scope < self.arena@.len(),
                    self.arena@.len() >= old(self).arena@.len(),
                    self.std_region == old(self).std_region,
                    self.universe == old(self).universe,
                    self.lib_region == old(self).lib_region,
                decreases n - i,
            {
                let _ = self.resolve_name(scope, &sig.args[i], fuel - 1);
                i = i + 1;
            }
            if let Some(ret) = &sig.ret {
                let _ = self.resolve_name(scope, ret, fuel - 1);
            }
            if overloaded {
                if let Some((ri, di, declared, tpos)) = found_at {
                    self.pick_overload_by_signature(scope, ri, di, declared, tpos, sig);
                }
            }
        }
        let kind = if overloaded {
            AnyDeclaration::Overloaded
        } else {
            alias_kind
        };
        self.declare(scope, name.name.dup(), Some(name.pos), kind, typ, ext);
        // the signature rules are checked last, so that their reports stand
        // whatever the marks and the insertion added before them
        if resolved && overloaded && signature.is_none() {
            let d = Diagnostic::error(
                target_pos,
                "Signature required for alias of subprogram and enum literals",
            );
            let d = Diagnostic { code: DiagCode::SignatureRequired, ..d };
            self.diags.push(d);
            proof {
                let w = self.diags@.len() - 1;
                assert(self.diags@[w].code == DiagCode::SignatureRequired);
                assert(self.diags@[w].pos == target_pos);
                assert(self.diags@[w].severity == Severity::Error);
                assert(has_diag(self.diags@, DiagCode::SignatureRequired, target_pos));
            }
        }
        if resolved && !overloaded {
            if let Some(sig) = signature {
                let d = Diagnostic::error(
                    sig.pos,
                    "Alias should only have a signature for subprograms and enum literals",
                );
                let d = Diagnostic { code: DiagCode::SignatureForbidden, ..d };
                self.diags.push(d);
                proof {
                    let w = self.diags@.len() - 1;
                    assert(self.diags@[w].code == DiagCode::SignatureForbidden);
                    assert(self.diags@[w].pos == sig.pos);
                    assert(self.diags@[w].severity == Severity::Error);
                    assert(has_diag(self.diags@, DiagCode::SignatureForbidden, sig.pos));
                }
            }
        }
    }

    /// Resolves an alias signature against the overload candidates of its
    /// target: the unique candidate whose parameter and return base types
    /// match the signature receives the reference.
    fn pick_overload_by_signature(
        &mut self,
        scope: usize,
        ri: usize,
        di: usize,
        declared: bool,
        tpos: Pos,
        sig: &crate::ast::Signature,
    )
        requires
            old(self).wf(),
            scope < old(self).arena@.len(),
        ensures
            final(self).wf(),
            final(self).arena@ == old(self).arena@,
            final(self).std_region == old(self).std_region,
            final(self).universe == old(self).universe,
            final(self).lib_region == old(self).lib_region,
    {
        // the signature's argument and return base types
        let mut arg_bases: Vec<Designator> = Vec::new();
        let n = sig.args.len();
        let mut i: usize = 0;
        while i < n
            invariant
                i <= n,
                n == sig.args@.len(),
                self.wf(),
                scope < self.arena@.len(),
            decreases n - i,
        {
            match &sig.args[i] {
                Name::Simple(id) => {
                    let b = self.base_of_designator(scope, &id.name);
                    arg_bases.push(b);
                },
                _ => {
                    return;
                },
            }
            i = i + 1;
        }
        let ret_base: Option<Designator> = match &sig.ret {
            Some(Name::Simple(id)) => Some(self.base_of_designator(scope, &id.name)),
            Some(_) => {
                return;
            },
            None => None,
        };
        if !(ri < self.arena.len()) {
            return;
        }
        let plane_len = if declared {
            self.arena[ri].decls.len()
        } else {
            self.arena[ri].visible.len()
        };
        if !(di < plane_len) {
            return;
        }
        // collect each candidate's parameter marks and return base
        let mut matches: Vec<Option<Pos>> = Vec::new();
        let m = if declared {
            self.arena[ri].decls[di].data.len()
        } else {
            self.arena[ri].visible[di].data.len()
        };
        let mut j: usize = 0;
        while j < m
            invariant
                self.wf(),
                scope < self.arena@.len(),
                ri < self.arena@.len(),
                declared ==> di < self.arena@[ri as int].decls@.len() && m == self.arena@[
                    ri as int].decls@[di as int].data@.len(),
                !declared ==> di < self.arena@[ri as int].visible@.len() && m == self.arena@[
                    ri as int].visible@[di as int].data@.len(),
            decreases m - j,
        {
            let mut param_marks: Vec<Designator> = Vec::new();
            let mut cand_ret: Option<Designator> = None;
            let mut cand_pos: Option<Pos> = None;
            let mut has_sig = false;
            {
                let entry = if declared {
                    &self.arena[ri].decls[di]
                } else {
                    &self.arena[ri].visible[di]
                };
                let dd = &entry.data[j];
                cand_pos = dd.decl_pos;
                match &dd.sig {
                    Some(s2) => {
                        has_sig = true;
                        let pn = s2.params.len();
                        let mut k: usize = 0;
                        while k < pn
                            invariant
                                k <= pn,
                                pn == s2.params@.len(),
                            decreases pn - k,
                        {
                            param_marks.push(s2.params[k].mark.dup());
                            k = k + 1;
                        }
                        cand_ret = match &s2.ret_base {
                            Some(r2) => Some(r2.dup()),
                            None => None,
                        };
                    },
                    None => {},
                }
            }
            if has_sig && param_marks.len() == arg_bases.len() {
                let mut all_equal = true;
                let pn = param_marks.len();
                let mut k: usize = 0;
                while k < pn
                    invariant
                        k <= pn,
                        pn == param_marks@.len(),
                        pn == arg_bases@.len(),
                        self.wf(),
                        scope < self.arena@.len(),
                    decreases pn - k,
                {
                    let cb = self.base_of_designator(scope, &param_marks[k]);
                    if !cb.eq_name(&arg_bases[k]) {
                        all_equal = false;
                    }
                    k = k + 1;
                }
                let ret_ok = match (&cand_ret, &ret_base) {
                    (Some(a), Some(b)) => a.eq_name(b),
                    (None, None) => true,
                    _ => false,
                };
                if all_equal && ret_ok {
                    matches.push(cand_pos);
                }
            }
            j = j + 1;
        }
        if matches.len() == 1 {
            let p = matches[0];
            self.refs.set_reference_pos(tpos, p);
        }
    }

    /// Analyzes the declarative items of a region in source order.
    pub fn analyze_declarations(
        &mut self,
        scope: usize,
        decls: &Vec<Declaration>,
        ext: Option<&Region>,
        fuel: u64,
    )
        requires
            old(self).wf(),
            scope < old(self).arena@.len(),
            match ext {
                Some(e) => e.wf(),
                None => true,
            },
        ensures
            final(self).wf(),
            final(self).arena@.len() >= old(self).arena@.len(),
            final(self).std_region == old(self).std_region,
            final(self).universe == old(self).universe,
            final(self).lib_region == old(self).lib_region,
        decreases fuel,
    {
        if fuel == 0 {
            self.depth_exceeded = true;
            return;
        }
        let n = decls.len();
        let mut i: usize = 0;
        while i < n
            invariant
                fuel >= 1,
                n == decls@.len(),
                self.wf(),
                scope < self.arena@.len(),
                self.arena@.len() >= old(self).arena@.len(),
                self.std_region == old(self).std_region,
                self.universe == old(self).universe,
                self.lib_region == old(self).lib_region,
                match ext {
                    Some(e) => e.wf(),
                    None => true,
                },
            decreases n - i,
        {
            self.analyze_declaration(scope, &decls[i], ext, fuel - 1);
            i = i + 1;
        }
    }

    /// Analyzes one declarative item.
    fn analyze_declaration(
        &mut self,
        scope: usize,
        d: &Declaration,
        ext: Option<&Region>,
        fuel: u64,
    )
        requires
            old(self).wf(),
            scope < old(self).arena@.len(),
            match ext {
                Some(e) => e.wf(),
                None => true,
            },
        ensures
            final(self).wf(),
            final(self).arena@.len() >= old(self).arena@.len(),
            final(self).std_region == old(self).std_region,
            final(self).universe == old(self).universe,
            final(self).lib_region == old(self).lib_region,
        decreases fuel,
    {
        if fuel == 0 {
            self.depth_exceeded = true;
            return;
        }
        match d {
            Declaration::ObjectDecl { class, names, ind, init } => {
                self.analyze_object_decl(scope, *class, names, ind, init, ext, fuel - 1);
            },
            Declaration::TypeDecl { name, def } => {
                self.analyze_type_decl(scope, name, def, ext, fuel - 1);
            },
            Declaration::SubtypeDecl { name, ind } => {
                let base = self.base_of_mark(scope, &ind.mark);
                let kind = self.kind_of_mark(scope, &ind.mark);
                let det = self.resolve_subtype_ind(scope, ind, fuel - 1);
                self.declare(
                    scope,
                    name.name.dup(),
                    Some(name.pos),
                    AnyDeclaration::TypeDeclaration(
                        TypeData {
                            implicit: None,
                            detail: det,
                            base,
                            form: DeclForm::FormSubtype,
                            kind,
                        },
                    ),
                    None,
                    ext,
                );
            },
            Declaration::SubpgmDecl { head } => {
                let sig = self.sig_of_head(scope, head);
                self.declare_full(
                    scope,
                    head.name.name.dup(),
                    Some(head.name.pos),
                    AnyDeclaration::Overloaded,
                    None,
                    Some(sig),
                    ext,
                );
                let pr = self.new_region(Region::nested(scope));
                self.analyze_interface_list(pr, &head.params, fuel - 1);
                if let Some(ret) = &head.ret {
                    let _ = self.resolve_name(pr, ret, fuel - 1);
                }
            },
            Declaration::SubpgmBody { head, decls, stmts } => {
                let sig = self.sig_of_head(scope, head);
                self.declare_full(
                    scope,
                    head.name.name.dup(),
                    Some(head.name.pos),
                    AnyDeclaration::Overloaded,
                    None,
                    Some(sig),
                    ext,
                );
                let br = self.new_region(Region::nested(scope));
                self.analyze_interface_list(br, &head.params, fuel - 1);
                if let Some(ret) = &head.ret {
                    let _ = self.resolve_name(br, ret, fuel - 1);
                }
                self.analyze_declarations(br, decls, None, fuel - 1);
                self.analyze_seq_stmts(br, stmts, fuel - 1);
                let region = &self.arena[br];
                region.close_immediate(&mut self.diags);
            },
            Declaration::AliasDecl { name, target, signature } => {
                self.analyze_alias(scope, name, target, signature, ext, fuel - 1);
            },
            Declaration::ComponentDecl { name, generics, ports } => {
                self.declare(
                    scope,
                    name.name.dup(),
                    Some(name.pos),
                    AnyDeclaration::Other,
                    None,
                    ext,
                );
                let cr = self.new_region(Region::nested(scope));
                self.analyze_interface_list(cr, generics, fuel - 1);
                self.analyze_interface_list(cr, ports, fuel - 1);
            },
            Declaration::UseDecl(names) => {
                let n = names.len();
                let mut i: usize = 0;
                while i < n
                    invariant
                        fuel >= 1,
                        n == names@.len(),
                        self.wf(),
                        scope < self.arena@.len(),
                        self.arena@.len() >= old(self).arena@.len(),
                        self.std_region == old(self).std_region,
                        self.universe == old(self).universe,
                        self.lib_region == old(self).lib_region,
                    decreases n - i,
                {
                    self.analyze_use_name(scope, &names[i], fuel - 1);
                    i = i + 1;
                }
            },
        }
    }
}


impl Analyzer {
    /// Resolves an assignment target.
    fn resolve_target(&mut self, scope: usize, t: &Target, fuel: u64)
        requires
            old(self).wf(),
            scope < old(self).arena@.len(),
        ensures
            final(self).wf(),
            final(self).arena@ == old(self).arena@,
            final(self).std_region == old(self).std_region,
            final(self).universe == old(self).universe,
            final(self).lib_region == old(self).lib_region,
        decreases fuel,
    {
        if fuel == 0 {
            self.depth_exceeded = true;
            return;
        }
        match t {
            Target::TargetName(n) => {
                let _ = self.resolve_name(scope, n, fuel - 1);
            },
            Target::TargetAggregate(elems) => {
                self.resolve_elems(scope, elems, fuel - 1);
            },
        }
    }

    /// Resolves an assignment right-hand side.
    fn resolve_rhs(&mut self, scope: usize, rhs: &Rhs, fuel: u64)
        requires
            old(self).wf(),
            scope < old(self).arena@.len(),
        ensures
            final(self).wf(),
            final(self).arena@ == old(self).arena@,
            final(self).std_region == old(self).std_region,
            final(self).universe == old(self).universe,
            final(self).lib_region == old(self).lib_region,
        decreases fuel,
    {
        if fuel == 0 {
            self.depth_exceeded = true;
            return;
        }
        match rhs {
            Rhs::RhsSimple(v, after) => {
                self.resolve_expr(scope, v, fuel - 1);
                if let Some(a) = after {
                    self.resolve_expr(scope, a, fuel - 1);
                }
            },
            Rhs::RhsCond(alts) => {
                let n = alts.len();
                let mut i: usize = 0;
                while i < n
                    invariant
                        fuel >= 1,
                        n == alts@.len(),
                        self.wf(),
                        scope < self.arena@.len(),
                        self.arena@ == old(self).arena@,
                        self.std_region == old(self).std_region,
                        self.universe == old(self).universe,
                        self.lib_region == old(self).lib_region,
                    decreases n - i,
                {
                    self.resolve_expr(scope, &alts[i].value, fuel - 1);
                    if let Some(a) = &alts[i].after {
                        self.resolve_expr(scope, a, fuel - 1);
                    }
                    if let Some(c) = &alts[i].cond {
                        self.resolve_expr(scope, c, fuel - 1);
                    }
                    i = i + 1;
                }
            },
            Rhs::RhsSelected(sel, alts) => {
                self.resolve_expr(scope, sel, fuel - 1);
                let n = alts.len();
                let mut i: usize = 0;
                while i < n
                    invariant
                        fuel >= 1,
                        n == alts@.len(),
                        self.wf(),
                        scope < self.arena@.len(),
                        self.arena@ == old(self).arena@,
                        self.std_region == old(self).std_region,
                        self.universe == old(self).universe,
                        self.lib_region == old(self).lib_region,
                    decreases n - i,
                {
                    self.resolve_expr(scope, &alts[i].value, fuel - 1);
                    let m = alts[i].choices.len();
                    let mut j: usize = 0;
                    while j < m
                        invariant
                            fuel >= 1,
                            i < alts@.len(),
                            m == alts@[i as int].choices@.len(),
                            self.wf(),
                            scope < self.arena@.len(),
                            self.arena@ == old(self).arena@,
                            self.std_region == old(self).std_region,
                            self.universe == old(self).universe,
                            self.lib_region == old(self).lib_region,
                        decreases m - j,
                    {
                        self.resolve_choice(scope, &alts[i].choices[j], fuel - 1);
                        j = j + 1;
                    }
                    i = i + 1;
                }
            },
            Rhs::RhsForce(e) => {
                self.resolve_expr(scope, e, fuel - 1);
            },
            Rhs::RhsRelease => {},
        }
    }

    /// Analyzes sequential statements in source order.
    pub fn analyze_seq_stmts(&mut self, scope: usize, stmts: &Vec<SeqStmt>, fuel: u64)
        requires
            old(self).wf(),
            scope < old(self).arena@.len(),
        ensures
            final(self).wf(),
            final(self).arena@.len() >= old(self).arena@.len(),
            final(self).std_region == old(self).std_region,
            final(self).universe == old(self).universe,
            final(self).lib_region == old(self).lib_region,
        decreases fuel,
    {
        if fuel == 0 {
            self.depth_exceeded = true;
            return;
        }
        let n = stmts.len();
        let mut i: usize = 0;
        while i < n
            invariant
                fuel >= 1,
                n == stmts@.len(),
                self.wf(),
                scope < self.arena@.len(),
                self.arena@.len() >= old(self).arena@.len(),
                self.std_region == old(self).std_region,
                self.universe == old(self).universe,
                self.lib_region == old(self).lib_region,
            decreases n - i,
        {
            self.analyze_seq_stmt(scope, &stmts[i], fuel - 1);
            i = i + 1;
        }
    }

    /// Analyzes one sequential statement.
    fn analyze_seq_stmt(&mut self, scope: usize, st: &SeqStmt, fuel: u64)
        requires
            old(self).wf(),
            scope < old(self).arena@.len(),
        ensures
            final(self).wf(),
            final(self).arena@.len() >= old(self).arena@.len(),
            final(self).std_region == old(self).std_region,
            final(self).universe == old(self).universe,
            final(self).lib_region == old(self).lib_region,
        decreases fuel,
    {
        if fuel == 0 {
            self.depth_exceeded = true;
            return;
        }
        match st {
            SeqStmt::VarAssign(t, rhs) => {
                self.resolve_target(scope, t, fuel - 1);
                self.resolve_rhs(scope, rhs, fuel - 1);
            },
            SeqStmt::SigAssign(t, rhs) => {
                self.resolve_target(scope, t, fuel - 1);
                self.resolve_rhs(scope, rhs, fuel - 1);
            },
            SeqStmt::ProcCallStmt(n) => {
                let _ = self.resolve_name(scope, n, fuel - 1);
            },
            SeqStmt::IfStmt(arms, else_body) => {
                let n = arms.len();
                let mut i: usize = 0;
                while i < n
                    invariant
                        fuel >= 1,
                        n == arms@.len(),
                        self.wf(),
                        scope < self.arena@.len(),
                        self.arena@.len() >= old(self).arena@.len(),
                        self.std_region == old(self).std_region,
                        self.universe == old(self).universe,
                        self.lib_region == old(self).lib_region,
                    decreases n - i,
                {
                    self.resolve_expr(scope, &arms[i].cond, fuel - 1);
                    self.analyze_seq_stmts(scope, &arms[i].body, fuel - 1);
                    i = i + 1;
                }
                if let Some(b) = else_body {
                    self.analyze_seq_stmts(scope, b, fuel - 1);
                }
            },
            SeqStmt::ForStmt(param, range, seq_body) => {
                self.resolve_range(scope, range, fuel - 1);
                let lr = self.new_region(Region::nested(scope));
                self.declare(
                    lr,
                    param.name.dup(),
                    Some(param.pos),
                    AnyDeclaration::Other,
                    None,
                    None,
                );
                self.analyze_seq_stmts(lr, seq_body, fuel - 1);
            },
            SeqStmt::WhileStmt(cond, seq_body) => {
                if let Some(c) = cond {
                    self.resolve_expr(scope, c, fuel - 1);
                }
                self.analyze_seq_stmts(scope, seq_body, fuel - 1);
            },
            SeqStmt::NextStmt(cond) => {
                if let Some(c) = cond {
                    self.resolve_expr(scope, c, fuel - 1);
                }
            },
            SeqStmt::ExitStmt(cond) => {
                if let Some(c) = cond {
                    self.resolve_expr(scope, c, fuel - 1);
                }
            },
            SeqStmt::CaseStmt(sel, arms) => {
                self.resolve_expr(scope, sel, fuel - 1);
                let n = arms.len();
                let mut i: usize = 0;
                while i < n
                    invariant
                        fuel >= 1,
                        n == arms@.len(),
                        self.wf(),
                        scope < self.arena@.len(),
                        self.arena@.len() >= old(self).arena@.len(),
                        self.std_region == old(self).std_region,
                        self.universe == old(self).universe,
                        self.lib_region == old(self).lib_region,
                    decreases n - i,
                {
                    let m = arms[i].choices.len();
                    let mut j: usize = 0;
                    while j < m
                        invariant
                            fuel >= 1,
                            i < arms@.len(),
                            m == arms@[i as int].choices@.len(),
                            self.wf(),
                            scope < self.arena@.len(),
                            self.arena@.len() >= old(self).arena@.len(),
                            self.std_region == old(self).std_region,
                            self.universe == old(self).universe,
                            self.lib_region == old(self).lib_region,
                        decreases m - j,
                    {
                        self.resolve_choice(scope, &arms[i].choices[j], fuel - 1);
                        j = j + 1;
                    }
                    self.analyze_seq_stmts(scope, &arms[i].body, fuel - 1);
                    i = i + 1;
                }
            },
            SeqStmt::WaitStmt(on, until, for_e) => {
                let n = on.len();
                let mut i: usize = 0;
                while i < n
                    invariant
                        fuel >= 1,
                        n == on@.len(),
                        self.wf(),
                        scope < self.arena@.len(),
                        self.arena@.len() >= old(self).arena@.len(),
                        self.std_region == old(self).std_region,
                        self.universe == old(self).universe,
                        self.lib_region == old(self).lib_region,
                    decreases n - i,
                {
                    let _ = self.resolve_name(scope, &on[i], fuel - 1);
                    i = i + 1;
                }
                if let Some(u) = until {
                    self.resolve_expr(scope, u, fuel - 1);
                }
                if let Some(f) = for_e {
                    self.resolve_expr(scope, f, fuel - 1);
                }
            },
            SeqStmt::ReportStmt(msg, sev) => {
                self.resolve_expr(scope, msg, fuel - 1);
                if let Some(s2) = sev {
                    self.resolve_expr(scope, s2, fuel - 1);
                }
            },
            SeqStmt::AssertStmt(cond, report, sev) => {
                self.resolve_expr(scope, cond, fuel - 1);
                if let Some(r2) = report {
                    self.resolve_expr(scope, r2, fuel - 1);
                }
                if let Some(s2) = sev {
                    self.resolve_expr(scope, s2, fuel - 1);
                }
            },
            SeqStmt::ReturnStmt(e) => {
                if let Some(e2) = e {
                    self.resolve_expr(scope, e2, fuel - 1);
                }
            },
            SeqStmt::NullStmt => {},
        }
    }

    /// Analyzes concurrent statements in source order.
    pub fn analyze_conc_stmts(&mut self, scope: usize, stmts: &Vec<ConcStmt>, fuel: u64)
        requires
            old(self).wf(),
            scope < old(self).arena@.len(),
        ensures
            final(self).wf(),
            final(self).arena@.len() >= old(self).arena@.len(),
            final(self).std_region == old(self).std_region,
            final(self).universe == old(self).universe,
            final(self).lib_region == old(self).lib_region,
        decreases fuel,
    {
        if fuel == 0 {
            self.depth_exceeded = true;
            return;
        }
        let n = stmts.len();
        let mut i: usize = 0;
        while i < n
            invariant
                fuel >= 1,
                n == stmts@.len(),
                self.wf(),
                scope < self.arena@.len(),
                self.arena@.len() >= old(self).arena@.len(),
                self.std_region == old(self).std_region,
                self.universe == old(self).universe,
                self.lib_region == old(self).lib_region,
            decreases n - i,
        {
            self.analyze_conc_stmt(scope, &stmts[i], fuel - 1);
            i = i + 1;
        }
    }

    /// Declares a statement label in its enclosing region.
    fn declare_label(&mut self, scope: usize, label: &Option<Ident>)
        requires
            old(self).wf(),
            scope < old(self).arena@.len(),
        ensures
            final(self).wf(),
            final(self).arena@.len() == old(self).arena@.len(),
            final(self).std_region == old(self).std_region,
            final(self).universe == old(self).universe,
            final(self).lib_region == old(self).lib_region,
    {
        if let Some(l) = label {
            self.declare(scope, l.name.dup(), Some(l.pos), AnyDeclaration::Other, None, None);
        }
    }

    /// Analyzes one concurrent statement.
    fn analyze_conc_stmt(&mut self, scope: usize, st: &ConcStmt, fuel: u64)
        requires
            old(self).wf(),
            scope < old(self).arena@.len(),
        ensures
            final(self).wf(),
            final(self).arena@.len() >= old(self).arena@.len(),
            final(self).std_region == old(self).std_region,
            final(self).universe == old(self).universe,
            final(self).lib_region == old(self).lib_region,
        decreases fuel,
    {
        if fuel == 0 {
            self.depth_exceeded = true;
            return;
        }
        match st {
            ConcStmt::ProcessStmt { label, sensitivity, decls, stmts } => {
                self.declare_label(scope, label);
                let pr = self.new_region(Region::nested(scope));
                let n = sensitivity.len();
                let mut i: usize = 0;
                while i < n
                    invariant
                        fuel >= 1,
                        n == sensitivity@.len(),
                        self.wf(),
                        pr < self.arena@.len(),
                        self.arena@.len() >= old(self).arena@.len(),
                        self.std_region == old(self).std_region,
                        self.universe == old(self).universe,
                        self.lib_region == old(self).lib_region,
                    decreases n - i,
                {
                    let _ = self.resolve_name(pr, &sensitivity[i], fuel - 1);
                    i = i + 1;
                }
                self.analyze_declarations(pr, decls, None, fuel - 1);
                self.analyze_seq_stmts(pr, stmts, fuel - 1);
                let region = &self.arena[pr];
                region.close_immediate(&mut self.diags);
            },
            ConcStmt::ConcAssign { label, target, rhs } => {
                self.declare_label(scope, label);
                self.resolve_target(scope, target, fuel - 1);
                self.resolve_rhs(scope, rhs, fuel - 1);
            },
            ConcStmt::ConcProcCall { label, call } => {
                self.declare_label(scope, label);
                let _ = self.resolve_name(scope, call, fuel - 1);
            },
            ConcStmt::ConcAssert { label, cond, report, severity } => {
                self.declare_label(scope, label);
                self.resolve_expr(scope, cond, fuel - 1);
                if let Some(r2) = report {
                    self.resolve_expr(scope, r2, fuel - 1);
                }
                if let Some(s2) = severity {
                    self.resolve_expr(scope, s2, fuel - 1);
                }
            },
            ConcStmt::BlockStmt { label, guard, generics, generic_map, ports, port_map, decls, stmts } => {
                self.declare_label(scope, label);
                let br = self.new_region(Region::nested(scope));
                if let Some(g) = guard {
                    self.resolve_expr(br, g, fuel - 1);
                }
                self.analyze_interface_list(br, generics, fuel - 1);
                self.resolve_assoc_actuals(br, generic_map, fuel - 1);
                self.analyze_interface_list(br, ports, fuel - 1);
                self.resolve_assoc_actuals(br, port_map, fuel - 1);
                self.analyze_declarations(br, decls, None, fuel - 1);
                self.analyze_conc_stmts(br, stmts, fuel - 1);
                let region = &self.arena[br];
                region.close_immediate(&mut self.diags);
            },
            ConcStmt::InstanceStmt { label, kind: _, name, generic_map, port_map } => {
                self.declare(
                    scope,
                    label.name.dup(),
                    Some(label.pos),
                    AnyDeclaration::Other,
                    None,
                    None,
                );
                let _ = self.resolve_name(scope, name, fuel - 1);
                self.resolve_assoc_actuals(scope, generic_map, fuel - 1);
                self.resolve_assoc_actuals(scope, port_map, fuel - 1);
            },
            ConcStmt::ForGenerate { label, param, range, body: gen_body } => {
                self.declare_label(scope, label);
                self.resolve_range(scope, range, fuel - 1);
                let gr = self.new_region(Region::nested(scope));
                self.declare(
                    gr,
                    param.name.dup(),
                    Some(param.pos),
                    AnyDeclaration::Other,
                    None,
                    None,
                );
                self.analyze_conc_stmts(gr, gen_body, fuel - 1);
            },
            ConcStmt::IfGenerate { label, arms, else_arm } => {
                self.declare_label(scope, label);
                let n = arms.len();
                let mut i: usize = 0;
                while i < n
                    invariant
                        fuel >= 1,
                        n == arms@.len(),
                        self.wf(),
                        scope < self.arena@.len(),
                        self.arena@.len() >= old(self).arena@.len(),
                        self.std_region == old(self).std_region,
                        self.universe == old(self).universe,
                        self.lib_region == old(self).lib_region,
                    decreases n - i,
                {
                    let ar = self.new_region(Region::nested(scope));
                    self.declare_label(ar, &arms[i].alt_label);
                    self.resolve_expr(ar, &arms[i].cond, fuel - 1);
                    self.analyze_conc_stmts(ar, &arms[i].body, fuel - 1);
                    i = i + 1;
                }
                if let Some(alt) = else_arm {
                    let ar = self.new_region(Region::nested(scope));
                    self.declare_label(ar, &alt.alt_label);
                    self.analyze_conc_stmts(ar, &alt.body, fuel - 1);
                }
            },
        }
    }
}


impl Analyzer {
    /// Declares one builtin name in the predefined package region.
    fn builtin(&mut self, name: &str, kind: AnyDeclaration)
        requires
            old(self).wf(),
        ensures
            final(self).wf(),
            final(self).arena@.len() == old(self).arena@.len(),
            final(self).std_region == old(self).std_region,
            final(self).universe == old(self).universe,
            final(self).lib_region == old(self).lib_region,
            final(self).depth_exceeded == old(self).depth_exceeded,
            final(self).diags@ == old(self).diags@,
            final(self).refs == old(self).refs,
    {
        let d = des(name);
        let at = self.std_region;
        self.declare(at, d, None, kind, None, None);
    }

    /// Declares one builtin one-dimensional array type.
    fn builtin_array(&mut self, name: &str)
        requires
            old(self).wf(),
        ensures
            final(self).wf(),
            final(self).arena@.len() == old(self).arena@.len(),
            final(self).std_region == old(self).std_region,
            final(self).universe == old(self).universe,
            final(self).lib_region == old(self).lib_region,
            final(self).depth_exceeded == old(self).depth_exceeded,
            final(self).diags@ == old(self).diags@,
            final(self).refs == old(self).refs,
    {
        let d = des(name);
        let kind = AnyDeclaration::TypeDeclaration(
            TypeData {
                implicit: None,
                detail: TypeDetail::Array(1, des(name), None),
                base: Some(des(name)),
                form: DeclForm::FormType,
                kind: TypeKind::ArrayKind,
            },
        );
        let at = self.std_region;
        self.declare(at, d, None, kind, None, None);
    }

    /// Declares one builtin scalar type with its base type; a builtin whose
    /// base differs from itself is a subtype.
    fn builtin_type(&mut self, name: &str, base: &str, kind: TypeKind)
        requires
            old(self).wf(),
        ensures
            final(self).wf(),
            final(self).arena@.len() == old(self).arena@.len(),
            final(self).std_region == old(self).std_region,
            final(self).universe == old(self).universe,
            final(self).lib_region == old(self).lib_region,
            final(self).depth_exceeded == old(self).depth_exceeded,
            final(self).diags@ == old(self).diags@,
            final(self).refs == old(self).refs,
    {
        let d = des(name);
        let form = if word_is(&d.name, base) {
            DeclForm::FormType
        } else {
            DeclForm::FormSubtype
        };
        let decl = AnyDeclaration::TypeDeclaration(
            TypeData {
                implicit: None,
                detail: TypeDetail::Plain,
                base: Some(des(base)),
                form,
                kind,
            },
        );
        let at = self.std_region;
        self.declare(at, d, None, decl, None, None);
    }

    /// Declares one builtin enumeration literal, a parameterless function
    /// of its type.
    fn builtin_literal(&mut self, name: &str, of_type: &str)
        requires
            old(self).wf(),
        ensures
            final(self).wf(),
            final(self).arena@.len() == old(self).arena@.len(),
            final(self).std_region == old(self).std_region,
            final(self).universe == old(self).universe,
            final(self).lib_region == old(self).lib_region,
            final(self).depth_exceeded == old(self).depth_exceeded,
            final(self).diags@ == old(self).diags@,
            final(self).refs == old(self).refs,
    {
        let d = des(name);
        let at = self.std_region;
        self.declare_full(
            at,
            d,
            None,
            AnyDeclaration::Overloaded,
            None,
            Some(SigInfo {
                params: Vec::new(),
                ret_mark: Some(des(of_type)),
                ret_base: Some(des(of_type)),
            }),
            None,
        );
    }

    /// Fills the predefined package region with the builtin names the
    /// analyzed subset relies on: the scalar and array types, their
    /// literals, the time units and a few predefined subprograms.
    fn install_standard(&mut self)
        requires
            old(self).wf(),
        ensures
            final(self).wf(),
            final(self).arena@.len() == old(self).arena@.len(),
            final(self).std_region == old(self).std_region,
            final(self).universe == old(self).universe,
            final(self).lib_region == old(self).lib_region,
            final(self).depth_exceeded == old(self).depth_exceeded,
            final(self).diags@ == old(self).diags@,
            final(self).refs == old(self).refs,
    {
        self.builtin_type("boolean", "boolean", TypeKind::EnumKind);
        self.builtin_type("bit", "bit", TypeKind::EnumKind);
        self.builtin_type("character", "character", TypeKind::CharacterKind);
        self.builtin_type("severity_level", "severity_level", TypeKind::EnumKind);
        self.builtin_type("integer", "integer", TypeKind::IntegerKind);
        self.builtin_type("real", "real", TypeKind::RealKind);
        self.builtin_type("time", "time", TypeKind::PhysicalKind);
        self.builtin_type("delay_length", "time", TypeKind::PhysicalKind);
        self.builtin_type("natural", "integer", TypeKind::IntegerKind);
        self.builtin_type("positive", "integer", TypeKind::IntegerKind);
        self.builtin_type("file_open_kind", "file_open_kind", TypeKind::EnumKind);
        self.builtin_type("file_open_status", "file_open_status", TypeKind::EnumKind);
        self.builtin_array("string");
        self.builtin_array("bit_vector");
        self.builtin_array("boolean_vector");
        self.builtin_array("integer_vector");
        self.builtin_array("real_vector");
        self.builtin_array("time_vector");
        self.builtin_literal("true", "boolean");
        self.builtin_literal("false", "boolean");
        self.builtin_literal("note", "severity_level");
        self.builtin_literal("warning", "severity_level");
        self.builtin_literal("error", "severity_level");
        self.builtin_literal("failure", "severity_level");
        self.builtin("maximum", AnyDeclaration::Overloaded);
        self.builtin("minimum", AnyDeclaration::Overloaded);
        self.builtin("now", AnyDeclaration::Overloaded);
        self.builtin("fs", AnyDeclaration::Other);
        self.builtin("ps", AnyDeclaration::Other);
        self.builtin("ns", AnyDeclaration::Other);
        self.builtin("us", AnyDeclaration::Other);
        self.builtin("ms", AnyDeclaration::Other);
        self.builtin("sec", AnyDeclaration::Other);
        self.builtin("min", AnyDeclaration::Other);
        self.builtin("hr", AnyDeclaration::Other);
    }

    /// A fresh analyzer for one library: the predefined package, a root
    /// visibility region, and an empty region for the library's units.
    pub fn new(library_name: &Designator) -> (a: Analyzer)
        ensures
            a.wf(),
            a.diags@.len() == 0,
            a.refs.entries@.len() == 0,
            !a.depth_exceeded,
    {
        let mut arena: Vec<Region> = Vec::new();
        arena.push(Region::default());
        arena.push(Region::default());
        arena.push(Region::default());
        let mut a = Analyzer {
            arena,
            diags: Vec::new(),
            refs: RefTable::new(),
            depth_exceeded: false,
            std_region: 0,
            universe: 1,
            lib_region: 2,
        };
        proof {
            assert forall|i: int| 0 <= i < a.arena@.len() implies (#[trigger] a.arena@[i]).wf()
                by {}
        }
        a.install_standard();
        a.make_all_potentially_visible(1, 0, 8);
        a.make_library_visible(1, library_name, None);
        let work = des("work");
        a.make_library_visible(1, &work, None);
        a
    }

    /// Applies the context clause of a design unit to its region.
    fn apply_context(&mut self, at: usize, items: &Vec<ContextItem>, fuel: u64)
        requires
            old(self).wf(),
            at < old(self).arena@.len(),
        ensures
            final(self).wf(),
            final(self).arena@.len() >= old(self).arena@.len(),
            final(self).std_region == old(self).std_region,
            final(self).universe == old(self).universe,
            final(self).lib_region == old(self).lib_region,
        decreases fuel,
    {
        if fuel == 0 {
            self.depth_exceeded = true;
            return;
        }
        let n = items.len();
        let mut i: usize = 0;
        while i < n
            invariant
                fuel >= 1,
                n == items@.len(),
                self.wf(),
                at < self.arena@.len(),
                self.arena@.len() >= old(self).arena@.len(),
                self.std_region == old(self).std_region,
                self.universe == old(self).universe,
                self.lib_region == old(self).lib_region,
            decreases n - i,
        {
            match &items[i] {
                ContextItem::LibraryClause(names) => {
                    let m = names.len();
                    let mut j: usize = 0;
                    while j < m
                        invariant
                            i < items@.len(),
                            items@[i as int] matches ContextItem::LibraryClause(ns) && m
                                == ns@.len(),
                            self.wf(),
                            at < self.arena@.len(),
                            self.arena@.len() >= old(self).arena@.len(),
                            self.std_region == old(self).std_region,
                            self.universe == old(self).universe,
                            self.lib_region == old(self).lib_region,
                        decreases m - j,
                    {
                        match &items[i] {
                            ContextItem::LibraryClause(ns) => {
                                self.make_library_visible(at, &ns[j].name, Some(ns[j].pos));
                            },
                            _ => {},
                        }
                        j = j + 1;
                    }
                },
                ContextItem::UseClause(names) => {
                    let m = names.len();
                    let mut j: usize = 0;
                    while j < m
                        invariant
                            fuel >= 1,
                            i < items@.len(),
                            items@[i as int] matches ContextItem::UseClause(ns) && m == ns@.len(),
                            self.wf(),
                            at < self.arena@.len(),
                            self.arena@.len() >= old(self).arena@.len(),
                            self.std_region == old(self).std_region,
                            self.universe == old(self).universe,
                            self.lib_region == old(self).lib_region,
                        decreases m - j,
                    {
                        match &items[i] {
                            ContextItem::UseClause(ns) => {
                                self.analyze_use_name(at, &ns[j], fuel - 1);
                            },
                            _ => {},
                        }
                        j = j + 1;
                    }
                },
            }
            i = i + 1;
        }
    }

    /// Analyzes one design unit.
    fn analyze_unit(
        &mut self,
        du: &crate::ast::DesignUnit,
        uid: usize,
        bodies: &Vec<Designator>,
        fuel: u64,
    )
        requires
            old(self).wf(),
        ensures
            final(self).wf(),
            final(self).arena@.len() >= old(self).arena@.len(),
            final(self).std_region == old(self).std_region,
            final(self).universe == old(self).universe,
            final(self).lib_region == old(self).lib_region,
            fuel >= 1 ==> (du.unit matches Unit::EntityUnit { name, .. } ==> has_name(
                final(self).arena@[old(self).lib_region as int].decls@,
                name.name@,
            )),
            fuel >= 1 ==> (du.unit matches Unit::PackageUnit { name, .. } ==> has_name(
                final(self).arena@[old(self).lib_region as int].decls@,
                name.name@,
            )),
        decreases fuel,
    {
        if fuel == 0 {
            self.depth_exceeded = true;
            return;
        }
        match &du.unit {
            Unit::EntityUnit { name, generics, ports, decls, stmts } => {
                let universe = self.universe;
                let er = self.new_region(Region::nested(universe));
                self.apply_context(er, &du.context, fuel - 1);
                self.overwrite(er, name.name.dup(), Some(name.pos), AnyDeclaration::Entity(uid, er));
                self.analyze_interface_list(er, generics, fuel - 1);
                self.analyze_interface_list(er, ports, fuel - 1);
                self.analyze_declarations(er, decls, None, fuel - 1);
                self.analyze_conc_stmts(er, stmts, fuel - 1);
                let region = &self.arena[er];
                region.close_immediate(&mut self.diags);
                let lib = self.lib_region;
                let lib_entry = &mut self.arena[lib];
                lib_entry.overwrite(name.name.dup(), Some(name.pos), AnyDeclaration::Entity(uid, er));
            },
            Unit::ArchUnit { name, entity, decls, stmts } => {
                let lib = self.lib_region;
                let mut er_opt: Option<usize> = None;
                match find_entry(&self.arena[lib].decls, &entity.name) {
                    Some(i) => {
                        let entry = &self.arena[lib].decls[i];
                        match entry.first() {
                            AnyDeclaration::Entity(_, er) => {
                                er_opt = Some(*er);
                            },
                            _ => {},
                        }
                        let entry2 = &self.arena[lib].decls[i];
                        self.refs.set_reference(entity.pos, entry2);
                    },
                    None => {
                        self.no_declaration_of(entity.pos, &entity.name);
                    },
                }
                let universe = self.universe;
                let mut ext_clone: Option<Region> = None;
                let ar: usize;
                match er_opt {
                    Some(er) => {
                        if er < self.arena.len() {
                            let hk = self.arena[er].kind;
                            ext_clone = Some(dup_region(&self.arena[er]));
                            ar = self.new_region(Region::extend(er, hk, Some(universe)));
                        } else {
                            ar = self.new_region(Region::nested(universe));
                        }
                    },
                    None => {
                        ar = self.new_region(Region::nested(universe));
                    },
                }
                self.apply_context(ar, &du.context, fuel - 1);
                self.overwrite(ar, name.name.dup(), Some(name.pos), AnyDeclaration::Other);
                self.analyze_declarations(ar, decls, ext_clone.as_ref(), fuel - 1);
                self.analyze_conc_stmts(ar, stmts, fuel - 1);
                let region = &self.arena[ar];
                region.close_both(ext_clone.as_ref(), &mut self.diags);
            },
            Unit::PackageUnit { name, decls } => {
                let universe = self.universe;
                let pr = self.new_region(Region::nested(universe));
                let region = &mut self.arena[pr];
                region.in_package_declaration();
                self.apply_context(pr, &du.context, fuel - 1);
                self.overwrite(
                    pr,
                    name.name.dup(),
                    Some(name.pos),
                    AnyDeclaration::Package(uid, pr),
                );
                self.analyze_declarations(pr, decls, None, fuel - 1);
                let mut body_follows = false;
                let n = bodies.len();
                let mut i: usize = 0;
                while i < n
                    invariant
                        n == bodies@.len(),
                    decreases n - i,
                {
                    if bodies[i].eq_name(&name.name) {
                        body_follows = true;
                    }
                    i = i + 1;
                }
                let region2 = &self.arena[pr];
                if body_follows {
                    region2.close_immediate(&mut self.diags);
                } else {
                    region2.close_both(None, &mut self.diags);
                }
                let lib = self.lib_region;
                let lib_entry = &mut self.arena[lib];
                lib_entry.overwrite(
                    name.name.dup(),
                    Some(name.pos),
                    AnyDeclaration::Package(uid, pr),
                );
            },
            Unit::PackageBodyUnit { name, decls } => {
                let lib = self.lib_region;
                let mut pr_opt: Option<usize> = None;
                match find_entry(&self.arena[lib].decls, &name.name) {
                    Some(i) => {
                        let entry = &self.arena[lib].decls[i];
                        match entry.first() {
                            AnyDeclaration::Package(_, pr) => {
                                pr_opt = Some(*pr);
                            },
                            _ => {},
                        }
                        let entry2 = &self.arena[lib].decls[i];
                        self.refs.set_reference(name.pos, entry2);
                    },
                    None => {
                        self.no_declaration_of(name.pos, &name.name);
                    },
                }
                let universe = self.universe;
                let mut ext_clone: Option<Region> = None;
                let br: usize;
                match pr_opt {
                    Some(pr) => {
                        if pr < self.arena.len() {
                            let hk = self.arena[pr].kind;
                            ext_clone = Some(dup_region(&self.arena[pr]));
                            br = self.new_region(Region::extend(pr, hk, Some(universe)));
                        } else {
                            br = self.new_region(Region::nested(universe));
                        }
                    },
                    None => {
                        br = self.new_region(Region::nested(universe));
                    },
                }
                self.apply_context(br, &du.context, fuel - 1);
                self.analyze_declarations(br, decls, ext_clone.as_ref(), fuel - 1);
                let region = &self.arena[br];
                region.close_both(ext_clone.as_ref(), &mut self.diags);
            },
        }
    }

    /// Analyzes every design unit of a parsed source text, in source
    /// order.
    pub fn analyze_file(&mut self, file: &DesignFile, fuel: u64)
        requires
            old(self).wf(),
        ensures
            final(self).wf(),
            final(self).arena@.len() >= old(self).arena@.len(),
            file.units@.len() == 0 ==> final(self).diags@ == old(self).diags@ && final(self).refs
                == old(self).refs && final(self).depth_exceeded == old(self).depth_exceeded,
    {
        // which packages have bodies, so that a bodiless package is closed
        // with the full completion checks
        let mut bodies: Vec<Designator> = Vec::new();
        let n = file.units.len();
        if n == 0 {
            return;
        }
        let mut i: usize = 0;
        while i < n
            invariant
                n == file.units@.len(),
            decreases n - i,
        {
            match &file.units[i].unit {
                Unit::PackageBodyUnit { name, .. } => {
                    bodies.push(name.name.dup());
                },
                _ => {},
            }
            i = i + 1;
        }
        let mut u: usize = 0;
        while u < n
            invariant
                n == file.units@.len(),
                self.wf(),
                self.arena@.len() >= old(self).arena@.len(),
            decreases n - u,
        {
            self.analyze_unit(&file.units[u], u, &bodies, fuel);
            u = u + 1;
        }
    }
}

/// Analyzes a source text as one library and returns the reference index
/// and the diagnostics, in source order of discovery.
pub fn analyze_design(source: &Vec<u8>, library_name: &str) -> (r: (
    crate::reference::RootIndex,
    Vec<Diagnostic>,
))
    ensures
        source@.len() == 0 ==> r.1@.len() == 0 && r.0.table.entries@.len() == 0,
{
    let toks = crate::lexer::lex(source);
    let nt = toks.len();
    let base: u64 = if nt > 500000 {
        500000
    } else {
        nt as u64
    };
    let fuel: u64 = base * 4 + 256;
    let mut p = crate::parser::Parser::new(toks);
    let file = p.parse_design_file(fuel);
    let libd = des(library_name);
    let mut a = Analyzer::new(&libd);
    let crate::parser::Parser { toks: _, pos: _, diags: pdiags, failed: _ } = p;
    a.diags = pdiags;
    a.analyze_file(&file, fuel);
    if a.depth_exceeded {
        // the depth budget ran out somewhere: the run is incomplete, and
        // saying so beats passing it off as clean
        let d = Diagnostic::error(
            Pos { start: 0, end: 0 },
            "Nesting too deep to analyze completely",
        );
        let d = Diagnostic { code: DiagCode::DepthExceeded, ..d };
        a.diags.push(d);
    }
    let Analyzer {
        arena: _,
        diags,
        refs,
        depth_exceeded: _,
        std_region: _,
        universe: _,
        lib_region: _,
    } = a;
    (crate::reference::RootIndex { table: refs }, diags)
}


/// Appends the wording of a type's declaration form, as the diagnostics
/// use it: the form of a full type is qualified by its value class.
fn push_form_word(out: &mut Vec<u8>, form: DeclForm, kind: TypeKind)
    ensures
        final(out)@.len() >= old(out)@.len(),
{
    match form {
        DeclForm::FormType => match kind {
            TypeKind::IntegerKind => push_str_bytes(out, "integer type '"),
            TypeKind::RealKind => push_str_bytes(out, "real type '"),
            TypeKind::PhysicalKind => push_str_bytes(out, "physical type '"),
            _ => push_str_bytes(out, "type '"),
        },
        DeclForm::FormSubtype => push_str_bytes(out, "subtype '"),
        DeclForm::FormAlias => push_str_bytes(out, "alias '"),
    }
}

/// Appends the upper-case form of normalized name bytes.
fn push_upper(out: &mut Vec<u8>, name: &Designator)
    ensures
        final(out)@.len() >= old(out)@.len(),
{
    let n: usize = name.name.len();
    let mut i: usize = 0;
    while i < n
        invariant
            i <= n,
            n == name.name@.len(),
            out@.len() >= old(out)@.len(),
        decreases n - i,
    {
        let b = name.name[i];
        if 97 <= b && b <= 122 {
            out.push(b - 32);
        } else {
            out.push(b);
        }
        i = i + 1;
    }
}

/// Renders a subprogram signature, as in `fun1[NATURAL return NATURAL]` or
/// `fun1[return BOOLEAN]`.
fn render_sig(name: &Designator, sig: &SigInfo) -> (r: Vec<u8>) {
    let mut out: Vec<u8> = Vec::new();
    push_bytes(&mut out, &name.name);
    push_str_bytes(&mut out, "[");
    let n: usize = sig.params.len();
    let mut i: usize = 0;
    while i < n
        invariant
            i <= n,
            n == sig.params@.len(),
        decreases n - i,
    {
        if i > 0 {
            push_str_bytes(&mut out, ", ");
        }
        push_upper(&mut out, &sig.params[i].mark);
        i = i + 1;
    }
    if let Some(ret) = &sig.ret_mark {
        if sig.params.len() > 0 {
            push_str_bytes(&mut out, " return ");
        } else {
            push_str_bytes(&mut out, "return ");
        }
        push_upper(&mut out, ret);
    }
    push_str_bytes(&mut out, "]");
    out
}

impl Analyzer {
    /// The base type a declaration kind answers with, seen through
    /// aliases.
    fn base_of_decl(d: &AnyDeclaration, fuel: u64) -> (r: Option<Designator>)
        decreases fuel,
    {
        if fuel == 0 {
            return None;
        }
        match d {
            AnyDeclaration::AliasOf(inner) => Self::base_of_decl(inner, fuel - 1),
            AnyDeclaration::TypeDeclaration(td) => match &td.base {
                Some(b) => Some(b.dup()),
                None => None,
            },
            _ => None,
        }
    }

    /// The base type a bare designator denotes, when it resolves to a type
    /// whose base is known; the designator itself otherwise.
    fn base_of_designator(&self, scope: usize, d: &Designator) -> (r: Designator)
        requires
            self.wf(),
            scope < self.arena@.len(),
    {
        match lookup_within(&self.arena, scope, d) {
            Some((ri, di, declared)) => {
                let entry = if declared {
                    &self.arena[ri].decls[di]
                } else {
                    &self.arena[ri].visible[di]
                };
                let n = entry.data.len();
                let mut j: usize = 0;
                let mut found: Option<Designator> = None;
                while j < n
                    invariant
                        j <= n,
                        n == entry.data@.len(),
                    decreases n - j,
                {
                    match Self::base_of_decl(&entry.data[j].decl, 8) {
                        Some(b) => {
                            found = Some(b);
                            break;
                        },
                        None => {},
                    }
                    j = j + 1;
                }
                match found {
                    Some(b) => b,
                    None => d.dup(),
                }
            },
            None => d.dup(),
        }
    }

    /// The base type of a simple type mark, when the mark resolves to a
    /// type whose base is known; the mark's own designator otherwise.
    fn base_of_mark(&self, scope: usize, mark: &Name) -> (r: Option<Designator>)
        requires
            self.wf(),
            scope < self.arena@.len(),
    {
        match mark {
            Name::Simple(id) => Some(self.base_of_designator(scope, &id.name)),
            _ => None,
        }
    }

    /// The value class a declaration kind answers with, seen through
    /// aliases.
    fn kind_of_decl(d: &AnyDeclaration, fuel: u64) -> (r: Option<TypeKind>)
        decreases fuel,
    {
        if fuel == 0 {
            return None;
        }
        match d {
            AnyDeclaration::AliasOf(inner) => Self::kind_of_decl(inner, fuel - 1),
            AnyDeclaration::TypeDeclaration(td) => Some(td.kind),
            _ => None,
        }
    }

    /// The value class of a simple type mark, when the mark resolves to a
    /// type.
    fn kind_of_mark(&self, scope: usize, mark: &Name) -> (r: TypeKind)
        requires
            self.wf(),
            scope < self.arena@.len(),
    {
        match mark {
            Name::Simple(id) => {
                match lookup_within(&self.arena, scope, &id.name) {
                    Some((ri, di, declared)) => {
                        let entry = if declared {
                            &self.arena[ri].decls[di]
                        } else {
                            &self.arena[ri].visible[di]
                        };
                        let n = entry.data.len();
                        let mut j: usize = 0;
                        while j < n
                            invariant
                                j <= n,
                                n == entry.data@.len(),
                            decreases n - j,
                        {
                            match Self::kind_of_decl(&entry.data[j].decl, 8) {
                                Some(k) => {
                                    return k;
                                },
                                None => {},
                            }
                            j = j + 1;
                        }
                        TypeKind::OtherKind
                    },
                    None => TypeKind::OtherKind,
                }
            },
            _ => TypeKind::OtherKind,
        }
    }

    /// The declaration form, value class and origin of a declared type
    /// mark, for diagnostics that name the expected type.
    fn expected_note(&self, scope: usize, ind: &SubtypeInd) -> (r: Option<
        (DeclForm, TypeKind, bool),
    >)
        requires
            self.wf(),
            scope < self.arena@.len(),
    {
        let id = match &ind.mark {
            Name::Simple(id) => id,
            _ => {
                return None;
            },
        };
        let found = lookup_within(&self.arena, scope, &id.name);
        let (ri, di, declared) = match found {
            Some(t) => t,
            None => {
                return None;
            },
        };
        let entry = if declared {
            &self.arena[ri].decls[di]
        } else {
            &self.arena[ri].visible[di]
        };
        let n = entry.data.len();
        let mut j: usize = 0;
        while j < n
            invariant
                j <= n,
                n == entry.data@.len(),
                ri < self.arena@.len(),
            decreases n - j,
        {
            match Self::kind_of_decl(&entry.data[j].decl, 8) {
                Some(k) => {
                    let form = match &entry.data[j].decl {
                        AnyDeclaration::TypeDeclaration(td) => td.form,
                        AnyDeclaration::AliasOf(_) => DeclForm::FormAlias,
                        _ => DeclForm::FormType,
                    };
                    let builtin = ri == self.std_region || (ri == self.universe && !declared);
                    return Some((form, k, builtin));
                },
                None => {},
            }
            j = j + 1;
        }
        None
    }

    /// Checks a literal standing as an object's initial value against the
    /// declared type: the literal's class must agree with the type's value
    /// class, and a character literal against an enumeration must be one of
    /// its literals.  The diagnostic names the literal's class, the type,
    /// and the type's declaration form.
    fn check_literal_init(&mut self, scope: usize, ind: &SubtypeInd, e: &Expr)
        requires
            old(self).wf(),
            scope < old(self).arena@.len(),
        ensures
            final(self).wf(),
            final(self).arena@ == old(self).arena@,
            final(self).std_region == old(self).std_region,
            final(self).universe == old(self).universe,
            final(self).lib_region == old(self).lib_region,
    {
        self.check_literal_init_inner(scope, ind, e);
    }

    /// The class of literal standing as an initial value, where one does.
    fn literal_class(e: &Expr) -> (r: Option<(Pos, LitClass)>) {
        match e {
            Expr::IntLit(p) => Some((*p, LitClass::IntLit)),
            Expr::RealLit(p) => Some((*p, LitClass::RealLit)),
            Expr::CharLit(p, d) => Some((*p, LitClass::CharLit(d.dup()))),
            Expr::NullLit(p) => Some((*p, LitClass::NullLit)),
            Expr::StrLit(p) => Some((*p, LitClass::StrLit)),
            Expr::Aggregate(_, p) => Some((*p, LitClass::CompositeLit)),
            _ => None,
        }
    }

    /// The body of `check_literal_init`, split out so that the literal
    /// class is in hand before the declared type is inspected.
    fn check_literal_init_inner(&mut self, scope: usize, ind: &SubtypeInd, e: &Expr)
        requires
            old(self).wf(),
            scope < old(self).arena@.len(),
        ensures
            final(self).wf(),
            final(self).arena@ == old(self).arena@,
            final(self).std_region == old(self).std_region,
            final(self).universe == old(self).universe,
            final(self).lib_region == old(self).lib_region,
    {
        let (lit_pos, class) = match Self::literal_class(e) {
            Some(t) => t,
            None => {
                return;
            },
        };
        let (is_char, char_lit, is_null, is_real, is_string, is_composite): (
            bool,
            Option<Designator>,
            bool,
            bool,
            bool,
            bool,
        ) = match class {
            LitClass::IntLit => (false, None, false, false, false, false),
            LitClass::RealLit => (false, None, false, true, false, false),
            LitClass::CharLit(d) => (true, Some(d), false, false, false, false),
            LitClass::NullLit => (false, None, true, false, false, false),
            LitClass::StrLit => (false, None, false, false, true, false),
            LitClass::CompositeLit => (false, None, false, false, false, true),
        };
        let id = match &ind.mark {
            Name::Simple(id) => id,
            _ => {
                return;
            },
        };
        let found = lookup_within(&self.arena, scope, &id.name);
        let (ri, di, declared) = match found {
            Some(t) => t,
            None => {
                return;
            },
        };
        let mut kind: Option<TypeKind> = None;
        let mut form = DeclForm::FormType;
        let mut implicit: Option<usize> = None;
        {
            let entry = if declared {
                &self.arena[ri].decls[di]
            } else {
                &self.arena[ri].visible[di]
            };
            let n = entry.data.len();
            let mut j: usize = 0;
            while j < n
                invariant
                    j <= n,
                    n == entry.data@.len(),
                decreases n - j,
            {
                match Self::kind_of_decl(&entry.data[j].decl, 8) {
                    Some(k) => {
                        kind = Some(k);
                        match &entry.data[j].decl {
                            AnyDeclaration::TypeDeclaration(td) => {
                                form = td.form;
                                implicit = td.implicit;
                            },
                            AnyDeclaration::AliasOf(_) => {
                                form = DeclForm::FormAlias;
                            },
                            _ => {},
                        }
                        break;
                    },
                    None => {},
                }
                j = j + 1;
            }
        }
        let k = match kind {
            Some(k) => k,
            None => {
                return;
            },
        };
        let builtin = ri == self.std_region || (ri == self.universe && !declared);
        let ok: bool;
        if is_char {
            if k == TypeKind::CharacterKind {
                ok = true;
            } else if k == TypeKind::EnumKind {
                // the character must be one of the enumeration's literals
                let mut member = false;
                if let Some(ir) = implicit {
                    if ir < self.arena.len() {
                        if let Some(d3) = &char_lit {
                            member = find_entry(&self.arena[ir].decls, d3).is_some();
                        }
                    }
                }
                ok = member;
            } else {
                ok = false;
            }
        } else if is_null {
            ok = k == TypeKind::AccessKind;
        } else if is_real {
            ok = k == TypeKind::RealKind;
        } else if is_string {
            ok = k == TypeKind::ArrayKind;
        } else if is_composite {
            // a composite fits any array or record type; only the scalar
            // and access classes refuse it
            ok = k == TypeKind::ArrayKind || k == TypeKind::OtherKind;
        } else {
            ok = k == TypeKind::IntegerKind;
        }
        if ok {
            return;
        }
        let mut message: Vec<u8> = Vec::new();
        if is_composite {
            push_str_bytes(&mut message, "Composite does not match ");
        } else if is_char {
            push_str_bytes(&mut message, "character literal does not match ");
        } else if is_null {
            push_str_bytes(&mut message, "null literal does not match ");
        } else if is_real {
            push_str_bytes(&mut message, "real literal does not match ");
        } else if is_string {
            push_str_bytes(&mut message, "string literal does not match ");
        } else {
            push_str_bytes(&mut message, "integer literal does not match ");
        }
        push_form_word(&mut message, form, k);
        if builtin {
            push_upper(&mut message, &id.name);
        } else {
            push_bytes(&mut message, &id.name.name);
        }
        push_str_bytes(&mut message, "'");
        let d = Diagnostic {
            severity: Severity::Error,
            pos: lit_pos,
            code: DiagCode::NoDeclaration,
            message,
            related: Vec::new(),
        };
        self.diags.push(d);
    }

    /// The signature a subprogram header declares: parameter base types
    /// with their defaults, and the return base type.
    fn sig_of_head(&self, scope: usize, head: &SubpgmHead) -> (r: SigInfo)
        requires
            self.wf(),
            scope < self.arena@.len(),
    {
        let mut params: Vec<SigParam> = Vec::new();
        let n = head.params.len();
        let mut i: usize = 0;
        while i < n
            invariant
                i <= n,
                n == head.params@.len(),
                self.wf(),
                scope < self.arena@.len(),
            decreases n - i,
        {
            let obj = &head.params[i];
            let mark = match &obj.ind.mark {
                Name::Simple(id) => id.name.dup(),
                _ => des(""),
            };
            let has_default = obj.default.is_some();
            let m = obj.names.len();
            let mut j: usize = 0;
            while j < m
                invariant
                    j <= m,
                decreases m - j,
            {
                params.push(SigParam { mark: mark.dup(), has_default });
                j = j + 1;
            }
            i = i + 1;
        }
        let (ret_mark, ret_base) = match &head.ret {
            Some(mark) => {
                let written = match mark {
                    Name::Simple(id) => Some(id.name.dup()),
                    _ => None,
                };
                (written, self.base_of_mark(scope, mark))
            },
            None => (None, None),
        };
        SigInfo { params, ret_mark, ret_base }
    }

    /// Resolves the initial-value name of an object declaration: a
    /// non-overloadable name resolves as usual; an overloadable one goes
    /// through overload resolution against the declared type's base.  A
    /// unique match receives the reference; no match reports "Could not
    /// resolve" with one note per candidate; several matches report
    /// "Ambiguous use" with one note per remaining candidate, where a
    /// candidate whose parameters lack defaults cannot stand in an
    /// argument-less call.
    fn resolve_overloaded_init(
        &mut self,
        scope: usize,
        id: &Ident,
        expected: Option<Designator>,
        ind: &SubtypeInd,
    )
        requires
            old(self).wf(),
            scope < old(self).arena@.len(),
        ensures
            final(self).wf(),
            final(self).arena@ == old(self).arena@,
            final(self).std_region == old(self).std_region,
            final(self).universe == old(self).universe,
            final(self).lib_region == old(self).lib_region,
            ({
                let m = crate::region::within_model(old(self).arena@, scope as int, id.name@);
                &&& !crate::region::within_has(old(self).arena@, scope as int, id.name@) ==> {
                    &&& final(self).refs == old(self).refs
                    &&& final(self).diags@.len() == old(self).diags@.len() + 1
                    &&& old(self).diags@.is_prefix_of(final(self).diags@)
                    &&& final(self).diags@.last().code == DiagCode::NoDeclaration
                    &&& final(self).diags@.last().pos == id.pos
                }
                &&& (m matches Some(entry) ==> (!(entry.data@[0].decl is Overloaded)
                    ==> final(self).refs.entries@ == old(self).refs.entries@.push(
                    crate::reference::RefEntry { occ: id.pos, target: entry.data@[0].decl_pos },
                ) && final(self).diags@ == old(self).diags@))
                &&& (m matches Some(entry) ==> (entry.data@[0].decl is Overloaded && expected
                    is None ==> final(self).refs.entries@ == old(self).refs.entries@.push(
                    crate::reference::RefEntry { occ: id.pos, target: None },
                ) && final(self).diags@ == old(self).diags@))
            }),
    {
        let found = lookup_within(&self.arena, scope, &id.name);
        let (ri, di, declared) = match found {
            Some(t) => t,
            None => {
                self.no_declaration_of(id.pos, &id.name);
                return;
            },
        };
        // gather what the decision needs, so that the arena borrow ends
        // before diagnostics are written
        let mut candidates: Vec<(Option<Pos>, Vec<u8>, bool)> = Vec::new();
        let mut overloaded: bool;
        let mut all_sigs = true;
        {
            let entry = if declared {
                &self.arena[ri].decls[di]
            } else {
                &self.arena[ri].visible[di]
            };
            overloaded = entry.is_overloaded();
            if !overloaded {
                self.refs.set_reference(id.pos, entry);
                return;
            }
            let exp = match &expected {
                Some(e) => e,
                None => {
                    self.refs.clear_reference(id.pos);
                    return;
                },
            };
            let n = entry.data.len();
            let mut j: usize = 0;
            while j < n
                invariant
                    j <= n,
                    n == entry.data@.len(),
                decreases n - j,
            {
                let dd = &entry.data[j];
                match &dd.sig {
                    None => {
                        all_sigs = false;
                    },
                    Some(sig) => {
                        let mut callable = true;
                        let m = sig.params.len();
                        let mut k: usize = 0;
                        while k < m
                            invariant
                                k <= m,
                                m == sig.params@.len(),
                            decreases m - k,
                        {
                            if !sig.params[k].has_default {
                                callable = false;
                            }
                            k = k + 1;
                        }
                        let ret_matches = match &sig.ret_base {
                            Some(rb) => rb.eq_name(exp),
                            None => false,
                        };
                        let rendered = render_sig(&entry.designator, sig);
                        candidates.push((dd.decl_pos, rendered, callable && ret_matches));
                    },
                }
                j = j + 1;
            }
        }
        if !all_sigs {
            self.refs.clear_reference(id.pos);
            return;
        }
        let n = candidates.len();
        let mut match_count: usize = 0;
        let mut match_pos: Option<Pos> = None;
        let mut i: usize = 0;
        while i < n
            invariant
                i <= n,
                n == candidates@.len(),
            decreases n - i,
        {
            if candidates[i].2 {
                if match_count < usize::MAX {
                    match_count = match_count + 1;
                }
                match_pos = candidates[i].0;
            }
            i = i + 1;
        }
        if match_count == 1 {
            self.refs.set_reference_pos(id.pos, match_pos);
            return;
        }
        self.refs.clear_reference(id.pos);
        if match_count == 0 && n == 1 {
            // a single candidate that does not fit is reported as a plain
            // mismatch against the declared type
            if let Some((form, kind, builtin)) = self.expected_note(scope, ind) {
                if let Name::Simple(mid) = &ind.mark {
                    let mut message: Vec<u8> = Vec::new();
                    push_str_bytes(&mut message, "'");
                    push_bytes(&mut message, &id.name.name);
                    push_str_bytes(&mut message, "' does not match ");
                    push_form_word(&mut message, form, kind);
                    if builtin {
                        push_upper(&mut message, &mid.name);
                    } else {
                        push_bytes(&mut message, &mid.name.name);
                    }
                    push_str_bytes(&mut message, "'");
                    let d = Diagnostic {
                        severity: Severity::Error,
                        pos: id.pos,
                        code: DiagCode::CouldNotResolve,
                        message,
                        related: Vec::new(),
                    };
                    self.diags.push(d);
                    return;
                }
            }
        }
        if match_count == 0 {
            let mut d = Diagnostic::error(id.pos, "");
            let mut message: Vec<u8> = Vec::new();
            push_str_bytes(&mut message, "Could not resolve '");
            push_bytes(&mut message, &id.name.name);
            push_str_bytes(&mut message, "'");
            d.message = message;
            d.code = DiagCode::CouldNotResolve;
            let mut i2: usize = 0;
            while i2 < n
                invariant
                    i2 <= n,
                    n == candidates@.len(),
                decreases n - i2,
            {
                if let Some(p) = candidates[i2].0 {
                    let mut note: Vec<u8> = Vec::new();
                    push_str_bytes(&mut note, "Does not match ");
                    push_bytes(&mut note, &candidates[i2].1);
                    d.related.push(Related { pos: p, message: note });
                }
                i2 = i2 + 1;
            }
            self.diags.push(d);
        } else {
            let mut d = Diagnostic::error(id.pos, "");
            let mut message: Vec<u8> = Vec::new();
            push_str_bytes(&mut message, "Ambiguous use of '");
            push_bytes(&mut message, &id.name.name);
            push_str_bytes(&mut message, "'");
            d.message = message;
            d.code = DiagCode::AmbiguousUse;
            let mut i2: usize = 0;
            while i2 < n
                invariant
                    i2 <= n,
                    n == candidates@.len(),
                decreases n - i2,
            {
                if candidates[i2].2 {
                    if let Some(p) = candidates[i2].0 {
                        let mut note: Vec<u8> = Vec::new();
                        push_str_bytes(&mut note, "Migth be ");
                        push_bytes(&mut note, &candidates[i2].1);
                        d.related.push(Related { pos: p, message: note });
                    }
                }
                i2 = i2 + 1;
            }
            self.diags.push(d);
        }
    }
}

} // verus!
