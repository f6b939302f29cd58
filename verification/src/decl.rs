//! Declaration kinds and the entries a declarative region stores.
//!
//! `AnyDeclaration` is the tagged variant of what a name can denote.  A
//! `VisibleDeclaration` couples a designator with a non-empty ordered list
//! of definition sites; overloadable designators may accumulate several
//! entries, while non-overloadable designators accumulate a second entry
//! only for the legal completion pairs (incomplete type before full type,
//! deferred constant before full constant, protected type before protected
//! body).  The first entry is always the primary declaration used as the
//! target of go-to-definition.

use vstd::prelude::*;

use crate::designator::Designator;
use crate::diag::Pos;

verus! {

/// The declaration form of a type name, which the diagnostics name: a
/// type, a subtype, or an alias of one.
#[derive(Clone, Copy, PartialEq, Eq, Structural, Debug)]
pub enum DeclForm {
    FormType,
    FormSubtype,
    FormAlias,
}

/// The value class of a type, which literal checking consults.
#[derive(Clone, Copy, PartialEq, Eq, Structural, Debug)]
pub enum TypeKind {
    IntegerKind,
    RealKind,
    PhysicalKind,
    EnumKind,
    CharacterKind,
    AccessKind,
    ArrayKind,
    OtherKind,
}

/// Structural information the resolver keeps about a type, so that selected
/// names, implicit dereferences and indexing can be checked.  Region indices
/// point into the analyzer's region arena.
pub enum TypeDetail {
    /// A record type: the region of its element declarations, and the base
    /// type name used in diagnostics.
    Record(usize, Designator),
    /// An access type: the region in which its designated mark was declared,
    /// and that mark, looked up again at use sites so that an incomplete
    /// designated type can be completed later.
    Access(usize, Designator),
    /// An array type: its number of index dimensions, its name, and the
    /// position of its declaration, for related notes on dimension checks.
    Array(usize, Designator, Option<Pos>),
    /// A protected type: the region of its methods and its name.
    Protected(usize, Designator),
    /// A scalar or otherwise structureless type, remembered with its name,
    /// declaration form and value class so that illegal indexing and
    /// slicing can name it.
    Named(Designator, DeclForm, TypeKind),
    /// A type nothing further is known about.
    Plain,
}

/// What a designator denotes.
pub enum AnyDeclaration {
    /// An alias; behaves as its target for visibility promotion.
    AliasOf(Box<AnyDeclaration>),
    /// Objects, labels and parameters without richer semantics.
    Other,
    /// An object whose type the resolver tracked, so that selected names and
    /// indexed names through it can be resolved.
    TypedObject(TypeDetail),
    /// One or more overloadable subprograms or enumeration literals.
    Overloaded,
    /// A type; may carry an implicit region of member declarations that
    /// become visible with the type, such as enumeration literals.
    TypeDeclaration(TypeData),
    IncompleteType,
    Constant,
    DeferredConstant,
    /// The region of the protected type declaration, extended by its body.
    ProtectedType(usize),
    ProtectedTypeBody,
    Library(Designator),
    /// Unit id and region index of the unit's declarative region.
    Entity(usize, usize),
    Configuration(usize, usize),
    Package(usize, usize),
    UninstPackage(usize, usize),
    PackageInstance(usize, usize),
    Context(usize, usize),
    LocalPackageInstance(Designator, usize),
}

/// The payload of a type declaration.
pub struct TypeData {
    /// Region of implicit member declarations made visible with the type.
    pub implicit: Option<usize>,
    /// Structural information for the resolver.
    pub detail: TypeDetail,
    /// The base type's designator: a type is its own base, a subtype and
    /// an alias answer with the base of what they name.  Overload
    /// resolution compares signatures by base types.
    pub base: Option<Designator>,
    /// Whether the declaration is a type or a subtype, for diagnostics
    /// that name its form.
    pub form: DeclForm,
    /// The value class, inherited by subtypes from their base marks.
    pub kind: TypeKind,
}

/// Equality of type details up to designator views.
pub open spec fn detail_eq(a: TypeDetail, b: TypeDetail) -> bool {
    match (a, b) {
        (TypeDetail::Record(ra, da), TypeDetail::Record(rb, db)) => ra == rb && da@ == db@,
        (TypeDetail::Access(ra, da), TypeDetail::Access(rb, db)) => ra == rb && da@ == db@,
        (TypeDetail::Array(na, da, pa), TypeDetail::Array(nb, db, pb)) => na == nb && da@ == db@
            && pa == pb,
        (TypeDetail::Protected(ra, da), TypeDetail::Protected(rb, db)) => ra == rb && da@ == db@,
        (TypeDetail::Named(da, fa, ka), TypeDetail::Named(db, fb, kb)) => da@ == db@ && fa == fb
            && ka == kb,
        (TypeDetail::Plain, TypeDetail::Plain) => true,
        _ => false,
    }
}

/// Equality of declaration kinds up to designator views.
pub open spec fn decl_eq(a: AnyDeclaration, b: AnyDeclaration) -> bool
    decreases a,
{
    match (a, b) {
        (AnyDeclaration::AliasOf(xa), AnyDeclaration::AliasOf(xb)) => decl_eq(*xa, *xb),
        (AnyDeclaration::Other, AnyDeclaration::Other) => true,
        (AnyDeclaration::TypedObject(da), AnyDeclaration::TypedObject(db)) => detail_eq(da, db),
        (AnyDeclaration::Overloaded, AnyDeclaration::Overloaded) => true,
        (AnyDeclaration::TypeDeclaration(ta), AnyDeclaration::TypeDeclaration(tb)) => {
            ta.implicit == tb.implicit && detail_eq(ta.detail, tb.detail) && ta.form == tb.form
                && ta.kind == tb.kind && (match (ta.base, tb.base) {
                (Some(da), Some(db)) => da@ == db@,
                (None, None) => true,
                _ => false,
            })
        },
        (AnyDeclaration::IncompleteType, AnyDeclaration::IncompleteType) => true,
        (AnyDeclaration::Constant, AnyDeclaration::Constant) => true,
        (AnyDeclaration::DeferredConstant, AnyDeclaration::DeferredConstant) => true,
        (AnyDeclaration::ProtectedType(ra), AnyDeclaration::ProtectedType(rb)) => ra == rb,
        (AnyDeclaration::ProtectedTypeBody, AnyDeclaration::ProtectedTypeBody) => true,
        (AnyDeclaration::Library(da), AnyDeclaration::Library(db)) => da@ == db@,
        (AnyDeclaration::Entity(ua, ra), AnyDeclaration::Entity(ub, rb)) => ua == ub && ra == rb,
        (AnyDeclaration::Configuration(ua, ra), AnyDeclaration::Configuration(ub, rb)) => {
            ua == ub && ra == rb
        },
        (AnyDeclaration::Package(ua, ra), AnyDeclaration::Package(ub, rb)) => ua == ub && ra == rb,
        (AnyDeclaration::UninstPackage(ua, ra), AnyDeclaration::UninstPackage(ub, rb)) => {
            ua == ub && ra == rb
        },
        (AnyDeclaration::PackageInstance(ua, ra), AnyDeclaration::PackageInstance(ub, rb)) => {
            ua == ub && ra == rb
        },
        (AnyDeclaration::Context(ua, ra), AnyDeclaration::Context(ub, rb)) => ua == ub && ra == rb,
        (
            AnyDeclaration::LocalPackageInstance(da, ra),
            AnyDeclaration::LocalPackageInstance(db, rb),
        ) => da@ == db@ && ra == rb,
        _ => false,
    }
}

/// Copies a type detail.
pub fn dup_detail(d: &TypeDetail) -> (r: TypeDetail)
    ensures
        detail_eq(r, *d),
{
    match d {
        TypeDetail::Record(ra, da) => TypeDetail::Record(*ra, da.dup()),
        TypeDetail::Access(ra, da) => TypeDetail::Access(*ra, da.dup()),
        TypeDetail::Array(na, da, pa) => TypeDetail::Array(*na, da.dup(), *pa),
        TypeDetail::Protected(ra, da) => TypeDetail::Protected(*ra, da.dup()),
        TypeDetail::Named(da, fa, ka) => TypeDetail::Named(da.dup(), *fa, *ka),
        TypeDetail::Plain => TypeDetail::Plain,
    }
}

/// Copies a declaration kind.
pub fn dup_decl(d: &AnyDeclaration) -> (r: AnyDeclaration)
    ensures
        decl_eq(r, *d),
    decreases *d,
{
    match d {
        AnyDeclaration::AliasOf(x) => AnyDeclaration::AliasOf(Box::new(dup_decl(x))),
        AnyDeclaration::Other => AnyDeclaration::Other,
        AnyDeclaration::TypedObject(t) => AnyDeclaration::TypedObject(dup_detail(t)),
        AnyDeclaration::Overloaded => AnyDeclaration::Overloaded,
        AnyDeclaration::TypeDeclaration(t) => AnyDeclaration::TypeDeclaration(
            TypeData {
                implicit: t.implicit,
                detail: dup_detail(&t.detail),
                base: match &t.base {
                    Some(b) => Some(b.dup()),
                    None => None,
                },
                form: t.form,
                kind: t.kind,
            },
        ),
        AnyDeclaration::IncompleteType => AnyDeclaration::IncompleteType,
        AnyDeclaration::Constant => AnyDeclaration::Constant,
        AnyDeclaration::DeferredConstant => AnyDeclaration::DeferredConstant,
        AnyDeclaration::ProtectedType(r) => AnyDeclaration::ProtectedType(*r),
        AnyDeclaration::ProtectedTypeBody => AnyDeclaration::ProtectedTypeBody,
        AnyDeclaration::Library(da) => AnyDeclaration::Library(da.dup()),
        AnyDeclaration::Entity(u, r) => AnyDeclaration::Entity(*u, *r),
        AnyDeclaration::Configuration(u, r) => AnyDeclaration::Configuration(*u, *r),
        AnyDeclaration::Package(u, r) => AnyDeclaration::Package(*u, *r),
        AnyDeclaration::UninstPackage(u, r) => AnyDeclaration::UninstPackage(*u, *r),
        AnyDeclaration::PackageInstance(u, r) => AnyDeclaration::PackageInstance(*u, *r),
        AnyDeclaration::Context(u, r) => AnyDeclaration::Context(*u, *r),
        AnyDeclaration::LocalPackageInstance(da, r) => {
            AnyDeclaration::LocalPackageInstance(da.dup(), *r)
        },
    }
}

impl AnyDeclaration {
    /// Whether this is a deferred constant.
    #[verifier::allow_in_spec]
    pub fn is_deferred_constant(&self) -> bool
        returns
            *self is DeferredConstant,
    {
        match self {
            AnyDeclaration::DeferredConstant => true,
            _ => false,
        }
    }

    /// Whether this is a full, non-deferred constant.
    #[verifier::allow_in_spec]
    pub fn is_non_deferred_constant(&self) -> bool
        returns
            *self is Constant,
    {
        match self {
            AnyDeclaration::Constant => true,
            _ => false,
        }
    }

    /// Whether this is a protected type declaration.
    #[verifier::allow_in_spec]
    pub fn is_protected_type(&self) -> bool
        returns
            *self is ProtectedType,
    {
        match self {
            AnyDeclaration::ProtectedType(..) => true,
            _ => false,
        }
    }

    /// Whether this is a protected type body.
    #[verifier::allow_in_spec]
    pub fn is_protected_type_body(&self) -> bool
        returns
            *self is ProtectedTypeBody,
    {
        match self {
            AnyDeclaration::ProtectedTypeBody => true,
            _ => false,
        }
    }

    /// Whether this is an incomplete type declaration.
    #[verifier::allow_in_spec]
    pub fn is_incomplete_type(&self) -> bool
        returns
            *self is IncompleteType,
    {
        match self {
            AnyDeclaration::IncompleteType => true,
            _ => false,
        }
    }

    /// Whether this is a full type declaration.
    #[verifier::allow_in_spec]
    pub fn is_type_declaration(&self) -> bool
        returns
            *self is TypeDeclaration,
    {
        match self {
            AnyDeclaration::TypeDeclaration(..) => true,
            _ => false,
        }
    }

    /// Whether this is an overloadable bucket.
    #[verifier::allow_in_spec]
    pub fn is_overloaded_kind(&self) -> bool
        returns
            *self is Overloaded,
    {
        match self {
            AnyDeclaration::Overloaded => true,
            _ => false,
        }
    }
}

/// The classes an object declaration can have.
#[derive(Clone, Copy, PartialEq, Eq, Structural, Debug)]
pub enum ObjectClass {
    Constant,
    Signal,
    Variable,
    SharedVariable,
    File,
}

/// The part of an object declaration the region logic inspects: its class
/// and whether an initial expression was given.
pub struct ObjectDeclaration {
    pub class: ObjectClass,
    pub has_expression: bool,
}

impl AnyDeclaration {
    /// The declaration kind of an object declaration: a constant without an
    /// initial expression is deferred, one with an expression is a full
    /// constant, and every other object is unclassified.
    pub fn from_object_declaration(decl: &ObjectDeclaration) -> (r: AnyDeclaration)
        ensures
            r == (if decl.class == ObjectClass::Constant {
                if decl.has_expression {
                    AnyDeclaration::Constant
                } else {
                    AnyDeclaration::DeferredConstant
                }
            } else {
                AnyDeclaration::Other
            }),
    {
        match decl.class {
            ObjectClass::Constant => {
                if decl.has_expression {
                    AnyDeclaration::Constant
                } else {
                    AnyDeclaration::DeferredConstant
                }
            },
            _ => AnyDeclaration::Other,
        }
    }
}

/// One parameter of a recorded subprogram signature: its base type and
/// whether the parameter carries a default, which lets it be absent from a
/// call.
pub struct SigParam {
    /// The parameter's type mark as written, for rendering.
    pub mark: Designator,
    pub has_default: bool,
}

/// The signature of one overloadable definition site: the parameter marks,
/// and the return type as written and as a base type; an enumeration
/// literal is a parameterless function of its type.
pub struct SigInfo {
    pub params: Vec<SigParam>,
    pub ret_mark: Option<Designator>,
    pub ret_base: Option<Designator>,
}

/// Equality of signatures up to designator views.
pub open spec fn sig_eq(a: SigInfo, b: SigInfo) -> bool {
    &&& a.params@.len() == b.params@.len()
    &&& forall|i: int|
        0 <= i < a.params@.len() ==> (#[trigger] a.params@[i]).mark@ == b.params@[i].mark@
            && a.params@[i].has_default == b.params@[i].has_default
    &&& match (a.ret_mark, b.ret_mark) {
        (Some(ra), Some(rb)) => ra@ == rb@,
        (None, None) => true,
        _ => false,
    }
    &&& match (a.ret_base, b.ret_base) {
        (Some(ra), Some(rb)) => ra@ == rb@,
        (None, None) => true,
        _ => false,
    }
}

/// Copies a signature.
pub fn dup_sig(s: &SigInfo) -> (r: SigInfo)
    ensures
        sig_eq(r, *s),
{
    let n: usize = s.params.len();
    let mut params: Vec<SigParam> = Vec::new();
    let mut i: usize = 0;
    while i < n
        invariant
            i <= n,
            n == s.params@.len(),
            params@.len() == i,
            forall|j: int|
                0 <= j < i ==> (#[trigger] params@[j]).mark@ == s.params@[j].mark@
                    && params@[j].has_default == s.params@[j].has_default,
        decreases n - i,
    {
        params.push(
            SigParam { mark: s.params[i].mark.dup(), has_default: s.params[i].has_default },
        );
        i = i + 1;
    }
    SigInfo {
        params,
        ret_mark: match &s.ret_mark {
            Some(r2) => Some(r2.dup()),
            None => None,
        },
        ret_base: match &s.ret_base {
            Some(r2) => Some(r2.dup()),
            None => None,
        },
    }
}

/// A single definition site: its source position, when it has one, and what
/// it declares.  Builtin and implicit declarations have no position.
pub struct AnyDeclarationData {
    pub decl_pos: Option<Pos>,
    pub decl: AnyDeclaration,
    /// The resolver's note of the declared object's type, where selected
    /// and indexed names need it.
    pub typ: Option<TypeDetail>,
    /// The recorded signature of an overloadable definition site, used by
    /// overload resolution.
    pub sig: Option<SigInfo>,
}

/// Equality of definition sites up to designator views.
pub open spec fn data_eq(a: AnyDeclarationData, b: AnyDeclarationData) -> bool {
    &&& a.decl_pos == b.decl_pos
    &&& decl_eq(a.decl, b.decl)
    &&& match (a.typ, b.typ) {
        (Some(ta), Some(tb)) => detail_eq(ta, tb),
        (None, None) => true,
        _ => false,
    }
    &&& match (a.sig, b.sig) {
        (Some(sa), Some(sb)) => sig_eq(sa, sb),
        (None, None) => true,
        _ => false,
    }
}

/// Copies a definition site.
pub fn dup_data(d: &AnyDeclarationData) -> (r: AnyDeclarationData)
    ensures
        data_eq(r, *d),
{
    AnyDeclarationData {
        decl_pos: d.decl_pos,
        decl: dup_decl(&d.decl),
        typ: match &d.typ {
            Some(t) => Some(dup_detail(t)),
            None => None,
        },
        sig: match &d.sig {
            Some(s) => Some(dup_sig(s)),
            None => None,
        },
    }
}

/// The legal completion pairs: a deferred constant is completed by a full
/// constant, a protected type by a protected body, and an incomplete type by
/// a full type declaration.
pub open spec fn completes(prev: AnyDeclaration, later: AnyDeclaration) -> bool {
    ||| (prev is DeferredConstant && later is Constant)
    ||| (prev is ProtectedType && later is ProtectedTypeBody)
    ||| (prev is IncompleteType && later is TypeDeclaration)
}

/// A designator together with a non-empty ordered list of definition sites.
pub struct VisibleDeclaration {
    pub designator: Designator,
    pub data: Vec<AnyDeclarationData>,
}

/// Equality of visible declarations up to designator views.
pub open spec fn vd_eq(a: VisibleDeclaration, b: VisibleDeclaration) -> bool {
    &&& a.designator@ == b.designator@
    &&& a.data@.len() == b.data@.len()
    &&& forall|j: int| 0 <= j < a.data@.len() ==> data_eq(a.data@[j], b.data@[j])
}

/// Copies a visible declaration.
pub fn dup_vd(v: &VisibleDeclaration) -> (r: VisibleDeclaration)
    ensures
        vd_eq(r, *v),
{
    let n: usize = v.data.len();
    let mut data: Vec<AnyDeclarationData> = Vec::new();
    let mut i: usize = 0;
    while i < n
        invariant
            i <= n,
            n == v.data@.len(),
            data@.len() == i,
            forall|j: int| 0 <= j < i ==> data_eq(data@[j], v.data@[j]),
        decreases n - i,
    {
        data.push(dup_data(&v.data[i]));
        i = i + 1;
    }
    VisibleDeclaration { designator: v.designator.dup(), data }
}

/// Whether an entry list is a legal accumulation: past the first entry,
/// either everything in the bucket is overloadable, or each entry completes
/// every entry before it through a legal completion pair.
pub open spec fn chain_legal_seq(s: Seq<AnyDeclarationData>) -> bool {
    forall|j: int|
        1 <= j < s.len() ==> ((s[0].decl is Overloaded && (#[trigger] s[j]).decl is Overloaded)
            || (forall|k: int| 0 <= k < j ==> completes((#[trigger] s[k]).decl, s[j].decl)))
}

impl VisibleDeclaration {
    /// Whether the entry list is a legal accumulation.
    pub open spec fn chain_legal(self) -> bool {
        chain_legal_seq(self.data@)
    }

    /// A well-formed visible declaration: at least one entry, legally
    /// accumulated.
    pub open spec fn wf(self) -> bool {
        self.data@.len() >= 1 && self.chain_legal()
    }

    /// A fresh visible declaration for one definition site.
    pub fn new(designator: Designator, pos: Pos, decl: AnyDeclaration) -> (r: VisibleDeclaration)
        ensures
            r.wf(),
            r.designator@ == designator@,
            r.data@.len() == 1,
            r.data@[0].decl_pos == Some(pos),
            r.data@[0].decl == decl,
    {
        let mut data: Vec<AnyDeclarationData> = Vec::new();
        data.push(AnyDeclarationData { decl_pos: Some(pos), decl, typ: None, sig: None });
        VisibleDeclaration { designator, data }
    }

    /// The primary definition site.
    pub fn first(&self) -> (r: &AnyDeclaration)
        requires
            self.data@.len() >= 1,
        ensures
            *r == self.data@[0].decl,
    {
        &self.data[0].decl
    }

    /// The primary declaration position, used as the target of
    /// go-to-definition.
    pub fn first_pos(&self) -> (r: Option<Pos>)
        requires
            self.data@.len() >= 1,
        ensures
            r == self.data@[0].decl_pos,
    {
        self.data[0].decl_pos
    }

    /// The second definition site, when the bucket holds one.
    pub fn second(&self) -> (r: Option<&AnyDeclaration>)
        ensures
            match r {
                Some(d) => self.data@.len() >= 2 && *d == self.data@[1].decl,
                None => self.data@.len() < 2,
            },
    {
        if self.data.len() >= 2 {
            Some(&self.data[1].decl)
        } else {
            None
        }
    }

    /// Whether this designator denotes an overloadable bucket.
    pub fn is_overloaded(&self) -> (r: bool)
        requires
            self.data@.len() >= 1,
        ensures
            r == (self.data@[0].decl is Overloaded),
    {
        self.first().is_overloaded_kind()
    }

    /// Looks for a prior definition site that the new declaration `self`
    /// would illegally duplicate.  Returns the index of such a site in
    /// `prev`, or `None` when the addition is legal: either both buckets are
    /// overloadable, or the first entry of `self` completes every prior
    /// entry.
    pub fn find_duplicate_of(&self, prev: &VisibleDeclaration) -> (r: Option<usize>)
        requires
            self.data@.len() >= 1,
            prev.data@.len() >= 1,
        ensures
            match r {
                Some(k) => {
                    &&& k < prev.data@.len()
                    &&& !(self.data@[0].decl is Overloaded && prev.data@[0].decl is Overloaded)
                    &&& !completes(prev.data@[k as int].decl, self.data@[0].decl)
                },
                None => (self.data@[0].decl is Overloaded && prev.data@[0].decl is Overloaded)
                    || (forall|k: int|
                    0 <= k < prev.data@.len() ==> completes(
                        #[trigger] prev.data@[k].decl,
                        self.data@[0].decl,
                    )),
            },
    {
        if self.is_overloaded() && prev.is_overloaded() {
            return None;
        }
        let n: usize = prev.data.len();
        let mut k: usize = 0;
        while k < n
            invariant
                k <= n,
                n == prev.data@.len(),
                self.data@.len() >= 1,
                forall|j: int| 0 <= j < k ==> completes(
                    #[trigger] prev.data@[j].decl,
                    self.data@[0].decl,
                ),
                !(self.data@[0].decl is Overloaded && prev.data@[0].decl is Overloaded),
            decreases n - k,
        {
            let later = self.first();
            let prior = &prev.data[k].decl;
            let ok = match prior {
                AnyDeclaration::DeferredConstant => later.is_non_deferred_constant(),
                AnyDeclaration::ProtectedType(..) => later.is_protected_type_body(),
                AnyDeclaration::IncompleteType => later.is_type_declaration(),
                _ => false,
            };
            if !ok {
                return Some(k);
            }
            k = k + 1;
        }
        None
    }
}

} // verus!
