//! The abstract syntax tree the parser produces and the resolver walks.
//!
//! Name expressions are the recursive variant at the center of resolution:
//! simple designators, selected names, call-or-indexed-or-sliced forms,
//! attributes and external names.  Every identifier occurrence carries its
//! source span, which the reference writer uses as the occurrence key.

use vstd::prelude::*;

use crate::decl::ObjectClass;
use crate::designator::Designator;
use crate::diag::Pos;

verus! {

/// One identifier occurrence: its normalized designator and source span.
pub struct Ident {
    pub name: Designator,
    pub pos: Pos,
}

/// A name expression.
pub enum Name {
    Simple(Ident),
    Selected(Box<Name>, Ident),
    SelectedAll(Box<Name>, Pos),
    /// A parenthesized suffix: indexing, slicing, a function call, a type
    /// conversion or a constraint; which one is decided during analysis.
    /// The position spans the whole parenthesized name.
    Call(Box<Name>, Vec<Association>, Pos),
    /// `prefix'attr`, with the optional parenthesized argument kept by the
    /// enclosing `Call`.
    Attr(Box<Name>, Designator, Pos),
    /// `<< class path : mark >>`: the path identifiers and the type mark.
    External(Vec<Ident>, Box<Name>),
}

pub enum ActualPart {
    ActualExpr(Box<Expr>),
    ActualRange(Box<RangeExpr>),
    ActualOpen,
}

/// One association element `formal => actual` of a call or map aspect.
pub struct Association {
    pub formal: Option<Ident>,
    pub actual: ActualPart,
}

pub enum RangeExpr {
    /// `a to b` or `a downto b`.
    Span(Box<Expr>, Box<Expr>),
    /// A single expression standing as a range, such as a `'range`
    /// attribute name.
    Single(Box<Expr>),
    /// The box `<>` of an unconstrained index.
    BoxRange,
}

pub enum Choice {
    ChExpr(Box<Expr>),
    ChRange(Box<RangeExpr>),
    ChOthers,
}

/// One element association of an aggregate.
pub struct ElemAssoc {
    pub choices: Vec<Choice>,
    pub expr: Box<Expr>,
}

pub enum Expr {
    /// A binary operation; the operator itself plays no role in name
    /// resolution.
    Binary(Box<Expr>, Box<Expr>),
    Unary(Box<Expr>),
    NameExpr(Box<Name>),
    IntLit(Pos),
    RealLit(Pos),
    StrLit(Pos),
    CharLit(Pos, Designator),
    NullLit(Pos),
    /// An abstract literal followed by a unit name, as in `0 ns`.
    Physical(Pos, Box<Name>),
    Aggregate(Vec<ElemAssoc>, Pos),
    /// `mark'(expr)`.
    Qualified(Box<Name>, Box<Expr>),
    /// `new subtype` or `new mark'(aggregate)`.
    NewExpr(Box<Expr>),
}

pub enum ConstraintItem {
    ItemRange(RangeExpr),
    ItemOpen,
    /// A record element constraint `element(ranges)`: the element name is
    /// left for the close checks of richer analyses, the ranges resolve.
    ItemElem(Ident, Vec<RangeExpr>),
    ItemExpr(Expr),
}

/// One parenthesized constraint group after a type mark.
pub struct ConstraintGroup {
    pub items: Vec<ConstraintItem>,
}

/// A subtype indication: a type mark, an optional range constraint, and
/// parenthesized constraint groups.
pub struct SubtypeInd {
    pub mark: Name,
    pub range_c: Option<RangeExpr>,
    pub groups: Vec<ConstraintGroup>,
}

/// One interface object of a generic, port or parameter list.
pub struct InterfaceObject {
    pub class: Option<ObjectClass>,
    pub names: Vec<Ident>,
    pub ind: SubtypeInd,
    pub default: Option<Expr>,
}

pub enum IndexDef {
    IdxRange(RangeExpr),
    /// `mark range <>`.
    IdxMarkBox(Name),
    /// `mark range a to b`.
    IdxMarkRange(Name, RangeExpr),
}

pub struct RecordField {
    pub names: Vec<Ident>,
    pub ind: SubtypeInd,
}

pub enum TypeDef {
    Incomplete,
    IntegerDef(RangeExpr),
    EnumDef(Vec<Ident>),
    ArrayDef(Vec<IndexDef>, Box<SubtypeInd>),
    RecordDef(Vec<RecordField>),
    AccessDef(Box<SubtypeInd>),
    FileDef(Name),
    ProtectedDef(Vec<Declaration>),
    ProtectedBodyDef(Vec<Declaration>),
}

/// The header of a subprogram.
pub struct SubpgmHead {
    pub is_function: bool,
    pub name: Ident,
    pub params: Vec<InterfaceObject>,
    pub ret: Option<Name>,
}

/// An alias signature `[marks return mark]` with its bracketed span.
pub struct Signature {
    pub args: Vec<Name>,
    pub ret: Option<Name>,
    pub pos: Pos,
}

pub enum Declaration {
    ObjectDecl { class: ObjectClass, names: Vec<Ident>, ind: SubtypeInd, init: Option<Expr> },
    TypeDecl { name: Ident, def: TypeDef },
    SubtypeDecl { name: Ident, ind: SubtypeInd },
    SubpgmDecl { head: SubpgmHead },
    SubpgmBody { head: SubpgmHead, decls: Vec<Declaration>, stmts: Vec<SeqStmt> },
    AliasDecl { name: Ident, target: Name, signature: Option<Signature> },
    ComponentDecl { name: Ident, generics: Vec<InterfaceObject>, ports: Vec<InterfaceObject> },
    UseDecl(Vec<Name>),
}

pub enum Target {
    TargetName(Name),
    TargetAggregate(Vec<ElemAssoc>),
}

/// A conditional right-hand-side alternative: a value, an optional delay,
/// and the condition guarding it; the final alternative has none.
pub struct CondValue {
    pub value: Expr,
    pub after: Option<Expr>,
    pub cond: Option<Expr>,
}

/// One alternative of a selected assignment.
pub struct SelValue {
    pub value: Expr,
    pub choices: Vec<Choice>,
}

pub enum Rhs {
    RhsSimple(Expr, Option<Expr>),
    RhsCond(Vec<CondValue>),
    RhsSelected(Box<Expr>, Vec<SelValue>),
    RhsForce(Expr),
    RhsRelease,
}

pub enum SeqStmt {
    VarAssign(Target, Rhs),
    SigAssign(Target, Rhs),
    ProcCallStmt(Name),
    IfStmt(Vec<IfArm>, Option<Vec<SeqStmt>>),
    ForStmt(Ident, RangeExpr, Vec<SeqStmt>),
    WhileStmt(Option<Expr>, Vec<SeqStmt>),
    NextStmt(Option<Expr>),
    ExitStmt(Option<Expr>),
    CaseStmt(Box<Expr>, Vec<CaseArm>),
    WaitStmt(Vec<Name>, Option<Expr>, Option<Expr>),
    ReportStmt(Expr, Option<Expr>),
    AssertStmt(Expr, Option<Expr>, Option<Expr>),
    ReturnStmt(Option<Expr>),
    NullStmt,
}

pub struct IfArm {
    pub cond: Expr,
    pub body: Vec<SeqStmt>,
}

pub struct CaseArm {
    pub choices: Vec<Choice>,
    pub body: Vec<SeqStmt>,
}

pub enum InstKind {
    InstEntity,
    InstComponent,
    InstPlain,
}

pub enum ConcStmt {
    ProcessStmt {
        label: Option<Ident>,
        sensitivity: Vec<Name>,
        decls: Vec<Declaration>,
        stmts: Vec<SeqStmt>,
    },
    ConcAssign { label: Option<Ident>, target: Target, rhs: Rhs },
    ConcProcCall { label: Option<Ident>, call: Name },
    ConcAssert { label: Option<Ident>, cond: Expr, report: Option<Expr>, severity: Option<Expr> },
    BlockStmt {
        label: Option<Ident>,
        guard: Option<Expr>,
        generics: Vec<InterfaceObject>,
        generic_map: Vec<Association>,
        ports: Vec<InterfaceObject>,
        port_map: Vec<Association>,
        decls: Vec<Declaration>,
        stmts: Vec<ConcStmt>,
    },
    InstanceStmt {
        label: Ident,
        kind: InstKind,
        name: Name,
        generic_map: Vec<Association>,
        port_map: Vec<Association>,
    },
    ForGenerate { label: Option<Ident>, param: Ident, range: RangeExpr, body: Vec<ConcStmt> },
    IfGenerate { label: Option<Ident>, arms: Vec<GenArm>, else_arm: Option<GenAlt> },
}

/// One condition arm of an if-generate, with its optional alternative
/// label.
pub struct GenArm {
    pub alt_label: Option<Ident>,
    pub cond: Expr,
    pub body: Vec<ConcStmt>,
}

/// The else arm of an if-generate.
pub struct GenAlt {
    pub alt_label: Option<Ident>,
    pub body: Vec<ConcStmt>,
}

pub enum ContextItem {
    LibraryClause(Vec<Ident>),
    UseClause(Vec<Name>),
}

pub enum Unit {
    EntityUnit {
        name: Ident,
        generics: Vec<InterfaceObject>,
        ports: Vec<InterfaceObject>,
        decls: Vec<Declaration>,
        stmts: Vec<ConcStmt>,
    },
    ArchUnit { name: Ident, entity: Ident, decls: Vec<Declaration>, stmts: Vec<ConcStmt> },
    PackageUnit { name: Ident, decls: Vec<Declaration> },
    PackageBodyUnit { name: Ident, decls: Vec<Declaration> },
}

/// One design unit with the context clause that precedes it.
pub struct DesignUnit {
    pub context: Vec<ContextItem>,
    pub unit: Unit,
}

/// A parsed source text: its design units in source order.
pub struct DesignFile {
    pub units: Vec<DesignUnit>,
}

} // verus!
