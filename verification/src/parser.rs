//! A recursive-descent parser for the analyzed language subset.
//!
//! The parser is resolution-oriented: it keeps every name occurrence with
//! its span and every structure the resolver needs, and is permissive about
//! everything else.  Each recursive entry point takes a fuel bound, amply
//! derived from the token count, so that recursion visibly terminates; a
//! malformed input is reported once as a syntax error and the rest of the
//! text is skipped to the next semicolon.

use vstd::prelude::*;

use crate::ast::{
    ActualPart, Association, CaseArm, Choice, ConcStmt, ConstraintGroup, ConstraintItem,
    ContextItem, CondValue, Declaration, DesignFile, DesignUnit, ElemAssoc, Expr, GenAlt, GenArm,
    Ident, IfArm, IndexDef, InstKind, InterfaceObject, Name, RangeExpr, RecordField, Rhs, SelValue,
    SeqStmt, Signature, SubpgmHead, SubtypeInd, Target, TypeDef, Unit,
};
use crate::decl::ObjectClass;
use crate::designator::Designator;
use crate::diag::{DiagCode, Diagnostic, Pos, Severity};
use crate::lexer::{Kw, Token, TK};

verus! {

/// The parser state: the token stream, a cursor, and the diagnostics
/// produced so far.
pub struct Parser {
    pub toks: Vec<Token>,
    pub pos: usize,
    pub diags: Vec<Diagnostic>,
    pub failed: bool,
}

/// What can follow a parsed expression when a range was allowed: either a
/// range or the expression itself.
pub enum Roe {
    R(RangeExpr),
    E(Expr),
}

impl Parser {
    /// The cursor never runs past the token stream.
    pub open spec fn inv(self) -> bool {
        self.pos <= self.toks@.len()
    }

    pub fn new(toks: Vec<Token>) -> (p: Parser)
        ensures
            p.inv(),
            p.toks == toks,
            p.pos == 0,
            p.diags@.len() == 0,
    {
        Parser { toks, pos: 0, diags: Vec::new(), failed: false }
    }

    /// The kind of the token `k` places ahead, or a semicolon stand-in at
    /// the end of the stream.
    fn peek_at(&self, k: usize) -> (r: Option<TK>)
        requires
            self.inv(),
    {
        let n = self.toks.len();
        if self.pos < n && n - self.pos > k {
            Some(self.toks[self.pos + k].kind)
        } else {
            None
        }
    }

    fn peek(&self) -> (r: Option<TK>)
        requires
            self.inv(),
    {
        self.peek_at(0)
    }

    /// Whether the current token has the given kind.
    fn at(&self, k: TK) -> (r: bool)
        requires
            self.inv(),
        ensures
            r ==> self.pos < self.toks@.len(),
    {
        if self.pos < self.toks.len() {
            self.toks[self.pos].kind == k
        } else {
            false
        }
    }

    fn at_kw(&self, k: Kw) -> (r: bool)
        requires
            self.inv(),
        ensures
            r ==> self.pos < self.toks@.len(),
    {
        self.at(TK::Word(k))
    }

    /// The span of the current token, or an empty span at the end.
    fn here(&self) -> (r: Pos)
        requires
            self.inv(),
    {
        if self.pos < self.toks.len() {
            let t = &self.toks[self.pos];
            Pos { start: t.start, end: t.end }
        } else {
            Pos { start: 0, end: 0 }
        }
    }

    /// The end offset of the token just consumed.
    fn prev_end(&self) -> (r: usize)
        requires
            self.inv(),
    {
        if self.pos > 0 && self.pos <= self.toks.len() && self.toks.len() > 0 {
            self.toks[self.pos - 1].end
        } else {
            0
        }
    }

    fn advance(&mut self)
        requires
            old(self).inv(),
        ensures
            final(self).inv(),
            final(self).toks@.len() == old(self).toks@.len(),
            final(self).pos >= old(self).pos,
            old(self).pos < old(self).toks@.len() ==> final(self).pos == old(self).pos + 1,
    {
        if self.pos < self.toks.len() {
            self.pos = self.pos + 1;
        }
    }

    fn eat(&mut self, k: TK) -> (r: bool)
        requires
            old(self).inv(),
        ensures
            final(self).inv(),
            final(self).toks@.len() == old(self).toks@.len(),
            final(self).pos >= old(self).pos,
            r ==> final(self).pos == old(self).pos + 1,
            !r ==> final(self).pos == old(self).pos,
    {
        if self.at(k) {
            self.advance();
            true
        } else {
            false
        }
    }

    fn eat_kw(&mut self, k: Kw) -> (r: bool)
        requires
            old(self).inv(),
        ensures
            final(self).inv(),
            final(self).toks@.len() == old(self).toks@.len(),
            final(self).pos >= old(self).pos,
            r ==> final(self).pos == old(self).pos + 1,
            !r ==> final(self).pos == old(self).pos,
    {
        self.eat(TK::Word(k))
    }

    /// Records one syntax error at the current position.
    fn fail(&mut self)
        requires
            old(self).inv(),
        ensures
            final(self).inv(),
            final(self).toks@.len() == old(self).toks@.len(),
            final(self).pos >= old(self).pos,
    {
        if !self.failed {
            self.failed = true;
            let p = self.here();
            let d = Diagnostic::error(p, "Syntax error");
            let d = Diagnostic { code: DiagCode::SyntaxError, ..d };
            self.diags.push(d);
        }
    }

    fn expect(&mut self, k: TK) -> (r: bool)
        requires
            old(self).inv(),
        ensures
            final(self).inv(),
            final(self).toks@.len() == old(self).toks@.len(),
            final(self).pos >= old(self).pos,
    {
        if self.eat(k) {
            true
        } else {
            self.fail();
            false
        }
    }

    fn expect_kw(&mut self, k: Kw) -> (r: bool)
        requires
            old(self).inv(),
        ensures
            final(self).inv(),
            final(self).toks@.len() == old(self).toks@.len(),
            final(self).pos >= old(self).pos,
    {
        self.expect(TK::Word(k))
    }

    /// Takes an identifier occurrence.
    fn take_ident(&mut self) -> (r: Option<Ident>)
        requires
            old(self).inv(),
        ensures
            final(self).inv(),
            final(self).toks@.len() == old(self).toks@.len(),
            final(self).pos >= old(self).pos,
            r is Some ==> final(self).pos > old(self).pos,
    {
        if self.pos < self.toks.len() {
            let is_ident = match self.toks[self.pos].kind {
                TK::Ident => true,
                _ => false,
            };
            if is_ident {
                let t = &self.toks[self.pos];
                let name = Designator::new(crate::designator::copy_bytes(&t.text));
                let pos = Pos { start: t.start, end: t.end };
                self.advance();
                return Some(Ident { name, pos });
            }
        }
        self.fail();
        None
    }

    /// Skips forward until a semicolon was consumed or the stream ended.
    fn skip_to_semi(&mut self)
        requires
            old(self).inv(),
        ensures
            final(self).inv(),
            final(self).toks@.len() == old(self).toks@.len(),
            final(self).pos >= old(self).pos,
    {
        while self.pos < self.toks.len()
            invariant
                self.inv(),
                self.toks@.len() == old(self).toks@.len(),
                self.pos >= old(self).pos,
            decreases self.toks@.len() - self.pos,
        {
            let was_semi = match self.toks[self.pos].kind {
                TK::Semi => true,
                _ => false,
            };
            self.pos = self.pos + 1;
            if was_semi {
                return;
            }
        }
    }

    /// Parses `prefix { . suffix }` without call or attribute suffixes: the
    /// shape of a type mark.
    fn parse_mark(&mut self) -> (r: Option<Name>)
        requires
            old(self).inv(),
        ensures
            final(self).inv(),
            final(self).toks@.len() == old(self).toks@.len(),
            final(self).pos >= old(self).pos,
    {
        let first = match self.take_ident() {
            Some(i) => i,
            None => {
                return None;
            },
        };
        let mut name = Name::Simple(first);
        loop
            invariant
                self.inv(),
                self.toks@.len() == old(self).toks@.len(),
                self.pos >= old(self).pos,
            decreases self.toks@.len() - self.pos,
        {
            if !self.eat(TK::Dot) {
                break;
            }
            match self.take_ident() {
                Some(i) => {
                    name = Name::Selected(Box::new(name), i);
                },
                None => {
                    return None;
                },
            }
        }
        Some(name)
    }

    /// Parses a full name: a designator or external name followed by
    /// selected, call and attribute suffixes.  Stops before a tick that
    /// opens a qualified expression.
    fn parse_name(&mut self, fuel: u64) -> (r: Option<Name>)
        requires
            old(self).inv(),
        ensures
            final(self).inv(),
            final(self).toks@.len() == old(self).toks@.len(),
            final(self).pos >= old(self).pos,
        decreases fuel,
    {
        if fuel == 0 {
            self.fail();
            return None;
        }
        let name_start = self.here();
        let mut name: Name;
        if self.at(TK::LtLt) {
            self.advance();
            // external name: << class path : mark >>
            if self.at_kw(Kw::Signal) || self.at_kw(Kw::Variable) || self.at_kw(Kw::Constant) {
                self.advance();
            }
            let mut path: Vec<Ident> = Vec::new();
            if self.at(TK::Dot) {
                self.advance();
            }
            loop
                invariant
                    fuel >= 1,
                    self.inv(),
                    self.toks@.len() == old(self).toks@.len(),
                    self.pos >= old(self).pos,
                decreases self.toks@.len() - self.pos,
            {
                let before = self.pos;
                match self.take_ident() {
                    Some(i) => path.push(i),
                    None => {
                        return None;
                    },
                }
                if !self.eat(TK::Dot) {
                    break;
                }
                if self.pos <= before {
                    break;
                }
            }
            if !self.expect(TK::Colon) {
                return None;
            }
            let mark = match self.parse_mark() {
                Some(m) => m,
                None => {
                    return None;
                },
            };
            if !self.expect(TK::GtGt) {
                return None;
            }
            name = Name::External(path, Box::new(mark));
        } else {
            let first = match self.take_ident() {
                Some(i) => i,
                None => {
                    return None;
                },
            };
            name = Name::Simple(first);
        }
        // suffixes
        loop
            invariant
                fuel >= 1,
                self.inv(),
                self.toks@.len() == old(self).toks@.len(),
                self.pos >= old(self).pos,
            decreases self.toks@.len() - self.pos,
        {
            let before = self.pos;
            if self.at(TK::Dot) {
                self.advance();
                if self.eat_kw(Kw::All) {
                    let p = self.here();
                    name = Name::SelectedAll(Box::new(name), p);
                } else {
                    match self.take_ident() {
                        Some(i) => {
                            name = Name::Selected(Box::new(name), i);
                        },
                        None => {
                            return None;
                        },
                    }
                }
            } else if self.at(TK::LParen) {
                self.advance();
                let assocs = match self.parse_assoc_list(fuel - 1) {
                    Some(a) => a,
                    None => {
                        return None;
                    },
                };
                if !self.expect(TK::RParen) {
                    return None;
                }
                let call_end = self.prev_end();
                name = Name::Call(
                    Box::new(name),
                    assocs,
                    Pos { start: name_start.start, end: call_end },
                );
            } else if self.at(TK::Tick) {
                // a tick before a parenthesis opens a qualified expression,
                // which the expression parser owns
                match self.peek_at(1) {
                    Some(TK::LParen) => {
                        break;
                    },
                    _ => {},
                }
                self.advance();
                if self.pos < self.toks.len() {
                    let t = &self.toks[self.pos];
                    let attr_pos = Pos { start: t.start, end: t.end };
                    let attr_name: Option<Designator> = match t.kind {
                        TK::Ident => Some(
                            Designator::new(crate::designator::copy_bytes(&t.text)),
                        ),
                        TK::Word(Kw::Range) => {
                            let mut v: Vec<u8> = Vec::new();
                            crate::diag::push_str_bytes(&mut v, "range");
                            Some(Designator::new(v))
                        },
                        TK::Word(Kw::Subtype) => {
                            let mut v: Vec<u8> = Vec::new();
                            crate::diag::push_str_bytes(&mut v, "subtype");
                            Some(Designator::new(v))
                        },
                        _ => None,
                    };
                    match attr_name {
                        Some(d) => {
                            self.advance();
                            name = Name::Attr(Box::new(name), d, attr_pos);
                        },
                        None => {
                            self.fail();
                            return None;
                        },
                    }
                } else {
                    self.fail();
                    return None;
                }
            } else {
                break;
            }
            if self.pos <= before {
                break;
            }
        }
        Some(name)
    }

    /// Parses the items of an association list up to, but not including,
    /// the closing parenthesis.
    fn parse_assoc_list(&mut self, fuel: u64) -> (r: Option<Vec<Association>>)
        requires
            old(self).inv(),
        ensures
            final(self).inv(),
            final(self).toks@.len() == old(self).toks@.len(),
            final(self).pos >= old(self).pos,
        decreases fuel,
    {
        if fuel == 0 {
            self.fail();
            return None;
        }
        let mut out: Vec<Association> = Vec::new();
        if self.at(TK::RParen) {
            return Some(out);
        }
        loop
            invariant
                fuel >= 1,
                self.inv(),
                self.toks@.len() == old(self).toks@.len(),
                self.pos >= old(self).pos,
            decreases self.toks@.len() - self.pos,
        {
            let before = self.pos;
            let mut formal: Option<Ident> = None;
            let is_formal = match (self.peek(), self.peek_at(1)) {
                (Some(TK::Ident), Some(TK::Arrow)) => true,
                _ => false,
            };
            if is_formal {
                formal = self.take_ident();
                self.advance();  // the arrow
            }
            let actual: ActualPart;
            if self.at_kw(Kw::Open) {
                self.advance();
                actual = ActualPart::ActualOpen;
            } else {
                let e = match self.parse_expr(fuel - 1) {
                    Some(e) => e,
                    None => {
                        return None;
                    },
                };
                if self.at_kw(Kw::To) || self.at_kw(Kw::Downto) {
                    self.advance();
                    let e2 = match self.parse_expr(fuel - 1) {
                        Some(e2) => e2,
                        None => {
                            return None;
                        },
                    };
                    actual = ActualPart::ActualRange(
                        Box::new(RangeExpr::Span(Box::new(e), Box::new(e2))),
                    );
                } else {
                    actual = ActualPart::ActualExpr(Box::new(e));
                }
            }
            out.push(Association { formal, actual });
            if !self.eat(TK::Comma) {
                break;
            }
            if self.pos <= before {
                break;
            }
        }
        Some(out)
    }

    /// Parses an aggregate body up to, but not including, the closing
    /// parenthesis.
    fn parse_aggregate_body(&mut self, fuel: u64) -> (r: Option<Vec<ElemAssoc>>)
        requires
            old(self).inv(),
        ensures
            final(self).inv(),
            final(self).toks@.len() == old(self).toks@.len(),
            final(self).pos >= old(self).pos,
        decreases fuel,
    {
        if fuel == 0 {
            self.fail();
            return None;
        }
        let mut out: Vec<ElemAssoc> = Vec::new();
        loop
            invariant
                fuel >= 1,
                self.inv(),
                self.toks@.len() == old(self).toks@.len(),
                self.pos >= old(self).pos,
            decreases self.toks@.len() - self.pos,
        {
            let before = self.pos;
            match self.parse_elem_assoc(fuel - 1) {
                Some(e) => out.push(e),
                None => {
                    return None;
                },
            }
            if !self.eat(TK::Comma) {
                break;
            }
            if self.pos <= before {
                break;
            }
        }
        Some(out)
    }

    /// Parses one element association: positional, or choices before `=>`.
    fn parse_elem_assoc(&mut self, fuel: u64) -> (r: Option<ElemAssoc>)
        requires
            old(self).inv(),
        ensures
            final(self).inv(),
            final(self).toks@.len() == old(self).toks@.len(),
            final(self).pos >= old(self).pos,
        decreases fuel,
    {
        if fuel == 0 {
            self.fail();
            return None;
        }
        let mut items: Vec<Choice> = Vec::new();
        loop
            invariant
                fuel >= 1,
                self.inv(),
                self.toks@.len() == old(self).toks@.len(),
                self.pos >= old(self).pos,
            decreases self.toks@.len() - self.pos,
        {
            let before = self.pos;
            if self.at_kw(Kw::Others) {
                self.advance();
                items.push(Choice::ChOthers);
            } else {
                let e = match self.parse_expr(fuel - 1) {
                    Some(e) => e,
                    None => {
                        return None;
                    },
                };
                if self.at_kw(Kw::To) || self.at_kw(Kw::Downto) {
                    self.advance();
                    let e2 = match self.parse_expr(fuel - 1) {
                        Some(e2) => e2,
                        None => {
                            return None;
                        },
                    };
                    items.push(
                        Choice::ChRange(Box::new(RangeExpr::Span(Box::new(e), Box::new(e2)))),
                    );
                } else {
                    items.push(Choice::ChExpr(Box::new(e)));
                }
            }
            if !self.eat(TK::Bar) {
                break;
            }
            if self.pos <= before {
                break;
            }
        }
        if self.eat(TK::Arrow) {
            let v = match self.parse_expr(fuel - 1) {
                Some(v) => v,
                None => {
                    return None;
                },
            };
            Some(ElemAssoc { choices: items, expr: Box::new(v) })
        } else {
            if items.len() == 1 {
                match items.remove(0) {
                    Choice::ChExpr(e) => Some(ElemAssoc { choices: Vec::new(), expr: e }),
                    _ => {
                        self.fail();
                        None
                    },
                }
            } else {
                self.fail();
                None
            }
        }
    }

    /// Parses an expression, a chain of relations joined by logical
    /// operators.
    fn parse_expr(&mut self, fuel: u64) -> (r: Option<Expr>)
        requires
            old(self).inv(),
        ensures
            final(self).inv(),
            final(self).toks@.len() == old(self).toks@.len(),
            final(self).pos >= old(self).pos,
        decreases fuel,
    {
        if fuel == 0 {
            self.fail();
            return None;
        }
        let mut e = match self.parse_relation(fuel - 1) {
            Some(e) => e,
            None => {
                return None;
            },
        };
        loop
            invariant
                fuel >= 1,
                self.inv(),
                self.toks@.len() == old(self).toks@.len(),
                self.pos >= old(self).pos,
            decreases self.toks@.len() - self.pos,
        {
            let before = self.pos;
            let is_logical = self.at_kw(Kw::And) || self.at_kw(Kw::Or) || self.at_kw(Kw::Xor)
                || self.at_kw(Kw::Nand) || self.at_kw(Kw::Nor) || self.at_kw(Kw::Xnor);
            if !is_logical {
                break;
            }
            self.advance();
            let rhs = match self.parse_relation(fuel - 1) {
                Some(r2) => r2,
                None => {
                    return None;
                },
            };
            e = Expr::Binary(Box::new(e), Box::new(rhs));
            if self.pos <= before {
                break;
            }
        }
        Some(e)
    }

    fn parse_relation(&mut self, fuel: u64) -> (r: Option<Expr>)
        requires
            old(self).inv(),
        ensures
            final(self).inv(),
            final(self).toks@.len() == old(self).toks@.len(),
            final(self).pos >= old(self).pos,
        decreases fuel,
    {
        if fuel == 0 {
            self.fail();
            return None;
        }
        let e = match self.parse_simple(fuel - 1) {
            Some(e) => e,
            None => {
                return None;
            },
        };
        let is_rel = self.at(TK::EqTok) || self.at(TK::Neq) || self.at(TK::Lt) || self.at(TK::Le)
            || self.at(TK::Gt) || self.at(TK::Ge);
        if is_rel {
            self.advance();
            let rhs = match self.parse_simple(fuel - 1) {
                Some(r2) => r2,
                None => {
                    return None;
                },
            };
            Some(Expr::Binary(Box::new(e), Box::new(rhs)))
        } else {
            Some(e)
        }
    }

    fn parse_simple(&mut self, fuel: u64) -> (r: Option<Expr>)
        requires
            old(self).inv(),
        ensures
            final(self).inv(),
            final(self).toks@.len() == old(self).toks@.len(),
            final(self).pos >= old(self).pos,
        decreases fuel,
    {
        if fuel == 0 {
            self.fail();
            return None;
        }
        let mut negated = false;
        if self.at(TK::Plus) || self.at(TK::Minus) {
            negated = true;
            self.advance();
        }
        let mut e = match self.parse_term(fuel - 1) {
            Some(e) => e,
            None => {
                return None;
            },
        };
        if negated {
            e = Expr::Unary(Box::new(e));
        }
        loop
            invariant
                fuel >= 1,
                self.inv(),
                self.toks@.len() == old(self).toks@.len(),
                self.pos >= old(self).pos,
            decreases self.toks@.len() - self.pos,
        {
            let before = self.pos;
            let is_add = self.at(TK::Plus) || self.at(TK::Minus) || self.at(TK::Amp);
            if !is_add {
                break;
            }
            self.advance();
            let rhs = match self.parse_term(fuel - 1) {
                Some(r2) => r2,
                None => {
                    return None;
                },
            };
            e = Expr::Binary(Box::new(e), Box::new(rhs));
            if self.pos <= before {
                break;
            }
        }
        Some(e)
    }

    fn parse_term(&mut self, fuel: u64) -> (r: Option<Expr>)
        requires
            old(self).inv(),
        ensures
            final(self).inv(),
            final(self).toks@.len() == old(self).toks@.len(),
            final(self).pos >= old(self).pos,
        decreases fuel,
    {
        if fuel == 0 {
            self.fail();
            return None;
        }
        let mut e = match self.parse_factor(fuel - 1) {
            Some(e) => e,
            None => {
                return None;
            },
        };
        loop
            invariant
                fuel >= 1,
                self.inv(),
                self.toks@.len() == old(self).toks@.len(),
                self.pos >= old(self).pos,
            decreases self.toks@.len() - self.pos,
        {
            let before = self.pos;
            let is_mul = self.at(TK::Star) || self.at(TK::Slash) || self.at_kw(Kw::Mod)
                || self.at_kw(Kw::Rem);
            if !is_mul {
                break;
            }
            self.advance();
            let rhs = match self.parse_factor(fuel - 1) {
                Some(r2) => r2,
                None => {
                    return None;
                },
            };
            e = Expr::Binary(Box::new(e), Box::new(rhs));
            if self.pos <= before {
                break;
            }
        }
        Some(e)
    }

    fn parse_factor(&mut self, fuel: u64) -> (r: Option<Expr>)
        requires
            old(self).inv(),
        ensures
            final(self).inv(),
            final(self).toks@.len() == old(self).toks@.len(),
            final(self).pos >= old(self).pos,
        decreases fuel,
    {
        if fuel == 0 {
            self.fail();
            return None;
        }
        if self.eat_kw(Kw::Not) {
            let e = match self.parse_primary(fuel - 1) {
                Some(e) => e,
                None => {
                    return None;
                },
            };
            return Some(Expr::Unary(Box::new(e)));
        }
        self.parse_primary(fuel - 1)
    }

    /// Parses a name and, when a tick and parenthesis follow, the qualified
    /// expression it opens.
    fn parse_name_expr(&mut self, fuel: u64) -> (r: Option<Expr>)
        requires
            old(self).inv(),
        ensures
            final(self).inv(),
            final(self).toks@.len() == old(self).toks@.len(),
            final(self).pos >= old(self).pos,
        decreases fuel,
    {
        if fuel == 0 {
            self.fail();
            return None;
        }
        let name = match self.parse_name(fuel - 1) {
            Some(n) => n,
            None => {
                return None;
            },
        };
        let qualifies = match (self.peek(), self.peek_at(1)) {
            (Some(TK::Tick), Some(TK::LParen)) => true,
            _ => false,
        };
        if qualifies {
            self.advance();
            let start = self.here();
            self.advance();
            let body = match self.parse_aggregate_body(fuel - 1) {
                Some(b) => b,
                None => {
                    return None;
                },
            };
            if !self.expect(TK::RParen) {
                return None;
            }
            let end = self.prev_end();
            return Some(
                Expr::Qualified(
                    Box::new(name),
                    Box::new(Expr::Aggregate(body, Pos { start: start.start, end })),
                ),
            );
        }
        Some(Expr::NameExpr(Box::new(name)))
    }

    fn parse_primary(&mut self, fuel: u64) -> (r: Option<Expr>)
        requires
            old(self).inv(),
        ensures
            final(self).inv(),
            final(self).toks@.len() == old(self).toks@.len(),
            final(self).pos >= old(self).pos,
        decreases fuel,
    {
        if fuel == 0 {
            self.fail();
            return None;
        }
        let k = match self.peek() {
            Some(k) => k,
            None => {
                self.fail();
                return None;
            },
        };
        match k {
            TK::IntLit => {
                let p = self.here();
                self.advance();
                // an abstract literal followed by a name is a physical literal
                if self.at(TK::Ident) {
                    let unit = match self.parse_mark() {
                        Some(u) => u,
                        None => {
                            return None;
                        },
                    };
                    return Some(Expr::Physical(p, Box::new(unit)));
                }
                Some(Expr::IntLit(p))
            },
            TK::RealLit => {
                let p = self.here();
                self.advance();
                if self.at(TK::Ident) {
                    let unit = match self.parse_mark() {
                        Some(u) => u,
                        None => {
                            return None;
                        },
                    };
                    return Some(Expr::Physical(p, Box::new(unit)));
                }
                Some(Expr::RealLit(p))
            },
            TK::StrLit => {
                let p = self.here();
                self.advance();
                Some(Expr::StrLit(p))
            },
            TK::CharLit => {
                let p = self.here();
                let d = if self.pos < self.toks.len() {
                    Designator::new(crate::designator::copy_bytes(&self.toks[self.pos].text))
                } else {
                    Designator::new(Vec::new())
                };
                self.advance();
                Some(Expr::CharLit(p, d))
            },
            TK::Word(Kw::Null) => {
                let p = self.here();
                self.advance();
                Some(Expr::NullLit(p))
            },
            TK::Word(Kw::New) => {
                self.advance();
                let inner = match self.parse_name_expr(fuel - 1) {
                    Some(e) => e,
                    None => {
                        return None;
                    },
                };
                Some(Expr::NewExpr(Box::new(inner)))
            },
            TK::LParen => {
                let start = self.here();
                self.advance();
                let body = match self.parse_aggregate_body(fuel - 1) {
                    Some(b) => b,
                    None => {
                        return None;
                    },
                };
                if !self.expect(TK::RParen) {
                    return None;
                }
                let end = self.prev_end();
                Some(Expr::Aggregate(body, Pos { start: start.start, end }))
            },
            TK::Ident | TK::LtLt => self.parse_name_expr(fuel - 1),
            _ => {
                self.fail();
                None
            },
        }
    }

    /// Parses an expression and, when `to` or `downto` follows, the range
    /// it begins.
    fn parse_range_or_expr(&mut self, fuel: u64) -> (r: Option<Roe>)
        requires
            old(self).inv(),
        ensures
            final(self).inv(),
            final(self).toks@.len() == old(self).toks@.len(),
            final(self).pos >= old(self).pos,
        decreases fuel,
    {
        if fuel == 0 {
            self.fail();
            return None;
        }
        let e = match self.parse_simple(fuel - 1) {
            Some(e) => e,
            None => {
                return None;
            },
        };
        if self.at_kw(Kw::To) || self.at_kw(Kw::Downto) {
            self.advance();
            let e2 = match self.parse_simple(fuel - 1) {
                Some(e2) => e2,
                None => {
                    return None;
                },
            };
            return Some(Roe::R(RangeExpr::Span(Box::new(e), Box::new(e2))));
        }
        Some(Roe::E(e))
    }

    /// Parses a range: a span, or a single range-valued expression.
    fn parse_range(&mut self, fuel: u64) -> (r: Option<RangeExpr>)
        requires
            old(self).inv(),
        ensures
            final(self).inv(),
            final(self).toks@.len() == old(self).toks@.len(),
            final(self).pos >= old(self).pos,
        decreases fuel,
    {
        match self.parse_range_or_expr(fuel) {
            Some(Roe::R(r2)) => Some(r2),
            Some(Roe::E(e)) => Some(RangeExpr::Single(Box::new(e))),
            None => None,
        }
    }

    /// Parses a subtype indication: a mark, an optional `range` constraint
    /// and parenthesized constraint groups.
    fn parse_subtype_ind(&mut self, fuel: u64) -> (r: Option<SubtypeInd>)
        requires
            old(self).inv(),
        ensures
            final(self).inv(),
            final(self).toks@.len() == old(self).toks@.len(),
            final(self).pos >= old(self).pos,
        decreases fuel,
    {
        if fuel == 0 {
            self.fail();
            return None;
        }
        let mark = match self.parse_mark() {
            Some(m) => m,
            None => {
                return None;
            },
        };
        let mut range_c: Option<RangeExpr> = None;
        if self.at_kw(Kw::Range) {
            self.advance();
            match self.parse_range(fuel - 1) {
                Some(r2) => {
                    range_c = Some(r2);
                },
                None => {
                    return None;
                },
            }
        }
        let mut groups: Vec<ConstraintGroup> = Vec::new();
        while self.at(TK::LParen)
            invariant
                fuel >= 1,
                self.inv(),
                self.toks@.len() == old(self).toks@.len(),
                self.pos >= old(self).pos,
            decreases self.toks@.len() - self.pos,
        {
            let before = self.pos;
            self.advance();
            let g = match self.parse_constraint_group(fuel - 1) {
                Some(g) => g,
                None => {
                    return None;
                },
            };
            if !self.expect(TK::RParen) {
                return None;
            }
            groups.push(g);
            if self.pos <= before {
                break;
            }
        }
        Some(SubtypeInd { mark, range_c, groups })
    }

    /// Parses the items of one constraint group.
    fn parse_constraint_group(&mut self, fuel: u64) -> (r: Option<ConstraintGroup>)
        requires
            old(self).inv(),
        ensures
            final(self).inv(),
            final(self).toks@.len() == old(self).toks@.len(),
            final(self).pos >= old(self).pos,
        decreases fuel,
    {
        if fuel == 0 {
            self.fail();
            return None;
        }
        let mut items: Vec<ConstraintItem> = Vec::new();
        loop
            invariant
                fuel >= 1,
                self.inv(),
                self.toks@.len() == old(self).toks@.len(),
                self.pos >= old(self).pos,
            decreases self.toks@.len() - self.pos,
        {
            let before = self.pos;
            if self.at_kw(Kw::Open) {
                self.advance();
                items.push(ConstraintItem::ItemOpen);
            } else {
                let elem_like = match (self.peek(), self.peek_at(1)) {
                    (Some(TK::Ident), Some(TK::LParen)) => true,
                    _ => false,
                };
                if elem_like {
                    // a record element constraint: element ( ranges )
                    let elem = match self.take_ident() {
                        Some(i) => i,
                        None => {
                            return None;
                        },
                    };
                    self.advance();  // the parenthesis
                    let mut ranges: Vec<RangeExpr> = Vec::new();
                    loop
                        invariant
                            fuel >= 1,
                            self.inv(),
                            self.toks@.len() == old(self).toks@.len(),
                            self.pos >= old(self).pos,
                        decreases self.toks@.len() - self.pos,
                    {
                        let before2 = self.pos;
                        match self.parse_range(fuel - 1) {
                            Some(r2) => ranges.push(r2),
                            None => {
                                return None;
                            },
                        }
                        if !self.eat(TK::Comma) {
                            break;
                        }
                        if self.pos <= before2 {
                            break;
                        }
                    }
                    if !self.expect(TK::RParen) {
                        return None;
                    }
                    items.push(ConstraintItem::ItemElem(elem, ranges));
                } else {
                    match self.parse_range_or_expr(fuel - 1) {
                        Some(Roe::R(r2)) => items.push(ConstraintItem::ItemRange(r2)),
                        Some(Roe::E(e)) => items.push(
                            ConstraintItem::ItemRange(RangeExpr::Single(Box::new(e))),
                        ),
                        None => {
                            return None;
                        },
                    }
                }
            }
            if !self.eat(TK::Comma) {
                break;
            }
            if self.pos <= before {
                break;
            }
        }
        Some(ConstraintGroup { items })
    }
}


impl Parser {
    /// Parses one interface object: an optional class, names, a mode, a
    /// subtype indication and an optional default.
    fn parse_interface_object(&mut self, fuel: u64) -> (r: Option<InterfaceObject>)
        requires
            old(self).inv(),
        ensures
            final(self).inv(),
            final(self).toks@.len() == old(self).toks@.len(),
            final(self).pos >= old(self).pos,
        decreases fuel,
    {
        if fuel == 0 {
            self.fail();
            return None;
        }
        let mut class: Option<ObjectClass> = None;
        if self.eat_kw(Kw::Constant) {
            class = Some(ObjectClass::Constant);
        } else if self.eat_kw(Kw::Signal) {
            class = Some(ObjectClass::Signal);
        } else if self.eat_kw(Kw::Variable) {
            class = Some(ObjectClass::Variable);
        } else if self.eat_kw(Kw::File) {
            class = Some(ObjectClass::File);
        }
        let mut names: Vec<Ident> = Vec::new();
        loop
            invariant
                fuel >= 1,
                self.inv(),
                self.toks@.len() == old(self).toks@.len(),
                self.pos >= old(self).pos,
            decreases self.toks@.len() - self.pos,
        {
            match self.take_ident() {
                Some(i) => names.push(i),
                None => {
                    return None;
                },
            }
            if !self.eat(TK::Comma) {
                break;
            }
        }
        if !self.expect(TK::Colon) {
            return None;
        }
        if self.eat_kw(Kw::In) || self.eat_kw(Kw::Out) || self.eat_kw(Kw::Inout) || self.eat_kw(
            Kw::Buffer,
        ) {
        }
        let ind = match self.parse_subtype_ind(fuel - 1) {
            Some(i) => i,
            None => {
                return None;
            },
        };
        let mut default: Option<Expr> = None;
        if self.eat(TK::ColonEq) {
            match self.parse_expr(fuel - 1) {
                Some(e) => {
                    default = Some(e);
                },
                None => {
                    return None;
                },
            }
        }
        Some(InterfaceObject { class, names, ind, default })
    }

    /// Parses interface objects separated by semicolons, up to the closing
    /// parenthesis.
    fn parse_interface_list(&mut self, fuel: u64) -> (r: Option<Vec<InterfaceObject>>)
        requires
            old(self).inv(),
        ensures
            final(self).inv(),
            final(self).toks@.len() == old(self).toks@.len(),
            final(self).pos >= old(self).pos,
        decreases fuel,
    {
        if fuel == 0 {
            self.fail();
            return None;
        }
        let mut out: Vec<InterfaceObject> = Vec::new();
        if self.at(TK::RParen) {
            return Some(out);
        }
        loop
            invariant
                fuel >= 1,
                self.inv(),
                self.toks@.len() == old(self).toks@.len(),
                self.pos >= old(self).pos,
            decreases self.toks@.len() - self.pos,
        {
            let before = self.pos;
            match self.parse_interface_object(fuel - 1) {
                Some(o) => out.push(o),
                None => {
                    return None;
                },
            }
            if !self.eat(TK::Semi) {
                break;
            }
            if self.pos <= before {
                break;
            }
        }
        Some(out)
    }

    /// Parses `generic ( ... );` when present.
    fn parse_generic_clause(&mut self, fuel: u64) -> (r: Option<Vec<InterfaceObject>>)
        requires
            old(self).inv(),
        ensures
            final(self).inv(),
            final(self).toks@.len() == old(self).toks@.len(),
            final(self).pos >= old(self).pos,
        decreases fuel,
    {
        if fuel == 0 {
            self.fail();
            return None;
        }
        if !self.expect(TK::LParen) {
            return None;
        }
        let list = match self.parse_interface_list(fuel - 1) {
            Some(l) => l,
            None => {
                return None;
            },
        };
        if !self.expect(TK::RParen) {
            return None;
        }
        if !self.expect(TK::Semi) {
            return None;
        }
        Some(list)
    }

    /// Parses `generic map ( ... )` or `port map ( ... )` bodies after the
    /// `map` word.
    fn parse_map_aspect(&mut self, fuel: u64) -> (r: Option<Vec<Association>>)
        requires
            old(self).inv(),
        ensures
            final(self).inv(),
            final(self).toks@.len() == old(self).toks@.len(),
            final(self).pos >= old(self).pos,
        decreases fuel,
    {
        if fuel == 0 {
            self.fail();
            return None;
        }
        if !self.expect(TK::LParen) {
            return None;
        }
        let list = match self.parse_assoc_list(fuel - 1) {
            Some(l) => l,
            None => {
                return None;
            },
        };
        if !self.expect(TK::RParen) {
            return None;
        }
        Some(list)
    }

    /// Parses a subprogram header after its introducing word.
    fn parse_subpgm_head(&mut self, is_function: bool, fuel: u64) -> (r: Option<SubpgmHead>)
        requires
            old(self).inv(),
        ensures
            final(self).inv(),
            final(self).toks@.len() == old(self).toks@.len(),
            final(self).pos >= old(self).pos,
        decreases fuel,
    {
        if fuel == 0 {
            self.fail();
            return None;
        }
        let name = match self.take_ident() {
            Some(i) => i,
            None => {
                return None;
            },
        };
        let mut params: Vec<InterfaceObject> = Vec::new();
        if self.eat(TK::LParen) {
            match self.parse_interface_list(fuel - 1) {
                Some(l) => {
                    params = l;
                },
                None => {
                    return None;
                },
            }
            if !self.expect(TK::RParen) {
                return None;
            }
        }
        let mut ret: Option<Name> = None;
        if is_function {
            if !self.expect_kw(Kw::Return) {
                return None;
            }
            match self.parse_mark() {
                Some(m) => {
                    ret = Some(m);
                },
                None => {
                    return None;
                },
            }
        }
        Some(SubpgmHead { is_function, name, params, ret })
    }

    /// Parses an alias signature `[ marks return mark ]`.
    fn parse_signature(&mut self, fuel: u64) -> (r: Option<Signature>)
        requires
            old(self).inv(),
        ensures
            final(self).inv(),
            final(self).toks@.len() == old(self).toks@.len(),
            final(self).pos >= old(self).pos,
        decreases fuel,
    {
        if fuel == 0 {
            self.fail();
            return None;
        }
        let start_pos = self.here();
        if !self.expect(TK::LBrack) {
            return None;
        }
        let mut args: Vec<Name> = Vec::new();
        let mut ret: Option<Name> = None;
        loop
            invariant
                fuel >= 1,
                self.inv(),
                self.toks@.len() == old(self).toks@.len(),
                self.pos >= old(self).pos,
            decreases self.toks@.len() - self.pos,
        {
            let before = self.pos;
            if self.at(TK::RBrack) {
                break;
            }
            if self.eat_kw(Kw::Return) {
                match self.parse_mark() {
                    Some(m) => {
                        ret = Some(m);
                    },
                    None => {
                        return None;
                    },
                }
                break;
            }
            match self.parse_mark() {
                Some(m) => args.push(m),
                None => {
                    return None;
                },
            }
            let _ = self.eat(TK::Comma);
            if self.pos <= before {
                break;
            }
        }
        let end_pos = self.here();
        if !self.expect(TK::RBrack) {
            return None;
        }
        Some(
            Signature {
                args,
                ret,
                pos: Pos { start: start_pos.start, end: end_pos.end },
            },
        )
    }

    /// Parses one type definition after `type name is`.
    fn parse_type_def(&mut self, fuel: u64) -> (r: Option<TypeDef>)
        requires
            old(self).inv(),
        ensures
            final(self).inv(),
            final(self).toks@.len() == old(self).toks@.len(),
            final(self).pos >= old(self).pos,
        decreases fuel,
    {
        if fuel == 0 {
            self.fail();
            return None;
        }
        if self.at(TK::LParen) {
            self.advance();
            let mut lits: Vec<Ident> = Vec::new();
            loop
                invariant
                    fuel >= 1,
                    self.inv(),
                    self.toks@.len() == old(self).toks@.len(),
                    self.pos >= old(self).pos,
                decreases self.toks@.len() - self.pos,
            {
                let before = self.pos;
                if self.at(TK::CharLit) {
                    let t = &self.toks[self.pos];
                    let name = Designator::new(crate::designator::copy_bytes(&t.text));
                    let pos = Pos { start: t.start, end: t.end };
                    self.advance();
                    lits.push(Ident { name, pos });
                } else {
                    match self.take_ident() {
                        Some(i) => lits.push(i),
                        None => {
                            return None;
                        },
                    }
                }
                if !self.eat(TK::Comma) {
                    break;
                }
                if self.pos <= before {
                    break;
                }
            }
            if !self.expect(TK::RParen) {
                return None;
            }
            if !self.expect(TK::Semi) {
                return None;
            }
            return Some(TypeDef::EnumDef(lits));
        }
        if self.eat_kw(Kw::Range) {
            let r2 = match self.parse_range(fuel - 1) {
                Some(r2) => r2,
                None => {
                    return None;
                },
            };
            // physical types with units are ignored beyond their range
            if self.at_kw(Kw::Units) {
                self.skip_to_semi();
                self.skip_to_semi();
            } else if !self.expect(TK::Semi) {
                return None;
            }
            return Some(TypeDef::IntegerDef(r2));
        }
        if self.eat_kw(Kw::Array) {
            if !self.expect(TK::LParen) {
                return None;
            }
            let mut indexes: Vec<IndexDef> = Vec::new();
            loop
                invariant
                    fuel >= 1,
                    self.inv(),
                    self.toks@.len() == old(self).toks@.len(),
                    self.pos >= old(self).pos,
                decreases self.toks@.len() - self.pos,
            {
                let before = self.pos;
                match self.parse_index_def(fuel - 1) {
                    Some(d) => indexes.push(d),
                    None => {
                        return None;
                    },
                }
                if !self.eat(TK::Comma) {
                    break;
                }
                if self.pos <= before {
                    break;
                }
            }
            if !self.expect(TK::RParen) {
                return None;
            }
            if !self.expect_kw(Kw::Of) {
                return None;
            }
            let elem = match self.parse_subtype_ind(fuel - 1) {
                Some(i) => i,
                None => {
                    return None;
                },
            };
            if !self.expect(TK::Semi) {
                return None;
            }
            return Some(TypeDef::ArrayDef(indexes, Box::new(elem)));
        }
        if self.eat_kw(Kw::Record) {
            let mut fields: Vec<RecordField> = Vec::new();
            loop
                invariant
                    fuel >= 1,
                    self.inv(),
                    self.toks@.len() == old(self).toks@.len(),
                    self.pos >= old(self).pos,
                decreases self.toks@.len() - self.pos,
            {
                let before = self.pos;
                if self.at_kw(Kw::End) || self.pos >= self.toks.len() {
                    break;
                }
                let mut names: Vec<Ident> = Vec::new();
                loop
                    invariant
                        fuel >= 1,
                        self.inv(),
                        self.toks@.len() == old(self).toks@.len(),
                        self.pos >= old(self).pos,
                    decreases self.toks@.len() - self.pos,
                {
                    match self.take_ident() {
                        Some(i) => names.push(i),
                        None => {
                            return None;
                        },
                    }
                    if !self.eat(TK::Comma) {
                        break;
                    }
                }
                if !self.expect(TK::Colon) {
                    return None;
                }
                let ind = match self.parse_subtype_ind(fuel - 1) {
                    Some(i) => i,
                    None => {
                        return None;
                    },
                };
                if !self.expect(TK::Semi) {
                    return None;
                }
                fields.push(RecordField { names, ind });
                if self.pos <= before {
                    break;
                }
            }
            if !self.expect_kw(Kw::End) {
                return None;
            }
            self.skip_to_semi();
            return Some(TypeDef::RecordDef(fields));
        }
        if self.eat_kw(Kw::Access) {
            let ind = match self.parse_subtype_ind(fuel - 1) {
                Some(i) => i,
                None => {
                    return None;
                },
            };
            if !self.expect(TK::Semi) {
                return None;
            }
            return Some(TypeDef::AccessDef(Box::new(ind)));
        }
        if self.eat_kw(Kw::File) {
            if !self.expect_kw(Kw::Of) {
                return None;
            }
            let mark = match self.parse_mark() {
                Some(m) => m,
                None => {
                    return None;
                },
            };
            if !self.expect(TK::Semi) {
                return None;
            }
            return Some(TypeDef::FileDef(mark));
        }
        if self.eat_kw(Kw::Protected) {
            let is_body = self.eat_kw(Kw::Body);
            let decls = match self.parse_declarations(fuel - 1) {
                Some(d) => d,
                None => {
                    return None;
                },
            };
            if !self.expect_kw(Kw::End) {
                return None;
            }
            self.skip_to_semi();
            if is_body {
                return Some(TypeDef::ProtectedBodyDef(decls));
            }
            return Some(TypeDef::ProtectedDef(decls));
        }
        self.fail();
        None
    }

    /// Parses one index definition of an array type.
    fn parse_index_def(&mut self, fuel: u64) -> (r: Option<IndexDef>)
        requires
            old(self).inv(),
        ensures
            final(self).inv(),
            final(self).toks@.len() == old(self).toks@.len(),
            final(self).pos >= old(self).pos,
        decreases fuel,
    {
        if fuel == 0 {
            self.fail();
            return None;
        }
        let e = match self.parse_simple(fuel - 1) {
            Some(e) => e,
            None => {
                return None;
            },
        };
        if self.at_kw(Kw::Range) {
            self.advance();
            let mark = match e {
                Expr::NameExpr(n) => *n,
                _ => {
                    self.fail();
                    return None;
                },
            };
            if self.eat(TK::BoxTok) {
                return Some(IndexDef::IdxMarkBox(mark));
            }
            let r2 = match self.parse_range(fuel - 1) {
                Some(r2) => r2,
                None => {
                    return None;
                },
            };
            return Some(IndexDef::IdxMarkRange(mark, r2));
        }
        if self.at_kw(Kw::To) || self.at_kw(Kw::Downto) {
            self.advance();
            let e2 = match self.parse_simple(fuel - 1) {
                Some(e2) => e2,
                None => {
                    return None;
                },
            };
            return Some(IndexDef::IdxRange(RangeExpr::Span(Box::new(e), Box::new(e2))));
        }
        Some(IndexDef::IdxRange(RangeExpr::Single(Box::new(e))))
    }

    /// Parses the declarative items standing before `begin` or `end`.
    fn parse_declarations(&mut self, fuel: u64) -> (r: Option<Vec<Declaration>>)
        requires
            old(self).inv(),
        ensures
            final(self).inv(),
            final(self).toks@.len() == old(self).toks@.len(),
            final(self).pos >= old(self).pos,
        decreases fuel,
    {
        if fuel == 0 {
            self.fail();
            return None;
        }
        let mut out: Vec<Declaration> = Vec::new();
        loop
            invariant
                fuel >= 1,
                self.inv(),
                self.toks@.len() == old(self).toks@.len(),
                self.pos >= old(self).pos,
            decreases self.toks@.len() - self.pos,
        {
            let before = self.pos;
            match self.parse_declaration(fuel - 1) {
                Some(Some(d)) => out.push(d),
                Some(None) => {
                    break;
                },
                None => {
                    // error recovery: skip the broken declaration
                    self.skip_to_semi();
                },
            }
            if self.pos <= before {
                break;
            }
        }
        Some(out)
    }

    /// Parses one declarative item; the outer `None` reports a parse error,
    /// the inner `None` says the declarative part ended.
    fn parse_declaration(&mut self, fuel: u64) -> (r: Option<Option<Declaration>>)
        requires
            old(self).inv(),
        ensures
            final(self).inv(),
            final(self).toks@.len() == old(self).toks@.len(),
            final(self).pos >= old(self).pos,
        decreases fuel,
    {
        if fuel == 0 {
            self.fail();
            return None;
        }
        let k = match self.peek() {
            Some(k) => k,
            None => {
                return Some(None);
            },
        };
        match k {
            TK::Word(Kw::Constant) | TK::Word(Kw::Signal) | TK::Word(Kw::Variable) | TK::Word(
                Kw::Shared,
            ) => {
                let class: ObjectClass;
                if self.eat_kw(Kw::Shared) {
                    if !self.expect_kw(Kw::Variable) {
                        return None;
                    }
                    class = ObjectClass::SharedVariable;
                } else if self.eat_kw(Kw::Constant) {
                    class = ObjectClass::Constant;
                } else if self.eat_kw(Kw::Signal) {
                    class = ObjectClass::Signal;
                } else {
                    self.advance();
                    class = ObjectClass::Variable;
                }
                let mut names: Vec<Ident> = Vec::new();
                loop
                    invariant
                        fuel >= 1,
                        self.inv(),
                        self.toks@.len() == old(self).toks@.len(),
                        self.pos >= old(self).pos,
                    decreases self.toks@.len() - self.pos,
                {
                    match self.take_ident() {
                        Some(i) => names.push(i),
                        None => {
                            return None;
                        },
                    }
                    if !self.eat(TK::Comma) {
                        break;
                    }
                }
                if !self.expect(TK::Colon) {
                    return None;
                }
                let ind = match self.parse_subtype_ind(fuel - 1) {
                    Some(i) => i,
                    None => {
                        return None;
                    },
                };
                let mut init: Option<Expr> = None;
                if self.eat(TK::ColonEq) {
                    match self.parse_expr(fuel - 1) {
                        Some(e) => {
                            init = Some(e);
                        },
                        None => {
                            return None;
                        },
                    }
                }
                if !self.expect(TK::Semi) {
                    return None;
                }
                Some(Some(Declaration::ObjectDecl { class, names, ind, init }))
            },
            TK::Word(Kw::Type) => {
                self.advance();
                let name = match self.take_ident() {
                    Some(i) => i,
                    None => {
                        return None;
                    },
                };
                if self.eat(TK::Semi) {
                    return Some(Some(Declaration::TypeDecl { name, def: TypeDef::Incomplete }));
                }
                if !self.expect_kw(Kw::Is) {
                    return None;
                }
                let def = match self.parse_type_def(fuel - 1) {
                    Some(d) => d,
                    None => {
                        return None;
                    },
                };
                Some(Some(Declaration::TypeDecl { name, def }))
            },
            TK::Word(Kw::Subtype) => {
                self.advance();
                let name = match self.take_ident() {
                    Some(i) => i,
                    None => {
                        return None;
                    },
                };
                if !self.expect_kw(Kw::Is) {
                    return None;
                }
                let ind = match self.parse_subtype_ind(fuel - 1) {
                    Some(i) => i,
                    None => {
                        return None;
                    },
                };
                if !self.expect(TK::Semi) {
                    return None;
                }
                Some(Some(Declaration::SubtypeDecl { name, ind }))
            },
            TK::Word(Kw::Function) | TK::Word(Kw::Procedure) | TK::Word(Kw::Impure) | TK::Word(
                Kw::Pure,
            ) => {
                if self.at_kw(Kw::Impure) || self.at_kw(Kw::Pure) {
                    self.advance();
                }
                let is_function = self.at_kw(Kw::Function);
                self.advance();
                let head = match self.parse_subpgm_head(is_function, fuel - 1) {
                    Some(h) => h,
                    None => {
                        return None;
                    },
                };
                if self.eat(TK::Semi) {
                    return Some(Some(Declaration::SubpgmDecl { head }));
                }
                if !self.expect_kw(Kw::Is) {
                    return None;
                }
                let decls = match self.parse_declarations(fuel - 1) {
                    Some(d) => d,
                    None => {
                        return None;
                    },
                };
                if !self.expect_kw(Kw::Begin) {
                    return None;
                }
                let stmts = match self.parse_seq_stmts(fuel - 1) {
                    Some(st) => st,
                    None => {
                        return None;
                    },
                };
                if !self.expect_kw(Kw::End) {
                    return None;
                }
                self.skip_to_semi();
                Some(Some(Declaration::SubpgmBody { head, decls, stmts }))
            },
            TK::Word(Kw::Alias) => {
                self.advance();
                let name = match self.take_ident() {
                    Some(i) => i,
                    None => {
                        return None;
                    },
                };
                if !self.expect_kw(Kw::Is) {
                    return None;
                }
                let target = match self.parse_name(fuel - 1) {
                    Some(n) => n,
                    None => {
                        return None;
                    },
                };
                let mut signature: Option<Signature> = None;
                if self.at(TK::LBrack) {
                    match self.parse_signature(fuel - 1) {
                        Some(sg) => {
                            signature = Some(sg);
                        },
                        None => {
                            return None;
                        },
                    }
                }
                if !self.expect(TK::Semi) {
                    return None;
                }
                Some(Some(Declaration::AliasDecl { name, target, signature }))
            },
            TK::Word(Kw::Component) => {
                self.advance();
                let name = match self.take_ident() {
                    Some(i) => i,
                    None => {
                        return None;
                    },
                };
                if self.at_kw(Kw::Is) {
                    self.advance();
                }
                let mut generics: Vec<InterfaceObject> = Vec::new();
                let mut ports: Vec<InterfaceObject> = Vec::new();
                if self.eat_kw(Kw::Generic) {
                    match self.parse_generic_clause(fuel - 1) {
                        Some(g) => {
                            generics = g;
                        },
                        None => {
                            return None;
                        },
                    }
                }
                if self.eat_kw(Kw::Port) {
                    match self.parse_generic_clause(fuel - 1) {
                        Some(p) => {
                            ports = p;
                        },
                        None => {
                            return None;
                        },
                    }
                }
                if !self.expect_kw(Kw::End) {
                    return None;
                }
                self.skip_to_semi();
                Some(Some(Declaration::ComponentDecl { name, generics, ports }))
            },
            TK::Word(Kw::Use) => {
                self.advance();
                let mut names: Vec<Name> = Vec::new();
                loop
                    invariant
                        fuel >= 1,
                        self.inv(),
                        self.toks@.len() == old(self).toks@.len(),
                        self.pos >= old(self).pos,
                    decreases self.toks@.len() - self.pos,
                {
                    let before = self.pos;
                    match self.parse_name(fuel - 1) {
                        Some(n) => names.push(n),
                        None => {
                            return None;
                        },
                    }
                    if !self.eat(TK::Comma) {
                        break;
                    }
                    if self.pos <= before {
                        break;
                    }
                }
                if !self.expect(TK::Semi) {
                    return None;
                }
                Some(Some(Declaration::UseDecl(names)))
            },
            _ => Some(None),
        }
    }
}


impl Parser {
    /// Parses an assignment right-hand side after `:=` or `<=`.
    fn parse_rhs(&mut self, signal: bool, fuel: u64) -> (r: Option<Rhs>)
        requires
            old(self).inv(),
        ensures
            final(self).inv(),
            final(self).toks@.len() == old(self).toks@.len(),
            final(self).pos >= old(self).pos,
        decreases fuel,
    {
        if fuel == 0 {
            self.fail();
            return None;
        }
        if signal && self.eat_kw(Kw::Force) {
            let e = match self.parse_expr(fuel - 1) {
                Some(e) => e,
                None => {
                    return None;
                },
            };
            if !self.expect(TK::Semi) {
                return None;
            }
            return Some(Rhs::RhsForce(e));
        }
        if signal && self.eat_kw(Kw::Release) {
            if !self.expect(TK::Semi) {
                return None;
            }
            return Some(Rhs::RhsRelease);
        }
        let value = match self.parse_expr(fuel - 1) {
            Some(e) => e,
            None => {
                return None;
            },
        };
        let mut after: Option<Expr> = None;
        if self.eat_kw(Kw::After) {
            match self.parse_expr(fuel - 1) {
                Some(e) => {
                    after = Some(e);
                },
                None => {
                    return None;
                },
            }
        }
        if !self.at_kw(Kw::When) {
            if !self.expect(TK::Semi) {
                return None;
            }
            return Some(Rhs::RhsSimple(value, after));
        }
        // conditional: value [after t] when cond { else value [after t] [when cond] }
        self.advance();
        let mut alts: Vec<CondValue> = Vec::new();
        let cond0 = match self.parse_expr(fuel - 1) {
            Some(e) => e,
            None => {
                return None;
            },
        };
        alts.push(CondValue { value, after, cond: Some(cond0) });
        loop
            invariant
                fuel >= 1,
                self.inv(),
                self.toks@.len() == old(self).toks@.len(),
                self.pos >= old(self).pos,
            decreases self.toks@.len() - self.pos,
        {
            let before = self.pos;
            if !self.eat_kw(Kw::Else) {
                break;
            }
            let v = match self.parse_expr(fuel - 1) {
                Some(e) => e,
                None => {
                    return None;
                },
            };
            let mut a2: Option<Expr> = None;
            if self.eat_kw(Kw::After) {
                match self.parse_expr(fuel - 1) {
                    Some(e) => {
                        a2 = Some(e);
                    },
                    None => {
                        return None;
                    },
                }
            }
            let mut c2: Option<Expr> = None;
            if self.eat_kw(Kw::When) {
                match self.parse_expr(fuel - 1) {
                    Some(e) => {
                        c2 = Some(e);
                    },
                    None => {
                        return None;
                    },
                }
            }
            alts.push(CondValue { value: v, after: a2, cond: c2 });
            if self.pos <= before {
                break;
            }
        }
        if !self.expect(TK::Semi) {
            return None;
        }
        Some(Rhs::RhsCond(alts))
    }

    /// Parses the choices of a case arm or selected alternative.
    fn parse_choices(&mut self, fuel: u64) -> (r: Option<Vec<Choice>>)
        requires
            old(self).inv(),
        ensures
            final(self).inv(),
            final(self).toks@.len() == old(self).toks@.len(),
            final(self).pos >= old(self).pos,
        decreases fuel,
    {
        if fuel == 0 {
            self.fail();
            return None;
        }
        let mut items: Vec<Choice> = Vec::new();
        loop
            invariant
                fuel >= 1,
                self.inv(),
                self.toks@.len() == old(self).toks@.len(),
                self.pos >= old(self).pos,
            decreases self.toks@.len() - self.pos,
        {
            let before = self.pos;
            if self.at_kw(Kw::Others) {
                self.advance();
                items.push(Choice::ChOthers);
            } else {
                match self.parse_range_or_expr(fuel - 1) {
                    Some(Roe::R(r2)) => items.push(Choice::ChRange(Box::new(r2))),
                    Some(Roe::E(e)) => items.push(Choice::ChExpr(Box::new(e))),
                    None => {
                        return None;
                    },
                }
            }
            if !self.eat(TK::Bar) {
                break;
            }
            if self.pos <= before {
                break;
            }
        }
        Some(items)
    }

    /// Parses a selected assignment `with expr select target ... ;`.
    fn parse_selected_assign(&mut self, fuel: u64) -> (r: Option<SeqStmt>)
        requires
            old(self).inv(),
        ensures
            final(self).inv(),
            final(self).toks@.len() == old(self).toks@.len(),
            final(self).pos >= old(self).pos,
        decreases fuel,
    {
        if fuel == 0 {
            self.fail();
            return None;
        }
        let sel = match self.parse_expr(fuel - 1) {
            Some(e) => e,
            None => {
                return None;
            },
        };
        if !self.expect_kw(Kw::Select) {
            return None;
        }
        let target = match self.parse_target(fuel - 1) {
            Some(t) => t,
            None => {
                return None;
            },
        };
        let signal: bool;
        if self.eat(TK::ColonEq) {
            signal = false;
        } else if self.eat(TK::Le) {
            signal = true;
        } else {
            self.fail();
            return None;
        }
        let mut alts: Vec<SelValue> = Vec::new();
        loop
            invariant
                fuel >= 1,
                self.inv(),
                self.toks@.len() == old(self).toks@.len(),
                self.pos >= old(self).pos,
            decreases self.toks@.len() - self.pos,
        {
            let before = self.pos;
            let v = match self.parse_expr(fuel - 1) {
                Some(e) => e,
                None => {
                    return None;
                },
            };
            if !self.expect_kw(Kw::When) {
                return None;
            }
            let choices = match self.parse_choices(fuel - 1) {
                Some(c) => c,
                None => {
                    return None;
                },
            };
            alts.push(SelValue { value: v, choices });
            if !self.eat(TK::Comma) {
                break;
            }
            if self.pos <= before {
                break;
            }
        }
        if !self.expect(TK::Semi) {
            return None;
        }
        let rhs = Rhs::RhsSelected(Box::new(sel), alts);
        if signal {
            Some(SeqStmt::SigAssign(target, rhs))
        } else {
            Some(SeqStmt::VarAssign(target, rhs))
        }
    }

    /// Parses an assignment target: a name or an aggregate.
    fn parse_target(&mut self, fuel: u64) -> (r: Option<Target>)
        requires
            old(self).inv(),
        ensures
            final(self).inv(),
            final(self).toks@.len() == old(self).toks@.len(),
            final(self).pos >= old(self).pos,
        decreases fuel,
    {
        if fuel == 0 {
            self.fail();
            return None;
        }
        if self.at(TK::LParen) {
            self.advance();
            let body = match self.parse_aggregate_body(fuel - 1) {
                Some(b) => b,
                None => {
                    return None;
                },
            };
            if !self.expect(TK::RParen) {
                return None;
            }
            return Some(Target::TargetAggregate(body));
        }
        match self.parse_name(fuel - 1) {
            Some(n) => Some(Target::TargetName(n)),
            None => None,
        }
    }

    /// Parses sequential statements up to a closing word.
    fn parse_seq_stmts(&mut self, fuel: u64) -> (r: Option<Vec<SeqStmt>>)
        requires
            old(self).inv(),
        ensures
            final(self).inv(),
            final(self).toks@.len() == old(self).toks@.len(),
            final(self).pos >= old(self).pos,
        decreases fuel,
    {
        if fuel == 0 {
            self.fail();
            return None;
        }
        let mut out: Vec<SeqStmt> = Vec::new();
        loop
            invariant
                fuel >= 1,
                self.inv(),
                self.toks@.len() == old(self).toks@.len(),
                self.pos >= old(self).pos,
            decreases self.toks@.len() - self.pos,
        {
            let before = self.pos;
            let stop = self.pos >= self.toks.len() || self.at_kw(Kw::End) || self.at_kw(Kw::Elsif)
                || self.at_kw(Kw::Else) || self.at_kw(Kw::When);
            if stop {
                break;
            }
            match self.parse_seq_stmt(fuel - 1) {
                Some(st) => out.push(st),
                None => {
                    self.skip_to_semi();
                },
            }
            if self.pos <= before {
                break;
            }
        }
        Some(out)
    }

    /// Parses one sequential statement.
    fn parse_seq_stmt(&mut self, fuel: u64) -> (r: Option<SeqStmt>)
        requires
            old(self).inv(),
        ensures
            final(self).inv(),
            final(self).toks@.len() == old(self).toks@.len(),
            final(self).pos >= old(self).pos,
        decreases fuel,
    {
        if fuel == 0 {
            self.fail();
            return None;
        }
        let k = match self.peek() {
            Some(k) => k,
            None => {
                self.fail();
                return None;
            },
        };
        match k {
            TK::Word(Kw::If) => {
                self.advance();
                let mut arms: Vec<IfArm> = Vec::new();
                let cond = match self.parse_expr(fuel - 1) {
                    Some(e) => e,
                    None => {
                        return None;
                    },
                };
                if !self.expect_kw(Kw::Then) {
                    return None;
                }
                let body = match self.parse_seq_stmts(fuel - 1) {
                    Some(b) => b,
                    None => {
                        return None;
                    },
                };
                arms.push(IfArm { cond, body });
                let mut else_body: Option<Vec<SeqStmt>> = None;
                loop
                    invariant
                        fuel >= 1,
                        self.inv(),
                        self.toks@.len() == old(self).toks@.len(),
                        self.pos >= old(self).pos,
                    decreases self.toks@.len() - self.pos,
                {
                    let before = self.pos;
                    if self.eat_kw(Kw::Elsif) {
                        let c2 = match self.parse_expr(fuel - 1) {
                            Some(e) => e,
                            None => {
                                return None;
                            },
                        };
                        if !self.expect_kw(Kw::Then) {
                            return None;
                        }
                        let b2 = match self.parse_seq_stmts(fuel - 1) {
                            Some(b) => b,
                            None => {
                                return None;
                            },
                        };
                        arms.push(IfArm { cond: c2, body: b2 });
                    } else if self.eat_kw(Kw::Else) {
                        let b2 = match self.parse_seq_stmts(fuel - 1) {
                            Some(b) => b,
                            None => {
                                return None;
                            },
                        };
                        else_body = Some(b2);
                        break;
                    } else {
                        break;
                    }
                    if self.pos <= before {
                        break;
                    }
                }
                if !self.expect_kw(Kw::End) {
                    return None;
                }
                self.skip_to_semi();
                Some(SeqStmt::IfStmt(arms, else_body))
            },
            TK::Word(Kw::For) => {
                self.advance();
                let param = match self.take_ident() {
                    Some(i) => i,
                    None => {
                        return None;
                    },
                };
                if !self.expect_kw(Kw::In) {
                    return None;
                }
                let range = match self.parse_range(fuel - 1) {
                    Some(r2) => r2,
                    None => {
                        return None;
                    },
                };
                if !self.expect_kw(Kw::Loop) {
                    return None;
                }
                let body = match self.parse_seq_stmts(fuel - 1) {
                    Some(b) => b,
                    None => {
                        return None;
                    },
                };
                if !self.expect_kw(Kw::End) {
                    return None;
                }
                self.skip_to_semi();
                Some(SeqStmt::ForStmt(param, range, body))
            },
            TK::Word(Kw::While) => {
                self.advance();
                let cond = match self.parse_expr(fuel - 1) {
                    Some(e) => e,
                    None => {
                        return None;
                    },
                };
                if !self.expect_kw(Kw::Loop) {
                    return None;
                }
                let body = match self.parse_seq_stmts(fuel - 1) {
                    Some(b) => b,
                    None => {
                        return None;
                    },
                };
                if !self.expect_kw(Kw::End) {
                    return None;
                }
                self.skip_to_semi();
                Some(SeqStmt::WhileStmt(Some(cond), body))
            },
            TK::Word(Kw::Loop) => {
                self.advance();
                let body = match self.parse_seq_stmts(fuel - 1) {
                    Some(b) => b,
                    None => {
                        return None;
                    },
                };
                if !self.expect_kw(Kw::End) {
                    return None;
                }
                self.skip_to_semi();
                Some(SeqStmt::WhileStmt(None, body))
            },
            TK::Word(Kw::Next) | TK::Word(Kw::Exit) => {
                let is_next = match k {
                    TK::Word(Kw::Next) => true,
                    _ => false,
                };
                self.advance();
                let mut cond: Option<Expr> = None;
                if self.eat_kw(Kw::When) {
                    match self.parse_expr(fuel - 1) {
                        Some(e) => {
                            cond = Some(e);
                        },
                        None => {
                            return None;
                        },
                    }
                }
                if !self.expect(TK::Semi) {
                    return None;
                }
                if is_next {
                    Some(SeqStmt::NextStmt(cond))
                } else {
                    Some(SeqStmt::ExitStmt(cond))
                }
            },
            TK::Word(Kw::Case) => {
                self.advance();
                let sel = match self.parse_expr(fuel - 1) {
                    Some(e) => e,
                    None => {
                        return None;
                    },
                };
                if !self.expect_kw(Kw::Is) {
                    return None;
                }
                let mut arms: Vec<CaseArm> = Vec::new();
                loop
                    invariant
                        fuel >= 1,
                        self.inv(),
                        self.toks@.len() == old(self).toks@.len(),
                        self.pos >= old(self).pos,
                    decreases self.toks@.len() - self.pos,
                {
                    let before = self.pos;
                    if !self.eat_kw(Kw::When) {
                        break;
                    }
                    let choices = match self.parse_choices(fuel - 1) {
                        Some(c) => c,
                        None => {
                            return None;
                        },
                    };
                    if !self.expect(TK::Arrow) {
                        return None;
                    }
                    let body = match self.parse_seq_stmts(fuel - 1) {
                        Some(b) => b,
                        None => {
                            return None;
                        },
                    };
                    arms.push(CaseArm { choices, body });
                    if self.pos <= before {
                        break;
                    }
                }
                if !self.expect_kw(Kw::End) {
                    return None;
                }
                self.skip_to_semi();
                Some(SeqStmt::CaseStmt(Box::new(sel), arms))
            },
            TK::Word(Kw::Wait) => {
                self.advance();
                let mut on: Vec<Name> = Vec::new();
                if self.eat_kw(Kw::On) {
                    loop
                        invariant
                            fuel >= 1,
                            self.inv(),
                            self.toks@.len() == old(self).toks@.len(),
                            self.pos >= old(self).pos,
                        decreases self.toks@.len() - self.pos,
                    {
                        let before = self.pos;
                        match self.parse_name(fuel - 1) {
                            Some(n) => on.push(n),
                            None => {
                                return None;
                            },
                        }
                        if !self.eat(TK::Comma) {
                            break;
                        }
                        if self.pos <= before {
                            break;
                        }
                    }
                }
                let mut until: Option<Expr> = None;
                if self.eat_kw(Kw::Until) {
                    match self.parse_expr(fuel - 1) {
                        Some(e) => {
                            until = Some(e);
                        },
                        None => {
                            return None;
                        },
                    }
                }
                let mut for_e: Option<Expr> = None;
                if self.eat_kw(Kw::For) {
                    match self.parse_expr(fuel - 1) {
                        Some(e) => {
                            for_e = Some(e);
                        },
                        None => {
                            return None;
                        },
                    }
                }
                if !self.expect(TK::Semi) {
                    return None;
                }
                Some(SeqStmt::WaitStmt(on, until, for_e))
            },
            TK::Word(Kw::Report) => {
                self.advance();
                let msg = match self.parse_expr(fuel - 1) {
                    Some(e) => e,
                    None => {
                        return None;
                    },
                };
                let mut sev: Option<Expr> = None;
                if self.eat_kw(Kw::Severity) {
                    match self.parse_expr(fuel - 1) {
                        Some(e) => {
                            sev = Some(e);
                        },
                        None => {
                            return None;
                        },
                    }
                }
                if !self.expect(TK::Semi) {
                    return None;
                }
                Some(SeqStmt::ReportStmt(msg, sev))
            },
            TK::Word(Kw::Assert) => {
                self.advance();
                let cond = match self.parse_expr(fuel - 1) {
                    Some(e) => e,
                    None => {
                        return None;
                    },
                };
                let mut report: Option<Expr> = None;
                if self.eat_kw(Kw::Report) {
                    match self.parse_expr(fuel - 1) {
                        Some(e) => {
                            report = Some(e);
                        },
                        None => {
                            return None;
                        },
                    }
                }
                let mut sev: Option<Expr> = None;
                if self.eat_kw(Kw::Severity) {
                    match self.parse_expr(fuel - 1) {
                        Some(e) => {
                            sev = Some(e);
                        },
                        None => {
                            return None;
                        },
                    }
                }
                if !self.expect(TK::Semi) {
                    return None;
                }
                Some(SeqStmt::AssertStmt(cond, report, sev))
            },
            TK::Word(Kw::Return) => {
                self.advance();
                if self.eat(TK::Semi) {
                    return Some(SeqStmt::ReturnStmt(None));
                }
                let e = match self.parse_expr(fuel - 1) {
                    Some(e) => e,
                    None => {
                        return None;
                    },
                };
                if !self.expect(TK::Semi) {
                    return None;
                }
                Some(SeqStmt::ReturnStmt(Some(e)))
            },
            TK::Word(Kw::Null) => {
                self.advance();
                if !self.expect(TK::Semi) {
                    return None;
                }
                Some(SeqStmt::NullStmt)
            },
            TK::Word(Kw::With) => {
                self.advance();
                self.parse_selected_assign(fuel - 1)
            },
            _ => {
                let target = match self.parse_target(fuel - 1) {
                    Some(t) => t,
                    None => {
                        return None;
                    },
                };
                if self.eat(TK::ColonEq) {
                    let rhs = match self.parse_rhs(false, fuel - 1) {
                        Some(r2) => r2,
                        None => {
                            return None;
                        },
                    };
                    return Some(SeqStmt::VarAssign(target, rhs));
                }
                if self.eat(TK::Le) {
                    let rhs = match self.parse_rhs(true, fuel - 1) {
                        Some(r2) => r2,
                        None => {
                            return None;
                        },
                    };
                    return Some(SeqStmt::SigAssign(target, rhs));
                }
                if self.eat(TK::Semi) {
                    match target {
                        Target::TargetName(n) => {
                            return Some(SeqStmt::ProcCallStmt(n));
                        },
                        _ => {
                            self.fail();
                            return None;
                        },
                    }
                }
                self.fail();
                None
            },
        }
    }
}


impl Parser {
    /// Parses the optional generic/port map aspects of an instantiation or
    /// block header.
    fn parse_maps(&mut self, fuel: u64) -> (r: Option<(Vec<Association>, Vec<Association>)>)
        requires
            old(self).inv(),
        ensures
            final(self).inv(),
            final(self).toks@.len() == old(self).toks@.len(),
            final(self).pos >= old(self).pos,
        decreases fuel,
    {
        if fuel == 0 {
            self.fail();
            return None;
        }
        let mut generic_map: Vec<Association> = Vec::new();
        let mut port_map: Vec<Association> = Vec::new();
        if self.at_kw(Kw::Generic) {
            self.advance();
            if !self.expect_kw(Kw::MapWord) {
                return None;
            }
            match self.parse_map_aspect(fuel - 1) {
                Some(m) => {
                    generic_map = m;
                },
                None => {
                    return None;
                },
            }
        }
        if self.at_kw(Kw::Port) {
            self.advance();
            if !self.expect_kw(Kw::MapWord) {
                return None;
            }
            match self.parse_map_aspect(fuel - 1) {
                Some(m) => {
                    port_map = m;
                },
                None => {
                    return None;
                },
            }
        }
        Some((generic_map, port_map))
    }

    /// Parses concurrent statements up to a closing word.
    fn parse_conc_stmts(&mut self, fuel: u64) -> (r: Option<Vec<ConcStmt>>)
        requires
            old(self).inv(),
        ensures
            final(self).inv(),
            final(self).toks@.len() == old(self).toks@.len(),
            final(self).pos >= old(self).pos,
        decreases fuel,
    {
        if fuel == 0 {
            self.fail();
            return None;
        }
        let mut out: Vec<ConcStmt> = Vec::new();
        loop
            invariant
                fuel >= 1,
                self.inv(),
                self.toks@.len() == old(self).toks@.len(),
                self.pos >= old(self).pos,
            decreases self.toks@.len() - self.pos,
        {
            let before = self.pos;
            let stop = self.pos >= self.toks.len() || self.at_kw(Kw::End) || self.at_kw(Kw::Else)
                || self.at_kw(Kw::Elsif);
            if stop {
                break;
            }
            match self.parse_conc_stmt(fuel - 1) {
                Some(st) => out.push(st),
                None => {
                    self.skip_to_semi();
                },
            }
            if self.pos <= before {
                break;
            }
        }
        Some(out)
    }

    /// Parses one concurrent statement, with its optional label.
    #[verifier::rlimit(60)]
    fn parse_conc_stmt(&mut self, fuel: u64) -> (r: Option<ConcStmt>)
        requires
            old(self).inv(),
        ensures
            final(self).inv(),
            final(self).toks@.len() == old(self).toks@.len(),
            final(self).pos >= old(self).pos,
        decreases fuel,
    {
        if fuel == 0 {
            self.fail();
            return None;
        }
        let mut label: Option<Ident> = None;
        let labeled = match (self.peek(), self.peek_at(1)) {
            (Some(TK::Ident), Some(TK::Colon)) => true,
            _ => false,
        };
        if labeled {
            label = self.take_ident();
            self.advance();  // the colon
        }
        let k = match self.peek() {
            Some(k) => k,
            None => {
                self.fail();
                return None;
            },
        };
        match k {
            TK::Word(Kw::Process) => {
                self.advance();
                let mut sensitivity: Vec<Name> = Vec::new();
                if self.eat(TK::LParen) {
                    loop
                        invariant
                            fuel >= 1,
                            self.inv(),
                            self.toks@.len() == old(self).toks@.len(),
                            self.pos >= old(self).pos,
                        decreases self.toks@.len() - self.pos,
                    {
                        let before = self.pos;
                        if self.at(TK::RParen) {
                            break;
                        }
                        match self.parse_name(fuel - 1) {
                            Some(n) => sensitivity.push(n),
                            None => {
                                return None;
                            },
                        }
                        if !self.eat(TK::Comma) {
                            break;
                        }
                        if self.pos <= before {
                            break;
                        }
                    }
                    if !self.expect(TK::RParen) {
                        return None;
                    }
                }
                if self.at_kw(Kw::Is) {
                    self.advance();
                }
                let decls = match self.parse_declarations(fuel - 1) {
                    Some(d) => d,
                    None => {
                        return None;
                    },
                };
                if !self.expect_kw(Kw::Begin) {
                    return None;
                }
                let stmts = match self.parse_seq_stmts(fuel - 1) {
                    Some(st) => st,
                    None => {
                        return None;
                    },
                };
                if !self.expect_kw(Kw::End) {
                    return None;
                }
                self.skip_to_semi();
                Some(ConcStmt::ProcessStmt { label, sensitivity, decls, stmts })
            },
            TK::Word(Kw::Block) => {
                self.advance();
                let mut guard: Option<Expr> = None;
                if self.eat(TK::LParen) {
                    match self.parse_expr(fuel - 1) {
                        Some(e) => {
                            guard = Some(e);
                        },
                        None => {
                            return None;
                        },
                    }
                    if !self.expect(TK::RParen) {
                        return None;
                    }
                }
                if self.at_kw(Kw::Is) {
                    self.advance();
                }
                let mut generics: Vec<InterfaceObject> = Vec::new();
                let mut generic_map: Vec<Association> = Vec::new();
                let mut ports: Vec<InterfaceObject> = Vec::new();
                let mut port_map: Vec<Association> = Vec::new();
                if self.at_kw(Kw::Generic) {
                    self.advance();
                    match self.parse_generic_clause(fuel - 1) {
                        Some(g) => {
                            generics = g;
                        },
                        None => {
                            return None;
                        },
                    }
                    if self.at_kw(Kw::Generic) {
                        self.advance();
                        if !self.expect_kw(Kw::MapWord) {
                            return None;
                        }
                        match self.parse_map_aspect(fuel - 1) {
                            Some(m) => {
                                generic_map = m;
                            },
                            None => {
                                return None;
                            },
                        }
                        if !self.expect(TK::Semi) {
                            return None;
                        }
                    }
                }
                if self.at_kw(Kw::Port) {
                    self.advance();
                    match self.parse_generic_clause(fuel - 1) {
                        Some(p) => {
                            ports = p;
                        },
                        None => {
                            return None;
                        },
                    }
                    if self.at_kw(Kw::Port) {
                        self.advance();
                        if !self.expect_kw(Kw::MapWord) {
                            return None;
                        }
                        match self.parse_map_aspect(fuel - 1) {
                            Some(m) => {
                                port_map = m;
                            },
                            None => {
                                return None;
                            },
                        }
                        if !self.expect(TK::Semi) {
                            return None;
                        }
                    }
                }
                let decls = match self.parse_declarations(fuel - 1) {
                    Some(d) => d,
                    None => {
                        return None;
                    },
                };
                if !self.expect_kw(Kw::Begin) {
                    return None;
                }
                let stmts = match self.parse_conc_stmts(fuel - 1) {
                    Some(st) => st,
                    None => {
                        return None;
                    },
                };
                if !self.expect_kw(Kw::End) {
                    return None;
                }
                self.skip_to_semi();
                Some(
                    ConcStmt::BlockStmt {
                        label,
                        guard,
                        generics,
                        generic_map,
                        ports,
                        port_map,
                        decls,
                        stmts,
                    },
                )
            },
            TK::Word(Kw::For) => {
                self.advance();
                let param = match self.take_ident() {
                    Some(i) => i,
                    None => {
                        return None;
                    },
                };
                if !self.expect_kw(Kw::In) {
                    return None;
                }
                let range = match self.parse_range(fuel - 1) {
                    Some(r2) => r2,
                    None => {
                        return None;
                    },
                };
                if !self.expect_kw(Kw::Generate) {
                    return None;
                }
                let gen_body = match self.parse_conc_stmts(fuel - 1) {
                    Some(b) => b,
                    None => {
                        return None;
                    },
                };
                if !self.expect_kw(Kw::End) {
                    return None;
                }
                self.skip_to_semi();
                Some(ConcStmt::ForGenerate { label, param, range, body: gen_body })
            },
            TK::Word(Kw::If) => {
                self.advance();
                let mut arms: Vec<GenArm> = Vec::new();
                let mut alt_label: Option<Ident> = None;
                let alt = match (self.peek(), self.peek_at(1)) {
                    (Some(TK::Ident), Some(TK::Colon)) => true,
                    _ => false,
                };
                if alt {
                    alt_label = self.take_ident();
                    self.advance();
                }
                let cond = match self.parse_expr(fuel - 1) {
                    Some(e) => e,
                    None => {
                        return None;
                    },
                };
                if !self.expect_kw(Kw::Generate) {
                    return None;
                }
                let gen_body = match self.parse_conc_stmts(fuel - 1) {
                    Some(b) => b,
                    None => {
                        return None;
                    },
                };
                arms.push(GenArm { alt_label, cond, body: gen_body });
                let mut else_arm: Option<GenAlt> = None;
                if self.eat_kw(Kw::Else) {
                    let mut else_label: Option<Ident> = None;
                    let alt2 = match (self.peek(), self.peek_at(1)) {
                        (Some(TK::Ident), Some(TK::Colon)) => true,
                        _ => false,
                    };
                    if alt2 {
                        else_label = self.take_ident();
                        self.advance();
                    }
                    if !self.expect_kw(Kw::Generate) {
                        return None;
                    }
                    let else_body = match self.parse_conc_stmts(fuel - 1) {
                        Some(b) => b,
                        None => {
                            return None;
                        },
                    };
                    else_arm = Some(GenAlt { alt_label: else_label, body: else_body });
                }
                if !self.expect_kw(Kw::End) {
                    return None;
                }
                self.skip_to_semi();
                Some(ConcStmt::IfGenerate { label, arms, else_arm })
            },
            TK::Word(Kw::Entity) | TK::Word(Kw::Component) => {
                let kind = match k {
                    TK::Word(Kw::Entity) => InstKind::InstEntity,
                    _ => InstKind::InstComponent,
                };
                self.advance();
                let name = match self.parse_mark() {
                    Some(n) => n,
                    None => {
                        return None;
                    },
                };
                let maps = match self.parse_maps(fuel - 1) {
                    Some(m) => m,
                    None => {
                        return None;
                    },
                };
                if !self.expect(TK::Semi) {
                    return None;
                }
                let lab = match label {
                    Some(l) => l,
                    None => {
                        self.fail();
                        return None;
                    },
                };
                Some(
                    ConcStmt::InstanceStmt {
                        label: lab,
                        kind,
                        name,
                        generic_map: maps.0,
                        port_map: maps.1,
                    },
                )
            },
            TK::Word(Kw::Assert) => {
                self.advance();
                let cond = match self.parse_expr(fuel - 1) {
                    Some(e) => e,
                    None => {
                        return None;
                    },
                };
                let mut report: Option<Expr> = None;
                if self.eat_kw(Kw::Report) {
                    match self.parse_expr(fuel - 1) {
                        Some(e) => {
                            report = Some(e);
                        },
                        None => {
                            return None;
                        },
                    }
                }
                let mut sev: Option<Expr> = None;
                if self.eat_kw(Kw::Severity) {
                    match self.parse_expr(fuel - 1) {
                        Some(e) => {
                            sev = Some(e);
                        },
                        None => {
                            return None;
                        },
                    }
                }
                if !self.expect(TK::Semi) {
                    return None;
                }
                Some(ConcStmt::ConcAssert { label, cond, report, severity: sev })
            },
            TK::Word(Kw::With) => {
                self.advance();
                let st = match self.parse_selected_assign(fuel - 1) {
                    Some(st) => st,
                    None => {
                        return None;
                    },
                };
                match st {
                    SeqStmt::SigAssign(target, rhs) => Some(
                        ConcStmt::ConcAssign { label, target, rhs },
                    ),
                    SeqStmt::VarAssign(target, rhs) => Some(
                        ConcStmt::ConcAssign { label, target, rhs },
                    ),
                    _ => {
                        self.fail();
                        None
                    },
                }
            },
            _ => {
                let target = match self.parse_target(fuel - 1) {
                    Some(t) => t,
                    None => {
                        return None;
                    },
                };
                if self.eat(TK::Le) {
                    let rhs = match self.parse_rhs(true, fuel - 1) {
                        Some(r2) => r2,
                        None => {
                            return None;
                        },
                    };
                    return Some(ConcStmt::ConcAssign { label, target, rhs });
                }
                // an instantiation without a keyword, or a procedure call
                let name = match target {
                    Target::TargetName(n) => n,
                    _ => {
                        self.fail();
                        return None;
                    },
                };
                let maps = match self.parse_maps(fuel - 1) {
                    Some(m) => m,
                    None => {
                        return None;
                    },
                };
                if !self.expect(TK::Semi) {
                    return None;
                }
                match label {
                    Some(lab) => Some(
                        ConcStmt::InstanceStmt {
                            label: lab,
                            kind: InstKind::InstPlain,
                            name,
                            generic_map: maps.0,
                            port_map: maps.1,
                        },
                    ),
                    None => Some(ConcStmt::ConcProcCall { label: None, call: name }),
                }
            },
        }
    }

    /// Parses the context clause standing before a design unit.
    fn parse_context_items(&mut self, fuel: u64) -> (r: Option<Vec<ContextItem>>)
        requires
            old(self).inv(),
        ensures
            final(self).inv(),
            final(self).toks@.len() == old(self).toks@.len(),
            final(self).pos >= old(self).pos,
        decreases fuel,
    {
        if fuel == 0 {
            self.fail();
            return None;
        }
        let mut out: Vec<ContextItem> = Vec::new();
        loop
            invariant
                fuel >= 1,
                self.inv(),
                self.toks@.len() == old(self).toks@.len(),
                self.pos >= old(self).pos,
            decreases self.toks@.len() - self.pos,
        {
            let before = self.pos;
            if self.eat_kw(Kw::Library) {
                let mut names: Vec<Ident> = Vec::new();
                loop
                    invariant
                        fuel >= 1,
                        self.inv(),
                        self.toks@.len() == old(self).toks@.len(),
                        self.pos >= old(self).pos,
                    decreases self.toks@.len() - self.pos,
                {
                    match self.take_ident() {
                        Some(i) => names.push(i),
                        None => {
                            return None;
                        },
                    }
                    if !self.eat(TK::Comma) {
                        break;
                    }
                }
                if !self.expect(TK::Semi) {
                    return None;
                }
                out.push(ContextItem::LibraryClause(names));
            } else if self.eat_kw(Kw::Use) {
                let mut names: Vec<Name> = Vec::new();
                loop
                    invariant
                        fuel >= 1,
                        self.inv(),
                        self.toks@.len() == old(self).toks@.len(),
                        self.pos >= old(self).pos,
                    decreases self.toks@.len() - self.pos,
                {
                    let before2 = self.pos;
                    match self.parse_name(fuel - 1) {
                        Some(n) => names.push(n),
                        None => {
                            return None;
                        },
                    }
                    if !self.eat(TK::Comma) {
                        break;
                    }
                    if self.pos <= before2 {
                        break;
                    }
                }
                if !self.expect(TK::Semi) {
                    return None;
                }
                out.push(ContextItem::UseClause(names));
            } else {
                break;
            }
            if self.pos <= before {
                break;
            }
        }
        Some(out)
    }

    /// Parses one design unit.
    fn parse_unit(&mut self, fuel: u64) -> (r: Option<Unit>)
        requires
            old(self).inv(),
        ensures
            final(self).inv(),
            final(self).toks@.len() == old(self).toks@.len(),
            final(self).pos >= old(self).pos,
        decreases fuel,
    {
        if fuel == 0 {
            self.fail();
            return None;
        }
        if self.eat_kw(Kw::Entity) {
            let name = match self.take_ident() {
                Some(i) => i,
                None => {
                    return None;
                },
            };
            if !self.expect_kw(Kw::Is) {
                return None;
            }
            let mut generics: Vec<InterfaceObject> = Vec::new();
            let mut ports: Vec<InterfaceObject> = Vec::new();
            if self.eat_kw(Kw::Generic) {
                match self.parse_generic_clause(fuel - 1) {
                    Some(g) => {
                        generics = g;
                    },
                    None => {
                        return None;
                    },
                }
            }
            if self.eat_kw(Kw::Port) {
                match self.parse_generic_clause(fuel - 1) {
                    Some(p) => {
                        ports = p;
                    },
                    None => {
                        return None;
                    },
                }
            }
            let decls = match self.parse_declarations(fuel - 1) {
                Some(d) => d,
                None => {
                    return None;
                },
            };
            let mut stmts: Vec<ConcStmt> = Vec::new();
            if self.eat_kw(Kw::Begin) {
                match self.parse_conc_stmts(fuel - 1) {
                    Some(st) => {
                        stmts = st;
                    },
                    None => {
                        return None;
                    },
                }
            }
            if !self.expect_kw(Kw::End) {
                return None;
            }
            self.skip_to_semi();
            return Some(Unit::EntityUnit { name, generics, ports, decls, stmts });
        }
        if self.eat_kw(Kw::Architecture) {
            let name = match self.take_ident() {
                Some(i) => i,
                None => {
                    return None;
                },
            };
            if !self.expect_kw(Kw::Of) {
                return None;
            }
            let entity = match self.take_ident() {
                Some(i) => i,
                None => {
                    return None;
                },
            };
            if !self.expect_kw(Kw::Is) {
                return None;
            }
            let decls = match self.parse_declarations(fuel - 1) {
                Some(d) => d,
                None => {
                    return None;
                },
            };
            if !self.expect_kw(Kw::Begin) {
                return None;
            }
            let stmts = match self.parse_conc_stmts(fuel - 1) {
                Some(st) => st,
                None => {
                    return None;
                },
            };
            if !self.expect_kw(Kw::End) {
                return None;
            }
            self.skip_to_semi();
            return Some(Unit::ArchUnit { name, entity, decls, stmts });
        }
        if self.eat_kw(Kw::Package) {
            let is_body = self.eat_kw(Kw::Body);
            let name = match self.take_ident() {
                Some(i) => i,
                None => {
                    return None;
                },
            };
            if !self.expect_kw(Kw::Is) {
                return None;
            }
            let decls = match self.parse_declarations(fuel - 1) {
                Some(d) => d,
                None => {
                    return None;
                },
            };
            if !self.expect_kw(Kw::End) {
                return None;
            }
            self.skip_to_semi();
            if is_body {
                return Some(Unit::PackageBodyUnit { name, decls });
            }
            return Some(Unit::PackageUnit { name, decls });
        }
        self.fail();
        None
    }

    /// Parses a whole source text.
    pub fn parse_design_file(&mut self, fuel: u64) -> (r: DesignFile)
        requires
            old(self).inv(),
        ensures
            final(self).inv(),
            final(self).toks@.len() == old(self).toks@.len(),
            final(self).pos >= old(self).pos,
            old(self).toks@.len() == 0 ==> r.units@.len() == 0 && final(self).diags@ == old(
                self,
            ).diags@,
        decreases fuel,
    {
        let mut units: Vec<DesignUnit> = Vec::new();
        if self.pos >= self.toks.len() {
            return DesignFile { units };
        }
        if fuel == 0 {
            self.fail();
            return DesignFile { units };
        }
        loop
            invariant
                fuel >= 1,
                self.inv(),
                self.toks@.len() == old(self).toks@.len(),
                self.pos >= old(self).pos,
            decreases self.toks@.len() - self.pos,
        {
            let before = self.pos;
            if self.pos >= self.toks.len() {
                break;
            }
            let context = match self.parse_context_items(fuel - 1) {
                Some(c) => c,
                None => {
                    self.skip_to_semi();
                    Vec::new()
                },
            };
            if self.pos >= self.toks.len() {
                break;
            }
            match self.parse_unit(fuel - 1) {
                Some(u) => units.push(DesignUnit { context, unit: u }),
                None => {
                    self.skip_to_semi();
                },
            }
            if self.pos <= before {
                break;
            }
        }
        DesignFile { units }
    }
}

} // verus!
