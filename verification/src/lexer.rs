//! A lexer for the analyzed language subset.
//!
//! Tokens carry their byte span in the source text; identifier tokens also
//! carry their case-normalized bytes, since the language compares names
//! case-insensitively.  Comments run from `--` to the end of the line.  A
//! tick is a character literal only when it closes two bytes later and the
//! preceding token cannot end a name, which separates `'x'` from the
//! attribute and qualified-expression uses of the tick.

use vstd::prelude::*;

use crate::designator::to_lower_byte;
use vstd::string::StringSliceAdditionalSpecFns;

verus! {

/// The reserved words the parser distinguishes.
#[derive(Clone, Copy, PartialEq, Eq, Structural, Debug)]
pub enum Kw {
    Access,
    After,
    Alias,
    All,
    And,
    Architecture,
    Array,
    Assert,
    Begin,
    Block,
    Body,
    Buffer,
    Case,
    Component,
    Configuration,
    Constant,
    Context,
    Downto,
    Else,
    Elsif,
    End,
    Entity,
    Exit,
    File,
    For,
    Force,
    Function,
    Generate,
    Generic,
    If,
    Impure,
    In,
    Inout,
    Is,
    Library,
    Loop,
    MapWord,
    Mod,
    Nand,
    New,
    Next,
    Nor,
    Not,
    Null,
    Of,
    On,
    Open,
    Or,
    Others,
    Out,
    Package,
    Port,
    Procedure,
    Process,
    Protected,
    Pure,
    Range,
    Record,
    Release,
    Rem,
    Report,
    Return,
    Select,
    Severity,
    Shared,
    Signal,
    Subtype,
    Then,
    To,
    Type,
    Units,
    Until,
    Use,
    Variable,
    Wait,
    When,
    While,
    With,
    Xnor,
    Xor,
}

/// Token kinds.
#[derive(Clone, Copy, PartialEq, Eq, Structural, Debug)]
pub enum TK {
    Ident,
    CharLit,
    StrLit,
    IntLit,
    RealLit,
    LParen,
    RParen,
    Semi,
    Colon,
    Comma,
    Dot,
    Tick,
    Amp,
    Plus,
    Minus,
    Star,
    Slash,
    EqTok,
    Neq,
    Lt,
    Gt,
    Le,
    Ge,
    Arrow,
    ColonEq,
    LtLt,
    GtGt,
    BoxTok,
    Bar,
    LBrack,
    RBrack,
    Word(Kw),
}

/// One token: kind, byte span, and for identifiers the normalized bytes.
pub struct Token {
    pub kind: TK,
    pub start: usize,
    pub end: usize,
    pub text: Vec<u8>,
}

/// Whether the normalized identifier bytes equal the given word.
pub fn word_is(v: &Vec<u8>, s: &str) -> (r: bool)
    ensures
        r == (v@ == s.spec_bytes()),
{
    let bytes: &[u8] = s.as_bytes();
    let n: usize = bytes.len();
    if v.len() != n {
        proof {
            assert(v@.len() != s.spec_bytes().len());
        }
        return false;
    }
    let mut i: usize = 0;
    while i < n
        invariant
            i <= n,
            n == bytes@.len(),
            n == v@.len(),
            bytes@ == s.spec_bytes(),
            forall|j: int| 0 <= j < i ==> v@[j] == bytes@[j],
        decreases n - i,
    {
        if v[i] != bytes[i] {
            return false;
        }
        i = i + 1;
    }
    proof {
        assert(v@ =~= s.spec_bytes());
    }
    true
}

/// The reserved word the normalized bytes spell, when they spell one.
pub fn keyword_of(v: &Vec<u8>) -> (r: Option<Kw>) {
    if word_is(v, "is") {
        return Some(Kw::Is);
    }
    if word_is(v, "end") {
        return Some(Kw::End);
    }
    if word_is(v, "entity") {
        return Some(Kw::Entity);
    }
    if word_is(v, "architecture") {
        return Some(Kw::Architecture);
    }
    if word_is(v, "configuration") {
        return Some(Kw::Configuration);
    }
    if word_is(v, "package") {
        return Some(Kw::Package);
    }
    if word_is(v, "body") {
        return Some(Kw::Body);
    }
    if word_is(v, "context") {
        return Some(Kw::Context);
    }
    if word_is(v, "of") {
        return Some(Kw::Of);
    }
    if word_is(v, "begin") {
        return Some(Kw::Begin);
    }
    if word_is(v, "constant") {
        return Some(Kw::Constant);
    }
    if word_is(v, "signal") {
        return Some(Kw::Signal);
    }
    if word_is(v, "variable") {
        return Some(Kw::Variable);
    }
    if word_is(v, "shared") {
        return Some(Kw::Shared);
    }
    if word_is(v, "type") {
        return Some(Kw::Type);
    }
    if word_is(v, "subtype") {
        return Some(Kw::Subtype);
    }
    if word_is(v, "record") {
        return Some(Kw::Record);
    }
    if word_is(v, "array") {
        return Some(Kw::Array);
    }
    if word_is(v, "access") {
        return Some(Kw::Access);
    }
    if word_is(v, "file") {
        return Some(Kw::File);
    }
    if word_is(v, "protected") {
        return Some(Kw::Protected);
    }
    if word_is(v, "range") {
        return Some(Kw::Range);
    }
    if word_is(v, "function") {
        return Some(Kw::Function);
    }
    if word_is(v, "procedure") {
        return Some(Kw::Procedure);
    }
    if word_is(v, "return") {
        return Some(Kw::Return);
    }
    if word_is(v, "alias") {
        return Some(Kw::Alias);
    }
    if word_is(v, "component") {
        return Some(Kw::Component);
    }
    if word_is(v, "use") {
        return Some(Kw::Use);
    }
    if word_is(v, "library") {
        return Some(Kw::Library);
    }
    if word_is(v, "all") {
        return Some(Kw::All);
    }
    if word_is(v, "others") {
        return Some(Kw::Others);
    }
    if word_is(v, "open") {
        return Some(Kw::Open);
    }
    if word_is(v, "to") {
        return Some(Kw::To);
    }
    if word_is(v, "downto") {
        return Some(Kw::Downto);
    }
    if word_is(v, "new") {
        return Some(Kw::New);
    }
    if word_is(v, "null") {
        return Some(Kw::Null);
    }
    if word_is(v, "generic") {
        return Some(Kw::Generic);
    }
    if word_is(v, "port") {
        return Some(Kw::Port);
    }
    if word_is(v, "map") {
        return Some(Kw::MapWord);
    }
    if word_is(v, "process") {
        return Some(Kw::Process);
    }
    if word_is(v, "block") {
        return Some(Kw::Block);
    }
    if word_is(v, "generate") {
        return Some(Kw::Generate);
    }
    if word_is(v, "if") {
        return Some(Kw::If);
    }
    if word_is(v, "elsif") {
        return Some(Kw::Elsif);
    }
    if word_is(v, "else") {
        return Some(Kw::Else);
    }
    if word_is(v, "then") {
        return Some(Kw::Then);
    }
    if word_is(v, "case") {
        return Some(Kw::Case);
    }
    if word_is(v, "when") {
        return Some(Kw::When);
    }
    if word_is(v, "select") {
        return Some(Kw::Select);
    }
    if word_is(v, "with") {
        return Some(Kw::With);
    }
    if word_is(v, "loop") {
        return Some(Kw::Loop);
    }
    if word_is(v, "while") {
        return Some(Kw::While);
    }
    if word_is(v, "for") {
        return Some(Kw::For);
    }
    if word_is(v, "in") {
        return Some(Kw::In);
    }
    if word_is(v, "out") {
        return Some(Kw::Out);
    }
    if word_is(v, "inout") {
        return Some(Kw::Inout);
    }
    if word_is(v, "buffer") {
        return Some(Kw::Buffer);
    }
    if word_is(v, "wait") {
        return Some(Kw::Wait);
    }
    if word_is(v, "on") {
        return Some(Kw::On);
    }
    if word_is(v, "until") {
        return Some(Kw::Until);
    }
    if word_is(v, "report") {
        return Some(Kw::Report);
    }
    if word_is(v, "severity") {
        return Some(Kw::Severity);
    }
    if word_is(v, "assert") {
        return Some(Kw::Assert);
    }
    if word_is(v, "next") {
        return Some(Kw::Next);
    }
    if word_is(v, "exit") {
        return Some(Kw::Exit);
    }
    if word_is(v, "force") {
        return Some(Kw::Force);
    }
    if word_is(v, "release") {
        return Some(Kw::Release);
    }
    if word_is(v, "after") {
        return Some(Kw::After);
    }
    if word_is(v, "and") {
        return Some(Kw::And);
    }
    if word_is(v, "or") {
        return Some(Kw::Or);
    }
    if word_is(v, "nand") {
        return Some(Kw::Nand);
    }
    if word_is(v, "nor") {
        return Some(Kw::Nor);
    }
    if word_is(v, "xor") {
        return Some(Kw::Xor);
    }
    if word_is(v, "xnor") {
        return Some(Kw::Xnor);
    }
    if word_is(v, "not") {
        return Some(Kw::Not);
    }
    if word_is(v, "mod") {
        return Some(Kw::Mod);
    }
    if word_is(v, "rem") {
        return Some(Kw::Rem);
    }
    if word_is(v, "units") {
        return Some(Kw::Units);
    }
    if word_is(v, "impure") {
        return Some(Kw::Impure);
    }
    if word_is(v, "pure") {
        return Some(Kw::Pure);
    }
    None
}

/// Whether a byte starts an identifier.
fn is_letter(b: u8) -> (r: bool) {
    (65 <= b && b <= 90) || (97 <= b && b <= 122)
}

/// Whether a byte may continue an identifier.
fn is_ident_byte(b: u8) -> (r: bool) {
    (65 <= b && b <= 90) || (97 <= b && b <= 122) || (48 <= b && b <= 57) || b == 95
}

/// Whether a byte is a decimal digit.
fn is_digit(b: u8) -> (r: bool) {
    48 <= b && b <= 57
}

/// Whether a token kind can end a name, so that a following tick is an
/// attribute or qualified-expression tick rather than a character literal.
fn ends_name(kind: TK) -> (r: bool) {
    match kind {
        TK::Ident | TK::RParen | TK::StrLit | TK::CharLit | TK::Word(Kw::All) => true,
        _ => false,
    }
}

/// Lexes the source bytes into tokens, skipping whitespace, comments and
/// anything unrecognized.
pub fn lex(src: &Vec<u8>) -> (toks: Vec<Token>)
    ensures
        src@.len() == 0 ==> toks@.len() == 0,
{
    let n: usize = src.len();
    let mut toks: Vec<Token> = Vec::new();
    let mut pos: usize = 0;
    let mut prev_kind: TK = TK::Semi;
    while pos < n
        invariant
            pos <= n,
            n == src@.len(),
            n == 0 ==> toks@.len() == 0,
        decreases n - pos,
    {
        let b = src[pos];
        if b == 32 || b == 9 || b == 13 || b == 10 {
            pos = pos + 1;
        } else if b == 45 && n - pos > 1 && src[pos + 1] == 45 {
            // comment to end of line
            let start = pos;
            pos = pos + 2;
            while pos < n && src[pos] != 10
                invariant
                    start < pos <= n,
                    n == src@.len(),
                decreases n - pos,
            {
                pos = pos + 1;
            }
        } else if is_letter(b) {
            let start = pos;
            let mut text: Vec<u8> = Vec::new();
            text.push(to_lower_byte(b));
            pos = pos + 1;
            while pos < n && is_ident_byte(src[pos])
                invariant
                    start < pos <= n,
                    n == src@.len(),
                decreases n - pos,
            {
                text.push(to_lower_byte(src[pos]));
                pos = pos + 1;
            }
            let kind = match keyword_of(&text) {
                Some(k) => TK::Word(k),
                None => TK::Ident,
            };
            prev_kind = kind;
            toks.push(Token { kind, start, end: pos, text });
        } else if is_digit(b) {
            let start = pos;
            pos = pos + 1;
            while pos < n && (is_digit(src[pos]) || src[pos] == 95)
                invariant
                    start < pos <= n,
                    n == src@.len(),
                decreases n - pos,
            {
                pos = pos + 1;
            }
            let mut kind = TK::IntLit;
            if pos < n && n - pos > 1 && src[pos] == 46 && is_digit(src[pos + 1]) {
                kind = TK::RealLit;
                pos = pos + 1;
                while pos < n && (is_digit(src[pos]) || src[pos] == 95)
                    invariant
                        start < pos <= n,
                        n == src@.len(),
                    decreases n - pos,
                {
                    pos = pos + 1;
                }
            }
            prev_kind = kind;
            toks.push(Token { kind, start, end: pos, text: Vec::new() });
        } else if b == 34 {
            // string literal
            let start = pos;
            pos = pos + 1;
            while pos < n && src[pos] != 34
                invariant
                    start < pos <= n,
                    n == src@.len(),
                decreases n - pos,
            {
                pos = pos + 1;
            }
            if pos < n {
                pos = pos + 1;
            }
            prev_kind = TK::StrLit;
            toks.push(Token { kind: TK::StrLit, start, end: pos, text: Vec::new() });
        } else if b == 39 {
            if !ends_name(prev_kind) && n - pos > 2 && src[pos + 2] == 39 {
                let start = pos;
                let mut text: Vec<u8> = Vec::new();
                text.push(39);
                text.push(src[pos + 1]);
                text.push(39);
                pos = pos + 3;
                prev_kind = TK::CharLit;
                toks.push(Token { kind: TK::CharLit, start, end: pos, text });
            } else {
                prev_kind = TK::Tick;
                toks.push(Token { kind: TK::Tick, start: pos, end: pos + 1, text: Vec::new() });
                pos = pos + 1;
            }
        } else {
            // punctuation, possibly two bytes wide
            let start = pos;
            let b2: u8 = if pos + 1 < n {
                src[pos + 1]
            } else {
                0
            };
            let mut width: usize = 1;
            let kind: TK = if b == 58 && b2 == 61 {
                width = 2;
                TK::ColonEq
            } else if b == 60 && b2 == 61 {
                width = 2;
                TK::Le
            } else if b == 60 && b2 == 60 {
                width = 2;
                TK::LtLt
            } else if b == 60 && b2 == 62 {
                width = 2;
                TK::BoxTok
            } else if b == 62 && b2 == 61 {
                width = 2;
                TK::Ge
            } else if b == 62 && b2 == 62 {
                width = 2;
                TK::GtGt
            } else if b == 47 && b2 == 61 {
                width = 2;
                TK::Neq
            } else if b == 61 && b2 == 62 {
                width = 2;
                TK::Arrow
            } else if b == 40 {
                TK::LParen
            } else if b == 41 {
                TK::RParen
            } else if b == 59 {
                TK::Semi
            } else if b == 58 {
                TK::Colon
            } else if b == 44 {
                TK::Comma
            } else if b == 46 {
                TK::Dot
            } else if b == 38 {
                TK::Amp
            } else if b == 43 {
                TK::Plus
            } else if b == 45 {
                TK::Minus
            } else if b == 42 {
                TK::Star
            } else if b == 47 {
                TK::Slash
            } else if b == 61 {
                TK::EqTok
            } else if b == 60 {
                TK::Lt
            } else if b == 62 {
                TK::Gt
            } else if b == 124 {
                TK::Bar
            } else if b == 91 {
                TK::LBrack
            } else if b == 93 {
                TK::RBrack
            } else {
                // unrecognized byte: skip it
                pos = pos + 1;
                continue;
            };
            prev_kind = kind;
            toks.push(Token { kind, start, end: start + width, text: Vec::new() });
            pos = start + width;
        }
    }
    toks
}

} // verus!
