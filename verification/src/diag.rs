//! Source positions and diagnostics.
//!
//! A position is a byte span into the analyzed source text.  Diagnostics
//! carry a severity, a primary span, a message, and optional related spans
//! with their own messages.  Besides the rendered message every diagnostic
//! carries a symbolic `DiagCode`, which the contracts of the analysis speak
//! of; the message text is presentation only.

use vstd::prelude::*;
use vstd::string::StringSliceAdditionalSpecFns;

verus! {

/// A byte span `[start, end)` into the source text.
#[derive(Clone, Copy, PartialEq, Eq, Structural, Debug, Hash)]
pub struct Pos {
    pub start: usize,
    pub end: usize,
}

impl Pos {
    pub fn new(start: usize, end: usize) -> (p: Pos)
        ensures
            p.start == start,
            p.end == end,
    {
        Pos { start, end }
    }
}

#[derive(Clone, Copy, PartialEq, Eq, Structural, Debug)]
pub enum Severity {
    Error,
    Hint,
}

/// What a diagnostic reports, independent of its rendered wording.
#[derive(Clone, Copy, PartialEq, Eq, Structural, Debug)]
pub enum DiagCode {
    /// "No declaration of 'X'", possibly within a record or protected type.
    NoDeclaration,
    /// "Duplicate declaration of 'X'".
    Duplicate,
    /// "Missing full type declaration of incomplete type 'X'".
    MissingFullType,
    /// Hint that accompanies `MissingFullType`.
    FullTypeHint,
    /// "Deferred constant 'X' lacks corresponding full constant declaration
    /// in package body".
    MissingDeferredConstant,
    /// "Missing body for protected type 'X'".
    MissingProtectedBody,
    /// "Deferred constants are only allowed in package declarations".
    DeferredOutsidePackage,
    /// "Full declaration of deferred constant is only allowed in a package
    /// body".
    FullConstantOutsideBody,
    /// "Signature required for alias of subprogram and enum literals".
    SignatureRequired,
    /// "Alias should only have a signature for subprograms and enum
    /// literals".
    SignatureForbidden,
    /// "Number of indexes does not match array dimension".
    DimensionMismatch,
    /// "Could not resolve 'X'": no overload candidate matches.
    CouldNotResolve,
    /// "Ambiguous use of 'X'": several overload candidates match.
    AmbiguousUse,
    /// A malformed piece of source text the parser could not read.
    SyntaxError,
    /// The analysis depth budget ran out: the run is incomplete.
    DepthExceeded,
}

/// A related span attached to a diagnostic, such as "Previously defined
/// here".
#[derive(Clone, Debug)]
pub struct Related {
    pub pos: Pos,
    pub message: Vec<u8>,
}

/// One diagnostic: severity, primary span, symbolic code, rendered message,
/// and related spans.
#[derive(Clone, Debug)]
pub struct Diagnostic {
    pub severity: Severity,
    pub pos: Pos,
    pub code: DiagCode,
    pub message: Vec<u8>,
    pub related: Vec<Related>,
}

/// Appends the bytes of `part` to `out`.
pub fn push_str_bytes(out: &mut Vec<u8>, part: &str)
    ensures
        final(out)@ == old(out)@ + part.spec_bytes(),
{
    let bytes: &[u8] = part.as_bytes();
    let n: usize = bytes.len();
    let mut i: usize = 0;
    while i < n
        invariant
            i <= n,
            n == bytes@.len(),
            bytes@ == part.spec_bytes(),
            out@ == old(out)@ + bytes@.subrange(0, i as int),
        decreases n - i,
    {
        out.push(bytes[i]);
        i = i + 1;
        proof {
            assert(bytes@.subrange(0, i as int)
                =~= bytes@.subrange(0, i - 1 as int).push(bytes@[i - 1]));
            assert(out@ =~= old(out)@ + bytes@.subrange(0, i as int));
        }
    }
    proof {
        assert(bytes@.subrange(0, n as int) =~= bytes@);
    }
}

/// Appends the bytes of `part` to `out`.
pub fn push_bytes(out: &mut Vec<u8>, part: &Vec<u8>)
    ensures
        final(out)@ == old(out)@ + part@,
{
    let n: usize = part.len();
    let mut i: usize = 0;
    while i < n
        invariant
            i <= n,
            n == part@.len(),
            out@ == old(out)@ + part@.subrange(0, i as int),
        decreases n - i,
    {
        out.push(part[i]);
        i = i + 1;
        proof {
            assert(part@.subrange(0, i as int)
                =~= part@.subrange(0, i - 1 as int).push(part@[i - 1]));
            assert(out@ =~= old(out)@ + part@.subrange(0, i as int));
        }
    }
    proof {
        assert(part@.subrange(0, n as int) =~= part@);
    }
}

impl Diagnostic {
    /// An error diagnostic with the given span and message.
    pub fn error(pos: Pos, message: &str) -> (d: Diagnostic)
        ensures
            d.severity == Severity::Error,
            d.pos == pos,
            d.message@ == message.spec_bytes(),
            d.related@.len() == 0,
    {
        let mut m: Vec<u8> = Vec::new();
        push_str_bytes(&mut m, message);
        Diagnostic {
            severity: Severity::Error,
            pos,
            code: DiagCode::NoDeclaration,
            message: m,
            related: Vec::new(),
        }
    }

    /// A hint diagnostic with the given span and message.
    pub fn hint(pos: Pos, message: &str) -> (d: Diagnostic)
        ensures
            d.severity == Severity::Hint,
            d.pos == pos,
            d.message@ == message.spec_bytes(),
            d.related@.len() == 0,
    {
        let mut m: Vec<u8> = Vec::new();
        push_str_bytes(&mut m, message);
        Diagnostic {
            severity: Severity::Hint,
            pos,
            code: DiagCode::NoDeclaration,
            message: m,
            related: Vec::new(),
        }
    }

    /// Attaches a related span with a message, as in "Previously defined
    /// here".
    pub fn add_related(&mut self, pos: Pos, message: &str)
        ensures
            final(self).severity == old(self).severity,
            final(self).pos == old(self).pos,
            final(self).code == old(self).code,
            final(self).message@ == old(self).message@,
            final(self).related@.len() == old(self).related@.len() + 1,
            old(self).related@.is_prefix_of(final(self).related@),
            final(self).related@.last().pos == pos,
            final(self).related@.last().message@ == message.spec_bytes(),
    {
        let mut m: Vec<u8> = Vec::new();
        push_str_bytes(&mut m, message);
        self.related.push(Related { pos, message: m });
    }
}

} // verus!
