//! Designators: the symbolic name tokens that key a declarative region.
//!
//! A designator is an identifier, a character literal or an operator symbol
//! in its normalized, case-insensitive form: identifiers are held as their
//! lower-case bytes, a character literal keeps its surrounding quotes, so the
//! two classes can never collide.  Equality of designators is equality of
//! the normalized bytes.

use vstd::prelude::*;

verus! {

/// Copies a byte vector.
pub fn copy_bytes(v: &Vec<u8>) -> (r: Vec<u8>)
    ensures
        r@ == v@,
{
    let n: usize = v.len();
    let mut r: Vec<u8> = Vec::new();
    let mut i: usize = 0;
    while i < n
        invariant
            i <= n,
            n == v@.len(),
            r@ == v@.subrange(0, i as int),
        decreases n - i,
    {
        r.push(v[i]);
        i = i + 1;
        proof {
            assert(v@.subrange(0, i as int)
                =~= v@.subrange(0, i - 1 as int).push(v@[i - 1]));
        }
    }
    proof {
        assert(v@.subrange(0, n as int) =~= v@);
    }
    r
}

/// Whether two byte vectors hold the same bytes.
pub fn bytes_eq(a: &Vec<u8>, b: &Vec<u8>) -> (r: bool)
    ensures
        r == (a@ == b@),
{
    let n: usize = a.len();
    if n != b.len() {
        proof {
            assert(a@.len() != b@.len());
        }
        return false;
    }
    let mut i: usize = 0;
    while i < n
        invariant
            i <= n,
            n == a@.len(),
            n == b@.len(),
            forall|j: int| 0 <= j < i ==> a@[j] == b@[j],
        decreases n - i,
    {
        if a[i] != b[i] {
            return false;
        }
        i = i + 1;
    }
    proof {
        assert(a@ =~= b@);
    }
    true
}

/// The lower-case form of an ASCII byte.
pub open spec fn lower_byte(b: u8) -> u8 {
    if 65 <= b <= 90 {
        (b + 32) as u8
    } else {
        b
    }
}

/// Lower-cases one ASCII byte.
pub fn to_lower_byte(b: u8) -> (r: u8)
    ensures
        r == lower_byte(b),
{
    if 65 <= b && b <= 90 {
        b + 32
    } else {
        b
    }
}

/// A normalized name token usable as a key in a declarative region.
pub struct Designator {
    pub name: Vec<u8>,
}

impl View for Designator {
    type V = Seq<u8>;

    open spec fn view(&self) -> Seq<u8> {
        self.name@
    }
}

impl Designator {
    /// A designator from already-normalized bytes.
    pub fn new(name: Vec<u8>) -> (d: Designator)
        ensures
            d@ == name@,
    {
        Designator { name }
    }

    /// A designator from raw identifier bytes, normalizing case.
    pub fn from_ident(raw: &Vec<u8>) -> (d: Designator)
        ensures
            d@ == raw@.map_values(|b: u8| lower_byte(b)),
    {
        let n: usize = raw.len();
        let mut out: Vec<u8> = Vec::new();
        let mut i: usize = 0;
        while i < n
            invariant
                i <= n,
                n == raw@.len(),
                out@ == raw@.subrange(0, i as int).map_values(|b: u8| lower_byte(b)),
            decreases n - i,
        {
            out.push(to_lower_byte(raw[i]));
            i = i + 1;
            proof {
                assert(raw@.subrange(0, i as int)
                    =~= raw@.subrange(0, i - 1 as int).push(raw@[i - 1]));
                assert(raw@.subrange(0, i as int).map_values(|b: u8| lower_byte(b))
                    =~= raw@.subrange(0, i - 1 as int).map_values(|b: u8| lower_byte(b))
                        .push(lower_byte(raw@[i - 1])));
            }
        }
        proof {
            assert(raw@.subrange(0, n as int) =~= raw@);
        }
        Designator { name: out }
    }

    /// Whether two designators denote the same name.
    pub fn eq_name(&self, other: &Designator) -> (r: bool)
        ensures
            r == (self@ == other@),
    {
        bytes_eq(&self.name, &other.name)
    }

    /// A copy of this designator.
    pub fn dup(&self) -> (d: Designator)
        ensures
            d@ == self@,
    {
        Designator { name: copy_bytes(&self.name) }
    }
}

} // verus!
