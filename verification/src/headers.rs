//! Header sets as plain byte pairs, with first-match lookup. Header names
//! are expected in their lower-case wire form, as the HTTP layer hands
//! them over.

use vstd::prelude::*;

verus! {

/// One header: a lower-case name and its raw value, both as bytes.
#[derive(Clone, Debug)]
pub struct Header {
    pub name: Vec<u8>,
    pub value: Vec<u8>,
}

/// The value of the first header with the given name, if any.
pub open spec fn spec_header_value(hs: Seq<Header>, name: Seq<u8>) -> Option<Seq<u8>>
    decreases hs.len(),
{
    if hs.len() == 0 {
        None
    } else if hs[0].name@ == name {
        Some(hs[0].value@)
    } else {
        spec_header_value(hs.skip(1), name)
    }
}

/// Compares two byte vectors for equality.
pub fn bytes_eq(a: &Vec<u8>, b: &Vec<u8>) -> (r: bool)
    ensures
        r == (a@ == b@),
{
    if a.len() != b.len() {
        return false;
    }
    let mut i: usize = 0;
    while i < a.len()
        invariant
            a@.len() == b@.len(),
            i <= a@.len(),
            forall|j: int| 0 <= j < i ==> a@[j] == b@[j],
        decreases a@.len() - i,
    {
        if a[i] != b[i] {
            return false;
        }
        i = i + 1;
    }
    proof {
        assert(a@ =~= b@);
    }
    true
}

/// Returns a copy of the value of the first header with the given name,
/// or `None` when no header carries that name.
pub fn header_value(hs: &Vec<Header>, name: &Vec<u8>) -> (r: Option<Vec<u8>>)
    ensures
        match r {
            Some(v) => spec_header_value(hs@, name@) == Some(v@),
            None => spec_header_value(hs@, name@) is None,
        },
{
    let mut i: usize = 0;
    proof {
        assert(hs@.skip(0) =~= hs@);
    }
    while i < hs.len()
        invariant
            i <= hs@.len(),
            spec_header_value(hs@, name@) == spec_header_value(hs@.skip(i as int), name@),
        decreases hs@.len() - i,
    {
        proof {
            assert(hs@.skip(i as int)[0] == hs@[i as int]);
        }
        if bytes_eq(&hs[i].name, name) {
            return Some(clone_bytes(&hs[i].value));
        }
        proof {
            assert(hs@.skip(i as int).skip(1) =~= hs@.skip(i as int + 1));
        }
        i = i + 1;
    }
    None
}

/// Copies a byte vector.
pub fn clone_bytes(v: &Vec<u8>) -> (r: Vec<u8>)
    ensures
        r@ == v@,
{
    let mut out: Vec<u8> = Vec::new();
    let mut i: usize = 0;
    while i < v.len()
        invariant
            i <= v@.len(),
            out@ == v@.subrange(0, i as int),
        decreases v@.len() - i,
    {
        out.push(v[i]);
        proof {
            assert(out@ =~= v@.subrange(0, i as int + 1));
        }
        i = i + 1;
    }
    proof {
        assert(out@ =~= v@);
    }
    out
}

} // verus!
