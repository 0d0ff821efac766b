//! Small verified helpers over byte strings and id lists.
use vstd::prelude::*;
use crate::encode::push_raw;
use crate::events::{meta_matches, opt_bytes_matches, opt_meta_matches, Meta};

verus! {

/// A fresh copy of a byte string.
pub fn clone_bytes(v: &Vec<u8>) -> (r: Vec<u8>)
    ensures
        r@ == v@,
{
    let mut r: Vec<u8> = Vec::new();
    push_raw(&mut r, v);
    proof {
        assert(r@ =~= v@);
    }
    r
}

/// Byte-for-byte equality of two byte strings.
pub fn bytes_eq(a: &Vec<u8>, b: &Vec<u8>) -> (r: bool)
    ensures
        r == (a@ == b@),
{
    if a.len() != b.len() {
        proof {
            assert(a@ != b@);
        }
        return false;
    }
    let mut i: usize = 0;
    while i < a.len()
        invariant
            i <= a.len(),
            a@.len() == b@.len(),
            forall|k: int| 0 <= k < i ==> a@[k] == b@[k],
        decreases a.len() - i,
    {
        if a[i] != b[i] {
            proof {
                assert(a@[i as int] != b@[i as int]);
            }
            return false;
        }
        i = i + 1;
    }
    proof {
        assert(a@ =~= b@);
    }
    true
}

/// A fresh copy of a list of byte strings, holding the same bytes.
pub fn clone_bytes_vec(v: &Vec<Vec<u8>>) -> (r: Vec<Vec<u8>>)
    ensures
        r@.len() == v@.len(),
        forall|i: int| 0 <= i < v@.len() ==> r@[i]@ == v@[i]@,
{
    let mut r: Vec<Vec<u8>> = Vec::new();
    let mut i: usize = 0;
    while i < v.len()
        invariant
            i <= v.len(),
            r@.len() == i,
            forall|k: int| 0 <= k < i ==> r@[k]@ == v@[k]@,
        decreases v.len() - i,
    {
        r.push(clone_bytes(&v[i]));
        i = i + 1;
    }
    r
}

/// A fresh copy of an id list.
pub fn clone_u128_vec(v: &Vec<u128>) -> (r: Vec<u128>)
    ensures
        r@ == v@,
{
    let mut r: Vec<u128> = Vec::new();
    let mut i: usize = 0;
    while i < v.len()
        invariant
            i <= v.len(),
            r@ == v@.take(i as int),
        decreases v.len() - i,
    {
        r.push(v[i]);
        i = i + 1;
        proof {
            assert(r@ =~= v@.take(i as int));
        }
    }
    proof {
        assert(v@.take(v@.len() as int) =~= v@);
    }
    r
}

/// A fresh copy of an optional byte string, holding the same bytes.
pub fn clone_opt_bytes(o: &Option<Vec<u8>>) -> (r: Option<Vec<u8>>)
    ensures
        opt_bytes_matches(r, *o),
{
    match o {
        Option::None => Option::None,
        Option::Some(v) => Option::Some(clone_bytes(v)),
    }
}

/// A fresh copy of a metadata record, holding the same bytes.
pub fn clone_meta(m: &Meta) -> (r: Meta)
    ensures
        meta_matches(r, *m),
{
    Meta { token_uri: clone_opt_bytes(&m.token_uri), extension: clone_opt_bytes(&m.extension) }
}

/// A fresh copy of an optional metadata record, holding the same bytes.
pub fn clone_opt_meta(o: &Option<Meta>) -> (r: Option<Meta>)
    ensures
        opt_meta_matches(r, *o),
{
    match o {
        Option::None => Option::None,
        Option::Some(m) => Option::Some(clone_meta(m)),
    }
}

/// Membership in a sequence after appending one element.
pub proof fn lemma_push_contains<T>(pre: Seq<T>, x: T)
    ensures
        forall|y: T| #[trigger] pre.push(x).contains(y) <==> pre.contains(y) || y == x,
{
    assert forall|y: T| #[trigger] pre.push(x).contains(y) <==> pre.contains(y) || y == x by {
        if pre.contains(y) || y == x {
            if y == x {
                assert(pre.push(x)[pre.len() as int] == y);
            } else {
                let w = choose|w: int| 0 <= w < pre.len() && pre[w] == y;
                assert(pre.push(x)[w] == y);
            }
        } else {
            if pre.push(x).contains(y) {
                let w = choose|w: int| 0 <= w < pre.push(x).len() && pre.push(x)[w] == y;
                assert(w < pre.len() && pre[w] == y);
            }
        }
    }
}

/// Whether the id list holds `x`.
pub fn contains_u128(v: &Vec<u128>, x: u128) -> (r: bool)
    ensures
        r == v@.contains(x),
{
    let mut i: usize = 0;
    while i < v.len()
        invariant
            i <= v.len(),
            forall|k: int| 0 <= k < i ==> v@[k] != x,
        decreases v.len() - i,
    {
        if v[i] == x {
            proof {
                assert(v@[i as int] == x);
            }
            return true;
        }
        i = i + 1;
    }
    proof {
        assert(!v@.contains(x));
    }
    false
}

} // verus!
