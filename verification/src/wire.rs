//! Low-level wire primitives shared by the message and frame codecs:
//! raw byte runs, little-endian length-prefixed runs, optional runs, and a
//! hexadecimal text encoding, each with a specification and proved lemmas.

use vstd::prelude::*;
use vstd::bytes::u32_from_le_bytes;
use vstd::bytes::u32_to_le_bytes;
use vstd::bytes::spec_u32_to_le_bytes;
use vstd::bytes::spec_u32_from_le_bytes;
use vstd::bytes::lemma_auto_spec_u32_to_from_le_bytes;
use vstd::slice::slice_subrange;
use vstd::slice::slice_to_vec;
use vstd::slice::slice_index_get;

verus! {

// ---- specification: encoders ----

/// A byte run prefixed by its length as a 32-bit little-endian integer.
pub open spec fn spec_lp(b: Seq<u8>) -> Seq<u8>
    recommends
        b.len() <= u32::MAX,
{
    spec_u32_to_le_bytes(b.len() as u32) + b
}

/// An optional byte run: one tag byte, then the prefixed run if present.
pub open spec fn spec_opt_lp(o: Option<Seq<u8>>) -> Seq<u8> {
    match o {
        Option::None => seq![0u8],
        Option::Some(b) => seq![1u8] + spec_lp(b),
    }
}

/// A boolean as a single byte.
pub open spec fn spec_bool_byte(b: bool) -> u8 {
    if b {
        1u8
    } else {
        0u8
    }
}

// ---- specification: cursor-style decoders ----

/// Reads `n` raw bytes at position `i`.
pub open spec fn spec_take(b: Seq<u8>, i: int, n: int) -> Option<(Seq<u8>, int)> {
    if 0 <= i && 0 <= n && i + n <= b.len() {
        Some((b.subrange(i, i + n), i + n))
    } else {
        None
    }
}

/// Reads a length-prefixed byte run at position `i`.
pub open spec fn spec_take_lp(b: Seq<u8>, i: int) -> Option<(Seq<u8>, int)> {
    if 0 <= i && i + 4 <= b.len() {
        let n = spec_u32_from_le_bytes(b.subrange(i, i + 4)) as int;
        if i + 4 + n <= b.len() {
            Some((b.subrange(i + 4, i + 4 + n), i + 4 + n))
        } else {
            None
        }
    } else {
        None
    }
}

/// Reads an optional length-prefixed byte run at position `i`.
pub open spec fn spec_take_opt_lp(b: Seq<u8>, i: int) -> Option<(Option<Seq<u8>>, int)> {
    if 0 <= i && i < b.len() {
        if b[i] == 0u8 {
            Some((None, i + 1))
        } else if b[i] == 1u8 {
            match spec_take_lp(b, i + 1) {
                Some((r, j)) => Some((Some(r), j)),
                None => None,
            }
        } else {
            None
        }
    } else {
        None
    }
}

// ---- lemmas relating encoders and decoders ----

/// Raw bytes written at position `i` read back unchanged.
pub proof fn lemma_take_at(w: Seq<u8>, i: int, b: Seq<u8>)
    requires
        0 <= i,
        i + b.len() <= w.len(),
        w.subrange(i, i + b.len() as int) == b,
    ensures
        spec_take(w, i, b.len() as int) == Some((b, i + b.len() as int)),
{
}

/// A length-prefixed run written at position `i` reads back unchanged.
pub proof fn lemma_take_lp_at(w: Seq<u8>, i: int, b: Seq<u8>)
    requires
        b.len() <= u32::MAX,
        0 <= i,
        i + 4 + b.len() <= w.len(),
        w.subrange(i, i + 4 + b.len() as int) == spec_lp(b),
    ensures
        spec_take_lp(w, i) == Some((b, i + 4 + b.len() as int)),
{
    lemma_auto_spec_u32_to_from_le_bytes();
    let pre = spec_u32_to_le_bytes(b.len() as u32);
    assert(pre.len() == 4);
    let sub = w.subrange(i, i + 4 + b.len() as int);
    assert(w.subrange(i, i + 4) =~= sub.subrange(0, 4));
    assert(sub.subrange(0, 4) =~= pre);
    assert(spec_u32_from_le_bytes(w.subrange(i, i + 4)) == b.len() as u32);
    assert(w.subrange(i + 4, i + 4 + b.len() as int) =~= sub.subrange(4, 4 + b.len() as int));
    assert(sub.subrange(4, 4 + b.len() as int) =~= b);
}

/// An optional run written at position `i` reads back unchanged.
pub proof fn lemma_take_opt_lp_at(w: Seq<u8>, i: int, o: Option<Seq<u8>>)
    requires
        0 <= i,
        (o matches Some(b) ==> b.len() <= u32::MAX),
        i + spec_opt_lp(o).len() <= w.len(),
        w.subrange(i, i + spec_opt_lp(o).len() as int) == spec_opt_lp(o),
    ensures
        spec_take_opt_lp(w, i) == Some((o, i + spec_opt_lp(o).len() as int)),
{
    lemma_auto_spec_u32_to_from_le_bytes();
    let e = spec_opt_lp(o);
    let sub = w.subrange(i, i + e.len() as int);
    assert(sub[0] == w[i]);
    assert(e[0] == w[i]);
    match o {
        Option::None => {
            assert(w[i] == 0u8);
        },
        Option::Some(b) => {
            assert(w[i] == 1u8);
            assert(spec_lp(b).len() == 4 + b.len());
            assert(e.len() == 5 + b.len());
            assert(w.subrange(i + 1, i + 5 + b.len() as int) =~= sub.subrange(1, e.len() as int));
            assert(sub.subrange(1, e.len() as int) =~= spec_lp(b));
            lemma_take_lp_at(w, i + 1, b);
        },
    }
}

/// What a length-prefixed read accepts is a written run: the bytes between
/// the positions are exactly [`spec_lp`] of the result.
pub proof fn lemma_take_lp_inv(b: Seq<u8>, i: int, v: Seq<u8>, j: int)
    requires
        0 <= i,
        spec_take_lp(b, i) == Some((v, j)),
    ensures
        v.len() <= u32::MAX,
        j == i + 4 + v.len(),
        b.subrange(i, j) == spec_lp(v),
{
    lemma_auto_spec_u32_to_from_le_bytes();
    let n = spec_u32_from_le_bytes(b.subrange(i, i + 4)) as int;
    assert(v == b.subrange(i + 4, i + 4 + n));
    assert(spec_u32_to_le_bytes(v.len() as u32) == b.subrange(i, i + 4));
    assert(b.subrange(i, j) =~= spec_lp(v));
}

/// What an optional read accepts is a written option.
pub proof fn lemma_take_opt_lp_inv(b: Seq<u8>, i: int, o: Option<Seq<u8>>, j: int)
    requires
        0 <= i,
        spec_take_opt_lp(b, i) == Some((o, j)),
    ensures
        (o matches Some(x) ==> x.len() <= u32::MAX),
        j == i + spec_opt_lp(o).len(),
        b.subrange(i, j) == spec_opt_lp(o),
{
    lemma_auto_spec_u32_to_from_le_bytes();
    match o {
        Option::None => {
            assert(b[i] == 0u8);
            assert(b.subrange(i, j) =~= spec_opt_lp(o));
        },
        Option::Some(x) => {
            assert(b[i] == 1u8);
            let p = spec_take_lp(b, i + 1);
            assert(p == Some((x, j)));
            lemma_take_lp_inv(b, i + 1, x, j);
            assert(b.subrange(i, j) =~= seq![1u8] + b.subrange(i + 1, j));
        },
    }
}

// ---- executable encoders ----

/// Appends the bytes of `b` to `out`.
pub fn push_bytes(out: &mut Vec<u8>, b: &[u8])
    ensures
        final(out)@ == old(out)@ + b@,
{
    let ghost start = out@;
    let mut k: usize = 0;
    assert(start + b@.subrange(0, 0) =~= start);
    while k < b.len()
        invariant
            k <= b@.len(),
            out@ == start + b@.subrange(0, k as int),
        decreases b@.len() - k,
    {
        out.push(*slice_index_get(b, k));
        proof {
            assert(b@.subrange(0, k + 1) =~= b@.subrange(0, k as int).push(b@[k as int]));
        }
        k = k + 1;
    }
    assert(b@.subrange(0, b@.len() as int) =~= b@);
}

/// Appends a length-prefixed run to `out`.
pub fn push_lp(out: &mut Vec<u8>, b: &[u8])
    requires
        b@.len() <= u32::MAX,
    ensures
        final(out)@ == old(out)@ + spec_lp(b@),
{
    let ghost start = out@;
    let pre = u32_to_le_bytes(b.len() as u32);
    push_bytes(out, pre.as_slice());
    push_bytes(out, b);
    assert(out@ =~= start + spec_lp(b@));
}

/// Appends an optional length-prefixed run to `out`.
pub fn push_opt_lp(out: &mut Vec<u8>, o: &Option<Vec<u8>>)
    requires
        (*o matches Some(b) ==> b@.len() <= u32::MAX),
    ensures
        final(out)@ == old(out)@ + spec_opt_lp(view_opt(*o)),
{
    let ghost start = out@;
    match o {
        Option::None => {
            out.push(0u8);
            assert(out@ =~= start + spec_opt_lp(None));
        },
        Option::Some(b) => {
            out.push(1u8);
            push_lp(out, b.as_slice());
            assert(out@ =~= start + spec_opt_lp(Some(b@)));
        },
    }
}

/// The view of an optional byte vector.
pub open spec fn view_opt(o: Option<Vec<u8>>) -> Option<Seq<u8>> {
    match o {
        Option::None => None,
        Option::Some(b) => Some(b@),
    }
}

/// A fresh vector with the same bytes.
pub fn copy_bytes(v: &Vec<u8>) -> (r: Vec<u8>)
    ensures
        r@ == v@,
{
    slice_to_vec(v.as_slice())
}

// ---- executable decoders ----

/// Reads `n` raw bytes at position `i`.
pub fn take_bytes(b: &[u8], i: usize, n: usize) -> (r: Option<(Vec<u8>, usize)>)
    requires
        i <= b@.len(),
    ensures
        r matches Some(p) ==> spec_take(b@, i as int, n as int) == Some((p.0@, p.1 as int)),
        r is None ==> spec_take(b@, i as int, n as int) is None,
{
    if n <= b.len() - i {
        let s = slice_subrange(b, i, i + n);
        Some((slice_to_vec(s), i + n))
    } else {
        None
    }
}

/// Reads a length-prefixed run at position `i`.
pub fn take_lp(b: &[u8], i: usize) -> (r: Option<(Vec<u8>, usize)>)
    requires
        i <= b@.len(),
    ensures
        r matches Some(p) ==> spec_take_lp(b@, i as int) == Some((p.0@, p.1 as int)),
        r is None ==> spec_take_lp(b@, i as int) is None,
{
    if b.len() - i >= 4 {
        let nb = slice_subrange(b, i, i + 4);
        let n = u32_from_le_bytes(nb) as usize;
        if n <= b.len() - (i + 4) {
            let s = slice_subrange(b, i + 4, i + 4 + n);
            Some((slice_to_vec(s), i + 4 + n))
        } else {
            None
        }
    } else {
        None
    }
}

/// Reads an optional length-prefixed run at position `i`.
pub fn take_opt_lp(b: &[u8], i: usize) -> (r: Option<(Option<Vec<u8>>, usize)>)
    requires
        i <= b@.len(),
    ensures
        r matches Some(p) ==> spec_take_opt_lp(b@, i as int) == Some((view_opt(p.0), p.1 as int)),
        r is None ==> spec_take_opt_lp(b@, i as int) is None,
{
    if i < b.len() {
        let tag = *slice_index_get(b, i);
        if tag == 0u8 {
            Some((None, i + 1))
        } else if tag == 1u8 {
            match take_lp(b, i + 1) {
                Some((v, j)) => Some((Some(v), j)),
                None => None,
            }
        } else {
            None
        }
    } else {
        None
    }
}

} // verus!
