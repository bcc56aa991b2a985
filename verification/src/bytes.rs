use vstd::prelude::*;

verus! {

/// `pow256(n)` is `256^n`, the weight of a byte `n` places from the end of a
/// big-endian byte string.
pub open spec fn pow256(n: nat) -> nat
    decreases n,
{
    if n == 0 {
        1
    } else {
        256 * pow256((n - 1) as nat)
    }
}

/// The unsigned integer a big-endian byte string denotes.
pub open spec fn be_val(s: Seq<u8>) -> nat
    decreases s.len(),
{
    if s.len() == 0 {
        0
    } else {
        (s[0] as nat) * pow256((s.len() - 1) as nat) + be_val(s.skip(1))
    }
}

/// A byte string is canonical when it is the shortest big-endian form of its
/// value: nonempty, with no leading zero byte except the single byte 0.
pub open spec fn is_canon(s: Seq<u8>) -> bool {
    s.len() > 0 && (s.len() > 1 ==> s[0] != 0)
}

/// The canonical form of a big-endian byte string: leading zero bytes are
/// stripped, and the value 0 keeps one zero byte.
pub open spec fn canon_of(s: Seq<u8>) -> Seq<u8>
    decreases s.len(),
{
    if s.len() == 0 {
        seq![0u8]
    } else if s.len() > 1 && s[0] == 0 {
        canon_of(s.skip(1))
    } else {
        s
    }
}

pub proof fn lemma_canon_of_canon(s: Seq<u8>)
    ensures
        is_canon(canon_of(s)),
    decreases s.len(),
{
    if s.len() > 1 && s[0] == 0 {
        lemma_canon_of_canon(s.skip(1));
    }
}

/// Canonicalization keeps the integer value: stripping leading zero bytes
/// does not change the number the bytes denote.
pub proof fn lemma_canon_of_value(s: Seq<u8>)
    ensures
        be_val(canon_of(s)) == be_val(s),
    decreases s.len(),
{
    if s.len() == 0 {
        let z = seq![0u8];
        assert(z.len() == 1 && z[0] == 0);
        assert(z.skip(1).len() == 0);
        assert(be_val(z.skip(1)) == 0);
        assert(be_val(z) == (z[0] as nat) * pow256(0) + be_val(z.skip(1)));
    } else if s.len() > 1 && s[0] == 0 {
        lemma_canon_of_value(s.skip(1));
    }
}

pub proof fn lemma_pow256_pos(n: nat)
    ensures
        pow256(n) >= 1,
    decreases n,
{
    if n > 0 {
        lemma_pow256_pos((n - 1) as nat);
    }
}

pub proof fn lemma_pow256_monotonic(m: nat, n: nat)
    requires
        m <= n,
    ensures
        pow256(m) <= pow256(n),
    decreases n,
{
    if m < n {
        lemma_pow256_monotonic(m, (n - 1) as nat);
        lemma_pow256_pos((n - 1) as nat);
    }
}

/// A byte string of length `n` denotes a value below `256^n`.
pub proof fn lemma_be_val_bound(s: Seq<u8>)
    ensures
        be_val(s) < pow256(s.len()),
    decreases s.len(),
{
    if s.len() == 0 {
    } else {
        lemma_be_val_bound(s.skip(1));
        let p = pow256((s.len() - 1) as nat);
        lemma_pow256_pos((s.len() - 1) as nat);
        assert((s[0] as nat) * p <= 255 * p) by (nonlinear_arith)
            requires
                s[0] as nat <= 255,
                p >= 0,
        ;
        assert(pow256(s.len()) == 256 * p);
    }
}

/// A canonical byte string of more than one byte denotes a value at least
/// `256^(len-1)`: its leading byte is not zero.
pub proof fn lemma_canon_lower_bound(s: Seq<u8>)
    requires
        is_canon(s),
        s.len() > 1,
    ensures
        be_val(s) >= pow256((s.len() - 1) as nat),
{
    let p = pow256((s.len() - 1) as nat);
    lemma_pow256_pos((s.len() - 1) as nat);
    assert((s[0] as nat) * p >= 1 * p) by (nonlinear_arith)
        requires
            s[0] as nat >= 1,
            p >= 1,
    ;
}

/// Byte strings of equal length denoting the same value are equal.
pub proof fn lemma_be_val_injective_same_len(a: Seq<u8>, b: Seq<u8>)
    requires
        a.len() == b.len(),
        be_val(a) == be_val(b),
    ensures
        a =~= b,
    decreases a.len(),
{
    if a.len() > 0 {
        let p = pow256((a.len() - 1) as nat);
        lemma_be_val_bound(a.skip(1));
        lemma_be_val_bound(b.skip(1));
        assert(be_val(a) == (a[0] as nat) * p + be_val(a.skip(1)));
        assert(be_val(b) == (b[0] as nat) * p + be_val(b.skip(1)));
        assert(a[0] == b[0]) by (nonlinear_arith)
            requires
                (a[0] as nat) * p + be_val(a.skip(1)) == (b[0] as nat) * p + be_val(b.skip(1)),
                be_val(a.skip(1)) < p,
                be_val(b.skip(1)) < p,
        ;
        assert(be_val(a.skip(1)) == be_val(b.skip(1)));
        lemma_be_val_injective_same_len(a.skip(1), b.skip(1));
        assert forall|i: int| 0 <= i < a.len() implies a[i] == b[i] by {
            if i > 0 {
                assert(a.skip(1)[i - 1] == b.skip(1)[i - 1]);
            }
        }
    }
}

/// The canonical form is unique: any two byte strings that denote the same
/// integer canonicalize to the same bytes, so the encoder is bit-exact for
/// every representation of a value.
pub proof fn lemma_canon_unique(a: Seq<u8>, b: Seq<u8>)
    requires
        be_val(a) == be_val(b),
    ensures
        canon_of(a) == canon_of(b),
{
    lemma_canon_of_canon(a);
    lemma_canon_of_canon(b);
    lemma_canon_of_value(a);
    lemma_canon_of_value(b);
    let ca = canon_of(a);
    let cb = canon_of(b);
    if ca.len() < cb.len() {
        lemma_canon_lower_bound(cb);
        lemma_be_val_bound(ca);
        lemma_pow256_monotonic(ca.len(), (cb.len() - 1) as nat);
        assert(false);
    } else if cb.len() < ca.len() {
        lemma_canon_lower_bound(ca);
        lemma_be_val_bound(cb);
        lemma_pow256_monotonic(cb.len(), (ca.len() - 1) as nat);
        assert(false);
    }
    lemma_be_val_injective_same_len(ca, cb);
}

/// Converts a big-endian unsigned byte string to its minimal form: no leading
/// zero byte, except that the value 0 becomes the single byte 0.
pub fn canonical_bytes(v: &Vec<u8>) -> (r: Vec<u8>)
    ensures
        r@ == canon_of(v@),
        is_canon(r@),
        be_val(r@) == be_val(v@),
{
    proof {
        lemma_canon_of_canon(v@);
        lemma_canon_of_value(v@);
    }
    if v.len() == 0 {
        let mut r: Vec<u8> = Vec::new();
        r.push(0);
        proof {
            assert(r@ =~= canon_of(v@));
        }
        return r;
    }
    let n: usize = v.len();
    let mut i: usize = 0;
    proof {
        assert(v@.skip(0) =~= v@);
    }
    while i + 1 < n && v[i] == 0
        invariant
            n == v@.len(),
            0 <= i < v@.len(),
            canon_of(v@) == canon_of(v@.skip(i as int)),
        decreases v@.len() - i,
    {
        proof {
            assert(v@.skip(i as int).skip(1) =~= v@.skip(i as int + 1));
        }
        i = i + 1;
    }
    let mut r: Vec<u8> = Vec::new();
    let mut j: usize = i;
    while j < v.len()
        invariant
            i <= j <= v@.len(),
            r@ =~= v@.subrange(i as int, j as int),
        decreases v@.len() - j,
    {
        proof {
            assert(v@.subrange(i as int, j as int + 1) =~= v@.subrange(i as int, j as int).push(
                v@[j as int],
            ));
        }
        r.push(v[j]);
        j = j + 1;
    }
    proof {
        let s = v@.skip(i as int);
        assert(r@ =~= s);
        assert(s.len() >= 1);
        assert(s[0] == v@[i as int]);
        assert(canon_of(s) == s);
    }
    r
}

} // verus!
