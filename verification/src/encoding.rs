//! Byte-string encodings of unsigned integers, and the small executable
//! helpers on byte vectors that the protocol needs: concatenation, equality,
//! reversal. Scalars are carried as 32-byte little-endian strings, so the
//! value of a byte string and the canonical digits of a value are the two
//! central spec functions here.

use vstd::prelude::*;

verus! {

use vstd::arithmetic::div_mod::lemma_fundamental_div_mod_converse;

/// The unsigned integer a byte string denotes when read little-endian.
pub open spec fn nat_of_le(s: Seq<u8>) -> nat
    decreases s.len(),
{
    if s.len() == 0 {
        0
    } else {
        (s[0] as nat) + 256 * nat_of_le(s.drop_first())
    }
}

/// The `n` little-endian base-256 digits of `x`.
pub open spec fn le_bytes_of(x: nat, n: nat) -> Seq<u8>
    decreases n,
{
    if n == 0 {
        Seq::empty()
    } else {
        seq![(x % 256) as u8] + le_bytes_of(x / 256, (n - 1) as nat)
    }
}

/// A byte string is recovered from its value and its length: little-endian
/// digits are canonical.
pub proof fn lemma_le_roundtrip(s: Seq<u8>)
    ensures
        le_bytes_of(nat_of_le(s), s.len()) == s,
    decreases s.len(),
{
    if s.len() == 0 {
        assert(le_bytes_of(nat_of_le(s), s.len()) =~= s);
    } else {
        let rest = s.drop_first();
        lemma_le_roundtrip(rest);
        let v = nat_of_le(s) as int;
        lemma_fundamental_div_mod_converse(v, 256, nat_of_le(rest) as int, s[0] as int);
        assert(le_bytes_of(nat_of_le(s), s.len()) =~= s);
    }
}

/// Two byte strings of one length with one value are equal.
pub proof fn lemma_nat_of_le_injective(a: Seq<u8>, b: Seq<u8>)
    requires
        a.len() == b.len(),
        nat_of_le(a) == nat_of_le(b),
    ensures
        a == b,
{
    lemma_le_roundtrip(a);
    lemma_le_roundtrip(b);
}

/// An all-zero byte string denotes zero.
pub proof fn lemma_nat_of_le_zero(s: Seq<u8>)
    requires
        forall|i: int| 0 <= i < s.len() ==> s[i] == 0,
    ensures
        nat_of_le(s) == 0,
    decreases s.len(),
{
    if s.len() > 0 {
        lemma_nat_of_le_zero(s.drop_first());
    }
}

/// The value of a one-byte extension: appending a high byte adds its weight.
pub proof fn lemma_nat_of_le_push(s: Seq<u8>, b: u8)
    ensures
        nat_of_le(s.push(b)) == nat_of_le(s) + (b as nat) * pow256(s.len()),
    decreases s.len(),
{
    if s.len() == 0 {
        assert(s.push(b)[0] == b);
        assert(s.push(b).drop_first() =~= Seq::<u8>::empty());
        assert(nat_of_le(s.push(b)) == (b as nat) + 256 * nat_of_le(Seq::<u8>::empty()));
        assert(nat_of_le(s) == 0);
        assert(pow256(0) == 1);
    } else {
        let d = s.drop_first();
        assert(s.len() == d.len() + 1);
        assert(s.push(b)[0] == s[0]);
        assert(s.push(b).drop_first() =~= d.push(b));
        assert(nat_of_le(s.push(b)) == (s[0] as nat) + 256 * nat_of_le(d.push(b)));
        lemma_nat_of_le_push(d, b);
        assert(nat_of_le(s) == (s[0] as nat) + 256 * nat_of_le(d));
        assert(pow256(s.len()) == 256 * pow256(d.len()));
        assert(256 * (nat_of_le(d) + (b as nat) * pow256(d.len())) == 256 * nat_of_le(d) + 256 * (
        (b as nat) * pow256(d.len())));
        assert(256 * ((b as nat) * pow256(d.len())) == (b as nat) * (256 * pow256(d.len())))
            by (nonlinear_arith);
        assert(nat_of_le(s.push(b)) == (s[0] as nat) + 256 * nat_of_le(d) + (b as nat) * pow256(
            s.len(),
        ));
    }
}

/// `256^n`, the weight of the `n`-th little-endian digit.
pub open spec fn pow256(n: nat) -> nat
    decreases n,
{
    if n == 0 {
        1
    } else {
        256 * pow256((n - 1) as nat)
    }
}

/// A byte string's value is below the weight of its one-past-the-end digit.
pub proof fn lemma_nat_of_le_bound(s: Seq<u8>)
    ensures
        nat_of_le(s) < pow256(s.len()),
    decreases s.len(),
{
    if s.len() > 0 {
        lemma_nat_of_le_bound(s.drop_first());
    }
}

/// A byte string's value splits at any position: the low digits plus the
/// high digits weighted by the position.
pub proof fn lemma_nat_of_le_split(s: Seq<u8>, i: int)
    requires
        0 <= i <= s.len(),
    ensures
        nat_of_le(s) == nat_of_le(s.subrange(0, i)) + pow256(i as nat) * nat_of_le(
            s.subrange(i, s.len() as int),
        ),
    decreases i,
{
    if i == 0 {
        assert(s.subrange(0, 0) =~= Seq::<u8>::empty());
        assert(s.subrange(0, s.len() as int) =~= s);
        assert(nat_of_le(Seq::<u8>::empty()) == 0);
        assert(pow256(0) == 1);
        assert(1 * nat_of_le(s) == nat_of_le(s));
    } else {
        let d = s.drop_first();
        lemma_nat_of_le_split(d, i - 1);
        assert(s.subrange(0, i).drop_first() =~= d.subrange(0, i - 1));
        assert(d.subrange(i - 1, d.len() as int) =~= s.subrange(i, s.len() as int));
        assert(s.subrange(0, i)[0] == s[0]);
        let high = nat_of_le(s.subrange(i, s.len() as int));
        let low = nat_of_le(d.subrange(0, i - 1));
        assert(nat_of_le(s) == (s[0] as nat) + 256 * nat_of_le(d));
        assert(nat_of_le(d) == low + pow256((i - 1) as nat) * high);
        assert(nat_of_le(s.subrange(0, i)) == (s[0] as nat) + 256 * low);
        assert(256 * (low + pow256((i - 1) as nat) * high) == 256 * low + 256 * (pow256(
            (i - 1) as nat,
        ) * high));
        assert(256 * (pow256((i - 1) as nat) * high) == (256 * pow256((i - 1) as nat)) * high)
            by (nonlinear_arith);
        assert(pow256(i as nat) == 256 * pow256((i - 1) as nat));
        assert(nat_of_le(s) == nat_of_le(s.subrange(0, i)) + pow256(i as nat) * high);
    }
}

/// If two byte strings of one length agree above position `i` and differ
/// at it, the one with the smaller digit there denotes the smaller value.
proof fn lemma_lt_from_digit(a: Seq<u8>, b: Seq<u8>, i: int)
    requires
        a.len() == b.len(),
        0 <= i < a.len(),
        a[i] < b[i],
        forall|j: int| i < j < a.len() ==> a[j] == b[j],
    ensures
        nat_of_le(a) < nat_of_le(b),
{
    let n = a.len() as int;
    lemma_nat_of_le_split(a, i + 1);
    lemma_nat_of_le_split(b, i + 1);
    assert(a.subrange(i + 1, n) =~= b.subrange(i + 1, n));
    let alow = a.subrange(0, i + 1);
    let blow = b.subrange(0, i + 1);
    lemma_nat_of_le_split(alow, i);
    lemma_nat_of_le_split(blow, i);
    assert(alow.subrange(0, i) =~= a.subrange(0, i));
    assert(blow.subrange(0, i) =~= b.subrange(0, i));
    // the digit at position i stands alone in the high part of the split
    assert(alow.subrange(i, i + 1) =~= seq![a[i]]);
    assert(blow.subrange(i, i + 1) =~= seq![b[i]]);
    assert(seq![a[i]].drop_first() =~= Seq::<u8>::empty());
    assert(seq![b[i]].drop_first() =~= Seq::<u8>::empty());
    assert(nat_of_le(Seq::<u8>::empty()) == 0);
    assert(nat_of_le(seq![a[i]]) == a[i] as nat);
    assert(nat_of_le(seq![b[i]]) == b[i] as nat);
    lemma_nat_of_le_bound(a.subrange(0, i));
    let p = pow256(i as nat);
    let av = a[i] as nat;
    let bv = b[i] as nat;
    assert(nat_of_le(alow) < p * (av + 1)) by (nonlinear_arith)
        requires
            nat_of_le(alow) == nat_of_le(a.subrange(0, i)) + p * av,
            nat_of_le(a.subrange(0, i)) < p,
    ;
    assert(p * (av + 1) <= p * bv) by (nonlinear_arith)
        requires
            av < bv,
    ;
    assert(nat_of_le(blow) >= p * bv);
}

/// Whether `a` denotes a value at most `b`'s, for byte strings of one
/// length: comparison from the most significant digit down.
pub fn le_bytes_leq(a: &Vec<u8>, b: &Vec<u8>) -> (r: bool)
    requires
        a@.len() == b@.len(),
    ensures
        r <==> nat_of_le(a@) <= nat_of_le(b@),
{
    let mut i: usize = a.len();
    while i > 0
        invariant
            i <= a@.len(),
            a@.len() == b@.len(),
            forall|j: int| i <= j < a@.len() ==> a@[j] == b@[j],
        decreases i,
    {
        i = i - 1;
        if a[i] < b[i] {
            proof {
                lemma_lt_from_digit(a@, b@, i as int);
            }
            return true;
        }
        if a[i] > b[i] {
            proof {
                lemma_lt_from_digit(b@, a@, i as int);
            }
            return false;
        }
    }
    proof {
        assert(a@ =~= b@);
    }
    true
}

/// Base-256 long division by three of the byte string from position `i`
/// on, most significant digit first: returns the quotient digits, of the
/// same length, and the remainder.
fn div3_from(v: &Vec<u8>, i: usize) -> (r: (Vec<u8>, u8))
    requires
        i <= v@.len(),
    ensures
        r.0@.len() == v@.len() - i,
        r.1 < 3,
        3 * nat_of_le(r.0@) + r.1 == nat_of_le(v@.subrange(i as int, v@.len() as int)),
    decreases v@.len() - i,
{
    if i == v.len() {
        proof {
            assert(v@.subrange(i as int, v@.len() as int) =~= Seq::<u8>::empty());
        }
        (Vec::new(), 0)
    } else {
        let (mut quotient, carry) = div3_from(v, i + 1);
        let cur: u16 = (carry as u16) * 256 + (v[i] as u16);
        let digit: u8 = (cur / 3) as u8;
        let rem: u8 = (cur % 3) as u8;
        let ghost rest = quotient@;
        quotient.insert(0, digit);
        proof {
            assert(quotient@.drop_first() =~= rest);
            assert(v@.subrange(i as int, v@.len() as int).drop_first() =~= v@.subrange(
                i + 1,
                v@.len() as int,
            ));
        }
        (quotient, rem)
    }
}

/// The floor of a third of the value, digit for digit: the result has the
/// same length as the input and denotes `nat_of_le(v) / 3`.
pub fn div3_le(v: &Vec<u8>) -> (r: Vec<u8>)
    ensures
        r@.len() == v@.len(),
        nat_of_le(r@) == nat_of_le(v@) / 3,
{
    let (quotient, rem) = div3_from(v, 0);
    proof {
        assert(v@.subrange(0, v@.len() as int) =~= v@);
        lemma_fundamental_div_mod_converse(
            nat_of_le(v@) as int,
            3,
            nat_of_le(quotient@) as int,
            rem as int,
        );
    }
    quotient
}

/// Appends all of `src` to `dst`.
pub fn push_all(dst: &mut Vec<u8>, src: &Vec<u8>)
    ensures
        final(dst)@ == old(dst)@ + src@,
{
    let mut i: usize = 0;
    while i < src.len()
        invariant
            i <= src@.len(),
            dst@ == old(dst)@ + src@.subrange(0, i as int),
        decreases src@.len() - i,
    {
        let ghost prev = dst@;
        dst.push(src[i]);
        proof {
            assert(prev.push(src@[i as int]) =~= old(dst)@ + src@.subrange(0, i + 1));
        }
        i = i + 1;
    }
    proof {
        assert(src@.subrange(0, src@.len() as int) =~= src@);
    }
}

/// Byte-wise equality of two byte vectors.
pub fn eq_bytes(a: &Vec<u8>, b: &Vec<u8>) -> (r: bool)
    ensures
        r <==> a@ == b@,
{
    if a.len() != b.len() {
        return false;
    }
    let mut i: usize = 0;
    while i < a.len()
        invariant
            i <= a@.len(),
            a@.len() == b@.len(),
            forall|j: int| 0 <= j < i ==> a@[j] == b@[j],
        decreases a@.len() - i,
    {
        if a[i] != b[i] {
            return false;
        }
        i = i + 1;
    }
    proof {
        assert(a@ =~= b@);
    }
    true
}

/// A fresh copy of a byte vector.
pub fn clone_bytes(v: &Vec<u8>) -> (r: Vec<u8>)
    ensures
        r@ == v@,
{
    let mut r: Vec<u8> = Vec::new();
    push_all(&mut r, v);
    proof {
        assert(Seq::<u8>::empty() + v@ =~= v@);
    }
    r
}

/// The bytes of `v` in reverse order.
pub fn reverse_bytes(v: &Vec<u8>) -> (r: Vec<u8>)
    ensures
        r@ == v@.reverse(),
{
    let mut r: Vec<u8> = Vec::new();
    let mut i: usize = v.len();
    while i > 0
        invariant
            i <= v@.len(),
            r@.len() == v@.len() - i,
            forall|j: int| 0 <= j < r@.len() ==> r@[j] == v@[v@.len() - 1 - j],
        decreases i,
    {
        i = i - 1;
        r.push(v[i]);
    }
    proof {
        assert(r@ =~= v@.reverse());
    }
    r
}

} // verus!
