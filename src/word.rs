//! Unsigned 256-bit integers as the EVM holds them: 32 big-endian bytes.
use vstd::arithmetic::power::*;
use vstd::prelude::*;

verus! {

/// The value of a big-endian byte string.
pub open spec fn be_value(s: Seq<u8>) -> nat
    decreases s.len(),
{
    if s.len() == 0 {
        0
    } else {
        be_value(s.drop_last()) * 256 + s.last() as nat
    }
}

/// 2^128, one more than the largest native amount.
pub open spec fn native_bound() -> nat {
    u128::MAX as nat + 1
}

/// The value of a string of bytes that are all zero is zero, and conversely.
pub proof fn lemma_be_value_zero(s: Seq<u8>)
    ensures
        (be_value(s) == 0) <==> (forall|i: int| 0 <= i < s.len() ==> s[i] == 0u8),
    decreases s.len(),
{
    if s.len() > 0 {
        lemma_be_value_zero(s.drop_last());
        if be_value(s) == 0 {
            assert forall|i: int| 0 <= i < s.len() implies s[i] == 0u8 by {
                if i < s.len() - 1 {
                    assert(s[i] == s.drop_last()[i]);
                }
            }
        }
        if forall|i: int| 0 <= i < s.len() ==> s[i] == 0u8 {
            assert forall|i: int| 0 <= i < s.drop_last().len() implies s.drop_last()[i] == 0u8 by {
                assert(s.drop_last()[i] == s[i]);
            }
        }
    }
}

/// A big-endian string of `n` bytes holds a value below 256^n.
pub proof fn lemma_be_value_bound(s: Seq<u8>)
    ensures
        be_value(s) < pow(256, s.len()),
    decreases s.len(),
{
    reveal(pow);
    if s.len() > 0 {
        lemma_be_value_bound(s.drop_last());
        let p = pow(256, (s.len() - 1) as nat);
        let v = be_value(s.drop_last());
        assert(v * 256 + s.last() < p * 256) by (nonlinear_arith)
            requires
                v < p,
                s.last() < 256,
        ;
    }
}

/// Sixteen bytes hold exactly the native amounts.
pub proof fn lemma_pow256_16()
    ensures
        pow(256, 16) == native_bound(),
{
    reveal_with_fuel(pow, 17);
}

/// Concatenation: the high part is shifted by the length of the low part.
pub proof fn lemma_be_value_concat(a: Seq<u8>, b: Seq<u8>)
    ensures
        be_value(a + b) == be_value(a) * pow(256, b.len()) + be_value(b),
    decreases b.len(),
{
    reveal(pow);
    if b.len() == 0 {
        assert(a + b =~= a);
    } else {
        let b1 = b.drop_last();
        assert((a + b).drop_last() =~= a + b1);
        assert((a + b).last() == b.last());
        lemma_be_value_concat(a, b1);
        let x = be_value(a);
        let p = pow(256, b1.len());
        let y = be_value(b1);
        let l = b.last() as nat;
        assert(be_value(a + b) == be_value(a + b1) * 256 + l);
        assert(be_value(b) == y * 256 + l);
        assert(pow(256, b.len()) == 256 * p);
        assert((x * p + y) * 256 + l == x * (256 * p) + (y * 256 + l)) by (nonlinear_arith);
    }
}

/// Byte strings of one length with one value are equal.
pub proof fn lemma_be_value_injective(a: Seq<u8>, b: Seq<u8>)
    requires
        a.len() == b.len(),
        be_value(a) == be_value(b),
    ensures
        a == b,
    decreases a.len(),
{
    if a.len() > 0 {
        let x = be_value(a.drop_last());
        let y = be_value(b.drop_last());
        let l = a.last() as int;
        let m = b.last() as int;
        assert(x == y && l == m) by (nonlinear_arith)
            requires
                x * 256 + l == y * 256 + m,
                0 <= l < 256,
                0 <= m < 256,
                x >= 0,
                y >= 0,
        ;
        lemma_be_value_injective(a.drop_last(), b.drop_last());
        assert(a =~= a.drop_last().push(a.last()));
        assert(b =~= b.drop_last().push(b.last()));
    }
}

/// The 256-bit word that holds `v` (for `v` below 2^256).
pub open spec fn word_of(v: nat) -> U256 {
    choose|w: U256| w.value() == v
}

/// A word is the one that its value names.
pub proof fn lemma_word_of(w: U256)
    ensures
        word_of(w.value()) == w,
{
    let w2 = word_of(w.value());
    assert(w2.value() == w.value());
    lemma_be_value_injective(w2.bytes@, w.bytes@);
    assert(w2.bytes =~= w.bytes);
}

/// An unsigned 256-bit integer, held as 32 big-endian bytes.
#[derive(Clone, Copy, Debug, PartialEq, Eq)]
pub struct U256 {
    pub bytes: [u8; 32],
}

impl U256 {
    /// The integer that the bytes hold.
    pub open spec fn value(&self) -> nat {
        be_value(self.bytes@)
    }

    /// Zero.
    pub fn zero() -> (r: U256)
        ensures
            r.value() == 0,
            forall|i: int| 0 <= i < 32 ==> r.bytes[i] == 0u8,
    {
        let r = U256 { bytes: [0u8; 32] };
        proof {
            lemma_be_value_zero(r.bytes@);
        }
        r
    }

    /// Widens a native amount; always lossless.
    pub fn from_u128(v: u128) -> (r: U256)
        ensures
            r.value() == v as nat,
            r == word_of(v as nat),
    {
        let mut bytes = [0u8; 32];
        let mut x: u128 = v;
        let mut i: usize = 32;
        proof {
            reveal(pow);
            assert(bytes@.subrange(32, 32) =~= Seq::<u8>::empty());
            lemma_pow256_16();
        }
        while i > 16
            invariant
                16 <= i <= 32,
                forall|j: int| 0 <= j < i ==> bytes[j] == 0u8,
                be_value(bytes@.subrange(i as int, 32)) + x * pow(256, (32 - i) as nat) == v,
                x < pow(256, (i - 16) as nat),
            decreases i,
        {
            let ghost old_bytes = bytes@;
            let ghost xo = x;
            let b = (x % 256) as u8;
            x = x / 256;
            i = i - 1;
            bytes[i] = b;
            proof {
                reveal(pow);
                let tail = old_bytes.subrange(i + 1, 32);
                assert(bytes@.subrange(i as int, 32) =~= seq![b] + tail);
                assert(tail =~= bytes@.subrange(i + 1, 32));
                lemma_be_value_concat(seq![b], tail);
                assert(seq![b].drop_last() =~= Seq::<u8>::empty());
                assert(be_value(Seq::<u8>::empty()) == 0);
                assert(be_value(seq![b]) == b as nat);
                let p = pow(256, (31 - i) as nat);
                assert(pow(256, (32 - i) as nat) == 256 * p);
                assert(xo == 256 * x + b) by (nonlinear_arith)
                    requires
                        x == xo / 256,
                        b == xo % 256,
                ;
                assert(b * p + be_value(tail) + x * (256 * p) == be_value(tail) + xo * p)
                    by (nonlinear_arith)
                    requires
                        xo == 256 * x + b,
                ;
                let q = pow(256, (i - 16) as nat);
                assert(pow(256, (i + 1 - 16) as nat) == 256 * q);
                assert(x < q) by (nonlinear_arith)
                    requires
                        xo < 256 * q,
                        x == xo / 256,
                ;
            }
        }
        proof {
            assert(x == 0) by {
                assert(pow(256, 0) == 1) by {
                    reveal(pow);
                }
            }
            assert(bytes@ =~= bytes@.subrange(0, 16) + bytes@.subrange(16, 32));
            lemma_be_value_concat(bytes@.subrange(0, 16), bytes@.subrange(16, 32));
            lemma_be_value_zero(bytes@.subrange(0, 16));
            lemma_word_of(U256 { bytes });
        }
        U256 { bytes }
    }

    /// Narrows to a native amount, failing when the value does not fit in 128 bits.
    pub fn to_u128(&self) -> (r: Option<u128>)
        ensures
            r is Some <==> self.value() < native_bound(),
            r matches Some(v) ==> v as nat == self.value(),
    {
        let ghost s = self.bytes@;
        let ghost hi = s.subrange(0, 16);
        let ghost lo = s.subrange(16, 32);
        let mut i: usize = 0;
        while i < 16
            invariant
                0 <= i <= 16,
                s == self.bytes@,
                hi == s.subrange(0, 16),
                lo == s.subrange(16, 32),
                forall|j: int| 0 <= j < i ==> s[j] == 0u8,
            decreases 16 - i,
        {
            if self.bytes[i] != 0 {
                proof {
                    assert(hi[i as int] != 0u8);
                    lemma_be_value_zero(hi);
                    assert(be_value(hi) >= 1);
                    assert(s =~= hi + lo);
                    lemma_be_value_concat(hi, lo);
                    lemma_pow256_16();
                    assert(be_value(hi) * native_bound() >= native_bound()) by (nonlinear_arith)
                        requires
                            be_value(hi) >= 1,
                    ;
                }
                return None;
            }
            i = i + 1;
        }
        proof {
            assert forall|j: int| 0 <= j < hi.len() implies hi[j] == 0u8 by {
                assert(hi[j] == s[j]);
            }
        }
        let mut acc: u128 = 0;
        let mut k: usize = 16;
        proof {
            assert(s.subrange(16, 16) =~= Seq::<u8>::empty());
        }
        while k < 32
            invariant
                16 <= k <= 32,
                s == self.bytes@,
                hi == s.subrange(0, 16),
                lo == s.subrange(16, 32),
                forall|j: int| 0 <= j < 16 ==> s[j] == 0u8,
                acc as nat == be_value(s.subrange(16, k as int)),
            decreases 32 - k,
        {
            proof {
                let t = s.subrange(16, k + 1);
                assert(t.drop_last() =~= s.subrange(16, k as int));
                lemma_be_value_bound(t);
                assert(pow(256, (k + 1 - 16) as nat) <= pow(256, 16)) by {
                    lemma_pow_increases(256, (k + 1 - 16) as nat, 16);
                }
                lemma_pow256_16();
            }
            acc = acc * 256 + self.bytes[k] as u128;
            k = k + 1;
        }
        proof {
            assert(s.subrange(16, 32) =~= lo);
            assert(s =~= hi + lo);
            lemma_be_value_concat(hi, lo);
            lemma_be_value_bound(lo);
            lemma_be_value_zero(hi);
            lemma_pow256_16();
        }
        Some(acc)
    }
}


impl U256 {
    /// Reads a big-endian byte string of at most 32 bytes, left-padding it with zeros;
    /// a longer string has no 256-bit value and gives `None`.
    pub fn from_be_slice(b: &[u8]) -> (r: Option<U256>)
        ensures
            r is Some <==> b@.len() <= 32,
            r matches Some(w) ==> w.value() == be_value(b@),
            r matches Some(w) ==> w == word_of(be_value(b@)),
            r matches Some(w) ==> w.bytes@.subrange(32 - b@.len(), 32) == b@,
    {
        let n = b.len();
        if n > 32 {
            return None;
        }
        let mut bytes = [0u8; 32];
        let start: usize = 32 - n;
        let mut i: usize = 0;
        while i < n
            invariant
                n == b@.len(),
                n <= 32,
                start == 32 - n,
                0 <= i <= n,
                forall|j: int| 0 <= j < start ==> bytes[j] == 0u8,
                forall|j: int| 0 <= j < i ==> bytes[start + j] == b[j],
            decreases n - i,
        {
            bytes[start + i] = b[i];
            i = i + 1;
        }
        proof {
            let s = bytes@;
            assert(s.subrange(start as int, 32) =~= b@);
            assert(s =~= s.subrange(0, start as int) + s.subrange(start as int, 32));
            lemma_be_value_concat(s.subrange(0, start as int), s.subrange(start as int, 32));
            lemma_be_value_zero(s.subrange(0, start as int));
            lemma_word_of(U256 { bytes });
        }
        Some(U256 { bytes })
    }
}

} // verus!
