//! The internet checksum (RFC 1071): the one's-complement of the
//! one's-complement sum of a run of big-endian 16-bit words. Both the IPv4
//! header checksum and the ICMP checksum use it.

use vstd::arithmetic::div_mod::{
    lemma_fundamental_div_mod, lemma_mod_multiples_vanish, lemma_small_mod, lemma_sub_mod_noop,
};
use vstd::prelude::*;

verus! {

/// Folds the carries of a sum back into the low 16 bits until the value fits:
/// the one's-complement accumulation step.
pub open spec fn fold16(n: int) -> int
    decreases n,
{
    if n < 0x10000 {
        n
    } else {
        fold16(n % 0x10000 + n / 0x10000)
    }
}

/// The plain integer sum of a run of 16-bit words.
pub open spec fn word_sum(s: Seq<u16>) -> int
    decreases s.len(),
{
    if s.len() == 0 {
        0
    } else {
        word_sum(s.drop_last()) + s.last()
    }
}

/// The 16-bit words read big-endian from `b` starting at byte `start`.
pub open spec fn words_of(b: Seq<u8>, start: int, n: int) -> Seq<u16> {
    Seq::new(n as nat, |i: int| (b[start + 2 * i] * 256 + b[start + 2 * i + 1]) as u16)
}

/// A run of words carries a valid checksum when its one's-complement sum,
/// stored checksum word included, folds to all ones.
pub open spec fn checksum_valid(s: Seq<u16>) -> bool {
    fold16(word_sum(s)) == 0xFFFF
}

/// The checksum value to store for words summing to `n` (with the checksum
/// word still zero): the one's-complement of the folded sum.
pub open spec fn checksum_of_sum(n: int) -> int {
    0xFFFF - fold16(n)
}

proof fn lemma_fold16_props(n: int)
    requires
        n >= 0,
    ensures
        0 <= fold16(n) <= 0xFFFF,
        fold16(n) <= n,
        fold16(n) % 0xFFFF == n % 0xFFFF,
        n > 0 ==> fold16(n) > 0,
    decreases n,
{
    if n < 0x10000 {
    } else {
        let q = n / 0x10000;
        let r = n % 0x10000;
        lemma_fundamental_div_mod(n, 0x10000);
        assert(n == 0x10000 * q + r);
        assert(q >= 1);
        let m = r + q;
        assert(m < n);
        lemma_fold16_props(m);
        assert(n == 0xFFFF * q + m);
        lemma_mod_multiples_vanish(q, m, 0xFFFF);
        assert(n % 0xFFFF == m % 0xFFFF);
    }
}

proof fn lemma_word_sum_bounds(s: Seq<u16>)
    ensures
        0 <= word_sum(s) <= s.len() * 0xFFFF,
    decreases s.len(),
{
    if s.len() == 0 {
    } else {
        lemma_word_sum_bounds(s.drop_last());
    }
}

proof fn lemma_word_sum_update(s: Seq<u16>, i: int, v: u16)
    requires
        0 <= i < s.len(),
    ensures
        word_sum(s.update(i, v)) == word_sum(s) - s[i] + v,
    decreases s.len(),
{
    let t = s.update(i, v);
    if i == s.len() - 1 {
        assert(t.drop_last() =~= s.drop_last());
    } else {
        assert(t.drop_last() =~= s.drop_last().update(i, v));
        lemma_word_sum_update(s.drop_last(), i, v);
    }
}

/// The checksum of a run of non-negative sum is itself a 16-bit value.
pub proof fn lemma_checksum_bounds(n: int)
    requires
        n >= 0,
    ensures
        0 <= checksum_of_sum(n) <= 0xFFFF,
{
    lemma_fold16_props(n);
}

/// A run's sum is non-negative, so its checksum is a 16-bit value.
pub proof fn lemma_word_sum_nonneg(s: Seq<u16>)
    ensures
        word_sum(s) >= 0,
{
    lemma_word_sum_bounds(s);
}

/// Self-verification of the internet checksum: take any run of words whose
/// checksum slot `i` still holds zero, store the checksum computed from the
/// run's sum in that slot, and the whole run folds to all ones.
pub proof fn lemma_checksum_self_verifies(s: Seq<u16>, i: int, ck: u16)
    requires
        0 <= i < s.len(),
        s[i] == 0,
        ck == checksum_of_sum(word_sum(s)),
    ensures
        checksum_valid(s.update(i, ck)),
{
    let sum = word_sum(s);
    lemma_word_sum_bounds(s);
    lemma_fold16_props(sum);
    let f = fold16(sum);
    lemma_word_sum_update(s, i, ck);
    let sum2 = word_sum(s.update(i, ck));
    assert(sum2 == sum - f + 0xFFFF);
    lemma_fold16_props(sum2);
    assert((sum - f) % 0xFFFF == 0) by {
        lemma_sub_mod_noop(sum, f, 0xFFFF);
        assert(sum % 0xFFFF == f % 0xFFFF);
        assert((sum % 0xFFFF - f % 0xFFFF) % 0xFFFF == (sum - f) % 0xFFFF);
        assert((0int) % 0xFFFF == 0);
    }
    assert(sum2 % 0xFFFF == 0) by {
        lemma_mod_multiples_vanish(1, sum - f, 0xFFFF);
        assert(0xFFFF * 1 + (sum - f) == sum2);
    }
    let f2 = fold16(sum2);
    assert(f2 % 0xFFFF == 0);
    assert(f2 > 0);
    if f2 < 0xFFFF {
        lemma_small_mod(f2 as nat, 0xFFFF as nat);
        assert(false);
    }
}

/// Computes the internet checksum of the `nwords` big-endian words of
/// `bytes` that start at byte `start`; the checksum slot among them must
/// still hold zero for the result to be the value to store there.
pub fn compute_checksum(bytes: &Vec<u8>, start: usize, nwords: usize) -> (r: u16)
    requires
        start + 2 * nwords <= bytes@.len(),
        nwords <= 0xFFFF,
    ensures
        r == checksum_of_sum(word_sum(words_of(bytes@, start as int, nwords as int))),
{
    let words = Ghost(words_of(bytes@, start as int, nwords as int));
    let blen = bytes.len();
    let mut sum: u32 = 0;
    let mut i: usize = 0;
    while i < nwords
        invariant
            i <= nwords,
            start + 2 * nwords <= blen,
            blen == bytes@.len(),
            nwords <= 0xFFFF,
            words@ == words_of(bytes@, start as int, nwords as int),
            sum == word_sum(words@.take(i as int)),
            sum <= i * 0xFFFF,
        decreases nwords - i,
    {
        let hi = bytes[start + 2 * i];
        let lo = bytes[start + 2 * i + 1];
        let w: u32 = (hi as u32) * 256 + (lo as u32);
        proof {
            assert(words@.take(i + 1).drop_last() =~= words@.take(i as int));
            assert(words@.take(i + 1).last() == words@[i as int]);
            assert(words@[i as int] == w);
        }
        sum = sum + w;
        i = i + 1;
    }
    proof {
        assert(words@.take(nwords as int) =~= words@);
    }
    while sum > 0xFFFF
        invariant
            fold16(sum as int) == fold16(word_sum(words@)),
            sum >= 0,
        decreases sum,
    {
        sum = sum % 0x10000 + sum / 0x10000;
    }
    0xFFFFu16 - (sum as u16)
}

} // verus!
