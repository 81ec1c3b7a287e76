//! The candidate builder: the exact byte sequence
//! `name ++ decimal(N) ++ "(" ++ parameters ++ ")"`, where an index of zero
//! contributes no digits at all. That asymmetry is a compatibility detail the
//! rest of the system depends on.

use vstd::prelude::*;

verus! {

/// The canonical base-10 text of `n`: the digits of `n / 10` (if any)
/// followed by the digit of `n % 10`.
pub open spec fn spec_decimal(n: nat) -> Seq<u8>
    decreases n,
{
    if n < 10 {
        seq![(48 + n) as u8]
    } else {
        spec_decimal(n / 10).push((48 + n % 10) as u8)
    }
}

/// The digits an index contributes to a candidate: none at all for zero, the
/// canonical decimal text otherwise.
pub open spec fn spec_index_text(index: u64) -> Seq<u8> {
    if index == 0 {
        Seq::<u8>::empty()
    } else {
        spec_decimal(index as nat)
    }
}

/// The full candidate for `index`: `prefix ++ spec_index_text(index) ++ suffix`.
pub open spec fn spec_candidate(prefix: Seq<u8>, suffix: Seq<u8>, index: u64) -> Seq<u8> {
    prefix + spec_index_text(index) + suffix
}

/// The numeric value a sequence of ASCII digits denotes.
pub open spec fn decimal_value(s: Seq<u8>) -> int
    decreases s.len(),
{
    if s.len() == 0 {
        0
    } else {
        10 * decimal_value(s.drop_last()) + (s.last() - 48)
    }
}

/// The decimal text of any `n` is non-empty, consists of ASCII digits only,
/// and has no leading zero digit unless it is the one-digit text of zero
/// itself.
pub proof fn lemma_decimal_canonical(n: nat)
    ensures
        spec_decimal(n).len() >= 1,
        forall|i: int| 0 <= i < spec_decimal(n).len() ==> 48 <= #[trigger] spec_decimal(n)[i] <= 57,
        n >= 1 ==> spec_decimal(n)[0] != 48,
    decreases n,
{
    if n >= 10 {
        lemma_decimal_canonical(n / 10);
        assert(n / 10 >= 1);
        assert forall|i: int| 0 <= i < spec_decimal(n).len() implies 48 <= #[trigger] spec_decimal(n)[i] <= 57 by {
            if i < spec_decimal(n / 10).len() {
                assert(spec_decimal(n)[i] == spec_decimal(n / 10)[i]);
            }
        }
    }
}

/// The decimal text of `n` denotes `n`: together with
/// `lemma_decimal_canonical` this pins the text down as the standard base-10
/// representation of `n`.
pub proof fn lemma_decimal_value(n: nat)
    ensures
        decimal_value(spec_decimal(n)) == n,
    decreases n,
{
    let s = spec_decimal(n);
    if n < 10 {
        assert(s.drop_last() =~= Seq::<u8>::empty());
        assert(decimal_value(s.drop_last()) == 0);
        assert(s.last() == (48 + n) as u8);
        assert(decimal_value(s) == 10 * 0 + ((48 + n) as u8 - 48));
    } else {
        lemma_decimal_value(n / 10);
        assert(s.drop_last() =~= spec_decimal(n / 10));
        assert(s.last() == (48 + n % 10) as u8);
        assert(decimal_value(s) == 10 * decimal_value(s.drop_last()) + (s.last() - 48));
        assert(n == 10 * (n / 10) + n % 10);
    }
}

/// An index of zero contributes no bytes: the candidate is exactly the prefix
/// followed by the suffix.
pub proof fn lemma_candidate_index_zero(prefix: Seq<u8>, suffix: Seq<u8>)
    ensures
        spec_candidate(prefix, suffix, 0) == prefix + suffix,
{
    assert(spec_candidate(prefix, suffix, 0) =~= prefix + suffix);
}

/// Appends every byte of `s` to `buf`, in order.
pub fn append_bytes(buf: &mut Vec<u8>, s: &[u8])
    ensures
        final(buf)@ == old(buf)@ + s@,
{
    let n = s.len();
    let mut i: usize = 0;
    while i < n
        invariant
            n == s@.len(),
            0 <= i <= n,
            buf@ == old(buf)@ + s@.take(i as int),
        decreases n - i,
    {
        buf.push(s[i]);
        proof {
            assert(old(buf)@ + s@.take(i as int) + seq![s@[i as int]] =~= old(buf)@ + s@.take(
                i as int + 1,
            ));
        }
        i = i + 1;
    }
    proof {
        assert(s@.take(n as int) =~= s@);
    }
}

/// Appends the canonical decimal digits of `n` to `buf`.
pub fn push_decimal(buf: &mut Vec<u8>, n: u64)
    requires
        n >= 1,
    ensures
        final(buf)@ == old(buf)@ + spec_decimal(n as nat),
{
    let mut digits: Vec<u8> = Vec::new();
    let mut m: u64 = n;
    proof {
        assert(spec_decimal(n as nat) =~= spec_decimal(n as nat) + digits@);
    }
    while m > 0
        invariant
            m > 0 ==> spec_decimal(n as nat) == spec_decimal(m as nat) + digits@,
            m == 0 ==> spec_decimal(n as nat) == digits@,
        decreases m,
    {
        let d: u8 = (m % 10) as u8 + 48;
        let ghost old_digits = digits@;
        digits.insert(0, d);
        proof {
            assert(digits@ =~= seq![d] + old_digits);
            if m >= 10 {
                assert(spec_decimal(m as nat) == spec_decimal((m as nat) / 10).push(d));
                assert(spec_decimal((m as nat) / 10).push(d) + old_digits =~= spec_decimal(
                    (m as nat) / 10,
                ) + (seq![d] + old_digits));
                assert((m / 10) as nat == (m as nat) / 10);
            } else {
                assert(spec_decimal(m as nat) =~= seq![d]);
                assert(spec_decimal(m as nat) + old_digits =~= seq![d] + old_digits);
            }
        }
        m = m / 10;
    }
    append_bytes(buf, digits.as_slice());
}

/// Builds the candidate byte sequence for `index` from the shared prefix (the
/// base name) and suffix (`"(" ++ parameters ++ ")"`).
pub fn build_candidate(prefix: &[u8], suffix: &[u8], index: u64) -> (r: Vec<u8>)
    ensures
        r@ == spec_candidate(prefix@, suffix@, index),
{
    let mut buf: Vec<u8> = Vec::new();
    append_bytes(&mut buf, prefix);
    if index > 0 {
        push_decimal(&mut buf, index);
    }
    append_bytes(&mut buf, suffix);
    proof {
        assert(buf@ =~= spec_candidate(prefix@, suffix@, index));
    }
    buf
}

} // verus!
