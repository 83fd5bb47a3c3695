//! ASCII decimal numerals: the length field of an encoded object record is
//! written and read as a plain base-10 numeral.

use vstd::prelude::*;
use vstd::arithmetic::div_mod::lemma_fundamental_div_mod;

verus! {

/// An ASCII decimal digit.
pub open spec fn is_digit(b: u8) -> bool {
    '0' as u8 <= b <= '9' as u8
}

/// A non-empty run of ASCII decimal digits.
pub open spec fn is_digits(s: Seq<u8>) -> bool {
    s.len() > 0 && forall|i: int| 0 <= i < s.len() ==> is_digit(#[trigger] s[i])
}

/// The value a run of digits denotes.
pub open spec fn dec_value(s: Seq<u8>) -> nat
    decreases s.len(),
{
    if s.len() == 0 {
        0
    } else {
        dec_value(s.drop_last()) * 10 + (s.last() - '0' as u8) as nat
    }
}

/// The canonical numeral for `n`: no sign, no leading zeros (except for 0
/// itself).
pub open spec fn dec_digits(n: nat) -> Seq<u8>
    decreases n,
{
    if n < 10 {
        seq![('0' as u8 + n) as u8]
    } else {
        dec_digits(n / 10).push(('0' as u8 + n % 10) as u8)
    }
}

/// The canonical numeral denotes the number it was built from, consists only
/// of digits, and is never empty.
pub proof fn lemma_dec_digits_value(n: nat)
    ensures
        dec_value(dec_digits(n)) == n,
        is_digits(dec_digits(n)),
    decreases n,
{
    assert(dec_value(Seq::<u8>::empty()) == 0);
    if n < 10 {
        let s = dec_digits(n);
        assert(s.drop_last() =~= Seq::<u8>::empty());
        assert(s.last() == ('0' as u8 + n) as u8);
        assert(dec_value(s) == dec_value(Seq::<u8>::empty()) * 10 + (s.last() - '0' as u8) as nat);
    } else {
        lemma_dec_digits_value(n / 10);
        lemma_fundamental_div_mod(n as int, 10);
        let s = dec_digits(n);
        assert(s.drop_last() =~= dec_digits(n / 10));
        assert(s.last() == ('0' as u8 + n % 10) as u8);
        assert(dec_value(s) == dec_value(dec_digits(n / 10)) * 10 + (s.last() - '0' as u8) as nat);
        assert(dec_value(s) == (n / 10) * 10 + n % 10);
    }
}

/// Digit runs denote no less than any of their prefixes.
pub proof fn lemma_dec_value_prefix(s: Seq<u8>, i: int)
    requires
        0 <= i <= s.len(),
    ensures
        dec_value(s.take(i)) <= dec_value(s),
    decreases s.len() - i,
{
    if i < s.len() {
        lemma_dec_value_prefix(s, i + 1);
        assert(s.take(i + 1).drop_last() =~= s.take(i));
        assert(dec_value(s.take(i)) <= dec_value(s.take(i + 1)));
    } else {
        assert(s.take(i) =~= s);
    }
}

/// Render `n` as its canonical decimal numeral.
pub fn usize_to_dec(n: usize) -> (r: Vec<u8>)
    ensures
        r@ == dec_digits(n as nat),
    decreases n,
{
    if n < 10 {
        let d: u8 = '0' as u8 + (n as u8);
        let v: Vec<u8> = vec![d];
        assert(v@ =~= dec_digits(n as nat));
        v
    } else {
        let mut v = usize_to_dec(n / 10);
        let d: u8 = '0' as u8 + ((n % 10) as u8);
        v.push(d);
        assert(v@ =~= dec_digits(n as nat));
        v
    }
}

/// Read a decimal numeral. Returns the denoted value exactly when the bytes
/// are a non-empty run of digits whose value fits in `usize`; anything else —
/// an empty field, a sign, a stray byte, or an overflowing value — is
/// rejected.
pub fn parse_decimal(bytes: &[u8]) -> (r: Option<usize>)
    ensures
        match r {
            Some(v) => is_digits(bytes@) && dec_value(bytes@) == v as nat,
            None => !is_digits(bytes@) || dec_value(bytes@) > usize::MAX as nat,
        },
{
    if bytes.len() == 0 {
        return None;
    }
    let mut acc: usize = 0;
    let mut i: usize = 0;
    while i < bytes.len()
        invariant
            i <= bytes@.len(),
            0 < bytes@.len(),
            forall|j: int| 0 <= j < i ==> is_digit(#[trigger] bytes@[j]),
            acc as nat == dec_value(bytes@.take(i as int)),
        decreases bytes@.len() - i,
    {
        let b = bytes[i];
        if b < '0' as u8 || b > '9' as u8 {
            return None;
        }
        let d: usize = (b - '0' as u8) as usize;
        if acc > (usize::MAX - d) / 10 {
            proof {
                lemma_fundamental_div_mod(usize::MAX as int - d as int, 10);
                assert(acc * 10 + d > usize::MAX) by (nonlinear_arith)
                    requires
                        acc as int > (usize::MAX as int - d as int) / 10,
                        (usize::MAX as int - d) == ((usize::MAX as int - d as int) / 10) * 10 + (
                        usize::MAX as int - d as int) % 10,
                        0 <= (usize::MAX as int - d as int) % 10 < 10,
                ;
                assert(bytes@.take(i + 1).drop_last() =~= bytes@.take(i as int));
                assert(dec_value(bytes@.take(i + 1)) == acc * 10 + d);
                lemma_dec_value_prefix(bytes@, i + 1);
            }
            return None;
        }
        proof {
            lemma_fundamental_div_mod(usize::MAX as int - d as int, 10);
            assert(bytes@.take(i + 1).drop_last() =~= bytes@.take(i as int));
        }
        assert(acc * 10 + d <= usize::MAX) by (nonlinear_arith)
            requires
                acc as int <= (usize::MAX as int - d as int) / 10,
                (usize::MAX as int - d) == ((usize::MAX as int - d as int) / 10) * 10 + (usize::MAX
                    as int - d as int) % 10,
                0 <= (usize::MAX as int - d as int) % 10 < 10,
                0 <= d,
        ;
        acc = acc * 10 + d;
        i += 1;
    }
    proof {
        assert(bytes@.take(i as int) =~= bytes@);
    }
    Some(acc)
}

} // verus!
