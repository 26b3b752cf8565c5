//! Fixed-width decimal byte encoding of signed logical coordinates, used by
//! the persisted window-geometry blob.
//!
//! A number is written as one sign byte (`+` or `-`) followed by exactly
//! [`NUM_DIGITS`] decimal digits, most significant first and zero padded.
//! Parsing is positional, so a well-formed blob is recovered exactly; the
//! round trip is proved in [`crate::settings`].

use vstd::prelude::*;
use vstd::arithmetic::div_mod::lemma_fundamental_div_mod;

verus! {

/// How many decimal digits a field carries.
pub const NUM_DIGITS: u64 = 10;

/// Width of one encoded number: the sign byte plus its digits.
pub const FIELD_WIDTH: u64 = 11;

/// ASCII codes the format uses.
pub const BYTE_PLUS: u8 = 43;

/// ASCII minus sign.
pub const BYTE_MINUS: u8 = 45;

/// ASCII zero.
pub const BYTE_ZERO: u8 = 48;

/// ASCII one, the set value of a flag byte.
pub const BYTE_ONE: u8 = 49;

/// ASCII space, the field separator.
pub const BYTE_SPACE: u8 = 32;

/// Whether `b` is an ASCII decimal digit.
pub open spec fn is_digit(b: u8) -> bool {
    48 <= b && b <= 57
}

/// The numeric value of a digit byte.
pub open spec fn digit_val(b: u8) -> int {
    b as int - 48
}

/// Ten to the `n`.
pub open spec fn pow10(n: nat) -> nat
    decreases n,
{
    if n == 0 {
        1nat
    } else {
        10 * pow10((n - 1) as nat)
    }
}

/// The last `n` decimal digits of `v`, most significant first, zero padded.
pub open spec fn spec_pad_digits(v: nat, n: nat) -> Seq<u8>
    decreases n,
{
    if n == 0 {
        Seq::<u8>::empty()
    } else {
        spec_pad_digits(v / 10, (n - 1) as nat) + seq![(48 + v % 10) as u8]
    }
}

/// The value of a digit string, most significant first.
pub open spec fn spec_digits_val(s: Seq<u8>) -> int
    decreases s.len(),
{
    if s.len() == 0 {
        0
    } else {
        spec_digits_val(s.drop_last()) * 10 + digit_val(s.last())
    }
}

/// The bytes of one encoded signed number: sign, then padded digits of the
/// magnitude.
pub open spec fn spec_encode_i64(v: int) -> Seq<u8> {
    if v < 0 {
        seq![BYTE_MINUS] + spec_pad_digits((-v) as nat, NUM_DIGITS as nat)
    } else {
        seq![BYTE_PLUS] + spec_pad_digits(v as nat, NUM_DIGITS as nat)
    }
}

/// Padded digit strings have exactly the requested length, and every byte is
/// a digit.
pub proof fn lemma_pad_digits_shape(v: nat, n: nat)
    ensures
        spec_pad_digits(v, n).len() == n,
        forall|k: int| 0 <= k < n ==> is_digit(#[trigger] spec_pad_digits(v, n)[k]),
    decreases n,
{
    if n > 0 {
        lemma_pad_digits_shape(v / 10, (n - 1) as nat);
        let s = spec_pad_digits(v, n);
        let p = spec_pad_digits(v / 10, (n - 1) as nat);
        assert(forall|k: int| 0 <= k < n - 1 ==> s[k] == p[k]);
        assert(is_digit(s[n - 1]));
    }
}

/// For a value small enough to fit its digits, padding then evaluating gives
/// the value back.
pub proof fn lemma_pad_digits_val(v: nat, n: nat)
    requires
        v < pow10(n),
    ensures
        spec_digits_val(spec_pad_digits(v, n)) == v,
    decreases n,
{
    if n == 0 {
        assert(v == 0);
    } else {
        lemma_fundamental_div_mod(v as int, 10);
        assert(v == 10 * (v / 10) + v % 10);
        assert(v / 10 < pow10((n - 1) as nat)) by {
            if v / 10 >= pow10((n - 1) as nat) {
                assert(10 * (v / 10) >= 10 * pow10((n - 1) as nat));
            }
        }
        lemma_pad_digits_val(v / 10, (n - 1) as nat);
        let s = spec_pad_digits(v, n);
        let p = spec_pad_digits(v / 10, (n - 1) as nat);
        lemma_pad_digits_shape(v / 10, (n - 1) as nat);
        assert(s.drop_last() =~= p);
        assert(s.last() == (48 + v % 10) as u8);
    }
}

/// Append the last `n` decimal digits of `v`, most significant first.
pub fn push_pad_digits(out: &mut Vec<u8>, v: u64, n: u64)
    ensures
        final(out)@ == old(out)@ + spec_pad_digits(v as nat, n as nat),
    decreases n,
{
    if n == 0 {
        assert(final(out)@ =~= old(out)@ + spec_pad_digits(v as nat, 0nat));
    } else {
        push_pad_digits(out, v / 10, n - 1);
        out.push(48 + (v % 10) as u8);
        assert(final(out)@ =~= old(out)@ + spec_pad_digits(v as nat, n as nat));
    }
}

/// Append one signed number in the fixed-width format.
pub fn push_i64(out: &mut Vec<u8>, v: i64)
    requires
        -9_999_999_999 <= v && v <= 9_999_999_999,
    ensures
        final(out)@ == old(out)@ + spec_encode_i64(v as int),
        final(out)@.len() == old(out)@.len() + FIELD_WIDTH,
    {
    if v < 0 {
        out.push(BYTE_MINUS);
        push_pad_digits(out, (-v) as u64, NUM_DIGITS);
    } else {
        out.push(BYTE_PLUS);
        push_pad_digits(out, v as u64, NUM_DIGITS);
    }
    proof {
        if v < 0 {
            lemma_pad_digits_shape((-v) as nat, NUM_DIGITS as nat);
            assert(final(out)@ =~= old(out)@ + spec_encode_i64(v as int));
        } else {
            lemma_pad_digits_shape(v as nat, NUM_DIGITS as nat);
            assert(final(out)@ =~= old(out)@ + spec_encode_i64(v as int));
        }
    }
}

/// What parsing one signed number at offset `i` yields: the value if the
/// sign byte and all digit positions are well formed, otherwise nothing.
pub open spec fn spec_parse_i64(s: Seq<u8>, i: int) -> Option<int> {
    if i + FIELD_WIDTH <= s.len() && (s[i] == BYTE_PLUS || s[i] == BYTE_MINUS)
        && (forall|k: int| i + 1 <= k < i + FIELD_WIDTH ==> is_digit(#[trigger] s[k])) {
        let m = spec_digits_val(s.subrange(i + 1, i + FIELD_WIDTH as int));
        if s[i] == BYTE_MINUS {
            Some(-m)
        } else {
            Some(m)
        }
    } else {
        None
    }
}

/// Parse one signed number at offset `i` of `s`.
pub fn parse_i64(s: &Vec<u8>, i: usize) -> (r: Option<i64>)
    requires
        i + FIELD_WIDTH <= s@.len(),
    ensures
        r matches Some(v) ==> spec_parse_i64(s@, i as int) == Some(v as int),
        r is None ==> spec_parse_i64(s@, i as int) is None,
{
    let n = s.len();
    let sign = s[i];
    if sign != BYTE_PLUS && sign != BYTE_MINUS {
        return None;
    }
    let mut acc: u64 = 0;
    let mut j: usize = i + 1;
    let end: usize = i + FIELD_WIDTH as usize;
    while j < end
        invariant
            i + 1 <= j <= end,
            end == i + FIELD_WIDTH,
            end <= n == s@.len(),
            acc == spec_digits_val(s@.subrange(i + 1, j as int)),
            acc < pow10((j - i - 1) as nat),
            forall|k: int| i + 1 <= k < j ==> is_digit(#[trigger] s@[k]),
        decreases end - j,
    {
        let b = s[j];
        if b < 48 || b > 57 {
            proof {
                assert(!is_digit(s@[j as int]));
            }
            return None;
        }
        proof {
            lemma_pow10_increases((j - i - 1) as nat, 9);
            assert(pow10(9) == 1_000_000_000) by {
                reveal_with_fuel(pow10, 10);
            }
            assert(pow10(((j + 1) - i - 1) as nat) == 10 * pow10((j - i - 1) as nat));
            assert(s@.subrange(i + 1, j + 1).drop_last() =~= s@.subrange(i + 1, j as int));
            assert(s@.subrange(i + 1, j + 1).last() == s@[j as int]);
        }
        acc = acc * 10 + (b - 48) as u64;
        j += 1;
    }
    proof {
        assert(s@.subrange(i + 1, i + FIELD_WIDTH as int) =~= s@.subrange(i + 1, j as int));
        lemma_pow10_increases((j - i - 1) as nat, 10);
        assert(pow10(10) == 10_000_000_000) by {
            reveal_with_fuel(pow10, 11);
        }
    }
    if sign == BYTE_MINUS {
        Some(-(acc as i64))
    } else {
        Some(acc as i64)
    }
}

/// An encoded number is always [`FIELD_WIDTH`] bytes.
pub proof fn lemma_encode_i64_len(v: int)
    ensures
        spec_encode_i64(v).len() == FIELD_WIDTH,
{
    if v < 0 {
        lemma_pad_digits_shape((-v) as nat, NUM_DIGITS as nat);
    } else {
        lemma_pad_digits_shape(v as nat, NUM_DIGITS as nat);
    }
}

/// `pow10` grows with its exponent.
pub proof fn lemma_pow10_increases(a: nat, b: nat)
    requires
        a <= b,
    ensures
        pow10(a) <= pow10(b),
    decreases b,
{
    if a < b {
        lemma_pow10_increases(a, (b - 1) as nat);
        assert(pow10(b) == 10 * pow10((b - 1) as nat));
    }
}

/// Parsing an encoded number (at any offset of a longer buffer) gives the
/// number back.
pub proof fn lemma_parse_encoded(s: Seq<u8>, i: int, v: int)
    requires
        0 <= i,
        i + FIELD_WIDTH <= s.len(),
        -9_999_999_999 <= v <= 9_999_999_999,
        s.subrange(i, i + FIELD_WIDTH as int) == spec_encode_i64(v),
    ensures
        spec_parse_i64(s, i) == Some(v),
{
    let e = spec_encode_i64(v);
    let m: nat = if v < 0 { (-v) as nat } else { v as nat };
    lemma_pad_digits_shape(m, NUM_DIGITS as nat);
    assert(pow10(NUM_DIGITS as nat) == 10_000_000_000) by {
        reveal_with_fuel(pow10, 11);
    }
    lemma_pad_digits_val(m, NUM_DIGITS as nat);
    assert(forall|k: int| 0 <= k < FIELD_WIDTH ==> s[i + k] == #[trigger] e[k]) by {
        assert(forall|k: int| 0 <= k < FIELD_WIDTH ==> s.subrange(i, i + FIELD_WIDTH as int)[k]
            == #[trigger] e[k]);
    }
    assert(s[i] == e[0]);
    let p = spec_pad_digits(m, NUM_DIGITS as nat);
    assert forall|k: int| 0 <= k < NUM_DIGITS implies s[i + 1 + k] == p[k] && is_digit(
        s[i + 1 + k],
    ) by {
        assert(s[i + 1 + k] == e[1 + k]);
        assert(e[1 + k] == p[k]);
        assert(is_digit(p[k]));
    }
    assert forall|k: int| i + 1 <= k < i + FIELD_WIDTH implies is_digit(#[trigger] s[k]) by {
        assert(s[i + 1 + (k - i - 1)] == p[k - i - 1] && is_digit(s[i + 1 + (k - i - 1)]));
    }
    assert(s.subrange(i + 1, i + FIELD_WIDTH as int) =~= p) by {
        assert forall|k: int| 0 <= k < NUM_DIGITS implies s.subrange(
            i + 1,
            i + FIELD_WIDTH as int,
        )[k] == p[k] by {
            assert(s.subrange(i + 1, i + FIELD_WIDTH as int)[k] == s[i + 1 + k]);
            assert(s[i + 1 + k] == p[k]);
        }
    }
}

} // verus!
