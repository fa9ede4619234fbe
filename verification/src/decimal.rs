//! Decimal digit strings: reading unsigned integers from text and
//! writing counters as canonical decimal identifiers.

use vstd::prelude::*;
use vstd::string::StrSliceExecFns;

verus! {

/// Faults that can arise when reading an unsigned integer from text,
/// mirroring the failure classes of integer parsing in std.
#[derive(Clone, Copy, Debug, PartialEq, Eq, Structural)]
pub enum ParseFault {
    /// The value string was empty.
    Empty,
    /// A character other than a decimal digit (after an optional
    /// leading plus sign) was found.
    InvalidDigit,
    /// The digits denote a number too large for the target type.
    Overflow,
}

/// A decimal digit character.
pub open spec fn is_digit(c: char) -> bool {
    48 <= c as int && c as int <= 57
}

/// Numeric value of a digit character.
pub open spec fn digit_val(c: char) -> int {
    c as int - 48
}

/// All characters of `s` are decimal digits.
pub open spec fn all_digits(s: Seq<char>) -> bool {
    forall|i: int| 0 <= i < s.len() ==> is_digit(#[trigger] s[i])
}

/// The number denoted by a sequence of digit characters, most
/// significant digit first; the empty sequence denotes zero.
pub open spec fn decimal_value(s: Seq<char>) -> int
    decreases s.len(),
{
    if s.len() == 0 {
        0
    } else {
        decimal_value(s.drop_last()) * 10 + digit_val(s.last())
    }
}

/// The digit character for a value below ten.
pub open spec fn digit_char(d: int) -> char {
    if d == 0 {
        '0'
    } else if d == 1 {
        '1'
    } else if d == 2 {
        '2'
    } else if d == 3 {
        '3'
    } else if d == 4 {
        '4'
    } else if d == 5 {
        '5'
    } else if d == 6 {
        '6'
    } else if d == 7 {
        '7'
    } else if d == 8 {
        '8'
    } else {
        '9'
    }
}

/// The canonical decimal representation of `n`: no sign and no
/// leading zeros.
pub open spec fn dec_of(n: nat) -> Seq<char>
    decreases n,
{
    if n < 10 {
        seq![digit_char(n as int)]
    } else {
        dec_of(n / 10).push(digit_char((n % 10) as int))
    }
}

/// The digits of `s` after an optional leading plus sign.
pub open spec fn numeric_part(s: Seq<char>) -> Seq<char> {
    if s.len() > 0 && s[0] == '+' {
        s.drop_first()
    } else {
        s
    }
}

/// `s` denotes a non-negative integer: at least one character after
/// the optional sign, all of them digits.
pub open spec fn well_formed_number(s: Seq<char>) -> bool {
    numeric_part(s).len() > 0 && all_digits(numeric_part(s))
}

/// What reading a `u32` from `s` yields: the denoted number when `s`
/// is a well-formed decimal that fits, and the exact fault otherwise.
pub open spec fn parse_u32_result(s: Seq<char>) -> Result<u32, ParseFault> {
    if s.len() == 0 {
        Err(ParseFault::Empty)
    } else if !well_formed_number(s) {
        Err(ParseFault::InvalidDigit)
    } else if decimal_value(numeric_part(s)) > u32::MAX {
        Err(ParseFault::Overflow)
    } else {
        Ok(decimal_value(numeric_part(s)) as u32)
    }
}

/// A sequence of digits denotes a non-negative number.
pub proof fn lemma_decimal_value_nonneg(s: Seq<char>)
    requires
        all_digits(s),
    ensures
        decimal_value(s) >= 0,
    decreases s.len(),
{
    if s.len() > 0 {
        assert(all_digits(s.drop_last()));
        lemma_decimal_value_nonneg(s.drop_last());
    }
}

/// Extending a digit string on the right never decreases its value.
pub proof fn lemma_decimal_value_prefix(s: Seq<char>, i: int)
    requires
        all_digits(s),
        0 <= i <= s.len(),
    ensures
        decimal_value(s.subrange(0, i)) <= decimal_value(s),
    decreases s.len() - i,
{
    if i < s.len() {
        let shorter = s.subrange(0, i);
        let longer = s.subrange(0, i + 1);
        assert(longer.drop_last() =~= shorter);
        assert(all_digits(shorter));
        lemma_decimal_value_nonneg(shorter);
        assert(decimal_value(shorter) <= decimal_value(longer));
        lemma_decimal_value_prefix(s, i + 1);
    } else {
        assert(s.subrange(0, i) =~= s);
    }
}

/// The canonical representation consists of digits, is nonempty, and
/// denotes the number it was built from.
pub proof fn lemma_dec_of_value(n: nat)
    ensures
        dec_of(n).len() >= 1,
        all_digits(dec_of(n)),
        decimal_value(dec_of(n)) == n,
    decreases n,
{
    if n < 10 {
        let s = seq![digit_char(n as int)];
        assert(s.drop_last() =~= Seq::<char>::empty());
        assert(decimal_value(Seq::<char>::empty()) == 0);
        assert(decimal_value(s) == digit_val(digit_char(n as int)));
    } else {
        lemma_dec_of_value(n / 10);
        let s = dec_of(n / 10);
        let c = digit_char((n % 10) as int);
        assert(s.push(c).drop_last() =~= s);
        assert(s.push(c).last() == c);
        assert(digit_val(c) == n % 10);
        vstd::arithmetic::div_mod::lemma_fundamental_div_mod(n as int, 10);
        assert(decimal_value(dec_of(n)) == n);
        assert(all_digits(s.push(c)));
    }
}

/// Distinct numbers have distinct canonical representations.
pub proof fn lemma_dec_of_injective(a: nat, b: nat)
    requires
        dec_of(a) == dec_of(b),
    ensures
        a == b,
{
    lemma_dec_of_value(a);
    lemma_dec_of_value(b);
}

/// Relies on `u64`'s `Display` implementation through
/// `ToString::to_string`: the decimal digits of the value, most
/// significant first, with no sign and no leading zeros.
#[verifier::external_body]
pub(crate) fn u64_to_string(n: u64) -> (r: String)
    ensures
        r@ == dec_of(n as nat),
{
    n.to_string()
}

/// Reads a `u32` from `s`, accepting an optional leading plus sign
/// followed by decimal digits, exactly as `parse_u32_result` states.
pub fn parse_u32(s: &str) -> (r: Result<u32, ParseFault>)
    ensures
        r == parse_u32_result(s@),
{
    let n = s.unicode_len();
    if n == 0 {
        return Err(ParseFault::Empty);
    }
    let first = s.get_char(0);
    let start: usize = if first == '+' {
        1
    } else {
        0
    };
    let ghost np = numeric_part(s@);
    proof {
        assert(np =~= s@.skip(start as int));
    }
    if n == start {
        proof {
            assert(np.len() == 0);
        }
        return Err(ParseFault::InvalidDigit);
    }
    let mut i: usize = start;
    while i < n
        invariant
            start <= i <= n,
            n == s@.len(),
            start < n,
            np == numeric_part(s@),
            np == s@.skip(start as int),
            np.len() == n - start,
            forall|j: int| start <= j < i ==> is_digit(#[trigger] s@[j]),
        decreases n - i,
    {
        let c = s.get_char(i);
        let u = c as u32;
        if u < 48 || u > 57 {
            proof {
                assert(np[i - start as int] == s@[i as int]);
                assert(!is_digit(np[i - start as int]));
                assert(!well_formed_number(s@));
            }
            return Err(ParseFault::InvalidDigit);
        }
        i = i + 1;
    }
    proof {
        assert forall|k: int| 0 <= k < np.len() implies is_digit(#[trigger] np[k]) by {
            assert(np[k] == s@[k + start]);
        }
        assert(well_formed_number(s@));
    }
    let mut acc: u32 = 0;
    let mut j: usize = start;
    while j < n
        invariant
            start <= j <= n,
            n == s@.len(),
            start < n,
            np == numeric_part(s@),
            np == s@.skip(start as int),
            np.len() == n - start,
            all_digits(np),
            well_formed_number(s@),
            forall|k: int| start <= k < n ==> is_digit(#[trigger] s@[k]),
            acc == decimal_value(np.subrange(0, j - start as int)),
        decreases n - j,
    {
        let c = s.get_char(j);
        let d = (c as u32) - 48;
        let ghost prefix = np.subrange(0, j - start as int);
        let ghost extended = np.subrange(0, j + 1 - start as int);
        proof {
            assert(np[j - start as int] == s@[j as int]);
            assert(extended.drop_last() =~= prefix);
            assert(extended.last() == s@[j as int]);
            assert(decimal_value(extended) == acc * 10 + d);
        }
        if acc > 429496729 || (acc == 429496729 && d > 5) {
            proof {
                assert(decimal_value(extended) > u32::MAX);
                lemma_decimal_value_prefix(np, j + 1 - start as int);
                assert(decimal_value(np) > u32::MAX);
            }
            return Err(ParseFault::Overflow);
        }
        acc = acc * 10 + d;
        j = j + 1;
    }
    proof {
        assert(np.subrange(0, n - start as int) =~= np);
        assert(decimal_value(np) == acc);
    }
    Ok(acc)
}

} // verus!
