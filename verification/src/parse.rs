use vstd::prelude::*;
use vstd::string::StrSliceExecFns;

verus! {

/// A decimal digit: code points 48 through 57 are `'0'` through `'9'`.
pub open spec fn is_digit(c: char) -> bool {
    48 <= c as int && c as int <= 57
}

/// The numeric value of a decimal digit.
pub open spec fn digit_val(c: char) -> int {
    c as int - 48
}

pub open spec fn all_digits(s: Seq<char>) -> bool {
    forall|i: int| 0 <= i < s.len() ==> is_digit(#[trigger] s[i])
}

/// The value of a string of decimal digits, most significant first.
pub open spec fn digits_val(s: Seq<char>) -> int
    decreases s.len(),
{
    if s.len() == 0 {
        0
    } else {
        digits_val(s.drop_last()) * 10 + digit_val(s.last())
    }
}

/// The digit part of a numeral: an optional leading plus sign is dropped.
pub open spec fn numeral_digits(s: Seq<char>) -> Seq<char> {
    if s.len() > 0 && s[0] == '+' {
        s.subrange(1, s.len() as int)
    } else {
        s
    }
}

/// A well-formed unsigned 32-bit numeral, as the standard parser accepts
/// it: an optional leading plus sign, then at least one decimal digit,
/// denoting a value that fits in 32 bits.
pub open spec fn is_u32_numeral(s: Seq<char>) -> bool {
    let d = numeral_digits(s);
    &&& d.len() > 0
    &&& all_digits(d)
    &&& digits_val(d) <= u32::MAX
}

proof fn lemma_digits_val_nonneg(s: Seq<char>)
    requires
        all_digits(s),
    ensures
        digits_val(s) >= 0,
    decreases s.len(),
{
    if s.len() > 0 {
        assert(all_digits(s.drop_last()));
        lemma_digits_val_nonneg(s.drop_last());
    }
}

/// A longer run of digits never denotes a smaller value: dropping trailing
/// digits cannot increase the value.
proof fn lemma_digits_val_prefix_le(s: Seq<char>, j: int)
    requires
        all_digits(s),
        0 <= j <= s.len(),
    ensures
        digits_val(s.subrange(0, j)) <= digits_val(s),
    decreases s.len() - j,
{
    if j == s.len() {
        assert(s.subrange(0, j) =~= s);
    } else {
        lemma_digits_val_prefix_le(s, j + 1);
        assert(s.subrange(0, j + 1).drop_last() =~= s.subrange(0, j));
        assert(all_digits(s.subrange(0, j)));
        assert(all_digits(s.subrange(0, j + 1)));
        lemma_digits_val_nonneg(s.subrange(0, j));
        assert(digits_val(s.subrange(0, j + 1))
            == digits_val(s.subrange(0, j)) * 10 + digit_val(s[j]));
    }
}

/// Parse an unsigned 32-bit decimal numeral, silently falling back to the
/// given default on any malformed or out-of-range input — the deliberate
/// leniency policy for configuration values.
pub fn parse_u32_or(s: &str, default: u32) -> (r: u32)
    ensures
        is_u32_numeral(s@) ==> r == digits_val(numeral_digits(s@)),
        !is_u32_numeral(s@) ==> r == default,
{
    let n: usize = s.unicode_len();
    let has_sign: bool = n > 0 && s.get_char(0) == '+';
    let start: usize = if has_sign {
        1
    } else {
        0
    };
    let ghost d = numeral_digits(s@);
    if start == n {
        // empty input, or a bare sign: no digits at all
        return default;
    }
    let mut acc: u32 = 0;
    let mut i: usize = start;
    while i < n
        invariant
            start <= i <= n,
            n == s@.len(),
            start == (if s@.len() > 0 && s@[0] == '+' { 1int } else { 0int }),
            d == numeral_digits(s@),
            all_digits(d.subrange(0, i - start)),
            acc == digits_val(d.subrange(0, i - start)),
        decreases n - i,
    {
        let c: char = s.get_char(i);
        let cv: u32 = c as u32;
        if cv < 48 || 57 < cv {
            // a non-digit: the whole input is no numeral
            assert(d[i - start] == s@[i as int]);
            return default;
        }
        let dv: u32 = cv - 48;
        proof {
            assert(d.subrange(0, i - start + 1).drop_last() =~= d.subrange(0, i - start));
            assert(d.subrange(0, i - start + 1).last() == s@[i as int]);
            assert(all_digits(d.subrange(0, i - start + 1)));
        }
        let next: Option<u32> = match acc.checked_mul(10) {
            Some(m) => m.checked_add(dv),
            None => None,
        };
        match next {
            Some(v) => {
                acc = v;
            },
            None => {
                // the digits read so far already exceed 32 bits, and
                // further digits can only grow the value
                proof {
                    if all_digits(d) {
                        lemma_digits_val_prefix_le(d, i - start + 1);
                    }
                }
                return default;
            },
        }
        i = i + 1;
    }
    proof {
        assert(d.subrange(0, n - start) =~= d);
    }
    acc
}

/// Parse a boolean as the standard parser accepts it: exactly "true" or
/// "false"; any other text silently falls back to the given default.
pub fn parse_bool_or(s: &str, default: bool) -> (r: bool)
    ensures
        s@ == "true"@ ==> r == true,
        s@ == "false"@ ==> r == false,
        s@ != "true"@ && s@ != "false"@ ==> r == default,
{
    proof {
        reveal_strlit("true");
        reveal_strlit("false");
    }
    let n: usize = s.unicode_len();
    if n == 4 {
        if s.get_char(0) == 't' && s.get_char(1) == 'r' && s.get_char(2) == 'u'
            && s.get_char(3) == 'e' {
            proof {
                assert(s@ =~= "true"@);
            }
            return true;
        }
        return default;
    }
    if n == 5 {
        if s.get_char(0) == 'f' && s.get_char(1) == 'a' && s.get_char(2) == 'l'
            && s.get_char(3) == 's' && s.get_char(4) == 'e' {
            proof {
                assert(s@ =~= "false"@);
            }
            return false;
        }
        return default;
    }
    default
}

} // verus!
