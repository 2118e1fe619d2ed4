//! Parsing of the exchange's decimal text (prices, quantities) into the
//! crate's fixed-point representation.
//!
//! The accepted shape is an integer part of one to fourteen digits,
//! optionally followed by a dot and up to four fraction digits. The result is
//! the value in fixed-point steps of one ten-thousandth, so `"100.25"` parses
//! to `1002500`. Anything else — an empty string, a sign, an exponent, more
//! than four fraction digits, or an unrepresentably long integer part — is
//! rejected.

use vstd::prelude::*;
use vstd::string::StrSliceExecFns;

verus! {

/// Whether `c` is a decimal digit.
pub open spec fn is_digit(c: char) -> bool {
    48 <= c as u32 && c as u32 <= 57
}

/// The numeric value of a digit character.
pub open spec fn digit_val(c: char) -> int {
    c as u32 - 48
}

/// Whether every character of `s` is a decimal digit.
pub open spec fn all_digits(s: Seq<char>) -> bool {
    forall|i: int| 0 <= i < s.len() ==> is_digit(#[trigger] s[i])
}

/// The value of a digit string read in base ten.
pub open spec fn digits_val(s: Seq<char>) -> int
    decreases s.len(),
{
    if s.len() == 0 {
        0
    } else {
        digits_val(s.drop_last()) * 10 + digit_val(s.last())
    }
}

/// Ten to the power `n`.
pub open spec fn pow10(n: nat) -> int
    decreases n,
{
    if n == 0 {
        1
    } else {
        10 * pow10((n - 1) as nat)
    }
}

/// Whether an integer part and a fraction part form an accepted decimal.
pub open spec fn valid_parts(int_part: Seq<char>, frac_part: Seq<char>) -> bool {
    &&& 1 <= int_part.len() <= 14
    &&& all_digits(int_part)
    &&& frac_part.len() <= 4
    &&& all_digits(frac_part)
}

/// The fixed-point value of an accepted integer and fraction part.
pub open spec fn parts_value(int_part: Seq<char>, frac_part: Seq<char>) -> int {
    digits_val(int_part) * 10000 + digits_val(frac_part) * pow10((4 - frac_part.len()) as nat)
}

/// Whether `s` contains a dot.
pub open spec fn has_dot(s: Seq<char>) -> bool {
    exists|i: int| 0 <= i < s.len() && s[i] == '.'
}

/// The fixed-point value of a decimal string, or `None` where the text is not
/// an accepted decimal. With a dot the text splits into an integer and a
/// fraction part; the split position is forced, since a valid part holds no
/// further dot.
pub open spec fn spec_parse_fixed(s: Seq<char>) -> Option<int> {
    if has_dot(s) {
        let i = choose|i: int| 0 <= i < s.len() && s[i] == '.';
        let int_part = s.subrange(0, i);
        let frac_part = s.subrange(i + 1, s.len() as int);
        if valid_parts(int_part, frac_part) {
            Some(parts_value(int_part, frac_part))
        } else {
            None
        }
    } else {
        if valid_parts(s, Seq::<char>::empty()) {
            Some(parts_value(s, Seq::<char>::empty()))
        } else {
            None
        }
    }
}

/// A digit string's value is non-negative and below ten to its length.
pub proof fn lemma_digits_val_bound(s: Seq<char>)
    requires
        all_digits(s),
    ensures
        0 <= digits_val(s) < pow10(s.len()),
    decreases s.len(),
{
    if s.len() == 0 {
    } else {
        assert(all_digits(s.drop_last())) by {
            assert(forall|i: int| 0 <= i < s.len() - 1 ==> s.drop_last()[i] == #[trigger] s[i]);
        }
        lemma_digits_val_bound(s.drop_last());
        assert(is_digit(s.last()));
        assert(pow10(s.len()) == 10 * pow10((s.len() - 1) as nat));
    }
}

/// Ten to a power grows with the exponent.
pub proof fn lemma_pow10_le(a: nat, b: nat)
    requires
        a <= b,
    ensures
        pow10(a) <= pow10(b),
    decreases b,
{
    if a < b {
        lemma_pow10_le(a, (b - 1) as nat);
        assert(1 <= pow10((b - 1) as nat)) by {
            lemma_pow10_le(0, (b - 1) as nat);
        }
    }
}

/// Reading one more digit multiplies the value by ten and adds the digit.
pub proof fn lemma_digits_val_extend(s: Seq<char>, from: int, i: int)
    requires
        0 <= from <= i < s.len(),
    ensures
        digits_val(s.subrange(from, i + 1)) == digits_val(s.subrange(from, i)) * 10 + digit_val(
            s[i],
        ),
{
    let t = s.subrange(from, i + 1);
    assert(t.drop_last() =~= s.subrange(from, i));
    assert(t.last() == s[i]);
}

/// The digits of `s` between `from` and `to`, as a number; `None` where a
/// non-digit stands in that range.
fn scan_digits(s: &str, from: usize, to: usize) -> (r: Option<i64>)
    requires
        from <= to <= s@.len(),
        to - from <= 14,
    ensures
        match r {
            Some(v) => {
                &&& all_digits(s@.subrange(from as int, to as int))
                &&& v == digits_val(s@.subrange(from as int, to as int))
                &&& 0 <= v < pow10((to - from) as nat)
            },
            None => !all_digits(s@.subrange(from as int, to as int)),
        },
{
    let mut i: usize = from;
    let mut acc: i64 = 0;
    while i < to
        invariant
            from <= i <= to <= s@.len(),
            to - from <= 14,
            all_digits(s@.subrange(from as int, i as int)),
            acc == digits_val(s@.subrange(from as int, i as int)),
            0 <= acc < pow10((i - from) as nat),
        decreases to - i,
    {
        let c = s.get_char(i);
        let cv = c as u32;
        if cv < 48 || cv > 57 {
            proof {
                assert(s@.subrange(from as int, to as int)[i - from] == s@[i as int]);
                assert(!is_digit(s@[i as int]));
            }
            return None;
        }
        proof {
            lemma_digits_val_extend(s@, from as int, i as int);
            lemma_pow10_le((i - from) as nat, 13);
            reveal_with_fuel(pow10, 15);
            assert(pow10(13) == 10000000000000);
            assert(pow10((i + 1 - from) as nat) == 10 * pow10((i - from) as nat));
            assert(all_digits(s@.subrange(from as int, i + 1))) by {
                assert(forall|j: int|
                    0 <= j < i - from ==> s@.subrange(from as int, i + 1)[j]
                        == #[trigger] s@.subrange(from as int, i as int)[j]);
                assert(s@.subrange(from as int, i + 1)[i - from] == s@[i as int]);
            }
        }
        acc = acc * 10 + ((cv - 48) as i64);
        i += 1;
    }
    proof {
        assert(s@.subrange(from as int, i as int) =~= s@.subrange(from as int, to as int));
    }
    Some(acc)
}

/// The index of the first dot in `s`, if any.
fn find_dot(s: &str, n: usize) -> (r: Option<usize>)
    requires
        n == s@.len(),
    ensures
        match r {
            Some(d) => {
                &&& d < n
                &&& s@[d as int] == '.'
                &&& forall|j: int| 0 <= j < d ==> s@[j] != '.'
            },
            None => forall|j: int| 0 <= j < n ==> s@[j] != '.',
        },
{
    let mut i: usize = 0;
    while i < n
        invariant
            i <= n,
            n == s@.len(),
            forall|j: int| 0 <= j < i ==> s@[j] != '.',
        decreases n - i,
    {
        if s.get_char(i) == '.' {
            return Some(i);
        }
        i += 1;
    }
    None
}

/// Parses decimal text into fixed-point steps of one ten-thousandth; see
/// [`spec_parse_fixed`] for the accepted shape and the value.
pub fn parse_fixed(s: &str) -> (r: Option<i64>)
    ensures
        r is Some <==> spec_parse_fixed(s@) is Some,
        r matches Some(v) ==> spec_parse_fixed(s@) == Some(v as int),
{
    let n = s.unicode_len();
    match find_dot(s, n) {
        None => {
            proof {
                assert(!has_dot(s@));
            }
            if n == 0 || n > 14 {
                return None;
            }
            match scan_digits(s, 0, n) {
                None => {
                    proof {
                        assert(s@.subrange(0, n as int) =~= s@);
                    }
                    None
                },
                Some(v) => {
                    proof {
                        assert(s@.subrange(0, n as int) =~= s@);
                        assert(valid_parts(s@, Seq::<char>::empty()));
                        lemma_pow10_le(n as nat, 14);
                        reveal_with_fuel(pow10, 15);
                        assert(pow10(14) == 100000000000000);
                        assert(digits_val(Seq::<char>::empty()) == 0);
                        assert(parts_value(s@, Seq::<char>::empty()) == v * 10000);
                    }
                    Some(v * 10000)
                },
            }
        },
        Some(d) => {
            // Any dot the specification may split at is this first one: an
            // earlier one does not exist, and a later one would leave a dot
            // inside the integer part.
            if d == 0 || d > 14 {
                proof {
                    let i = choose|i: int| 0 <= i < s@.len() && s@[i] == '.';
                    assert(i >= d);
                    if i > d {
                        assert(s@.subrange(0, i)[d as int] == s@[d as int]);
                        assert(!is_digit(s@[d as int]));
                    }
                }
                return None;
            }
            let frac_len = n - d - 1;
            if frac_len > 4 {
                proof {
                    let i = choose|i: int| 0 <= i < s@.len() && s@[i] == '.';
                    assert(i >= d);
                    if i > d {
                        assert(s@.subrange(0, i)[d as int] == s@[d as int]);
                        assert(!is_digit(s@[d as int]));
                    } else {
                        assert(s@.subrange(d + 1, n as int).len() > 4);
                    }
                }
                return None;
            }
            match scan_digits(s, 0, d) {
                None => {
                    proof {
                        let i = choose|i: int| 0 <= i < s@.len() && s@[i] == '.';
                        assert(i >= d);
                        if i > d {
                            assert(s@.subrange(0, i)[d as int] == s@[d as int]);
                            assert(!is_digit(s@[d as int]));
                        }
                    }
                    None
                },
                Some(int_val) => {
                    match scan_digits(s, d + 1, n) {
                        None => {
                            proof {
                                let i = choose|i: int| 0 <= i < s@.len() && s@[i] == '.';
                                assert(i >= d);
                                if i > d {
                                    assert(s@.subrange(0, i)[d as int] == s@[d as int]);
                                    assert(!is_digit(s@[d as int]));
                                }
                            }
                            None
                        },
                        Some(frac_val) => {
                            let mult: i64 = if frac_len == 0 {
                                10000
                            } else if frac_len == 1 {
                                1000
                            } else if frac_len == 2 {
                                100
                            } else if frac_len == 3 {
                                10
                            } else {
                                1
                            };
                            proof {
                                let i = choose|i: int| 0 <= i < s@.len() && s@[i] == '.';
                                assert(i >= d);
                                if i > d {
                                    // a later dot would sit among the checked
                                    // fraction digits
                                    assert(s@.subrange(d + 1, n as int)[i - d - 1] == s@[i]);
                                    assert(is_digit(s@[i]));
                                    assert(false);
                                }
                                let ip = s@.subrange(0, d as int);
                                let fp = s@.subrange(d + 1, n as int);
                                assert(valid_parts(ip, fp));
                                reveal_with_fuel(pow10, 15);
                                assert(pow10(14) == 100000000000000);
                                assert(mult == pow10((4 - fp.len()) as nat));
                                lemma_pow10_le(d as nat, 14);
                                lemma_pow10_le(fp.len() as nat, 4);
                                assert(frac_val * mult < 100000000) by (nonlinear_arith)
                                    requires
                                        0 <= frac_val < 10000,
                                        0 < mult <= 10000,
                                ;
                                assert(0 <= frac_val * mult) by (nonlinear_arith)
                                    requires
                                        0 <= frac_val,
                                        0 < mult,
                                ;
                            }
                            Some(int_val * 10000 + frac_val * mult)
                        },
                    }
                },
            }
        },
    }
}

} // verus!
