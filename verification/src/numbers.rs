//! Decimal rendering and parsing of user ids.
//!
//! Tokens carry the user id as a string subject; the verifier parses it back
//! to look the role up. Rendering and parsing are verified against one
//! canonical decimal form, and proved to round-trip.

use vstd::prelude::*;

verus! {

/// The character for one decimal digit value.
pub open spec fn digit_char(d: int) -> char {
    if d == 0 {
        '0'
    } else if d == 1 {
        '1'
    } else if d == 2 {
        '2'
    } else if d == 3 {
        '3'
    } else if d == 4 {
        '4'
    } else if d == 5 {
        '5'
    } else if d == 6 {
        '6'
    } else if d == 7 {
        '7'
    } else if d == 8 {
        '8'
    } else {
        '9'
    }
}

/// Whether a character is a decimal digit.
pub open spec fn is_digit(c: char) -> bool {
    c == '0' || c == '1' || c == '2' || c == '3' || c == '4' || c == '5' || c == '6' || c == '7'
        || c == '8' || c == '9'
}

/// The value of one decimal digit character.
pub open spec fn digit_val(c: char) -> int {
    if c == '0' {
        0
    } else if c == '1' {
        1
    } else if c == '2' {
        2
    } else if c == '3' {
        3
    } else if c == '4' {
        4
    } else if c == '5' {
        5
    } else if c == '6' {
        6
    } else if c == '7' {
        7
    } else if c == '8' {
        8
    } else {
        9
    }
}

/// The canonical decimal rendering of a natural number: no sign, no leading
/// zeros (except for zero itself).
pub open spec fn dec_str_of(n: nat) -> Seq<char>
    decreases n,
{
    if n < 10 {
        seq![digit_char(n as int)]
    } else {
        dec_str_of(n / 10).push(digit_char((n % 10) as int))
    }
}

/// Whether every character of a sequence is a decimal digit.
pub open spec fn all_digits(s: Seq<char>) -> bool {
    forall|i: int| 0 <= i < s.len() ==> is_digit(#[trigger] s[i])
}

/// The numeric value of a digit sequence, most significant digit first.
pub open spec fn dec_val(s: Seq<char>) -> nat
    decreases s.len(),
{
    if s.len() == 0 {
        0
    } else {
        (dec_val(s.drop_last()) * 10 + digit_val(s.last())) as nat
    }
}

/// What decimal parsing accepts: exactly the canonical renderings of the
/// values that fit in a `u64`.
pub open spec fn parse_dec_spec(s: Seq<char>) -> Option<u64> {
    if s.len() == 0 || !all_digits(s) || (s.len() > 1 && s[0] == '0') {
        None
    } else if dec_val(s) > u64::MAX {
        None
    } else {
        Some(dec_val(s) as u64)
    }
}

/// The rendering of a number is made of digits, is never empty, and has no
/// leading zero unless it is exactly "0".
pub proof fn lemma_dec_str_shape(n: nat)
    ensures
        dec_str_of(n).len() >= 1,
        all_digits(dec_str_of(n)),
        dec_str_of(n).len() > 1 ==> dec_str_of(n)[0] != '0',
        n >= 10 ==> dec_str_of(n).len() > 1,
    decreases n,
{
    if n < 10 {
    } else {
        lemma_dec_str_shape(n / 10);
        assert(dec_str_of(n) == dec_str_of(n / 10).push(digit_char((n % 10) as int)));
        assert(dec_str_of(n)[0] == dec_str_of(n / 10)[0]);
        if dec_str_of(n / 10).len() == 1 {
            assert(n / 10 >= 1);
            assert(dec_str_of(n / 10) == seq![digit_char((n / 10) as int)] || (n / 10) >= 10);
            if n / 10 < 10 {
                assert(dec_str_of(n / 10)[0] == digit_char((n / 10) as int));
                assert(digit_char((n / 10) as int) != '0');
            }
        }
    }
}

/// The value of a rendering is the number it renders.
pub proof fn lemma_dec_val_of_str(n: nat)
    ensures
        dec_val(dec_str_of(n)) == n,
    decreases n,
{
    if n < 10 {
        assert(dec_str_of(n) == seq![digit_char(n as int)]);
        assert(dec_str_of(n).drop_last() =~= Seq::<char>::empty());
        assert(dec_val(Seq::<char>::empty()) == 0);
        assert(dec_str_of(n).last() == digit_char(n as int));
        assert(digit_val(digit_char(n as int)) == n);
    } else {
        lemma_dec_val_of_str(n / 10);
        assert(dec_str_of(n) == dec_str_of(n / 10).push(digit_char((n % 10) as int)));
        assert(dec_str_of(n).drop_last() =~= dec_str_of(n / 10));
        assert(dec_str_of(n).last() == digit_char((n % 10) as int));
        assert(digit_val(digit_char((n % 10) as int)) == n % 10);
        assert(dec_val(dec_str_of(n)) == (dec_val(dec_str_of(n / 10)) * 10 + n % 10) as nat);
        assert(n / 10 * 10 + n % 10 == n);
    }
}

/// Parsing accepts the canonical rendering of every `u64` and gives the
/// number back: the decimal round trip.
pub proof fn lemma_dec_round_trip(n: u64)
    ensures
        parse_dec_spec(dec_str_of(n as nat)) == Some(n),
{
    lemma_dec_str_shape(n as nat);
    lemma_dec_val_of_str(n as nat);
}

/// Extending a digit prefix never shrinks its value.
proof fn lemma_dec_val_prefix_le(s: Seq<char>, i: int, j: int)
    requires
        0 <= i <= j <= s.len(),
    ensures
        dec_val(s.subrange(0, i)) <= dec_val(s.subrange(0, j)),
    decreases j - i,
{
    if i < j {
        lemma_dec_val_prefix_le(s, i, j - 1);
        let p = s.subrange(0, j);
        assert(p.drop_last() =~= s.subrange(0, j - 1));
        assert(dec_val(s.subrange(0, j - 1)) <= dec_val(p));
    }
}

/// The digit character for a value below ten, as executable code.
fn digit_char_exec(d: u64) -> (c: char)
    requires
        d < 10,
    ensures
        c == digit_char(d as int),
{
    match d {
        0 => '0',
        1 => '1',
        2 => '2',
        3 => '3',
        4 => '4',
        5 => '5',
        6 => '6',
        7 => '7',
        8 => '8',
        _ => '9',
    }
}

/// Whether a character is a decimal digit, and its value if so.
fn digit_val_exec(c: char) -> (r: Option<u64>)
    ensures
        is_digit(c) ==> r == Some(digit_val(c) as u64),
        !is_digit(c) ==> r is None,
{
    match c {
        '0' => Some(0),
        '1' => Some(1),
        '2' => Some(2),
        '3' => Some(3),
        '4' => Some(4),
        '5' => Some(5),
        '6' => Some(6),
        '7' => Some(7),
        '8' => Some(8),
        '9' => Some(9),
        _ => None,
    }
}

/// Relies on `String::from_iter` via `collect`: the string holds exactly the
/// collected characters, in order.
#[verifier::external_body]
fn chars_to_string(v: Vec<char>) -> (r: String)
    ensures
        r@ == v@,
{
    v.into_iter().collect()
}

/// Renders a number in its canonical decimal form.
pub fn u64_to_dec_string(n: u64) -> (r: String)
    ensures
        r@ == dec_str_of(n as nat),
{
    let mut digits: Vec<char> = Vec::new();
    let mut m: u64 = n / 10;
    digits.push(digit_char_exec(n % 10));
    proof {
        if n >= 10 {
            assert(dec_str_of(n as nat) == dec_str_of((n / 10) as nat).push(
                digit_char((n % 10) as int),
            ));
            assert(dec_str_of((n / 10) as nat) + digits@ =~= dec_str_of(n as nat));
        } else {
            assert(digits@ =~= dec_str_of(n as nat));
        }
    }
    while m > 0
        invariant
            m > 0 ==> dec_str_of(m as nat) + digits@ =~= dec_str_of(n as nat),
            m == 0 ==> digits@ =~= dec_str_of(n as nat),
        decreases m,
    {
        let ghost old_digits = digits@;
        let ghost old_m = m as nat;
        digits.insert(0, digit_char_exec(m % 10));
        m = m / 10;
        proof {
            assert(digits@ =~= seq![digit_char((old_m % 10) as int)] + old_digits);
            if m > 0 {
                assert(dec_str_of(old_m) == dec_str_of(old_m / 10).push(
                    digit_char((old_m % 10) as int),
                ));
                assert(dec_str_of(m as nat) + digits@ =~= dec_str_of(old_m) + old_digits);
            } else {
                assert(old_m < 10);
                assert(dec_str_of(old_m) =~= seq![digit_char((old_m % 10) as int)]);
                assert(digits@ =~= dec_str_of(old_m) + old_digits);
            }
        }
    }
    chars_to_string(digits)
}

/// Parses the canonical decimal form of a `u64`; rejects everything else
/// (empty input, non-digits, leading zeros, values out of range).
pub fn parse_u64_dec(s: &str) -> (r: Option<u64>)
    ensures
        r == parse_dec_spec(s@),
{
    let len = s.unicode_len();
    if len == 0 {
        return None;
    }
    if len > 1 && s.get_char(0) == '0' {
        return None;
    }
    let mut acc: u64 = 0;
    let mut i: usize = 0;
    while i < len
        invariant
            0 <= i <= len,
            len == s@.len(),
            len > 1 ==> s@[0] != '0',
            all_digits(s@.subrange(0, i as int)),
            acc == dec_val(s@.subrange(0, i as int)),
        decreases len - i,
    {
        let c = s.get_char(i);
        let ghost prefix = s@.subrange(0, i as int);
        match digit_val_exec(c) {
            None => {
                proof {
                    assert(!is_digit(s@[i as int]));
                    assert(!all_digits(s@));
                }
                return None;
            },
            Some(d) => {
                proof {
                    assert(s@.subrange(0, i + 1).drop_last() =~= prefix);
                    assert(dec_val(s@.subrange(0, i + 1)) == acc * 10 + d);
                }
                if acc > (u64::MAX - d) / 10 {
                    proof {
                        assert(acc * 10 + d > u64::MAX) by (nonlinear_arith)
                            requires
                                acc > (u64::MAX - d) / 10,
                                d < 10,
                                acc <= u64::MAX,
                                d <= u64::MAX,
                        ;
                        if all_digits(s@) {
                            lemma_dec_val_prefix_le(s@, i + 1, s@.len() as int);
                            assert(s@.subrange(0, s@.len() as int) =~= s@);
                            assert(dec_val(s@) > u64::MAX);
                        }
                    }
                    return None;
                }
                proof {
                    assert(acc * 10 + d <= u64::MAX) by (nonlinear_arith)
                        requires
                            acc <= (u64::MAX - d) / 10,
                            d < 10,
                            d <= u64::MAX,
                    ;
                }
                acc = acc * 10 + d;
            },
        }
        i = i + 1;
    }
    proof {
        assert(s@.subrange(0, len as int) =~= s@);
    }
    Some(acc)
}

} // verus!
