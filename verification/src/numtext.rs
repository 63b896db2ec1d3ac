use vstd::prelude::*;

verus! {

/// The digit character for one decimal digit.
pub open spec fn digit_char(d: int) -> char {
    if d == 0 {
        '0'
    } else if d == 1 {
        '1'
    } else if d == 2 {
        '2'
    } else if d == 3 {
        '3'
    } else if d == 4 {
        '4'
    } else if d == 5 {
        '5'
    } else if d == 6 {
        '6'
    } else if d == 7 {
        '7'
    } else if d == 8 {
        '8'
    } else {
        '9'
    }
}

/// The value of one decimal digit character, or -1 for any other character.
pub open spec fn digit_val(c: char) -> int {
    if c == '0' {
        0
    } else if c == '1' {
        1
    } else if c == '2' {
        2
    } else if c == '3' {
        3
    } else if c == '4' {
        4
    } else if c == '5' {
        5
    } else if c == '6' {
        6
    } else if c == '7' {
        7
    } else if c == '8' {
        8
    } else if c == '9' {
        9
    } else {
        -1
    }
}

pub open spec fn is_digit(c: char) -> bool {
    digit_val(c) >= 0
}

/// The canonical decimal text of a non-negative integer.
pub open spec fn dec_digits(n: int) -> Seq<char>
    decreases n,
{
    if n < 10 {
        seq![digit_char(n)]
    } else {
        dec_digits(n / 10).push(digit_char(n % 10))
    }
}

/// The canonical decimal text of an integer, with a leading minus sign
/// when it is negative.
pub open spec fn dec_int(n: int) -> Seq<char> {
    if n < 0 {
        seq!['-'].add(dec_digits(-n))
    } else {
        dec_digits(n)
    }
}

/// The number a digit string denotes.
pub open spec fn dec_val(s: Seq<char>) -> int
    decreases s.len(),
{
    if s.len() == 0 {
        0
    } else {
        dec_val(s.drop_last()) * 10 + digit_val(s.last())
    }
}

pub open spec fn all_digits(s: Seq<char>) -> bool {
    forall|i: int| 0 <= i < s.len() ==> is_digit(s[i])
}

/// Canonical decimal text is made of digits and reads back as the
/// number it was printed from.
pub proof fn lemma_dec_digits_val(n: int)
    requires
        n >= 0,
    ensures
        all_digits(dec_digits(n)),
        dec_digits(n).len() >= 1,
        dec_val(dec_digits(n)) == n,
        dec_digits(n)[0] != '0' || n < 10,
    decreases n,
{
    if n < 10 {
        assert(dec_digits(n) =~= seq![digit_char(n)]);
        assert(dec_digits(n).drop_last() =~= Seq::<char>::empty());
        assert(dec_digits(n).last() == digit_char(n));
        assert(dec_val(Seq::<char>::empty()) == 0);
        assert(dec_val(dec_digits(n)) == 0 * 10 + digit_val(digit_char(n)));
    } else {
        lemma_dec_digits_val(n / 10);
        let s = dec_digits(n);
        assert(s.drop_last() =~= dec_digits(n / 10));
        assert(dec_val(s) == (n / 10) * 10 + digit_val(digit_char(n % 10)));
        assert(n % 10 >= 0 && n % 10 < 10) by {
            vstd::arithmetic::div_mod::lemma_mod_bound(n, 10);
        }
        assert(digit_val(digit_char(n % 10)) == n % 10);
        assert((n / 10) * 10 + n % 10 == n) by {
            vstd::arithmetic::div_mod::lemma_fundamental_div_mod(n, 10);
        }
        assert(forall|i: int| 0 <= i < s.len() ==> is_digit(s[i])) by {
            assert(forall|i: int|
                0 <= i < s.len() - 1 ==> s[i] == dec_digits(n / 10)[i] && is_digit(s[i]));
            assert(s.last() == digit_char(n % 10));
        }
    }
}

/// A digit string denotes a non-negative number, and appending digits
/// never shrinks the number.
pub proof fn lemma_dec_val_nonneg(s: Seq<char>)
    requires
        all_digits(s),
    ensures
        dec_val(s) >= 0,
    decreases s.len(),
{
    if s.len() > 0 {
        assert(all_digits(s.drop_last()));
        lemma_dec_val_nonneg(s.drop_last());
    }
}

/// `dec_val` over a prefix extended by one digit.
pub proof fn lemma_dec_val_step(s: Seq<char>, i: int)
    requires
        0 <= i < s.len(),
    ensures
        dec_val(s.take(i + 1)) == dec_val(s.take(i)) * 10 + digit_val(s[i]),
{
    assert(s.take(i + 1).drop_last() =~= s.take(i));
    assert(s.take(i + 1).last() == s[i]);
}

/// Exec digit test.
pub fn char_digit_val(c: char) -> (r: Option<u8>)
    ensures
        match r {
            Some(d) => digit_val(c) == d as int,
            None => !is_digit(c),
        },
{
    if c == '0' {
        Some(0)
    } else if c == '1' {
        Some(1)
    } else if c == '2' {
        Some(2)
    } else if c == '3' {
        Some(3)
    } else if c == '4' {
        Some(4)
    } else if c == '5' {
        Some(5)
    } else if c == '6' {
        Some(6)
    } else if c == '7' {
        Some(7)
    } else if c == '8' {
        Some(8)
    } else if c == '9' {
        Some(9)
    } else {
        None
    }
}

/// Exec digit character.
pub fn digit_to_char(d: u64) -> (r: char)
    requires
        d < 10,
    ensures
        r == digit_char(d as int),
{
    if d == 0 {
        '0'
    } else if d == 1 {
        '1'
    } else if d == 2 {
        '2'
    } else if d == 3 {
        '3'
    } else if d == 4 {
        '4'
    } else if d == 5 {
        '5'
    } else if d == 6 {
        '6'
    } else if d == 7 {
        '7'
    } else if d == 8 {
        '8'
    } else {
        '9'
    }
}

/// Appends the canonical decimal text of `n` to `out`.
pub fn push_u64_dec(out: &mut Vec<char>, n: u64)
    ensures
        final(out)@ == old(out)@ + dec_digits(n as int),
    decreases n,
{
    if n < 10 {
        out.push(digit_to_char(n));
        assert(out@ =~= old(out)@ + dec_digits(n as int));
    } else {
        push_u64_dec(out, n / 10);
        out.push(digit_to_char(n % 10));
        assert(out@ =~= old(out)@ + dec_digits(n as int));
    }
}

/// Appends the canonical decimal text of `n`, with a sign when
/// negative, to `out`.
pub fn push_i64_dec(out: &mut Vec<char>, n: i64)
    ensures
        final(out)@ == old(out)@ + dec_int(n as int),
    decreases n,
{
    if n >= 0 {
        push_u64_dec(out, n as u64);
    } else {
        out.push('-');
        let m: u64 = ((-(n + 1)) as u64) + 1;
        assert(m as int == -(n as int));
        push_u64_dec(out, m);
        assert(out@ =~= old(out)@ + dec_int(n as int));
    }
}

/// Reads `s` as a non-negative integer that fits in a `u64`: every
/// character must be a digit and the value must not overflow.
/// This is the reading an integer-valued JSON number gets on the
/// partial-update path.
pub open spec fn text_as_u64(s: Seq<char>) -> Option<u64> {
    if s.len() > 0 && all_digits(s) && dec_val(s) <= u64::MAX {
        Some(dec_val(s) as u64)
    } else {
        None
    }
}

/// Multiplying a non-negative number by ten does not shrink it.
proof fn lemma_mul10_ge(a: int)
    by (nonlinear_arith)
    requires
        a >= 0,
    ensures
        a * 10 >= a,
{
}

/// When the accumulator is past the overflow guard, the next value is
/// past `u64::MAX`.
proof fn lemma_mul10_overflow(a: int, d: int)
    by (nonlinear_arith)
    requires
        a >= 0,
        0 <= d,
        d < 10,
        a > (0xffff_ffff_ffff_ffff - d) / 10,
    ensures
        a * 10 + d > 0xffff_ffff_ffff_ffff,
{
}

/// When the accumulator is within the overflow guard, the next value
/// fits in a `u64`.
proof fn lemma_mul10_fits(a: int, d: int)
    by (nonlinear_arith)
    requires
        a >= 0,
        0 <= d,
        d < 10,
        a <= (0xffff_ffff_ffff_ffff - d) / 10,
    ensures
        a * 10 + d <= 0xffff_ffff_ffff_ffff,
{
}

/// `dec_val` of a longer all-digit prefix is at least that of a shorter one.
proof fn lemma_dec_val_prefix_grows(s: Seq<char>, i: int, j: int)
    requires
        0 <= i <= j <= s.len(),
        all_digits(s),
    ensures
        dec_val(s.take(i)) <= dec_val(s.take(j)),
    decreases j - i,
{
    if i < j {
        lemma_dec_val_prefix_grows(s, i, j - 1);
        lemma_dec_val_step(s, j - 1);
        assert(all_digits(s.take(j - 1)));
        lemma_dec_val_nonneg(s.take(j - 1));
        assert(dec_val(s.take(j)) == dec_val(s.take(j - 1)) * 10 + digit_val(s[j - 1]));
        lemma_mul10_ge(dec_val(s.take(j - 1)));
    }
}

/// Reads `s` as a signed integer that fits in an `i64`: an optional
/// leading minus sign, then digits, rejecting overflow.
pub open spec fn text_as_i64(s: Seq<char>) -> Option<i64> {
    if s.len() > 0 && s[0] == '-' {
        let m = s.skip(1);
        if m.len() > 0 && all_digits(m) && dec_val(m) <= 0x8000_0000_0000_0000 {
            Some((-dec_val(m)) as i64)
        } else {
            None
        }
    } else if s.len() > 0 && all_digits(s) && dec_val(s) <= 0x7fff_ffff_ffff_ffff {
        Some(dec_val(s) as i64)
    } else {
        None
    }
}

/// The canonical decimal text of an integer reads back as that
/// integer.
pub proof fn lemma_dec_int_round_trip(n: int)
    requires
        -0x8000_0000_0000_0000 <= n <= 0x7fff_ffff_ffff_ffff,
    ensures
        text_as_i64(dec_int(n)) == Some(n as i64),
        dec_int(n).len() > 0,
        is_digit(dec_int(n)[0]) || dec_int(n)[0] == '-',
        forall|i: int| 0 <= i < dec_int(n).len() ==> #[trigger] is_dec_int_char(dec_int(n)[i]),
{
    if n < 0 {
        lemma_dec_digits_val(-n);
        let s = dec_int(n);
        assert(s == seq!['-'].add(dec_digits(-n)));
        assert(s[0] == '-');
        assert(s.skip(1) =~= dec_digits(-n));
        assert(digit_val('-') < 0);
        assert(forall|i: int|
            0 <= i < s.len() ==> #[trigger] is_dec_int_char(s[i]) == (if i == 0 {
                true
            } else {
                is_digit(dec_digits(-n)[i - 1])
            }));
    } else {
        lemma_dec_digits_val(n);
        let s = dec_int(n);
        assert(s == dec_digits(n));
        assert(s[0] != '-');
    }
}

/// A character the canonical integer text may hold.
pub open spec fn is_dec_int_char(c: char) -> bool {
    is_digit(c) || c == '-'
}

/// Parses an optionally signed digit string as an `i64`, rejecting
/// overflow.
pub fn parse_i64_text(s: &Vec<char>) -> (r: Option<i64>)
    ensures
        r == text_as_i64(s@),
{
    if s.len() == 0 {
        return None;
    }
    if s[0] == '-' {
        let mut m: Vec<char> = Vec::new();
        let mut i: usize = 1;
        while i < s.len()
            invariant
                1 <= i <= s@.len(),
                m@ =~= s@.skip(1).take(i as int - 1),
            decreases s@.len() - i,
        {
            m.push(s[i]);
            proof {
                assert(s@.skip(1)[i as int - 1] == s@[i as int]);
                assert(m@ =~= s@.skip(1).take(i as int));
            }
            i += 1;
        }
        proof {
            assert(s@.skip(1).take(s@.len() - 1) =~= s@.skip(1));
            assert(m@ == s@.skip(1));
        }
        match parse_u64_text(&m) {
            None => {
                proof {
                    assert(text_as_u64(m@) is None);
                    assert(!(m@.len() > 0 && all_digits(m@) && dec_val(m@) <= u64::MAX));
                    if m@.len() > 0 && all_digits(m@) {
                        lemma_dec_val_nonneg(m@);
                    }
                    assert(text_as_i64(s@) is None);
                }
                None
            },
            Some(v) => {
                proof {
                    assert(text_as_u64(m@) == Some(v));
                    assert(m@.len() > 0 && all_digits(m@));
                    assert(dec_val(m@) <= u64::MAX);
                    assert(dec_val(m@) as u64 == v);
                    lemma_dec_val_nonneg(m@);
                    assert(dec_val(m@) == v as int);
                }
                if v > 0x8000_0000_0000_0000 {
                    proof {
                        assert(text_as_i64(s@) is None);
                    }
                    None
                } else if v == 0x8000_0000_0000_0000 {
                    proof {
                        assert(text_as_i64(s@) == Some(i64::MIN));
                    }
                    Some(i64::MIN)
                } else {
                    proof {
                        assert(text_as_i64(s@) == Some((-(v as int)) as i64));
                    }
                    Some(-(v as i64))
                }
            },
        }
    } else {
        match parse_u64_text(s) {
            None => None,
            Some(v) => {
                proof {
                    assert(text_as_u64(s@) == Some(v));
                    lemma_dec_val_nonneg(s@);
                    assert(dec_val(s@) == v as int);
                }
                if v > 0x7fff_ffff_ffff_ffff {
                    None
                } else {
                    Some(v as i64)
                }
            },
        }
    }
}

/// The canonical decimal text of `n` as a `String`.
pub fn i64_to_string(n: i64) -> (r: String)
    ensures
        r@ == dec_int(n as int),
{
    let mut out: Vec<char> = Vec::new();
    push_i64_dec(&mut out, n);
    crate::codec::chars_to_string(&out)
}

/// The canonical decimal text of `n` as a `String`.
pub fn u64_to_string(n: u64) -> (r: String)
    ensures
        r@ == dec_digits(n as int),
{
    let mut out: Vec<char> = Vec::new();
    push_u64_dec(&mut out, n);
    crate::codec::chars_to_string(&out)
}

/// Parses a digit string as a `u64`, rejecting overflow.
pub fn parse_u64_text(s: &Vec<char>) -> (r: Option<u64>)
    ensures
        r == text_as_u64(s@),
{
    if s.len() == 0 {
        return None;
    }
    let mut acc: u64 = 0;
    let mut i: usize = 0;
    while i < s.len()
        invariant
            0 <= i <= s@.len(),
            all_digits(s@.take(i as int)),
            acc as int == dec_val(s@.take(i as int)),
        decreases s@.len() - i,
    {
        match char_digit_val(s[i]) {
            None => {
                assert(!is_digit(s@[i as int]));
                return None;
            },
            Some(d) => {
                proof {
                    lemma_dec_val_step(s@, i as int);
                    assert(all_digits(s@.take(i as int + 1)));
                }
                if acc > (u64::MAX - (d as u64)) / 10 {
                    proof {
                        let t = s@.take(i as int + 1);
                        assert(dec_val(t) == acc as int * 10 + d as int);
                        lemma_mul10_overflow(acc as int, d as int);
                        if all_digits(s@) {
                            lemma_dec_val_prefix_grows(s@, i as int + 1, s@.len() as int);
                            assert(s@.take(s@.len() as int) =~= s@);
                            assert(dec_val(s@) > u64::MAX);
                        }
                    }
                    return None;
                }
                proof {
                    lemma_mul10_fits(acc as int, d as int);
                }
                acc = acc * 10 + (d as u64);
            },
        }
        i += 1;
    }
    proof {
        assert(s@.take(s@.len() as int) =~= s@);
    }
    Some(acc)
}

} // verus!
