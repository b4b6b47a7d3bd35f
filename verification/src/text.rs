//! Plain-text helpers: decimal rendering of integers, decimal parsing, and
//! joining strings with a separator.

use vstd::prelude::*;

verus! {

/// The character for a single decimal digit value.
pub open spec fn digit_char(d: nat) -> char
    recommends
        d < 10,
{
    if d == 0 {
        '0'
    } else if d == 1 {
        '1'
    } else if d == 2 {
        '2'
    } else if d == 3 {
        '3'
    } else if d == 4 {
        '4'
    } else if d == 5 {
        '5'
    } else if d == 6 {
        '6'
    } else if d == 7 {
        '7'
    } else if d == 8 {
        '8'
    } else {
        '9'
    }
}

/// Decimal text of a natural number, most significant digit first, with no
/// leading zeros (a single zero for the number zero).
pub open spec fn dec_str(n: nat) -> Seq<char>
    decreases n,
{
    if n < 10 {
        seq![digit_char(n)]
    } else {
        dec_str(n / 10).push(digit_char(n % 10))
    }
}

/// Decimal text of an integer: a leading minus sign for negative values.
pub open spec fn int_str(i: int) -> Seq<char> {
    if i < 0 {
        seq!['-'] + dec_str((-i) as nat)
    } else {
        dec_str(i as nat)
    }
}

/// Relies on String::push: appends exactly the given character.
#[verifier::external_body]
pub fn push_char(out: &mut String, c: char)
    ensures
        final(out)@ == old(out)@.push(c),
{
    out.push(c);
}

fn exec_digit_char(d: u64) -> (c: char)
    requires
        d < 10,
    ensures
        c == digit_char(d as nat),
{
    match d {
        0 => '0',
        1 => '1',
        2 => '2',
        3 => '3',
        4 => '4',
        5 => '5',
        6 => '6',
        7 => '7',
        8 => '8',
        _ => '9',
    }
}

/// Appends the decimal text of `n` to `out`.
pub fn push_u64(n: u64, out: &mut String)
    ensures
        final(out)@ == old(out)@ + dec_str(n as nat),
    decreases n,
{
    if n < 10 {
        push_char(out, exec_digit_char(n));
        assert(final(out)@ =~= old(out)@ + dec_str(n as nat));
    } else {
        push_u64(n / 10, out);
        push_char(out, exec_digit_char(n % 10));
        assert(final(out)@ =~= old(out)@ + dec_str(n as nat));
    }
}

/// The decimal text of `n` as a fresh string.
pub fn u64_to_string(n: u64) -> (s: String)
    ensures
        s@ == dec_str(n as nat),
{
    let mut out = String::new();
    push_u64(n, &mut out);
    assert(out@ =~= dec_str(n as nat));
    out
}

/// Appends the decimal text of `i` to `out`, with a minus sign if negative.
pub fn push_i64(i: i64, out: &mut String)
    ensures
        final(out)@ == old(out)@ + int_str(i as int),
{
    if i < 0 {
        push_char(out, '-');
        let mag: u64 = if i == i64::MIN {
            9223372036854775808u64
        } else {
            (-i) as u64
        };
        assert(mag as nat == (-(i as int)) as nat);
        push_u64(mag, out);
        assert(final(out)@ =~= old(out)@ + int_str(i as int));
    } else {
        push_u64(i as u64, out);
        assert(final(out)@ =~= old(out)@ + int_str(i as int));
    }
}

/// The decimal text of `i` as a fresh string, with a minus sign if negative.
pub fn i64_to_string(i: i64) -> (s: String)
    ensures
        s@ == int_str(i as int),
{
    let mut out = String::new();
    push_i64(i, &mut out);
    assert(out@ =~= int_str(i as int));
    out
}

/// Whether a character is a decimal digit.
pub open spec fn is_dec_digit(c: char) -> bool {
    48 <= c as u32 <= 57
}

/// The numeric value of a decimal digit character.
pub open spec fn digit_val(c: char) -> nat
    recommends
        is_dec_digit(c),
{
    (c as u32 - 48) as nat
}

/// The value of a digit string, most significant digit first.
pub open spec fn digits_val(s: Seq<char>) -> nat
    decreases s.len(),
{
    if s.len() == 0 {
        0
    } else {
        digits_val(s.subrange(0, s.len() - 1)) * 10 + digit_val(s[s.len() - 1])
    }
}

/// Whether every character of `s` is a decimal digit.
pub open spec fn all_dec_digits(s: Seq<char>) -> bool {
    forall|i: int| 0 <= i < s.len() ==> is_dec_digit(#[trigger] s[i])
}

/// The digit portion of unsigned decimal text: an optional leading plus sign
/// is dropped.
pub open spec fn u64_digits(s: Seq<char>) -> Seq<char> {
    if s.len() > 0 && s[0] == '+' {
        s.subrange(1, s.len() as int)
    } else {
        s
    }
}

/// Whether `s` is valid unsigned decimal text whose value fits in a `u64`:
/// an optional plus sign, then one or more digits, with no overflow.
pub open spec fn parses_as_u64(s: Seq<char>) -> bool {
    u64_digits(s).len() > 0 && all_dec_digits(u64_digits(s)) && digits_val(u64_digits(s))
        <= u64::MAX
}

/// The parsed value of valid unsigned decimal text.
pub open spec fn parsed_u64(s: Seq<char>) -> nat {
    digits_val(u64_digits(s))
}

proof fn lemma_digits_val_prefix_le(s: Seq<char>, i: int)
    requires
        0 <= i <= s.len(),
    ensures
        digits_val(s.subrange(0, i)) <= digits_val(s),
    decreases s.len() - i,
{
    if i == s.len() {
        assert(s.subrange(0, i) =~= s);
    } else {
        lemma_digits_val_prefix_le(s, i + 1);
        let t = s.subrange(0, i + 1);
        assert(t.subrange(0, t.len() - 1) =~= s.subrange(0, i));
        assert(digits_val(s.subrange(0, i)) <= digits_val(t));
    }
}

/// Parses `s` as unsigned decimal text, exactly when it is valid.
pub fn parse_u64(s: &str) -> (r: Option<u64>)
    ensures
        parses_as_u64(s@) ==> r == Some(parsed_u64(s@) as u64),
        !parses_as_u64(s@) ==> r is None,
{
    let len = s.unicode_len();
    let mut start: usize = 0;
    if len > 0 && s.get_char(0) == '+' {
        start = 1;
    }
    let ghost d: Seq<char> = u64_digits(s@);
    proof {
        assert(d =~= s@.subrange(start as int, len as int));
    }
    if start >= len {
        return None;
    }
    let mut n: u64 = 0;
    let mut i: usize = start;
    while i < len
        invariant
            start <= i <= len,
            len == s@.len(),
            start == 0 || (start == 1 && s@[0] == '+'),
            d == u64_digits(s@),
            d =~= s@.subrange(start as int, len as int),
            all_dec_digits(d.subrange(0, i - start)),
            n == digits_val(d.subrange(0, i - start)),
        decreases len - i,
    {
        let c = s.get_char(i);
        let v = c as u32;
        proof {
            assert(d[i - start] == s@[i as int]);
        }
        if v < 48 || v > 57 {
            proof {
                assert(!is_dec_digit(d[i - start]));
                assert(!all_dec_digits(d));
            }
            return None;
        }
        let dv = (v - 48) as u64;
        let ghost prefix = d.subrange(0, i - start);
        let ghost prefix1 = d.subrange(0, i + 1 - start);
        proof {
            assert(prefix1.subrange(0, prefix1.len() - 1) =~= prefix);
            assert(prefix1[prefix1.len() - 1] == d[i - start]);
            assert(digits_val(prefix1) == n * 10 + dv);
        }
        if n > (u64::MAX - dv) / 10 {
            proof {
                assert(n * 10 + dv > u64::MAX) by (nonlinear_arith)
                    requires
                        n > (u64::MAX - dv) / 10,
                        dv <= 9,
                ;
                if parses_as_u64(s@) {
                    lemma_digits_val_prefix_le(d, i + 1 - start);
                    assert(false);
                }
            }
            return None;
        }
        n = n * 10 + dv;
        i = i + 1;
    }
    proof {
        assert(d.subrange(0, len - start) =~= d);
    }
    Some(n)
}

/// Whether two string slices hold the same characters.
pub fn str_eq(a: &str, b: &str) -> (r: bool)
    ensures
        r == (a@ == b@),
{
    let la = a.unicode_len();
    let lb = b.unicode_len();
    if la != lb {
        return false;
    }
    let mut i: usize = 0;
    while i < la
        invariant
            i <= la,
            la == a@.len(),
            la == b@.len(),
            forall|k: int| 0 <= k < i ==> a@[k] == b@[k],
        decreases la - i,
    {
        if a.get_char(i) != b.get_char(i) {
            return false;
        }
        i = i + 1;
    }
    proof {
        assert(a@ =~= b@);
    }
    true
}

/// Text of the items from position `i` on, separated by a comma and a space.
pub open spec fn join_from(items: Seq<String>, i: int) -> Seq<char>
    decreases items.len() - i,
{
    if i < 0 || i >= items.len() {
        Seq::empty()
    } else if i + 1 == items.len() {
        items[i]@
    } else {
        items[i]@ + ", "@ + join_from(items, i + 1)
    }
}

/// Text of all the items, separated by a comma and a space.
pub open spec fn comma_joined(items: Seq<String>) -> Seq<char> {
    join_from(items, 0)
}

/// Joins the items with a comma and a space between each pair.
pub fn join_comma(items: &Vec<String>) -> (r: String)
    ensures
        r@ == comma_joined(items@),
{
    let mut out = String::new();
    let mut i: usize = items.len();
    while i > 0
        invariant
            i <= items.len(),
            out@ == join_from(items@, i as int),
        decreases i,
    {
        i = i - 1;
        let mut acc = items[i].clone();
        if i + 1 < items.len() {
            acc.append(", ");
        }
        acc.append(out.as_str());
        proof {
            assert(acc@ =~= join_from(items@, i as int));
        }
        out = acc;
    }
    out
}

} // verus!
