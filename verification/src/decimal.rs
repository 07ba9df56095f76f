//! Decimal text for `i32`: the grammar that `str::parse::<i32>` accepts and
//! the text that `i32::to_string` writes.
use vstd::prelude::*;

verus! {

/// An ASCII decimal digit.
pub open spec fn is_digit(c: char) -> bool {
    '0' <= c && c <= '9'
}

/// The number a digit stands for.
pub open spec fn digit_value(c: char) -> int {
    c as int - '0' as int
}

/// The digit that writes `d` (for `0 <= d < 10`).
pub open spec fn digit_char(d: int) -> char {
    if d == 0 { '0' }
    else if d == 1 { '1' }
    else if d == 2 { '2' }
    else if d == 3 { '3' }
    else if d == 4 { '4' }
    else if d == 5 { '5' }
    else if d == 6 { '6' }
    else if d == 7 { '7' }
    else if d == 8 { '8' }
    else { '9' }
}

pub open spec fn all_digits(s: Seq<char>) -> bool {
    forall|i: int| 0 <= i < s.len() ==> is_digit(#[trigger] s[i])
}

/// The number that a run of digits writes, most significant first.
pub open spec fn digits_value(s: Seq<char>) -> int
    decreases s.len(),
{
    if s.len() == 0 {
        0
    } else {
        10 * digits_value(s.drop_last()) + digit_value(s.last())
    }
}

/// An optional leading sign: whether it is `-`, and what follows it.
pub open spec fn sign_split(s: Seq<char>) -> (bool, Seq<char>) {
    if s.len() > 0 && s[0] == '-' {
        (true, s.drop_first())
    } else if s.len() > 0 && s[0] == '+' {
        (false, s.drop_first())
    } else {
        (false, s)
    }
}

/// What `str::parse::<i32>` gives: an optional `+` or `-`, then one digit or
/// more and nothing else, with a value in the range of `i32`.
pub open spec fn spec_parse_i32(s: Seq<char>) -> Option<i32> {
    let (neg, body) = sign_split(s);
    if body.len() == 0 || !all_digits(body) {
        None
    } else {
        let v = if neg { -digits_value(body) } else { digits_value(body) };
        if i32::MIN <= v && v <= i32::MAX {
            Some(v as i32)
        } else {
            None
        }
    }
}

/// The digits of a natural number, with no leading zero.
pub open spec fn nat_decimal(m: nat) -> Seq<char>
    decreases m,
{
    if m < 10 {
        seq![digit_char(m as int)]
    } else {
        nat_decimal(m / 10) + seq![digit_char((m % 10) as int)]
    }
}

/// What `i32::to_string` writes: a `-` for negative numbers, then the digits.
pub open spec fn spec_decimal(n: int) -> Seq<char> {
    if n < 0 {
        seq!['-'] + nat_decimal((-n) as nat)
    } else {
        nat_decimal(n as nat)
    }
}

proof fn lemma_digit_char(d: int)
    requires
        0 <= d < 10,
    ensures
        is_digit(digit_char(d)),
        digit_value(digit_char(d)) == d,
{
}

/// A prefix of a run of digits writes no larger a number than the whole.
proof fn lemma_prefix_value(s: Seq<char>, k: int)
    requires
        all_digits(s),
        0 <= k <= s.len(),
    ensures
        0 <= digits_value(s.take(k)) <= digits_value(s),
    decreases s.len(),
{
    if s.len() == 0 {
        assert(s.take(k) =~= s);
    } else if k == s.len() {
        assert(s.take(k) =~= s);
        lemma_prefix_value(s.drop_last(), k - 1);
        assert(is_digit(s[s.len() - 1]));
    } else {
        let t = s.drop_last();
        assert(all_digits(t)) by {
            assert forall|i: int| 0 <= i < t.len() implies is_digit(#[trigger] t[i]) by {
                assert(t[i] == s[i]);
            }
        }
        lemma_prefix_value(t, k);
        assert(t.take(k) =~= s.take(k));
        lemma_prefix_value(t, t.len() as int);
        assert(t.take(t.len() as int) =~= t);
        assert(is_digit(s[s.len() - 1]));
    }
}

proof fn lemma_nat_decimal(m: nat)
    ensures
        nat_decimal(m).len() >= 1,
        all_digits(nat_decimal(m)),
        digits_value(nat_decimal(m)) == m,
    decreases m,
{
    if m < 10 {
        lemma_digit_char(m as int);
        let s = nat_decimal(m);
        assert(s.drop_last() =~= Seq::<char>::empty());
        assert(digits_value(s.drop_last()) == 0);
        assert(digits_value(s) == 10 * digits_value(s.drop_last()) + digit_value(s.last()));
    } else {
        lemma_nat_decimal(m / 10);
        lemma_digit_char((m % 10) as int);
        let s = nat_decimal(m);
        let p = nat_decimal(m / 10);
        assert(s.drop_last() =~= p);
        assert(s.last() == digit_char((m % 10) as int));
        assert forall|i: int| 0 <= i < s.len() implies is_digit(#[trigger] s[i]) by {
            if i < p.len() {
                assert(s[i] == p[i]);
            }
        }
        assert(digits_value(s) == 10 * digits_value(p) + digit_value(digit_char((m % 10) as int)));
        assert(10 * (m / 10) + m % 10 == m);
    }
}

/// The digits of a positive number start with a digit other than `0`.
proof fn lemma_nat_decimal_leading(m: nat)
    requires
        m > 0,
    ensures
        nat_decimal(m)[0] != '0',
    decreases m,
{
    if m >= 10 {
        lemma_nat_decimal_leading(m / 10);
        lemma_nat_decimal(m / 10);
        assert(nat_decimal(m)[0] == nat_decimal(m / 10)[0]);
    }
}

/// The decimal text of every `i32` is canonical: one or more digits, with no
/// leading `0` unless the number is 0, after a `-` exactly for negative
/// numbers.
pub proof fn lemma_decimal_canonical(n: i32)
    ensures
        n >= 0 ==> all_digits(spec_decimal(n as int)) && spec_decimal(n as int).len() >= 1
            && (n > 0 ==> spec_decimal(n as int)[0] != '0')
            && (n == 0 ==> spec_decimal(n as int) == seq!['0']),
        n < 0 ==> spec_decimal(n as int)[0] == '-' && all_digits(spec_decimal(n as int).drop_first())
            && spec_decimal(n as int).len() >= 2 && spec_decimal(n as int)[1] != '0',
{
    if n >= 0 {
        lemma_nat_decimal(n as nat);
        if n > 0 {
            lemma_nat_decimal_leading(n as nat);
        }
    } else {
        let m = (-(n as int)) as nat;
        lemma_nat_decimal(m);
        lemma_nat_decimal_leading(m);
        let s = spec_decimal(n as int);
        assert(s.drop_first() =~= nat_decimal(m));
        assert(s[1] == nat_decimal(m)[0]);
    }
}

/// Reading back what `i32_to_string` writes gives the same number.
pub proof fn lemma_decimal_round_trip(n: i32)
    ensures
        spec_parse_i32(spec_decimal(n as int)) == Some(n),
{
    if n < 0 {
        let m = (-(n as int)) as nat;
        lemma_nat_decimal(m);
        let s = spec_decimal(n as int);
        assert(s.drop_first() =~= nat_decimal(m));
    } else {
        let m = n as nat;
        lemma_nat_decimal(m);
        let s = nat_decimal(m);
        assert(is_digit(s[0]));
    }
}

/// The decimal text of 1000 is `1000`.
pub proof fn lemma_decimal_1000()
    ensures
        spec_decimal(1000) == "1000"@,
{
    reveal_strlit("1000");
    assert(nat_decimal(1) =~= seq!['1']);
    assert(nat_decimal(10) =~= seq!['1', '0']);
    assert(nat_decimal(100) =~= seq!['1', '0', '0']);
    assert(nat_decimal(1000) =~= seq!['1', '0', '0', '0']);
    assert("1000"@ =~= seq!['1', '0', '0', '0']);
}

/// `str::parse::<i32>`: the number `s` writes in decimal, or `None` where
/// it writes none that fits an `i32`.
pub fn parse_i32(s: &str) -> (r: Option<i32>)
    ensures
        r == spec_parse_i32(s@),
{
    let n = s.unicode_len();
    if n == 0 {
        return None;
    }
    let first = s.get_char(0);
    let neg = first == '-';
    let start: usize = if first == '-' || first == '+' { 1 } else { 0 };
    let ghost split = sign_split(s@);
    assert(split.1 =~= s@.subrange(start as int, n as int));
    assert(split.0 == neg);
    if start == n {
        return None;
    }
    let ghost body = s@.subrange(start as int, n as int);
    let mut acc: u64 = 0;
    let mut i: usize = start;
    assert(s@.subrange(start as int, i as int) =~= Seq::<char>::empty());
    while i < n
        invariant
            start <= i <= n,
            n == s@.len(),
            body == s@.subrange(start as int, n as int),
            body == sign_split(s@).1,
            neg == sign_split(s@).0,
            body.len() > 0,
            all_digits(s@.subrange(start as int, i as int)),
            acc == digits_value(s@.subrange(start as int, i as int)),
            acc <= 2147483648,
        decreases n - i,
    {
        let c = s.get_char(i);
        let ghost pre = s@.subrange(start as int, i as int);
        let ghost next = s@.subrange(start as int, i + 1);
        assert(next.drop_last() =~= pre);
        assert(next.last() == c);
        assert(body[i - start] == c);
        if !('0' <= c && c <= '9') {
            return None;
        }
        let d: u64 = (c as u32 - 48) as u64;
        acc = acc * 10 + d;
        assert(all_digits(next)) by {
            assert forall|j: int| 0 <= j < next.len() implies is_digit(#[trigger] next[j]) by {
                if j < pre.len() {
                    assert(next[j] == pre[j]);
                }
            }
        }
        if acc > 2147483648 {
            proof {
                if all_digits(body) {
                    assert(body.take((i + 1 - start) as int) =~= next);
                    lemma_prefix_value(body, (i + 1 - start) as int);
                }
            }
            return None;
        }
        i = i + 1;
    }
    assert(s@.subrange(start as int, i as int) =~= body);
    if neg {
        let v: i64 = 0 - (acc as i64);
        Some(v as i32)
    } else if acc <= 2147483647 {
        Some(acc as i32)
    } else {
        None
    }
}

fn push_nat_decimal(out: &mut String, m: u64)
    ensures
        final(out)@ == old(out)@ + nat_decimal(m as nat),
    decreases m,
{
    if m >= 10 {
        push_nat_decimal(out, m / 10);
    }
    let d: usize = (m % 10) as usize;
    let digits = "0123456789";
    proof {
        reveal_strlit("0123456789");
    }
    let one = digits.substring_char(d, d + 1);
    assert(one@ =~= seq![digit_char(d as int)]);
    out.append(one);
    assert(out@ =~= old(out)@ + nat_decimal(m as nat));
}

/// `i32::to_string`: the decimal text of `n`.
pub fn i32_to_string(n: i32) -> (r: String)
    ensures
        r@ == spec_decimal(n as int),
        spec_parse_i32(r@) == Some(n),
        n >= 0 ==> all_digits(r@) && (r@[0] == '0' <==> n == 0) && (n == 0 ==> r@.len() == 1),
        n < 0 ==> r@[0] == '-' && all_digits(r@.drop_first()) && r@.len() >= 2 && r@[1] != '0',
{
    proof {
        lemma_decimal_round_trip(n);
        lemma_decimal_canonical(n);
    }
    let mut out = String::new();
    if n < 0 {
        out.append("-");
        proof {
            reveal_strlit("-");
        }
        let m: u64 = (0 - (n as i64)) as u64;
        push_nat_decimal(&mut out, m);
        assert(out@ =~= spec_decimal(n as int));
    } else {
        push_nat_decimal(&mut out, n as u64);
        assert(out@ =~= spec_decimal(n as int));
    }
    out
}

} // verus!
