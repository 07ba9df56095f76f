//! Character-level string work: equality with a literal and trimming a
//! repeated character from both ends (`str::trim_matches` with a `char`).
use vstd::prelude::*;

verus! {

/// How many times `c` repeats at the start of `s`.
pub open spec fn lead_count(s: Seq<char>, c: char) -> nat
    decreases s.len(),
{
    if s.len() > 0 && s[0] == c {
        1 + lead_count(s.drop_first(), c)
    } else {
        0
    }
}

/// How many times `c` repeats at the end of `s`.
pub open spec fn trail_count(s: Seq<char>, c: char) -> nat
    decreases s.len(),
{
    if s.len() > 0 && s.last() == c {
        1 + trail_count(s.drop_last(), c)
    } else {
        0
    }
}

/// `s` with every leading and every trailing `c` removed.
pub open spec fn spec_trim_matches(s: Seq<char>, c: char) -> Seq<char> {
    let a = lead_count(s, c);
    if a >= s.len() {
        Seq::<char>::empty()
    } else {
        s.subrange(a as int, s.len() - trail_count(s, c))
    }
}

proof fn lemma_lead_count(s: Seq<char>, c: char, a: int)
    requires
        0 <= a <= s.len(),
        forall|i: int| 0 <= i < a ==> s[i] == c,
        a == s.len() || s[a] != c,
    ensures
        lead_count(s, c) == a,
    decreases a,
{
    if a > 0 {
        let t = s.drop_first();
        assert forall|i: int| 0 <= i < a - 1 implies t[i] == c by {
            assert(t[i] == s[i + 1]);
        }
        if a < s.len() {
            assert(t[a - 1] == s[a]);
        }
        lemma_lead_count(t, c, a - 1);
    }
}

proof fn lemma_trail_count(s: Seq<char>, c: char, b: int)
    requires
        0 <= b <= s.len(),
        forall|i: int| s.len() - b <= i < s.len() ==> s[i] == c,
        b == s.len() || s[s.len() - 1 - b] != c,
    ensures
        trail_count(s, c) == b,
    decreases b,
{
    if b > 0 {
        let t = s.drop_last();
        assert(s[s.len() - 1] == c);
        assert forall|i: int| t.len() - (b - 1) <= i < t.len() implies t[i] == c by {
            assert(t[i] == s[i]);
        }
        if b < s.len() {
            assert(t[t.len() - 1 - (b - 1)] == s[s.len() - 1 - b]);
        }
        lemma_trail_count(t, c, b - 1);
    }
}

proof fn lemma_lead_count_props(s: Seq<char>, c: char)
    ensures
        lead_count(s, c) <= s.len(),
        forall|i: int| 0 <= i < lead_count(s, c) ==> s[i] == c,
        lead_count(s, c) < s.len() ==> s[lead_count(s, c) as int] != c,
    decreases s.len(),
{
    if s.len() > 0 && s[0] == c {
        let t = s.drop_first();
        lemma_lead_count_props(t, c);
        assert forall|i: int| 0 <= i < lead_count(s, c) implies s[i] == c by {
            if i > 0 {
                assert(s[i] == t[i - 1]);
            }
        }
        if lead_count(s, c) < s.len() {
            assert(s[lead_count(s, c) as int] == t[lead_count(t, c) as int]);
        }
    }
}

proof fn lemma_trail_count_props(s: Seq<char>, c: char)
    ensures
        trail_count(s, c) <= s.len(),
        forall|i: int| s.len() - trail_count(s, c) <= i < s.len() ==> s[i] == c,
        trail_count(s, c) < s.len() ==> s[s.len() - 1 - trail_count(s, c)] != c,
    decreases s.len(),
{
    if s.len() > 0 && s.last() == c {
        let t = s.drop_last();
        lemma_trail_count_props(t, c);
        assert forall|i: int| s.len() - trail_count(s, c) <= i < s.len() implies s[i] == c by {
            if i < s.len() - 1 {
                assert(s[i] == t[i]);
            }
        }
        if trail_count(s, c) < s.len() {
            assert(s[s.len() - 1 - trail_count(s, c)] == t[t.len() - 1 - trail_count(t, c)]);
        }
    }
}

/// What trimming `c` from `s` gives, for every `s`: the piece of `s` that
/// starts after its leading run of `c`, neither starts nor ends with `c`, and
/// has nothing but `c` before it and after it in `s`.
pub proof fn lemma_trim_law(s: Seq<char>, c: char)
    ensures
        spec_trim_matches(s, c).len() > 0 ==> spec_trim_matches(s, c)[0] != c
            && spec_trim_matches(s, c).last() != c,
        ({
            let k = lead_count(s, c) as int;
            let r = spec_trim_matches(s, c);
            &&& k + r.len() <= s.len()
            &&& s.subrange(k, k + r.len()) == r
            &&& forall|i: int| 0 <= i < k ==> s[i] == c
            &&& forall|i: int| k + r.len() <= i < s.len() ==> s[i] == c
        }),
{
    lemma_lead_count_props(s, c);
    lemma_trail_count_props(s, c);
    let r = spec_trim_matches(s, c);
    let a = lead_count(s, c);
    if a >= s.len() {
        assert(r.len() == 0);
        assert(s.subrange(a as int, a as int) =~= r);
    } else {
        let b = trail_count(s, c);
        assert(s[a as int] != c);
        if a >= s.len() - b {
            assert(s[a as int] == c);
        }
        assert(b < s.len());
        assert(r =~= s.subrange(a as int, s.len() - b));
        assert(r[0] == s[a as int]);
        assert(r.last() == s[s.len() - 1 - b]);
        assert(s.subrange(a as int, (a + r.len()) as int) =~= r);
    }
}

/// Trimming `c` off `c`, then `s`, then `c` gives `s` back when `s` holds no `c`.
pub proof fn lemma_trim_enclosed(s: Seq<char>, c: char)
    requires
        forall|i: int| 0 <= i < s.len() ==> s[i] != c,
    ensures
        spec_trim_matches(seq![c] + s + seq![c], c) == s,
{
    let q = seq![c] + s + seq![c];
    if s.len() == 0 {
        lemma_lead_count(q, c, 2);
    } else {
        assert(q[1] == s[0]);
        lemma_lead_count(q, c, 1);
        assert(q[q.len() - 2] == s[s.len() - 1]);
        lemma_trail_count(q, c, 1);
        assert(q.subrange(1, q.len() - 1) =~= s);
    }
}

/// Text between the same prefix and the same suffix is determined by the
/// whole.
pub proof fn lemma_concat_cancel(x: Seq<char>, a: Seq<char>, b: Seq<char>, z: Seq<char>)
    requires
        x + a + z == x + b + z,
    ensures
        a == b,
{
    let wa = x + a + z;
    let wb = x + b + z;
    assert(wa.len() == wb.len());
    assert(a =~= wa.subrange(x.len() as int, (x.len() + a.len()) as int));
    assert(b =~= wb.subrange(x.len() as int, (x.len() + b.len()) as int));
}

/// Whether two strings hold the same characters.
pub fn str_eq(a: &str, b: &str) -> (r: bool)
    ensures
        r == (a@ == b@),
{
    let n = a.unicode_len();
    let m = b.unicode_len();
    if n != m {
        return false;
    }
    let mut i: usize = 0;
    while i < n
        invariant
            i <= n,
            n == a@.len(),
            m == b@.len(),
            n == m,
            forall|j: int| 0 <= j < i ==> a@[j] == b@[j],
        decreases n - i,
    {
        if a.get_char(i) != b.get_char(i) {
            return false;
        }
        i = i + 1;
    }
    assert(a@ =~= b@);
    true
}

/// `str::trim_matches(c)`: `s` without its leading and trailing runs of `c`.
pub fn trim_char(s: &str, c: char) -> (r: String)
    ensures
        r@ == spec_trim_matches(s@, c),
        r@.len() > 0 ==> r@[0] != c && r@.last() != c,
        forall|i: int| 0 <= i < lead_count(s@, c) ==> s@[i] == c,
        lead_count(s@, c) + r@.len() <= s@.len(),
        s@.subrange(lead_count(s@, c) as int, (lead_count(s@, c) + r@.len()) as int) == r@,
        forall|i: int| lead_count(s@, c) + r@.len() <= i < s@.len() ==> s@[i] == c,
{
    proof {
        lemma_trim_law(s@, c);
    }
    let n = s.unicode_len();
    let mut a: usize = 0;
    while a < n && s.get_char(a) == c
        invariant
            a <= n,
            n == s@.len(),
            forall|i: int| 0 <= i < a ==> s@[i] == c,
        decreases n - a,
    {
        a = a + 1;
    }
    proof {
        lemma_lead_count(s@, c, a as int);
    }
    if a == n {
        return String::new();
    }
    let mut j: usize = n;
    while j > a && s.get_char(j - 1) == c
        invariant
            a < n,
            s@[a as int] != c,
            a <= j <= n,
            n == s@.len(),
            forall|i: int| j <= i < n ==> s@[i] == c,
        decreases j,
    {
        j = j - 1;
    }
    proof {
        assert(j > a);
        lemma_trail_count(s@, c, (n - j) as int);
    }
    let piece = s.substring_char(a, j);
    piece.to_string()
}

} // verus!
