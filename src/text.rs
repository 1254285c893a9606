//! Literal substring replacement on character sequences.
use vstd::prelude::*;

verus! {

/// Each character of `s` followed by `to`.
pub open spec fn each_followed(s: Seq<char>, to: Seq<char>) -> Seq<char>
    decreases s.len(),
{
    if s.len() == 0 {
        s
    } else {
        seq![s[0]] + to + each_followed(s.drop_first(), to)
    }
}

/// The text `to` placed before each character of `s` and after the last one:
/// what replacing the empty pattern yields.
pub open spec fn interleaved(s: Seq<char>, to: Seq<char>) -> Seq<char> {
    to + each_followed(s, to)
}

/// Every occurrence of `from` in `s` replaced by `to`, scanning from the left
/// and never letting two replaced occurrences overlap.
pub open spec fn replaced(s: Seq<char>, from: Seq<char>, to: Seq<char>) -> Seq<char>
    decreases s.len(),
{
    if from.len() == 0 {
        interleaved(s, to)
    } else if s.len() < from.len() {
        s
    } else if s.subrange(0, from.len() as int) == from {
        to + replaced(s.subrange(from.len() as int, s.len() as int), from, to)
    } else {
        seq![s[0]] + replaced(s.drop_first(), from, to)
    }
}

/// `pat` occurs in `s` at index `i`.
pub open spec fn occurs_at(s: Seq<char>, pat: Seq<char>, i: int) -> bool {
    0 <= i && i + pat.len() <= s.len() && s.subrange(i, i + pat.len()) == pat
}

/// `pat` occurs somewhere in `s`.
pub open spec fn contains(s: Seq<char>, pat: Seq<char>) -> bool {
    exists|i: int| occurs_at(s, pat, i)
}

/// The characters of `s`, one by one.
fn chars_of(s: &str) -> (r: Vec<char>)
    ensures
        r@ == s@,
{
    let n = s.unicode_len();
    let mut r: Vec<char> = Vec::new();
    let mut i: usize = 0;
    while i < n
        invariant
            n == s@.len(),
            i <= n,
            r@ == s@.subrange(0, i as int),
        decreases n - i,
    {
        r.push(s.get_char(i));
        i = i + 1;
        assert(r@ =~= s@.subrange(0, i as int));
    }
    assert(r@ =~= s@);
    r
}

/// Whether `pat` occurs in `s` at index `i`.
fn matches_at(s: &Vec<char>, pat: &Vec<char>, i: usize) -> (r: bool)
    requires
        i <= s@.len(),
    ensures
        r == occurs_at(s@, pat@, i as int),
{
    if pat.len() > s.len() - i {
        return false;
    }
    let mut k: usize = 0;
    while k < pat.len()
        invariant
            i + pat@.len() <= s@.len(),
            s@.len() <= usize::MAX,
            k <= pat@.len(),
            forall|j: int| 0 <= j < k ==> s@[i + j] == pat@[j],
        decreases pat@.len() - k,
    {
        if s[i + k] != pat[k] {
            assert(s@.subrange(i as int, i + pat@.len())[k as int] != pat@[k as int]);
            return false;
        }
        k = k + 1;
    }
    assert(s@.subrange(i as int, i + pat@.len()) =~= pat@);
    true
}

/// Replaces each character of `s` by itself preceded by `to`, and ends with `to`.
fn interleave(s: &str, to: &str) -> (r: String)
    ensures
        r@ == interleaved(s@, to@),
{
    let n = s.unicode_len();
    let mut r = String::from_str(to);
    let mut i: usize = 0;
    assert(s@.subrange(0, n as int) =~= s@);
    while i < n
        invariant
            n == s@.len(),
            i <= n,
            r@ + each_followed(s@.subrange(i as int, n as int), to@) == interleaved(s@, to@),
        decreases n - i,
    {
        let ghost old_r = r@;
        let one = s.substring_char(i, i + 1);
        r.append(one);
        r.append(to);
        proof {
            let rest = s@.subrange(i as int, n as int);
            assert(rest.drop_first() =~= s@.subrange(i + 1, n as int));
            assert(one@ =~= seq![rest[0]]);
            assert(r@ + each_followed(rest.drop_first(), to@) =~= old_r + each_followed(rest, to@));
        }
        i = i + 1;
    }
    proof {
        assert(s@.subrange(n as int, n as int) =~= Seq::<char>::empty());
        assert(s@.subrange(0, n as int) =~= s@);
        assert(r@ + Seq::<char>::empty() =~= r@);
    }
    r
}

/// Every occurrence of `from` in `s` replaced by `to`, left to right and
/// without overlap; an empty `from` matches before each character and at the end.
pub fn replace_all(s: &str, from: &str, to: &str) -> (r: String)
    ensures
        r@ == replaced(s@, from@, to@),
{
    if from.unicode_len() == 0 {
        return interleave(s, to);
    }
    let sv = chars_of(s);
    let fv = chars_of(from);
    let n = sv.len();
    let m = fv.len();
    let mut r = String::new();
    let mut start: usize = 0;
    let mut i: usize = 0;
    proof {
        assert(s@.subrange(0, 0) =~= Seq::<char>::empty());
        assert(s@.subrange(0, n as int) =~= s@);
        assert(r@ + Seq::<char>::empty() =~= r@);
    }
    while i < n
        invariant
            n == s@.len(),
            m == from@.len(),
            m > 0,
            sv@ == s@,
            fv@ == from@,
            start <= i <= n,
            r@ + s@.subrange(start as int, i as int) + replaced(
                s@.subrange(i as int, n as int),
                from@,
                to@,
            ) == replaced(s@, from@, to@),
        decreases n - i,
    {
        let ghost rest = s@.subrange(i as int, n as int);
        let ghost old_r = r@;
        let ghost lit_before = s@.subrange(start as int, i as int);
        if matches_at(&sv, &fv, i) {
            let lit = s.substring_char(start, i);
            r.append(lit);
            r.append(to);
            proof {
                assert(rest.subrange(0, m as int) =~= s@.subrange(i as int, i + m));
                assert(rest.subrange(m as int, rest.len() as int) =~= s@.subrange(i + m, n as int));
                assert(s@.subrange(i + m, i + m) =~= Seq::<char>::empty());
                assert(r@ + s@.subrange(i + m, i + m) + replaced(s@.subrange(i + m, n as int), from@, to@)
                    =~= old_r + lit_before + replaced(rest, from@, to@));
            }
            i = i + m;
            start = i;
        } else {
            proof {
                if rest.len() >= m {
                    assert(rest.subrange(0, m as int) =~= s@.subrange(i as int, i + m));
                }
                assert(rest.drop_first() =~= s@.subrange(i + 1, n as int));
                assert(s@.subrange(start as int, i + 1) =~= lit_before + seq![rest[0]]);
                assert(r@ + s@.subrange(start as int, i + 1) + replaced(rest.drop_first(), from@, to@)
                    =~= old_r + lit_before + replaced(rest, from@, to@));
            }
            i = i + 1;
        }
    }
    let tail = s.substring_char(start, n);
    r.append(tail);
    proof {
        assert(s@.subrange(n as int, n as int) =~= Seq::<char>::empty());
        assert(r@ =~= r@ + Seq::<char>::empty());
    }
    r
}

/// How many times `c` occurs in `s`.
pub open spec fn count_char(s: Seq<char>, c: char) -> nat
    decreases s.len(),
{
    if s.len() == 0 {
        0
    } else {
        (if s[0] == c {
            1nat
        } else {
            0nat
        }) + count_char(s.drop_first(), c)
    }
}

proof fn lemma_count_concat(a: Seq<char>, b: Seq<char>, c: char)
    ensures
        count_char(a + b, c) == count_char(a, c) + count_char(b, c),
    decreases a.len(),
{
    if a.len() == 0 {
        assert(a + b =~= b);
    } else {
        assert((a + b).drop_first() =~= a.drop_first() + b);
        lemma_count_concat(a.drop_first(), b, c);
    }
}

proof fn lemma_count_absent(s: Seq<char>, c: char)
    requires
        !s.contains(c),
    ensures
        count_char(s, c) == 0,
    decreases s.len(),
{
    if s.len() > 0 {
        assert(!s.drop_first().contains(c)) by {
            if s.drop_first().contains(c) {
                let j = choose|j: int| 0 <= j < s.drop_first().len() && s.drop_first()[j] == c;
                assert(s[j + 1] == c);
            }
        }
        assert(s[0] != c) by {
            if s[0] == c {
                assert(s.contains(c));
            }
        }
        lemma_count_absent(s.drop_first(), c);
    }
}

/// Without an occurrence of a non-empty `from`, replacing leaves `s` as it is.
pub proof fn lemma_replaced_absent(s: Seq<char>, from: Seq<char>, to: Seq<char>)
    requires
        !contains(s, from),
    ensures
        replaced(s, from, to) == s,
    decreases s.len(),
{
    if from.len() == 0 {
        assert(occurs_at(s, from, 0)) by {
            assert(s.subrange(0, 0) =~= from);
        }
    } else if s.len() >= from.len() {
        if s.subrange(0, from.len() as int) == from {
            assert(occurs_at(s, from, 0));
        } else {
            let rest = s.drop_first();
            assert(!contains(rest, from)) by {
                if contains(rest, from) {
                    let i = choose|i: int| occurs_at(rest, from, i);
                    assert(s.subrange(i + 1, i + 1 + from.len()) =~= rest.subrange(i, i + from.len()));
                    assert(occurs_at(s, from, i + 1));
                }
            }
            lemma_replaced_absent(rest, from, to);
            assert(s =~= seq![s[0]] + rest);
        }
    }
}

/// Replacing a pattern that holds `c` by a text free of `c` never adds an
/// occurrence of `c`, and removes one where the pattern occurs.
pub proof fn lemma_replaced_count(s: Seq<char>, from: Seq<char>, to: Seq<char>, c: char)
    requires
        from.contains(c),
        !to.contains(c),
    ensures
        count_char(replaced(s, from, to), c) <= count_char(s, c),
        contains(s, from) ==> count_char(replaced(s, from, to), c) < count_char(s, c),
    decreases s.len(),
{
    let m = from.len() as int;
    lemma_count_absent(to, c);
    if s.len() < m {
        if contains(s, from) {
            let i = choose|i: int| occurs_at(s, from, i);
        }
    } else if s.subrange(0, m) == from {
        let rest = s.subrange(m, s.len() as int);
        lemma_replaced_count(rest, from, to, c);
        lemma_count_concat(to, replaced(rest, from, to), c);
        assert(s =~= from + rest);
        lemma_count_concat(from, rest, c);
        assert(count_char(from, c) > 0) by {
            let j = choose|j: int| 0 <= j < from.len() && from[j] == c;
            assert(from =~= from.subrange(0, j) + from.subrange(j, m));
            lemma_count_concat(from.subrange(0, j), from.subrange(j, m), c);
        }
    } else {
        let rest = s.drop_first();
        lemma_replaced_count(rest, from, to, c);
        lemma_count_concat(seq![s[0]], replaced(rest, from, to), c);
        assert(s =~= seq![s[0]] + rest);
        lemma_count_concat(seq![s[0]], rest, c);
        if contains(s, from) {
            let i = choose|i: int| occurs_at(s, from, i);
            assert(i != 0);
            assert(rest.subrange(i - 1, i - 1 + m) =~= s.subrange(i, i + m));
            assert(occurs_at(rest, from, i - 1));
        }
    }
}

/// `x` occurs in `t` at index `j` and nowhere else.
pub open spec fn marks(t: Seq<char>, x: char, j: int) -> bool {
    &&& 0 <= j < t.len()
    &&& t[j] == x
    &&& forall|k: int| 0 <= k < t.len() && k != j ==> t[k] != x
}

pub proof fn lemma_marked_absent(s: Seq<char>, t: Seq<char>, x: char, j: int)
    requires
        !s.contains(x),
        marks(t, x, j),
    ensures
        !contains(s, t),
{
    if contains(s, t) {
        let i = choose|i: int| occurs_at(s, t, i);
        assert(s.subrange(i, i + t.len())[j] == t[j]);
        assert(s[i + j] == x);
    }
}

proof fn lemma_no_marker_before(s: Seq<char>, from: Seq<char>, to: Seq<char>, x: char, j: int)
    requires
        from.len() > 0,
        !s.contains(x),
        marks(to, x, j),
    ensures
        forall|i: int|
            0 <= i < j && i < replaced(s, from, to).len() ==> replaced(s, from, to)[i] != x,
    decreases s.len(),
{
    let m = from.len() as int;
    if s.len() < m {
        assert forall|i: int| 0 <= i < j && i < s.len() implies s[i] != x by {
            if s[i] == x {
                assert(s.contains(x));
            }
        }
    } else if s.subrange(0, m) == from {
    } else {
        let rest = s.drop_first();
        assert(!rest.contains(x)) by {
            if rest.contains(x) {
                let k = choose|k: int| 0 <= k < rest.len() && rest[k] == x;
                assert(s[k + 1] == x);
            }
        }
        lemma_no_marker_before(rest, from, to, x, j);
        let r = replaced(s, from, to);
        assert forall|i: int| 0 <= i < j && i < r.len() implies r[i] != x by {
            if i == 0 {
                if s[0] == x {
                    assert(s.contains(x));
                }
            } else {
                assert(r[i] == replaced(rest, from, to)[i - 1]);
            }
        }
    }
}

/// Replacing a pattern by a text that carries a character found nowhere in
/// the original, exactly once, and then that text by the pattern again,
/// restores the original.
pub proof fn lemma_replaced_round_trip(s: Seq<char>, from: Seq<char>, to: Seq<char>, x: char, j: int)
    requires
        from.len() > 0,
        !s.contains(x),
        marks(to, x, j),
    ensures
        replaced(replaced(s, from, to), to, from) == s,
    decreases s.len(),
{
    let m = from.len() as int;
    let n = to.len() as int;
    if s.len() < m {
        lemma_marked_absent(s, to, x, j);
        lemma_replaced_absent(s, to, from);
    } else if s.subrange(0, m) == from {
        let rest = s.subrange(m, s.len() as int);
        assert(!rest.contains(x)) by {
            if rest.contains(x) {
                let k = choose|k: int| 0 <= k < rest.len() && rest[k] == x;
                assert(s[k + m] == x);
            }
        }
        lemma_replaced_round_trip(rest, from, to, x, j);
        let d = replaced(rest, from, to);
        let q = to + d;
        assert(q.subrange(0, n) =~= to);
        assert(q.subrange(n, q.len() as int) =~= d);
        assert(s =~= from + rest);
    } else {
        let rest = s.drop_first();
        assert(!rest.contains(x)) by {
            if rest.contains(x) {
                let k = choose|k: int| 0 <= k < rest.len() && rest[k] == x;
                assert(s[k + 1] == x);
            }
        }
        lemma_replaced_round_trip(rest, from, to, x, j);
        lemma_no_marker_before(rest, from, to, x, j);
        let d = replaced(rest, from, to);
        let q = seq![s[0]] + d;
        assert(s =~= seq![s[0]] + rest);
        assert(q.drop_first() =~= d);
        if q.len() >= n {
            assert(q.subrange(0, n) != to) by {
                if j == 0 {
                    if s[0] == x {
                        assert(s.contains(x));
                    }
                    assert(q.subrange(0, n)[0] == s[0]);
                } else {
                    assert(q.subrange(0, n)[j] == d[j - 1]);
                }
            }
        } else {
            lemma_marked_absent(d, to, x, j);
            lemma_replaced_absent(d, to, from);
        }
    }
}

/// A character found neither in `s` nor in `to` is not in the result of the replacement.
pub proof fn lemma_replaced_keeps_out(s: Seq<char>, from: Seq<char>, to: Seq<char>, x: char)
    requires
        from.len() > 0,
        !s.contains(x),
        !to.contains(x),
    ensures
        !replaced(s, from, to).contains(x),
    decreases s.len(),
{
    let m = from.len() as int;
    if s.len() >= m {
        let r = replaced(s, from, to);
        if s.subrange(0, m) == from {
            let rest = s.subrange(m, s.len() as int);
            assert(!rest.contains(x)) by {
                if rest.contains(x) {
                    let k = choose|k: int| 0 <= k < rest.len() && rest[k] == x;
                    assert(s[k + m] == x);
                }
            }
            lemma_replaced_keeps_out(rest, from, to, x);
            let d = replaced(rest, from, to);
            assert(!r.contains(x)) by {
                if r.contains(x) {
                    let k = choose|k: int| 0 <= k < r.len() && r[k] == x;
                    if k < to.len() {
                        assert(to[k] == x);
                    } else {
                        assert(d[k - to.len()] == x);
                    }
                }
            }
        } else {
            let rest = s.drop_first();
            assert(!rest.contains(x)) by {
                if rest.contains(x) {
                    let k = choose|k: int| 0 <= k < rest.len() && rest[k] == x;
                    assert(s[k + 1] == x);
                }
            }
            lemma_replaced_keeps_out(rest, from, to, x);
            let d = replaced(rest, from, to);
            assert(!r.contains(x)) by {
                if r.contains(x) {
                    let k = choose|k: int| 0 <= k < r.len() && r[k] == x;
                    if k == 0 {
                        assert(s[0] == x);
                    } else {
                        assert(d[k - 1] == x);
                    }
                }
            }
        }
    }
}

} // verus!
