//! Character-level helpers on strings, each proved against a `Seq<char>` model.

use vstd::prelude::*;

verus! {

/// `Some(i)` for the first `i >= from` with `s[i] == c`, `None` when there is none.
pub open spec fn first_index_from(s: Seq<char>, c: char, from: int) -> Option<int>
    decreases s.len() - from,
{
    if from < 0 || from >= s.len() {
        None
    } else if s[from] == c {
        Some(from)
    } else {
        first_index_from(s, c, from + 1)
    }
}

/// Position of the first `c` in `s`, scanning from index `from`.
pub fn find_char(s: &str, c: char, from: usize) -> (r: Option<usize>)
    requires
        from <= s@.len(),
    ensures
        r matches Some(i) ==> from <= i < s@.len() && s@[i as int] == c,
        r matches Some(i) ==> first_index_from(s@, c, from as int) == Some(i as int),
        r is None <==> first_index_from(s@, c, from as int) is None,
{
    let n = s.unicode_len();
    let mut i = from;
    while i < n
        invariant
            n == s@.len(),
            from <= i <= n,
            first_index_from(s@, c, from as int) == first_index_from(s@, c, i as int),
        decreases n - i,
    {
        if s.get_char(i) == c {
            return Some(i);
        }
        i = i + 1;
    }
    None
}

/// Does `pat` occur in `s` starting at index `i`?
pub open spec fn occurs_at(s: Seq<char>, pat: Seq<char>, i: int) -> bool {
    0 <= i && i + pat.len() <= s.len() && s.subrange(i, i + pat.len()) == pat
}

/// Does `pat` occur anywhere in `s`?
pub open spec fn contains_text(s: Seq<char>, pat: Seq<char>) -> bool {
    exists|i: int| occurs_at(s, pat, i)
}

/// `s` with every occurrence of `pat` removed, scanning from the left and
/// skipping over each occurrence found (as `str::replace(pat, "")` does).
pub open spec fn remove_all(s: Seq<char>, pat: Seq<char>) -> Seq<char>
    decreases s.len(),
{
    if pat.len() == 0 || s.len() < pat.len() {
        s
    } else if s.take(pat.len() as int) == pat {
        remove_all(s.skip(pat.len() as int), pat)
    } else {
        seq![s[0]] + remove_all(s.skip(1), pat)
    }
}

/// The text of `s` before its first `'@'`, or all of `s` when it has none.
pub open spec fn before_first_at(s: Seq<char>) -> Seq<char> {
    match first_index_from(s, '@', 0) {
        Some(i) => s.take(i),
        None => s,
    }
}

/// Does `pat` occur in `s` at index `i`?
pub fn occurs_at_exec(s: &str, pat: &str, i: usize) -> (r: bool)
    requires
        i <= s@.len(),
    ensures
        r == occurs_at(s@, pat@, i as int),
{
    let n = s.unicode_len();
    let m = pat.unicode_len();
    if m > n - i {
        return false;
    }
    let mut k: usize = 0;
    while k < m
        invariant
            n == s@.len(),
            m == pat@.len(),
            i + m <= n,
            0 <= k <= m,
            forall|j: int| 0 <= j < k ==> s@[i + j] == pat@[j],
        decreases m - k,
    {
        if s.get_char(i + k) != pat.get_char(k) {
            assert(s@.subrange(i as int, i + m)[k as int] != pat@[k as int]);
            return false;
        }
        k = k + 1;
    }
    assert(s@.subrange(i as int, i + m) =~= pat@);
    true
}

/// Does `pat` occur anywhere in `s`?
pub fn contains_str(s: &str, pat: &str) -> (r: bool)
    ensures
        r == contains_text(s@, pat@),
{
    let n = s.unicode_len();
    let mut i: usize = 0;
    while i <= n
        invariant
            n == s@.len(),
            0 <= i <= n + 1,
            forall|j: int| 0 <= j < i ==> !occurs_at(s@, pat@, j),
        decreases n + 1 - i,
    {
        if occurs_at_exec(s, pat, i) {
            return true;
        }
        if i == n {
            assert forall|j: int| !occurs_at(s@, pat@, j) by {
                if occurs_at(s@, pat@, j) {
                    assert(j <= n);
                }
            }
            return false;
        }
        i = i + 1;
    }
    false
}

proof fn lemma_remove_all_step(s: Seq<char>, pat: Seq<char>, i: int)
    requires
        pat.len() > 0,
        0 <= i < s.len(),
    ensures
        occurs_at(s, pat, i) ==> remove_all(s.skip(i), pat) == remove_all(s.skip(i + pat.len()), pat),
        !occurs_at(s, pat, i) ==> remove_all(s.skip(i), pat) == seq![s[i]] + remove_all(
            s.skip(i + 1),
            pat,
        ),
{
    let t = s.skip(i);
    assert(t.skip(1) =~= s.skip(i + 1));
    if t.len() >= pat.len() {
        assert(t.take(pat.len() as int) =~= s.subrange(i, i + pat.len()));
        assert(t.skip(pat.len() as int) =~= s.skip(i + pat.len()));
    } else {
        assert(!occurs_at(s, pat, i));
        assert(remove_all(s.skip(i + 1), pat) == s.skip(i + 1));
        assert(t =~= seq![s[i]] + s.skip(i + 1));
    }
}

/// `s` with every occurrence of the non-empty `pat` removed (as `s.replace(pat, "")`).
pub fn remove_all_str(s: &str, pat: &str) -> (r: String)
    requires
        pat@.len() > 0,
    ensures
        r@ == remove_all(s@, pat@),
{
    let n = s.unicode_len();
    let m = pat.unicode_len();
    let mut out = String::new();
    let mut i: usize = 0;
    assert(s@.skip(0) =~= s@);
    while i < n
        invariant
            n == s@.len(),
            m == pat@.len(),
            m > 0,
            i <= n,
            out@ + remove_all(s@.skip(i as int), pat@) == remove_all(s@, pat@),
        decreases n - i,
    {
        proof { lemma_remove_all_step(s@, pat@, i as int); }
        if occurs_at_exec(s, pat, i) {
            i = i + m;
        } else {
            let c = s.substring_char(i, i + 1);
            assert(c@ =~= seq![s@[i as int]]);
            let ghost before = out@;
            out.append(c);
            assert(out@ + remove_all(s@.skip(i + 1), pat@) =~= before + (seq![s@[i as int]]
                + remove_all(s@.skip(i + 1), pat@)));
            i = i + 1;
        }
    }
    assert(s@.skip(i as int) =~= Seq::<char>::empty());
    assert(out@ + remove_all(s@.skip(i as int), pat@) =~= out@);
    out
}

/// Removing `pat` from `pat + t` removes the leading `pat` and goes on in `t`.
pub proof fn lemma_remove_all_leading(pat: Seq<char>, t: Seq<char>)
    requires
        pat.len() > 0,
    ensures
        remove_all(pat + t, pat) == remove_all(t, pat),
{
    let s = pat + t;
    assert(s.take(pat.len() as int) =~= pat);
    assert(s.skip(pat.len() as int) =~= t);
}

/// When no occurrence of `pat` starts inside `u`, removing `pat` from `u + r`
/// leaves `u` and removes from `r`.
pub proof fn lemma_remove_all_keeps_head(u: Seq<char>, r: Seq<char>, pat: Seq<char>)
    requires
        pat.len() > 0,
        forall|i: int| 0 <= i < u.len() ==> !occurs_at(u + r, pat, i),
    ensures
        remove_all(u + r, pat) == u + remove_all(r, pat),
    decreases u.len(),
{
    let s = u + r;
    if u.len() == 0 {
        assert(s =~= r);
        assert(u + remove_all(r, pat) =~= remove_all(r, pat));
    } else if s.len() < pat.len() {
        assert(remove_all(r, pat) == r);
    } else {
        assert(!occurs_at(s, pat, 0));
        assert(s.subrange(0, pat.len() as int) =~= s.take(pat.len() as int));
        let u1 = u.skip(1);
        assert(s.skip(1) =~= u1 + r);
        assert forall|i: int| 0 <= i < u1.len() implies !occurs_at(u1 + r, pat, i) by {
            assert(!occurs_at(s, pat, i + 1));
            if i + pat.len() <= (u1 + r).len() {
                assert((u1 + r).subrange(i, i + pat.len()) =~= s.subrange(i + 1, i + 1 + pat.len()));
            }
        }
        lemma_remove_all_keeps_head(u1, r, pat);
        assert(seq![s[0]] + (u1 + remove_all(r, pat)) =~= u + remove_all(r, pat));
    }
}

/// The text before the first `'@'` of `u + "@" + x` is `u` when `u` has no `'@'`.
pub proof fn lemma_before_first_at_of_joined(u: Seq<char>, x: Seq<char>)
    requires
        !u.contains('@'),
    ensures
        before_first_at(u + seq!['@'] + x) == u,
{
    let s = u + seq!['@'] + x;
    let n = u.len() as int;
    assert(s[n] == '@');
    lemma_first_index_from_facts(s, '@', 0);
    match first_index_from(s, '@', 0) {
        Some(i) => {
            if i < n {
                assert(s[i] == u[i]);
                assert(u.contains('@'));
            }
            assert(i == n);
            assert(s.take(n) =~= u);
        },
        None => {
            assert(false);
        },
    }
}

/// The search from `from` returns the first position at or after `from` that holds `c`.
pub proof fn lemma_first_index_from_facts(s: Seq<char>, c: char, from: int)
    requires
        0 <= from,
    ensures
        first_index_from(s, c, from) matches Some(i) ==> from <= i < s.len() && s[i] == c
            && forall|k: int| from <= k < i ==> s[k] != c,
        first_index_from(s, c, from) is None ==> forall|k: int| from <= k < s.len() ==> s[k] != c,
    decreases s.len() - from,
{
    if from < s.len() {
        lemma_first_index_from_facts(s, c, from + 1);
    }
}

/// The text of `s` before its first `'@'`, or a copy of `s` when it has none.
pub fn text_before_first_at(s: &str) -> (r: String)
    ensures
        r@ == before_first_at(s@),
{
    match find_char(s, '@', 0) {
        Some(i) => {
            let r = String::from_str(s.substring_char(0, i));
            assert(r@ =~= s@.take(i as int));
            r
        },
        None => String::from_str(s),
    }
}

} // verus!
