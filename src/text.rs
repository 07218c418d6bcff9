//! Plain substring search and character replacement over `&str`, each
//! specified over the string's sequence of characters.

use vstd::prelude::*;

verus! {

/// `pat` stands in `s` at index `i`.
pub open spec fn occurs_at(s: Seq<char>, pat: Seq<char>, i: int) -> bool {
    0 <= i && i + pat.len() <= s.len() && s.subrange(i, i + pat.len()) == pat
}

/// The first index at or after `from` where `pat` stands in `s`.
pub open spec fn find_from(s: Seq<char>, pat: Seq<char>, from: int) -> Option<int>
    decreases s.len() + 1 - from,
{
    if from < 0 || from + pat.len() > s.len() {
        None
    } else if occurs_at(s, pat, from) {
        Some(from)
    } else {
        find_from(s, pat, from + 1)
    }
}

/// The first index where `pat` stands in `s`.
pub open spec fn find_first(s: Seq<char>, pat: Seq<char>) -> Option<int> {
    find_from(s, pat, 0)
}

/// `pat` stands somewhere in `s`.
pub open spec fn has(s: Seq<char>, pat: Seq<char>) -> bool {
    find_first(s, pat) is Some
}

/// The last index of `c` in `s`.
pub open spec fn find_last(s: Seq<char>, c: char) -> Option<int>
    decreases s.len(),
{
    if s.len() == 0 {
        None
    } else if s.last() == c {
        Some(s.len() - 1)
    } else {
        find_last(s.drop_last(), c)
    }
}

/// `s` begins with `pat`.
pub open spec fn begins_with(s: Seq<char>, pat: Seq<char>) -> bool {
    pat.len() <= s.len() && s.subrange(0, pat.len() as int) == pat
}

/// `s` with every `from` turned into `to`.
pub open spec fn replace_all(s: Seq<char>, from: char, to: char) -> Seq<char> {
    s.map_values(|c: char| if c == from { to } else { c })
}

/// A found index lies inside the string, with the pattern standing there.
pub proof fn lemma_find_from_bounds(s: Seq<char>, pat: Seq<char>, from: int)
    ensures
        find_from(s, pat, from) matches Some(i) ==> from <= i && occurs_at(s, pat, i),
    decreases s.len() + 1 - from,
{
    if !(from < 0 || from + pat.len() > s.len()) && !occurs_at(s, pat, from) {
        lemma_find_from_bounds(s, pat, from + 1);
    }
}

/// A found index of `c` is an index of `s` that holds `c`.
pub proof fn lemma_find_last_bounds(s: Seq<char>, c: char)
    ensures
        find_last(s, c) matches Some(i) ==> 0 <= i < s.len() && s[i] == c,
    decreases s.len(),
{
    if s.len() > 0 && s.last() != c {
        lemma_find_last_bounds(s.drop_last(), c);
    }
}

/// A character that `s` lacks has no last index there.
pub proof fn lemma_find_last_absent(s: Seq<char>, c: char)
    requires
        !s.contains(c),
    ensures
        find_last(s, c) is None,
    decreases s.len(),
{
    if s.len() > 0 {
        assert(s[s.len() - 1] == s.last());
        assert forall|i: int| 0 <= i < s.drop_last().len() implies s.drop_last()[i] != c by {
            assert(s[i] == s.drop_last()[i]);
        }
        lemma_find_last_absent(s.drop_last(), c);
    }
}

/// Characters other than `c` added at the end do not move the last `c`.
pub proof fn lemma_find_last_append(s: Seq<char>, t: Seq<char>, c: char)
    requires
        !t.contains(c),
    ensures
        find_last(s + t, c) == find_last(s, c),
    decreases t.len(),
{
    if t.len() > 0 {
        assert((s + t).drop_last() =~= s + t.drop_last());
        assert((s + t).last() == t[t.len() - 1]);
        assert forall|i: int| 0 <= i < t.drop_last().len() implies t.drop_last()[i] != c by {
            assert(t[i] == t.drop_last()[i]);
        }
        lemma_find_last_append(s, t.drop_last(), c);
    } else {
        assert(s + t =~= s);
    }
}

/// A character that `s` lacks is found nowhere in it.
pub proof fn lemma_find_from_absent(s: Seq<char>, c: char, from: int)
    requires
        !s.contains(c),
    ensures
        find_from(s, seq![c], from) is None,
    decreases s.len() + 1 - from,
{
    if !(from < 0 || from + 1 > s.len()) {
        if occurs_at(s, seq![c], from) {
            assert(s.subrange(from, from + 1)[0] == s[from]);
        }
        lemma_find_from_absent(s, c, from + 1);
    }
}

/// Whether `pat` stands in `s` at index `i`.
fn matches_at(s: &str, pat: &str, i: usize, n: usize) -> (r: bool)
    requires
        n == pat@.len(),
        i + n <= s@.len() <= usize::MAX,
    ensures
        r == occurs_at(s@, pat@, i as int),
{
    let mut k: usize = 0;
    while k < n
        invariant
            k <= n,
            n == pat@.len(),
            i + n <= s@.len() <= usize::MAX,
            forall|j: int| 0 <= j < k ==> s@[i + j] == pat@[j],
        decreases n - k,
    {
        if s.get_char(i + k) != pat.get_char(k) {
            assert(s@.subrange(i as int, i + n)[k as int] != pat@[k as int]);
            return false;
        }
        k += 1;
    }
    assert(s@.subrange(i as int, i + n) =~= pat@);
    true
}

/// The first index at or after `from` where `pat` stands in `s`.
pub fn find(s: &str, pat: &str, from: usize) -> (r: Option<usize>)
    ensures
        r matches Some(i) ==> find_from(s@, pat@, from as int) == Some(i as int),
        r is None ==> find_from(s@, pat@, from as int) is None,
{
    let len = s.unicode_len();
    let n = pat.unicode_len();
    if n > len {
        return None;
    }
    if from > len - n {
        return None;
    }
    let mut i: usize = from;
    loop
        invariant
            len == s@.len(),
            n == pat@.len(),
            n <= len,
            from <= i <= len - n,
            find_from(s@, pat@, from as int) == find_from(s@, pat@, i as int),
        decreases len - n - i,
    {
        if matches_at(s, pat, i, n) {
            return Some(i);
        }
        if i == len - n {
            assert(find_from(s@, pat@, i + 1) is None);
            return None;
        }
        i += 1;
    }
}

/// Whether `pat` stands anywhere in `s`.
pub fn contains(s: &str, pat: &str) -> (r: bool)
    ensures
        r == has(s@, pat@),
{
    find(s, pat, 0).is_some()
}

/// Whether `s` begins with `pat`.
pub fn starts_with(s: &str, pat: &str) -> (r: bool)
    ensures
        r == begins_with(s@, pat@),
{
    let n = pat.unicode_len();
    if n > s.unicode_len() {
        return false;
    }
    matches_at(s, pat, 0, n)
}

/// The last index of `c` in `s`.
pub fn rfind_char(s: &str, c: char) -> (r: Option<usize>)
    ensures
        r matches Some(i) ==> find_last(s@, c) == Some(i as int),
        r is None ==> find_last(s@, c) is None,
{
    let mut i: usize = s.unicode_len();
    assert(s@.subrange(0, i as int) =~= s@);
    while i > 0
        invariant
            i <= s@.len(),
            find_last(s@, c) == find_last(s@.subrange(0, i as int), c),
        decreases i,
    {
        let prefix = Ghost(s@.subrange(0, i as int));
        assert(prefix@.drop_last() =~= s@.subrange(0, i - 1));
        if s.get_char(i - 1) == c {
            return Some(i - 1);
        }
        i -= 1;
    }
    None
}

/// `s` with every `from` turned into the single character of `to`.
pub fn replace_char(s: &str, from: char, to: &str) -> (r: String)
    requires
        to@.len() == 1,
    ensures
        r@ == replace_all(s@, from, to@[0]),
{
    let n = s.unicode_len();
    let mut out = String::new();
    let mut i: usize = 0;
    while i < n
        invariant
            n == s@.len(),
            i <= n,
            to@.len() == 1,
            out@ == replace_all(s@.subrange(0, i as int), from, to@[0]),
        decreases n - i,
    {
        let piece = if s.get_char(i) == from {
            to
        } else {
            s.substring_char(i, i + 1)
        };
        out.append(piece);
        assert(s@.subrange(0, i + 1) =~= s@.subrange(0, i as int).push(s@[i as int]));
        assert(replace_all(s@.subrange(0, i + 1), from, to@[0]) =~= replace_all(
            s@.subrange(0, i as int),
            from,
            to@[0],
        ) + piece@);
        i += 1;
    }
    assert(s@.subrange(0, n as int) =~= s@);
    out
}

} // verus!
