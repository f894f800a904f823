//! Character-level helpers shared by the parsers of this crate: conversion
//! between strings and character vectors, searching, splitting and trimming,
//! each with a specification over `Seq<char>`.

use vstd::prelude::*;

verus! {

broadcast use vstd::string::group_string_axioms;

/// `String::push` appends one character.
pub assume_specification[ String::push ](s: &mut String, ch: char)
    ensures
        final(s)@ == old(s)@.push(ch),
;

/// `String::push_str` appends the characters of a string slice.
pub assume_specification[ String::push_str ](s: &mut String, other: &str)
    ensures
        final(s)@ == old(s)@ + other@,
;

// ---------------------------------------------------------------------------
// Specifications
// ---------------------------------------------------------------------------

/// Unicode `White_Space` property, the set that `char::is_whitespace` tests.
pub open spec fn is_white_space(c: char) -> bool {
    ||| '\u{9}' <= c <= '\u{d}'
    ||| c == ' '
    ||| c == '\u{85}'
    ||| c == '\u{a0}'
    ||| c == '\u{1680}'
    ||| '\u{2000}' <= c <= '\u{200a}'
    ||| c == '\u{2028}'
    ||| c == '\u{2029}'
    ||| c == '\u{202f}'
    ||| c == '\u{205f}'
    ||| c == '\u{3000}'
}

/// Some character of `s` is white space.
pub open spec fn has_white_space(s: Seq<char>) -> bool {
    exists|i: int| 0 <= i < s.len() && is_white_space(#[trigger] s[i])
}

/// `pat` occurs in `s` starting at index `i`.
pub open spec fn occurs_at(s: Seq<char>, pat: Seq<char>, i: int) -> bool {
    0 <= i && i + pat.len() <= s.len() && s.subrange(i, i + pat.len()) == pat
}

/// The first index at or after `k` where `pat` occurs in `s`.
pub open spec fn first_match_from(s: Seq<char>, pat: Seq<char>, k: int) -> Option<int>
    decreases s.len() + 1 - k,
{
    if k < 0 || k + pat.len() > s.len() {
        None
    } else if occurs_at(s, pat, k) {
        Some(k)
    } else {
        first_match_from(s, pat, k + 1)
    }
}

/// The first index where `pat` occurs in `s` (what `str::find` returns).
pub open spec fn first_match(s: Seq<char>, pat: Seq<char>) -> Option<int> {
    first_match_from(s, pat, 0)
}

/// The last index below `k` that holds `c`.
pub open spec fn last_pos_below(s: Seq<char>, c: char, k: int) -> Option<int>
    decreases k,
{
    if k <= 0 {
        None
    } else if s[k - 1] == c {
        Some(k - 1)
    } else {
        last_pos_below(s, c, k - 1)
    }
}

/// The last index of `s` that holds `c` (what `str::rfind` returns).
pub open spec fn last_pos(s: Seq<char>, c: char) -> Option<int> {
    last_pos_below(s, c, s.len() as int)
}

/// `str::split_once` with a string pattern: the parts before and after the
/// first occurrence of `pat`.
pub open spec fn split_once(s: Seq<char>, pat: Seq<char>) -> Option<(Seq<char>, Seq<char>)> {
    match first_match(s, pat) {
        Some(i) => Some((s.take(i), s.skip(i + pat.len()))),
        None => None,
    }
}

/// `str::rsplit_once` with a character pattern: the parts before and after
/// the last occurrence of `c`.
pub open spec fn rsplit_once(s: Seq<char>, c: char) -> Option<(Seq<char>, Seq<char>)> {
    match last_pos(s, c) {
        Some(i) => Some((s.take(i), s.skip(i + 1))),
        None => None,
    }
}

/// `str::split` with a character pattern: the pieces between occurrences of
/// `c`, in order; an input without `c` is one piece.
pub open spec fn split_on(s: Seq<char>, c: char) -> Seq<Seq<char>>
    decreases s.len(),
{
    match first_match(s, seq![c]) {
        Some(i) => if 0 <= i < s.len() {
            seq![s.take(i)] + split_on(s.skip(i + 1), c)
        } else {
            seq![s]
        },
        None => seq![s],
    }
}

/// Number of leading white-space characters of `s`.
pub open spec fn leading_white(s: Seq<char>) -> nat
    decreases s.len(),
{
    if s.len() > 0 && is_white_space(s[0]) {
        1 + leading_white(s.drop_first())
    } else {
        0
    }
}

/// Number of trailing white-space characters of `s`.
pub open spec fn trailing_white(s: Seq<char>) -> nat
    decreases s.len(),
{
    if s.len() > 0 && is_white_space(s.last()) {
        1 + trailing_white(s.drop_last())
    } else {
        0
    }
}

/// `str::trim`: `s` without its leading and trailing white space.
pub open spec fn trim(s: Seq<char>) -> Seq<char> {
    let t = s.skip(leading_white(s) as int);
    t.take(t.len() - trailing_white(t))
}

/// Words joined by one separator character (`[String]::join`).
pub open spec fn join_sep(words: Seq<Seq<char>>, sep: char) -> Seq<char>
    decreases words.len(),
{
    if words.len() == 0 {
        seq![]
    } else if words.len() == 1 {
        words[0]
    } else {
        join_sep(words.drop_last(), sep) + seq![sep] + words.last()
    }
}

// ---------------------------------------------------------------------------
// Lemmas
// ---------------------------------------------------------------------------

/// `first_match_from` finds an occurrence, and there is none between `k` and it.
pub proof fn lemma_first_match_from(s: Seq<char>, pat: Seq<char>, k: int)
    requires
        0 <= k,
    ensures
        match first_match_from(s, pat, k) {
            Some(i) => k <= i && occurs_at(s, pat, i) && forall|j: int|
                k <= j < i ==> !occurs_at(s, pat, j),
            None => forall|j: int| k <= j ==> !occurs_at(s, pat, j),
        },
    decreases s.len() + 1 - k,
{
    if k + pat.len() > s.len() {
    } else if occurs_at(s, pat, k) {
    } else {
        lemma_first_match_from(s, pat, k + 1);
    }
}

/// The first occurrence of `pat` is at `k` when it occurs there and at no
/// earlier index.
pub proof fn lemma_first_match_at(s: Seq<char>, pat: Seq<char>, k: int)
    requires
        occurs_at(s, pat, k),
        forall|j: int| 0 <= j < k ==> !occurs_at(s, pat, j),
    ensures
        first_match(s, pat) == Some(k),
{
    lemma_first_match_from(s, pat, 0);
}

/// `last_pos_below` finds `c`, and there is none between it and `k`.
pub proof fn lemma_last_pos_below(s: Seq<char>, c: char, k: int)
    requires
        k <= s.len(),
    ensures
        match last_pos_below(s, c, k) {
            Some(i) => 0 <= i < k && s[i] == c && forall|j: int| i < j < k ==> s[j] != c,
            None => forall|j: int| 0 <= j < k ==> s[j] != c,
        },
    decreases k,
{
    if k > 0 && s[k - 1] != c {
        lemma_last_pos_below(s, c, k - 1);
    }
}

/// A one-character pattern occurs exactly where that character stands.
pub proof fn lemma_occurs_char(t: Seq<char>, c: char, j: int)
    requires
        0 <= j < t.len(),
    ensures
        occurs_at(t, seq![c], j) == (t[j] == c),
{
    if t[j] == c {
        assert(t.subrange(j, j + 1) =~= seq![c]);
    } else {
        assert(t.subrange(j, j + 1)[0] == t[j]);
    }
}

/// The first occurrence of `c` in `t` is at `k` when `t[k] == c` and no
/// earlier character is `c`.
pub proof fn lemma_first_char(t: Seq<char>, c: char, k: int)
    requires
        0 <= k < t.len(),
        t[k] == c,
        forall|j: int| 0 <= j < k ==> t[j] != c,
    ensures
        first_match(t, seq![c]) == Some(k),
{
    lemma_first_match_from(t, seq![c], 0);
    lemma_occurs_char(t, c, k);
    match first_match(t, seq![c]) {
        Some(i) => {
            if i < k {
                lemma_occurs_char(t, c, i);
            }
        },
        None => {},
    }
}

/// A sequence without `c` has no occurrence of it.
pub proof fn lemma_no_char(t: Seq<char>, c: char)
    requires
        !t.contains(c),
    ensures
        first_match(t, seq![c]) is None,
{
    lemma_first_match_from(t, seq![c], 0);
    match first_match(t, seq![c]) {
        Some(i) => {
            lemma_occurs_char(t, c, i);
            assert(t[i] == c);
        },
        None => {},
    }
}

/// `leading_white` counts the white space before the first other character.
pub proof fn lemma_leading_white(s: Seq<char>, a: int)
    requires
        0 <= a <= s.len(),
        forall|j: int| 0 <= j < a ==> is_white_space(#[trigger] s[j]),
        a == s.len() || !is_white_space(s[a]),
    ensures
        leading_white(s) == a,
    decreases a,
{
    if a > 0 {
        assert(is_white_space(s[0]));
        let t = s.drop_first();
        assert forall|j: int| 0 <= j < a - 1 implies is_white_space(#[trigger] t[j]) by {
            assert(t[j] == s[j + 1]);
        }
        lemma_leading_white(t, a - 1);
    }
}

/// `trailing_white` counts the white space after the last other character.
pub proof fn lemma_trailing_white(s: Seq<char>, b: int)
    requires
        0 <= b <= s.len(),
        forall|j: int| b <= j < s.len() ==> is_white_space(#[trigger] s[j]),
        b == 0 || !is_white_space(s[b - 1]),
    ensures
        trailing_white(s) == s.len() - b,
    decreases s.len() - b,
{
    if b < s.len() {
        assert(is_white_space(s[s.len() - 1]));
        let t = s.drop_last();
        assert forall|j: int| b <= j < t.len() implies is_white_space(#[trigger] t[j]) by {
            assert(t[j] == s[j]);
        }
        lemma_trailing_white(t, b);
    }
}

/// Joining keeps the last word at the end, so the result is at least as
/// long as that word.
pub proof fn lemma_join_ends_with_last(words: Seq<Seq<char>>, sep: char)
    requires
        words.len() > 0,
    ensures
        join_sep(words, sep).len() >= words.last().len(),
{
}

/// A joined text holds no character that neither the words nor the
/// separator hold.
pub proof fn lemma_join_lacks(words: Seq<Seq<char>>, sep: char, x: char)
    requires
        x != sep,
        forall|i: int| 0 <= i < words.len() ==> !(#[trigger] words[i]).contains(x),
    ensures
        !join_sep(words, sep).contains(x),
    decreases words.len(),
{
    if words.len() >= 2 {
        let front = words.drop_last();
        assert forall|i: int| 0 <= i < front.len() implies !(#[trigger] front[i]).contains(x) by {
            assert(front[i] == words[i]);
        }
        lemma_join_lacks(front, sep, x);
        let joined = join_sep(words, sep);
        let head = join_sep(front, sep);
        assert(joined == head + seq![sep] + words.last());
        assert(!words.last().contains(x));
        if joined.contains(x) {
            let k = choose|k: int| 0 <= k < joined.len() && joined[k] == x;
            if k < head.len() {
                assert(head[k] == x);
            } else if k == head.len() {
            } else {
                assert(words.last()[k - head.len() - 1] == x);
            }
        }
    } else if words.len() == 1 {
    }
}

/// Joining from the front: the first word, the separator, then the rest
/// joined.
pub proof fn lemma_join_front(words: Seq<Seq<char>>, sep: char)
    requires
        words.len() >= 2,
    ensures
        join_sep(words, sep) == words[0] + seq![sep] + join_sep(words.drop_first(), sep),
    decreases words.len(),
{
    if words.len() == 2 {
        assert(words.drop_last() =~= seq![words[0]]);
        assert(words.drop_first() =~= seq![words[1]]);
        assert(join_sep(words.drop_last(), sep) == words[0]);
        assert(join_sep(words.drop_first(), sep) == words[1]);
        assert(join_sep(words, sep) =~= words[0] + seq![sep] + words[1]);
    } else {
        let front = words.drop_last();
        lemma_join_front(front, sep);
        let rest = words.drop_first();
        assert(front.drop_first() =~= rest.drop_last());
        assert(rest.last() == words.last());
        assert(front[0] == words[0]);
        assert(join_sep(words, sep) =~= words[0] + seq![sep] + join_sep(rest, sep));
    }
}

/// Splitting a joined text at its separator gives the words back, when no
/// word holds the separator.
pub proof fn lemma_split_join(words: Seq<Seq<char>>, sep: char)
    requires
        words.len() > 0,
        forall|i: int| 0 <= i < words.len() ==> !(#[trigger] words[i]).contains(sep),
    ensures
        split_on(join_sep(words, sep), sep) == words,
    decreases words.len(),
{
    if words.len() == 1 {
        assert(!words[0].contains(sep));
        lemma_no_char(words[0], sep);
        assert(split_on(words[0], sep) == seq![words[0]]);
        assert(seq![words[0]] =~= words);
    } else {
        let rest = words.drop_first();
        lemma_join_front(words, sep);
        assert forall|i: int| 0 <= i < rest.len() implies !(#[trigger] rest[i]).contains(sep) by {
            assert(rest[i] == words[i + 1]);
        }
        lemma_split_join(rest, sep);
        let first = words[0];
        assert(!first.contains(sep));
        let t = join_sep(words, sep);
        let tail = join_sep(rest, sep);
        assert(t == first + seq![sep] + tail);
        assert forall|j: int| 0 <= j < first.len() implies t[j] != sep by {
            assert(t[j] == first[j]);
        }
        lemma_first_char(t, sep, first.len() as int);
        assert(t.take(first.len() as int) =~= first);
        assert(t.skip(first.len() as int + 1) =~= tail);
        assert(split_on(t, sep) == seq![first] + split_on(tail, sep));
        assert(seq![first] + rest =~= words);
    }
}

// ---------------------------------------------------------------------------
// Converting every item, stopping at the first error
// ---------------------------------------------------------------------------

/// Converts every item with `f`, in order; the first error, if any, is the
/// result (what collecting an iterator of `Result`s into a `Result` does).
pub open spec fn collect_all<A, B, E>(items: Seq<A>, f: spec_fn(A) -> Result<B, E>) -> Result<Seq<B>, E>
    decreases items.len(),
{
    if items.len() == 0 {
        Ok(seq![])
    } else {
        match collect_all(items.drop_last(), f) {
            Err(e) => Err(e),
            Ok(done) => match f(items.last()) {
                Ok(b) => Ok(done.push(b)),
                Err(e) => Err(e),
            },
        }
    }
}

/// An error among the first `k` items is the error of all of them.
pub proof fn lemma_collect_prefix_err<A, B, E>(items: Seq<A>, f: spec_fn(A) -> Result<B, E>, k: int)
    requires
        0 <= k <= items.len(),
        collect_all(items.take(k), f) is Err,
    ensures
        collect_all(items, f) == collect_all(items.take(k), f),
    decreases items.len() - k,
{
    if k < items.len() {
        let next = items.take(k + 1);
        assert(next.drop_last() =~= items.take(k));
        lemma_collect_prefix_err(items, f, k + 1);
    } else {
        assert(items.take(k) =~= items);
    }
}

/// Converting one more item.
pub proof fn lemma_collect_step<A, B, E>(items: Seq<A>, f: spec_fn(A) -> Result<B, E>, k: int)
    requires
        0 <= k < items.len(),
    ensures
        collect_all(items.take(k + 1), f) == match collect_all(items.take(k), f) {
            Err(e) => Err(e),
            Ok(done) => match f(items[k]) {
                Ok(b) => Ok(done.push(b)),
                Err(e) => Err(e),
            },
        },
{
    assert(items.take(k + 1).drop_last() =~= items.take(k));
}

/// Converting items that all convert gives every result, in order.
pub proof fn lemma_collect_all_ok<A, B, E>(items: Seq<A>, f: spec_fn(A) -> Result<B, E>, outs: Seq<B>)
    requires
        items.len() == outs.len(),
        forall|i: int| 0 <= i < items.len() ==> f(#[trigger] items[i]) == Ok::<B, E>(outs[i]),
    ensures
        collect_all(items, f) == Ok::<Seq<B>, E>(outs),
    decreases items.len(),
{
    if items.len() > 0 {
        let front = items.drop_last();
        assert forall|i: int| 0 <= i < front.len() implies f(#[trigger] front[i]) == Ok::<B, E>(
            outs.drop_last()[i],
        ) by {
            assert(front[i] == items[i]);
        }
        lemma_collect_all_ok(front, f, outs.drop_last());
        assert(f(items[items.len() - 1]) == Ok::<B, E>(outs[items.len() - 1]));
        assert(outs.drop_last().push(outs.last()) =~= outs);
    } else {
        assert(outs =~= seq![]);
    }
}

/// Converting items that all convert gives, for each item in order, what it
/// converts to.
pub proof fn lemma_collect_all_converts<A, B, E>(items: Seq<A>, f: spec_fn(A) -> Result<B, E>)
    requires
        forall|i: int| 0 <= i < items.len() ==> f(#[trigger] items[i]) is Ok,
    ensures
        collect_all(items, f) is Ok,
        collect_all(items, f)->Ok_0.len() == items.len(),
        forall|i: int|
            0 <= i < items.len() ==> collect_all(items, f)->Ok_0[i] == f(#[trigger] items[i])->Ok_0,
    decreases items.len(),
{
    if items.len() > 0 {
        let front = items.drop_last();
        assert forall|i: int| 0 <= i < front.len() implies f(#[trigger] front[i]) is Ok by {
            assert(front[i] == items[i]);
        }
        lemma_collect_all_converts(front, f);
        assert(f(items[items.len() - 1]) is Ok);
        assert forall|i: int| 0 <= i < items.len() implies collect_all(items, f)->Ok_0[i] == f(
            #[trigger] items[i],
        )->Ok_0 by {
            if i < items.len() - 1 {
                assert(front[i] == items[i]);
            }
        }
    }
}

// ---------------------------------------------------------------------------
// Executable helpers
// ---------------------------------------------------------------------------

/// The characters of `s`, in order.
pub fn chars_of(s: &str) -> (v: Vec<char>)
    ensures
        v@ == s@,
{
    let mut v: Vec<char> = Vec::new();
    for c in it: s.chars()
        invariant
            it.seq() == s@,
            v@ == it.seq().take(it.index() as int),
    {
        v.push(c);
    }
    v
}

/// A `String` holding exactly the given characters.
pub fn string_of(v: &[char]) -> (s: String)
    ensures
        s@ == v@,
{
    let mut s = String::new();
    let mut i: usize = 0;
    while i < v.len()
        invariant
            i <= v@.len(),
            s@ == v@.take(i as int),
        decreases v@.len() - i,
    {
        s.push(v[i]);
        i = i + 1;
        assert(s@ =~= v@.take(i as int));
    }
    assert(v@.take(v@.len() as int) =~= v@);
    s
}

/// An owned copy of a string slice.
pub fn owned(s: &str) -> (r: String)
    ensures
        r@ == s@,
{
    s.to_owned()
}

/// The concatenation of two string slices.
pub fn concat(a: &str, b: &str) -> (r: String)
    ensures
        r@ == a@ + b@,
{
    let mut r = a.to_owned();
    r.push_str(b);
    r
}

/// Equality of two character sequences.
pub fn chars_eq(a: &[char], b: &[char]) -> (r: bool)
    ensures
        r == (a@ == b@),
{
    if a.len() != b.len() {
        return false;
    }
    let mut i: usize = 0;
    while i < a.len()
        invariant
            a@.len() == b@.len(),
            i <= a@.len(),
            forall|j: int| 0 <= j < i ==> a@[j] == b@[j],
        decreases a@.len() - i,
    {
        if a[i] != b[i] {
            return false;
        }
        i = i + 1;
    }
    assert(a@ =~= b@);
    true
}

/// Equality of two string slices.
pub fn str_eq(a: &str, b: &str) -> (r: bool)
    ensures
        r == (a@ == b@),
{
    let x = chars_of(a);
    let y = chars_of(b);
    chars_eq(x.as_slice(), y.as_slice())
}

/// Whether `c` is white space (`char::is_whitespace`).
pub fn is_white_space_char(c: char) -> (r: bool)
    ensures
        r == is_white_space(c),
{
    ('\u{9}' <= c && c <= '\u{d}') || c == ' ' || c == '\u{85}' || c == '\u{a0}' || c
        == '\u{1680}' || ('\u{2000}' <= c && c <= '\u{200a}') || c == '\u{2028}' || c
        == '\u{2029}' || c == '\u{202f}' || c == '\u{205f}' || c == '\u{3000}'
}

/// Whether some character of `s` is white space.
pub fn has_white_space_chars(s: &[char]) -> (r: bool)
    ensures
        r == has_white_space(s@),
{
    let mut i: usize = 0;
    while i < s.len()
        invariant
            i <= s@.len(),
            forall|j: int| 0 <= j < i ==> !is_white_space(#[trigger] s@[j]),
        decreases s@.len() - i,
    {
        if is_white_space_char(s[i]) {
            return true;
        }
        i = i + 1;
    }
    false
}

/// Whether `s` holds `c`.
pub fn contains_char(s: &[char], c: char) -> (r: bool)
    ensures
        r == s@.contains(c),
{
    let mut i: usize = 0;
    while i < s.len()
        invariant
            i <= s@.len(),
            forall|j: int| 0 <= j < i ==> s@[j] != c,
        decreases s@.len() - i,
    {
        if s[i] == c {
            return true;
        }
        i = i + 1;
    }
    false
}

/// The characters of `s` from `a` up to `b`.
pub fn sub_chars(s: &[char], a: usize, b: usize) -> (r: Vec<char>)
    requires
        a <= b <= s@.len(),
    ensures
        r@ == s@.subrange(a as int, b as int),
{
    let mut r: Vec<char> = Vec::new();
    let mut i: usize = a;
    while i < b
        invariant
            a <= i <= b <= s@.len(),
            r@ == s@.subrange(a as int, i as int),
        decreases b - i,
    {
        r.push(s[i]);
        i = i + 1;
        assert(r@ =~= s@.subrange(a as int, i as int));
    }
    r
}

/// Whether `pat` occurs in `s` at index `i`.
fn occurs_at_exec(s: &[char], pat: &[char], i: usize) -> (r: bool)
    ensures
        r == occurs_at(s@, pat@, i as int),
{
    if i > s.len() || pat.len() > s.len() - i {
        return false;
    }
    let n: usize = s.len();
    let mut j: usize = 0;
    while j < pat.len()
        invariant
            n == s@.len(),
            i + pat@.len() <= s@.len(),
            j <= pat@.len(),
            forall|m: int| 0 <= m < j ==> s@[i + m] == pat@[m],
        decreases pat@.len() - j,
    {
        assert(i + j < s@.len());
        if s[i + j] != pat[j] {
            assert(s@.subrange(i as int, i + pat@.len())[j as int] != pat@[j as int]);
            return false;
        }
        j = j + 1;
    }
    assert(s@.subrange(i as int, i + pat@.len()) =~= pat@);
    true
}

/// The first index where `pat` occurs in `s` (`str::find`).
pub fn find(s: &[char], pat: &[char]) -> (r: Option<usize>)
    ensures
        r is None <==> first_match(s@, pat@) is None,
        r matches Some(i) ==> first_match(s@, pat@) == Some(i as int) && occurs_at(
            s@,
            pat@,
            i as int,
        ),
{
    proof {
        lemma_first_match_from(s@, pat@, 0);
    }
    if pat.len() > s.len() {
        return None;
    }
    let last: usize = s.len() - pat.len();
    let mut k: usize = 0;
    loop
        invariant
            first_match(s@, pat@) == first_match_from(s@, pat@, k as int),
            k <= last,
            last + pat@.len() == s@.len(),
        decreases last - k,
    {
        if occurs_at_exec(s, pat, k) {
            return Some(k);
        }
        if k == last {
            assert(first_match_from(s@, pat@, k + 1) is None);
            return None;
        }
        k = k + 1;
    }
}

/// The last index of `s` that holds `c` (`str::rfind`).
pub fn rfind_char(s: &[char], c: char) -> (r: Option<usize>)
    ensures
        r is None <==> last_pos(s@, c) is None,
        r matches Some(i) ==> last_pos(s@, c) == Some(i as int) && i < s@.len() && s@[i as int] == c,
{
    let mut k: usize = s.len();
    while k > 0
        invariant
            k <= s@.len(),
            last_pos(s@, c) == last_pos_below(s@, c, k as int),
        decreases k,
    {
        assert(k as int <= s@.len());
        if s[k - 1] == c {
            return Some(k - 1);
        }
        k = k - 1;
    }
    None
}

/// `str::split` with a character pattern.
pub fn split_char(s: &[char], c: char) -> (r: Vec<Vec<char>>)
    ensures
        r.deep_view() == split_on(s@, c),
{
    let n: usize = s.len();
    let mut pieces: Vec<Vec<char>> = Vec::new();
    let mut st: usize = 0;
    let mut i: usize = 0;
    assert(pieces.deep_view() =~= Seq::<Seq<char>>::empty());
    assert(s@.skip(0) =~= s@);
    while i < n
        invariant
            n == s@.len(),
            st <= i <= n,
            split_on(s@, c) == pieces.deep_view() + split_on(s@.skip(st as int), c),
            forall|j: int| st <= j < i ==> s@[j] != c,
        decreases n - i,
    {
        if s[i] == c {
            let piece = sub_chars(s, st, i);
            let ghost t = s@.skip(st as int);
            proof {
                assert forall|j: int| 0 <= j < i - st implies t[j] != c by {
                    assert(t[j] == s@[st + j]);
                }
                lemma_first_char(t, c, i - st);
                assert(t.take(i - st) =~= piece@);
                assert(t.skip(i - st + 1) =~= s@.skip(i + 1));
                assert(split_on(t, c) == seq![piece@] + split_on(s@.skip(i + 1), c));
            }
            let ghost old_pieces = pieces.deep_view();
            assert(piece.deep_view() =~= piece@);
            pieces.push(piece);
            assert(pieces.deep_view() =~= old_pieces.push(piece@));
            assert(split_on(s@, c) =~= pieces.deep_view() + split_on(s@.skip(i + 1), c));
            st = i + 1;
        }
        i = i + 1;
    }
    let last = sub_chars(s, st, n);
    proof {
        let t = s@.skip(st as int);
        assert(!t.contains(c)) by {
            assert forall|j: int| 0 <= j < t.len() implies t[j] != c by {
                assert(t[j] == s@[st + j]);
            }
        }
        lemma_no_char(t, c);
        assert(t =~= last@);
    }
    let ghost old_pieces = pieces.deep_view();
    assert(last.deep_view() =~= last@);
    pieces.push(last);
    assert(pieces.deep_view() =~= old_pieces.push(last@));
    assert(pieces.deep_view() =~= old_pieces + seq![last@]);
    pieces
}

/// `str::trim`: `s` without leading and trailing white space.
pub fn trim_chars(s: &[char]) -> (r: Vec<char>)
    ensures
        r@ == trim(s@),
{
    let n: usize = s.len();
    let mut a: usize = 0;
    while a < n && is_white_space_char(s[a])
        invariant
            n == s@.len(),
            a <= n,
            forall|j: int| 0 <= j < a ==> is_white_space(#[trigger] s@[j]),
        decreases n - a,
    {
        a = a + 1;
    }
    let mut b: usize = n;
    while b > a && is_white_space_char(s[b - 1])
        invariant
            n == s@.len(),
            a <= b <= n,
            forall|j: int| b <= j < n ==> is_white_space(#[trigger] s@[j]),
        decreases b,
    {
        b = b - 1;
    }
    proof {
        lemma_leading_white(s@, a as int);
        let t = s@.skip(a as int);
        assert forall|j: int| b - a <= j < t.len() implies is_white_space(#[trigger] t[j]) by {
            assert(t[j] == s@[a + j]);
        }
        if b - a > 0 {
            assert(t[b - a - 1] == s@[b - 1]);
        }
        lemma_trailing_white(t, b - a);
    }
    let r = sub_chars(s, a, b);
    assert(r@ =~= trim(s@));
    r
}

/// Words joined by one separator character.
pub fn join_strings(words: &[String], sep: char) -> (r: String)
    ensures
        r@ == join_sep(words.deep_view(), sep),
{
    let mut r = String::new();
    let mut i: usize = 0;
    while i < words.len()
        invariant
            i <= words@.len(),
            r@ == join_sep(words.deep_view().take(i as int), sep),
        decreases words@.len() - i,
    {
        let ghost before = words.deep_view().take(i as int);
        if i > 0 {
            r.push(sep);
        }
        r.push_str(words[i].as_str());
        i = i + 1;
        proof {
            let now = words.deep_view().take(i as int);
            assert(now.drop_last() =~= before);
            if i == 1 {
                assert(now =~= seq![words@[0]@]);
            }
        }
    }
    assert(words.deep_view().take(words@.len() as int) =~= words.deep_view());
    r
}

} // verus!
