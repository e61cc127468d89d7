//! Text as sequences of characters: conversion from and to `String`, the
//! character classes the widgets accept, trimming, lowercasing and substring
//! search.

use vstd::prelude::*;

verus! {

/// Whether `char::is_alphanumeric` holds of `c`.
pub uninterp spec fn alphanumeric(c: char) -> bool;

/// Whether `char::is_whitespace` holds of `c`.
pub uninterp spec fn whitespace(c: char) -> bool;

/// The characters of `str::to_lowercase` applied to the text `s`.
pub uninterp spec fn lowercase(s: Seq<char>) -> Seq<char>;

/// `char::is_alphanumeric`: the result is the Unicode property of that name,
/// which this crate only names.
pub assume_specification[ char::is_alphanumeric ](c: char) -> (b: bool)
    ensures
        b == alphanumeric(c),
;

/// `char::is_whitespace`: the result is the Unicode property `White_Space`,
/// which this crate only names. Of single characters it is known that the
/// space, the line feed and the no-break space have the property and that
/// U+8D8A, a letter, has not.
pub assume_specification[ char::is_whitespace ](c: char) -> (b: bool)
    ensures
        b == whitespace(c),
        c == ' ' || c == '\n' || c == '\u{a0}' ==> b,
        c == '\u{8d8a}' ==> !b,
;

/// `String::push`: the character is appended at the end.
pub assume_specification[ String::push ](s: &mut String, c: char)
    ensures
        final(s)@ == old(s)@.push(c),
;

/// `str::to_lowercase` on the text made of `s`: the result is a function of
/// the characters alone, which this crate only names.
#[verifier::external_body]
pub(crate) fn to_lowercase(s: &Vec<char>) -> (r: Vec<char>)
    ensures
        r@ == lowercase(s@),
{
    let owned: String = s.iter().collect();
    owned.to_lowercase().chars().collect()
}

/// ASCII punctuation: the four ranges `!`..=`/`, `:`..=`@`, `[`..=`` ` `` and
/// `{`..=`~`.
pub open spec fn ascii_punctuation(c: char) -> bool {
    ||| '!' <= c <= '/'
    ||| ':' <= c <= '@'
    ||| '[' <= c <= '`'
    ||| '{' <= c <= '~'
}

/// The characters a text field takes: letters and digits of any script, ASCII
/// punctuation, and the space.
pub open spec fn accepted_char(c: char) -> bool {
    alphanumeric(c) || ascii_punctuation(c) || c == ' '
}

pub fn is_ascii_punctuation(c: char) -> (b: bool)
    ensures
        b == ascii_punctuation(c),
{
    ('!' <= c && c <= '/') || (':' <= c && c <= '@') || ('[' <= c && c <= '`') || ('{' <= c && c
        <= '~')
}

pub fn is_accepted_char(c: char) -> (b: bool)
    ensures
        b == accepted_char(c),
{
    c.is_alphanumeric() || is_ascii_punctuation(c) || c == ' '
}

/// The characters of `s`, in order.
pub fn chars_of(s: &str) -> (r: Vec<char>)
    ensures
        r@ == s@,
{
    broadcast use vstd::string::group_string_axioms;

    let mut r: Vec<char> = Vec::new();
    for c in it: s.chars()
        invariant
            it.seq() == s@,
            r@ == it.seq().take(it.index()),
    {
        r.push(c);
        assert(r@ =~= it.seq().take(it.index() + 1));
    }
    assert(s@.take(s@.len() as int) =~= s@);
    r
}

/// The string made of the characters `v`, in order.
pub fn string_of(v: &Vec<char>) -> (r: String)
    ensures
        r@ == v@,
{
    let mut r = String::new();
    let mut i: usize = 0;
    while i < v.len()
        invariant
            i <= v.len(),
            r@ == v@.subrange(0, i as int),
        decreases v.len() - i,
    {
        r.push(v[i]);
        i += 1;
        assert(r@ =~= v@.subrange(0, i as int));
    }
    assert(v@.subrange(0, v.len() as int) =~= v@);
    r
}

/// `s` without its leading whitespace.
pub open spec fn trimmed_start(s: Seq<char>) -> Seq<char>
    decreases s.len(),
{
    if s.len() > 0 && whitespace(s[0]) {
        trimmed_start(s.drop_first())
    } else {
        s
    }
}

/// `s` without its trailing whitespace.
pub open spec fn trimmed_end(s: Seq<char>) -> Seq<char>
    decreases s.len(),
{
    if s.len() > 0 && whitespace(s.last()) {
        trimmed_end(s.drop_last())
    } else {
        s
    }
}

/// `s` without leading and trailing whitespace.
pub open spec fn trimmed(s: Seq<char>) -> Seq<char> {
    trimmed_end(trimmed_start(s))
}

/// The form in which an option is compared: trimmed, then lowercased.
pub open spec fn normalized(s: Seq<char>) -> Seq<char> {
    lowercase(trimmed(s))
}

/// `needle` occurs in `hay` at position `i`.
pub open spec fn occurs_at(hay: Seq<char>, needle: Seq<char>, i: int) -> bool {
    0 <= i && i + needle.len() <= hay.len() && hay.subrange(i, i + needle.len()) == needle
}

/// `needle` occurs in `hay` as a run of consecutive characters.
pub open spec fn is_substring(hay: Seq<char>, needle: Seq<char>) -> bool {
    exists|i: int| occurs_at(hay, needle, i)
}

/// A text that occurs in a part of another occurs in that other.
pub proof fn lemma_is_substring_transitive(a: Seq<char>, b: Seq<char>, c: Seq<char>)
    requires
        is_substring(a, b),
        is_substring(b, c),
    ensures
        is_substring(a, c),
{
    let i = choose|i: int| occurs_at(a, b, i);
    let j = choose|j: int| occurs_at(b, c, j);
    assert(a.subrange(i + j, i + j + c.len()) =~= a.subrange(i, i + b.len()).subrange(
        j,
        j + c.len(),
    ));
    assert(occurs_at(a, c, i + j));
}

/// The query `new` asks for at least what `old` asks for: `old` is empty, or
/// `new` is not and `old` occurs in it, both lowercased.
pub open spec fn refines(new: Seq<char>, old: Seq<char>) -> bool {
    old.len() == 0 || (new.len() != 0 && is_substring(lowercase(new), lowercase(old)))
}

/// Every query refines itself.
pub proof fn lemma_refines_reflexive(query: Seq<char>)
    ensures
        refines(query, query),
{
    let n = lowercase(query);
    assert(n.subrange(0, n.len() as int) =~= n);
    assert(occurs_at(n, n, 0));
}

/// What a query selects, every query that it refines selects too.
pub proof fn lemma_refined_query_selects_less(new: Seq<char>, old: Seq<char>, option: Seq<char>)
    requires
        refines(new, old),
        selects(new, option),
    ensures
        selects(old, option),
{
    if old.len() != 0 {
        lemma_is_substring_transitive(normalized(option), lowercase(new), lowercase(old));
    }
}

/// Removes leading and trailing whitespace.
pub fn trim(v: &Vec<char>) -> (r: Vec<char>)
    ensures
        r@ == trimmed(v@),
{
    let n: usize = v.len();
    let mut a: usize = 0;
    assert(v@.subrange(0, n as int) =~= v@);
    while a < n && v[a].is_whitespace()
        invariant
            n == v.len(),
            a <= n,
            trimmed_start(v@) == trimmed_start(v@.subrange(a as int, n as int)),
        decreases n - a,
    {
        assert(v@.subrange(a as int, n as int).drop_first() =~= v@.subrange(a + 1, n as int));
        a += 1;
    }
    let mut b: usize = n;
    while b > a && v[b - 1].is_whitespace()
        invariant
            n == v.len(),
            a <= b <= n,
            trimmed(v@) == trimmed_end(v@.subrange(a as int, b as int)),
        decreases b,
    {
        assert(v@.subrange(a as int, b as int).drop_last() =~= v@.subrange(a as int, b - 1));
        b -= 1;
    }
    let mut r: Vec<char> = Vec::new();
    let mut i: usize = a;
    while i < b
        invariant
            a <= i <= b <= v.len(),
            r@ == v@.subrange(a as int, i as int),
        decreases b - i,
    {
        r.push(v[i]);
        i += 1;
        assert(r@ =~= v@.subrange(a as int, i as int));
    }
    r
}

/// Whether `needle` stands in `hay` at position `i`.
fn matches_at(hay: &Vec<char>, needle: &Vec<char>, i: usize) -> (b: bool)
    requires
        i + needle.len() <= hay.len(),
    ensures
        b == occurs_at(hay@, needle@, i as int),
{
    let m: usize = needle.len();
    let mut j: usize = 0;
    while j < m
        invariant
            m == needle.len(),
            i + m <= hay.len(),
            j <= m,
            forall|k: int| 0 <= k < j ==> hay[i + k] == needle[k],
        decreases m - j,
    {
        if hay[i + j] != needle[j] {
            assert(hay@.subrange(i as int, i + m)[j as int] == hay[i + j]);
            return false;
        }
        j += 1;
    }
    assert(hay@.subrange(i as int, i + m) =~= needle@);
    true
}

/// Whether `needle` occurs in `hay`. The empty text occurs in every text.
pub fn contains(hay: &Vec<char>, needle: &Vec<char>) -> (b: bool)
    ensures
        b == is_substring(hay@, needle@),
{
    let n: usize = hay.len();
    let m: usize = needle.len();
    if m > n {
        return false;
    }
    let last: usize = n - m;
    let mut i: usize = 0;
    loop
        invariant_except_break
            i <= last,
            forall|k: int| 0 <= k < i ==> !occurs_at(hay@, needle@, k),
        invariant
            last == hay.len() - needle.len(),
        ensures
            forall|k: int| 0 <= k <= last ==> !occurs_at(hay@, needle@, k),
        decreases last - i,
    {
        if matches_at(hay, needle, i) {
            return true;
        }
        if i == last {
            break;
        }
        i += 1;
    }
    false
}

/// Whether `query` selects `option`: the empty query selects every option;
/// any other selects the options in which it occurs, the option trimmed and
/// both lowercased. The query is taken whole, with the whitespace in it.
pub open spec fn selects(query: Seq<char>, option: Seq<char>) -> bool {
    query.len() == 0 || is_substring(normalized(option), lowercase(query))
}

/// Whether the query selects the option: without regard to case, nor to
/// whitespace around the option.
pub fn strings_match(option: &str, query: &str) -> (b: bool)
    ensures
        b == selects(query@, option@),
{
    let query = chars_of(query);
    if query.len() == 0 {
        return true;
    }
    let lowercase_option = to_lowercase(&trim(&chars_of(option)));
    let lowercase_query = to_lowercase(&query);
    contains(&lowercase_option, &lowercase_query)
}

/// Whether the query `new` refines the query `old`. Where it does, every
/// option that `new` selects `old` selects too.
pub fn query_refines(new: &str, old: &str) -> (b: bool)
    ensures
        b == refines(new@, old@),
        b ==> forall|option: Seq<char>| #[trigger]
            selects(new@, option) ==> selects(old@, option),
{
    let old_query = chars_of(old);
    let new_query = chars_of(new);
    let b = old_query.len() == 0 || (new_query.len() != 0 && contains(
        &to_lowercase(&new_query),
        &to_lowercase(&old_query),
    ));
    proof {
        if b {
            assert forall|option: Seq<char>| #[trigger] selects(new@, option) implies selects(
                old@,
                option,
            ) by {
                lemma_refined_query_selects_less(new@, old@, option);
            }
        }
    }
    b
}

} // verus!
