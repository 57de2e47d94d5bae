//! Text as sequences of characters: searching, splitting, trimming, decimal numerals.

use vstd::prelude::*;

verus! {

/// `String::push`: the character is appended to the end of the string.
pub assume_specification[ String::push ](s: &mut String, c: char)
    ensures
        final(s)@ == old(s)@.push(c),
;

/// `String::pop`: the last character leaves the string and is returned; an empty
/// string stays as it is and gives `None`.
pub assume_specification[ String::pop ](s: &mut String) -> (r: Option<char>)
    ensures
        old(s)@.len() == 0 ==> r is None && final(s)@ == old(s)@,
        old(s)@.len() > 0 ==> r == Some(old(s)@.last()) && final(s)@ == old(s)@.drop_last(),
;

/// `String::clear`: nothing is left in the string.
pub assume_specification[ String::clear ](s: &mut String)
    ensures
        final(s)@ == Seq::<char>::empty(),
;

/// The characters with the Unicode property `White_Space`.
pub open spec fn white_space(c: char) -> bool {
    ||| '\u{9}' <= c <= '\u{d}'
    ||| c == '\u{20}'
    ||| c == '\u{85}'
    ||| c == '\u{a0}'
    ||| c == '\u{1680}'
    ||| '\u{2000}' <= c <= '\u{200a}'
    ||| c == '\u{2028}'
    ||| c == '\u{2029}'
    ||| c == '\u{202f}'
    ||| c == '\u{205f}'
    ||| c == '\u{3000}'
}

/// `char::is_whitespace`: true of the characters that the Unicode Character Database
/// gives the property `White_Space`, and of no others.
pub assume_specification[ char::is_whitespace ](c: char) -> (r: bool)
    ensures
        r == white_space(c),
;

/// The characters of `s`, in order.
pub fn char_vec(s: &str) -> (r: Vec<char>)
    ensures
        r@ == s@,
{
    let mut r: Vec<char> = Vec::new();
    for c in it: s.chars()
        invariant
            it.seq() == s@,
            r@ == s@.take(it.index() as int),
    {
        r.push(c);
    }
    r
}

/// The characters `chars[from..to]`.
pub fn part_of(chars: &Vec<char>, from: usize, to: usize) -> (r: Vec<char>)
    requires
        from <= to <= chars@.len(),
    ensures
        r@ == chars@.subrange(from as int, to as int),
{
    let mut r: Vec<char> = Vec::new();
    let mut i: usize = from;
    while i < to
        invariant
            from <= i <= to <= chars@.len(),
            r@ == chars@.subrange(from as int, i as int),
        decreases to - i,
    {
        r.push(chars[i]);
        i = i + 1;
    }
    r
}

/// The string made of the characters `chars[from..to]`.
pub fn string_of(chars: &Vec<char>, from: usize, to: usize) -> (r: String)
    requires
        from <= to <= chars@.len(),
    ensures
        r@ == chars@.subrange(from as int, to as int),
{
    let mut r = String::new();
    let mut i: usize = from;
    while i < to
        invariant
            from <= i <= to <= chars@.len(),
            r@ == chars@.subrange(from as int, i as int),
        decreases to - i,
    {
        r.push(chars[i]);
        i = i + 1;
    }
    r
}

/// Whether `pattern` stands in `s` at position `i`.
pub open spec fn matches_at(s: Seq<char>, pattern: Seq<char>, i: int) -> bool {
    &&& 0 <= i
    &&& i + pattern.len() <= s.len()
    &&& s.subrange(i, i + pattern.len()) == pattern
}

/// Whether `pattern` stands somewhere in `s`.
pub open spec fn holds_text(s: Seq<char>, pattern: Seq<char>) -> bool {
    exists|i: int| #[trigger] matches_at(s, pattern, i)
}

/// The first position from `from` on where `pattern` stands in `s`.
pub open spec fn find_from(s: Seq<char>, pattern: Seq<char>, from: int) -> Option<int>
    decreases s.len() - from + 1,
{
    if from + pattern.len() > s.len() {
        None
    } else if matches_at(s, pattern, from) {
        Some(from)
    } else {
        find_from(s, pattern, from + 1)
    }
}

/// The first position where `pattern` stands in `s`.
pub open spec fn find(s: Seq<char>, pattern: Seq<char>) -> Option<int> {
    find_from(s, pattern, 0)
}

/// Whether `s` begins with `prefix`.
pub open spec fn begins_with(s: Seq<char>, prefix: Seq<char>) -> bool {
    prefix.len() <= s.len() && s.take(prefix.len() as int) == prefix
}

/// Whether `s` ends with `suffix`.
pub open spec fn ends_with(s: Seq<char>, suffix: Seq<char>) -> bool {
    suffix.len() <= s.len() && s.skip(s.len() - suffix.len()) == suffix
}

/// `s` without any of the copies of `suffix` that it ends with.
pub open spec fn strip_suffixes(s: Seq<char>, suffix: Seq<char>) -> Seq<char>
    decreases s.len(),
{
    if suffix.len() > 0 && ends_with(s, suffix) {
        strip_suffixes(s.take(s.len() - suffix.len()), suffix)
    } else {
        s
    }
}

/// `s` without the white space that it begins with.
pub open spec fn trimmed_start(s: Seq<char>) -> Seq<char>
    decreases s.len(),
{
    if s.len() > 0 && white_space(s[0]) {
        trimmed_start(s.skip(1))
    } else {
        s
    }
}

/// `s` without the white space that it ends with.
pub open spec fn trimmed_end(s: Seq<char>) -> Seq<char>
    decreases s.len(),
{
    if s.len() > 0 && white_space(s.last()) {
        trimmed_end(s.drop_last())
    } else {
        s
    }
}

/// `s` without the white space at either end.
pub open spec fn trimmed(s: Seq<char>) -> Seq<char> {
    trimmed_end(trimmed_start(s))
}

/// Whether neither end of `s` is white space.
pub open spec fn is_trimmed(s: Seq<char>) -> bool {
    s.len() > 0 ==> !white_space(s[0]) && !white_space(s.last())
}

/// Whether all of `s` is white space.
pub open spec fn is_blank(s: Seq<char>) -> bool {
    forall|i: int| 0 <= i < s.len() ==> white_space(#[trigger] s[i])
}

/// The decimal digit of value `d`.
pub open spec fn digit(d: nat) -> char {
    (('0' as u32) + d) as char
}

/// The decimal numeral of `n`, without leading zeros.
pub open spec fn decimal(n: nat) -> Seq<char>
    decreases n,
{
    if n < 10 {
        seq![digit(n)]
    } else {
        decimal(n / 10).push(digit(n % 10))
    }
}

/// What `find_from` finds is a match, and there is none before it; where it finds
/// nothing there is no match at all.
proof fn find_from_is_first(s: Seq<char>, pattern: Seq<char>, from: int)
    requires
        0 <= from,
    ensures
        match find_from(s, pattern, from) {
            Some(i) => from <= i && matches_at(s, pattern, i) && forall|j: int|
                from <= j < i ==> !#[trigger] matches_at(s, pattern, j),
            None => forall|j: int| from <= j ==> !#[trigger] matches_at(s, pattern, j),
        },
    decreases s.len() - from + 1,
{
    if from + pattern.len() > s.len() {
    } else if matches_at(s, pattern, from) {
    } else {
        find_from_is_first(s, pattern, from + 1);
    }
}

/// A search finds the first place where the pattern stands, and finds nothing exactly
/// where the text does not hold the pattern.
pub proof fn find_is_first(s: Seq<char>, pattern: Seq<char>)
    ensures
        find(s, pattern) is Some <==> holds_text(s, pattern),
        find(s, pattern) matches Some(i) ==> matches_at(s, pattern, i) && forall|j: int|
            0 <= j < i ==> !#[trigger] matches_at(s, pattern, j),
{
    find_from_is_first(s, pattern, 0);
    if holds_text(s, pattern) {
        let k = choose|k: int| #[trigger] matches_at(s, pattern, k);
        assert(matches_at(s, pattern, k));
    }
}

/// A search is not changed by what stands behind the text, where nothing of that is the
/// last character of the pattern.
pub proof fn find_ignores_tail(s: Seq<char>, tail: Seq<char>, pattern: Seq<char>)
    requires
        pattern.len() > 0,
        !tail.contains(pattern.last()),
    ensures
        find(s + tail, pattern) == find(s, pattern),
        holds_text(s + tail, pattern) == holds_text(s, pattern),
{
    let long = s + tail;
    assert forall|j: int| #[trigger] matches_at(long, pattern, j) == matches_at(s, pattern, j) by {
        let end = j + pattern.len();
        if 0 <= j && end <= s.len() {
            assert(long.subrange(j, end) =~= s.subrange(j, end));
        } else if matches_at(long, pattern, j) {
            assert(long.subrange(j, end).last() == tail[end - 1 - s.len()]);
        }
    }
    find_is_first(long, pattern);
    find_is_first(s, pattern);
    if let Some(i) = find(s, pattern) {
        assert(matches_at(long, pattern, i));
    }
    if let Some(i) = find(long, pattern) {
        assert(matches_at(s, pattern, i));
    }
}

/// A pattern stands at a position exactly where its characters are those from there on.
pub proof fn matches_char_by_char(s: Seq<char>, pattern: Seq<char>, i: int)
    ensures
        matches_at(s, pattern, i) <==> 0 <= i && i + pattern.len() <= s.len() && forall|k: int|
            0 <= k < pattern.len() ==> s[i + k] == #[trigger] pattern[k],
{
    if 0 <= i && i + pattern.len() <= s.len() {
        let part = s.subrange(i, i + pattern.len());
        if forall|k: int| 0 <= k < pattern.len() ==> s[i + k] == #[trigger] pattern[k] {
            assert(part =~= pattern);
        }
        if part == pattern {
            assert forall|k: int| 0 <= k < pattern.len() implies s[i + k] == #[trigger] pattern[k] by {
                assert(part[k] == s[i + k]);
            }
        }
    }
}

/// Text holds a pattern whatever stands before it and after it; it begins with it where
/// nothing stands before it, and ends with it where nothing stands after it.
pub proof fn pieces_are_found(before: Seq<char>, pattern: Seq<char>, after: Seq<char>)
    ensures
        holds_text(before + pattern + after, pattern),
        begins_with(pattern + after, pattern),
        ends_with(before + pattern, pattern),
{
    let s = before + pattern + after;
    let n = before.len() as int;
    assert(s.subrange(n, n + pattern.len()) =~= pattern);
    assert(matches_at(s, pattern, n));
    assert((pattern + after).take(pattern.len() as int) =~= pattern);
    assert((before + pattern).skip(n) =~= pattern);
}

/// What is found in text is there: the text falls into what stands before the pattern, the
/// pattern, and what stands after it.
pub proof fn found_pieces_are_there(s: Seq<char>, pattern: Seq<char>)
    ensures
        holds_text(s, pattern) ==> exists|i: int|
            0 <= i <= s.len() - pattern.len() && s == #[trigger] s.take(i) + pattern + s.skip(
                i + pattern.len(),
            ),
        begins_with(s, pattern) ==> s == pattern + s.skip(pattern.len() as int),
        ends_with(s, pattern) ==> s == s.take(s.len() - pattern.len()) + pattern,
{
    if holds_text(s, pattern) {
        let i = choose|i: int| #[trigger] matches_at(s, pattern, i);
        matches_char_by_char(s, pattern, i);
        assert(s =~= s.take(i) + pattern + s.skip(i + pattern.len()));
    }
    if begins_with(s, pattern) {
        assert(s =~= s.take(pattern.len() as int) + s.skip(pattern.len() as int));
    }
    if ends_with(s, pattern) {
        let n = s.len() - pattern.len();
        assert(s =~= s.take(n) + s.skip(n));
    }
}

/// A search finds the first of the marks in a text, where no part of a mark looks like the
/// beginning of one.
pub proof fn first_mark_is_found(head: Seq<char>, mark: Seq<char>, rest: Seq<char>)
    requires
        mark.len() > 0,
        forall|d: int| 0 < d < mark.len() ==> #[trigger] mark[d] != mark[0],
        !holds_text(head, mark),
    ensures
        find(head + mark + rest, mark) == Some(head.len() as int),
{
    let s = head + mark + rest;
    let n = head.len() as int;
    assert(s.subrange(n, n + mark.len()) =~= mark);
    assert(matches_at(s, mark, n));
    assert forall|j: int| 0 <= j < n implies !#[trigger] matches_at(s, mark, j) by {
        if matches_at(s, mark, j) {
            matches_char_by_char(s, mark, j);
            if j + mark.len() <= n {
                assert(s.subrange(j, j + mark.len()) =~= head.subrange(j, j + mark.len()));
                assert(matches_at(head, mark, j));
            } else {
                assert(s[j + (n - j)] == mark[n - j]);
                assert(s[n] == mark[0]);
            }
        }
    }
    find_is_first(s, mark);
}

/// Text that does not end with a suffix is left as it is when it is stripped of it.
pub proof fn text_without_suffix_is_kept(s: Seq<char>, suffix: Seq<char>)
    requires
        !ends_with(s, suffix),
    ensures
        strip_suffixes(s, suffix) == s,
{
}

/// Text that is stripped of a suffix is the same with one more copy of it at its end.
pub proof fn one_more_suffix_is_stripped(s: Seq<char>, suffix: Seq<char>)
    ensures
        strip_suffixes(s + suffix, suffix) == strip_suffixes(s, suffix),
{
    let long = s + suffix;
    assert(long.skip(long.len() - suffix.len()) =~= suffix);
    assert(long.take(long.len() - suffix.len()) =~= s);
    if suffix.len() == 0 {
        assert(long =~= s);
    }
}

/// Trimmed text has no white space at its ends, and trimming it again changes nothing.
pub proof fn trimming_is_idempotent(s: Seq<char>)
    ensures
        is_trimmed(trimmed(s)),
        trimmed(trimmed(s)) == trimmed(s),
{
    trimmed_start_is_clean(s);
    trimmed_end_is_clean(trimmed_start(s));
}

/// Text whose ends are not white space is left as it is by trimming.
pub proof fn trimmed_keeps_trimmed(s: Seq<char>)
    requires
        is_trimmed(s),
    ensures
        trimmed(s) == s,
{
}

/// What is left by trimming is what stands between the white space at either end.
pub proof fn trimmed_between(before: Seq<char>, middle: Seq<char>, after: Seq<char>)
    requires
        is_blank(before),
        is_blank(after),
        is_trimmed(middle),
    ensures
        trimmed(before + middle + after) == middle,
{
    let rest = middle + after;
    assert(before + middle + after =~= before + rest);
    blanks_go_at_the_start(before, rest);
    if middle.len() == 0 {
        assert(rest =~= after);
        blanks_go_at_the_start(after, middle);
        assert(after + middle =~= after);
        assert(trimmed_start(rest) =~= middle);
    } else {
        assert(rest[0] == middle[0]);
        blanks_go_at_the_end(middle, after);
    }
}

/// Trimming takes nothing but white space away, and only at the ends.
pub proof fn trimming_takes_only_white_space(s: Seq<char>)
    ensures
        exists|before: Seq<char>, after: Seq<char>|
            #![trigger is_blank(before), is_blank(after)]
            is_blank(before) && is_blank(after) && s == before + trimmed(s) + after,
{
    let start = trimmed_start(s);
    let before = blanks_at_the_start(s);
    let after = blanks_at_the_end(start);
    assert(s =~= before + trimmed(s) + after);
}

proof fn blanks_at_the_start(s: Seq<char>) -> (before: Seq<char>)
    ensures
        is_blank(before),
        s == before + trimmed_start(s),
    decreases s.len(),
{
    if s.len() > 0 && white_space(s[0]) {
        let rest = blanks_at_the_start(s.skip(1));
        let before = seq![s[0]] + rest;
        assert(s =~= seq![s[0]] + s.skip(1));
        assert(s =~= before + trimmed_start(s));
        before
    } else {
        assert(s =~= Seq::empty() + s);
        Seq::empty()
    }
}

proof fn blanks_at_the_end(s: Seq<char>) -> (after: Seq<char>)
    ensures
        is_blank(after),
        s == trimmed_end(s) + after,
    decreases s.len(),
{
    if s.len() > 0 && white_space(s.last()) {
        let rest = blanks_at_the_end(s.drop_last());
        let after = rest.push(s.last());
        assert(s =~= s.drop_last().push(s.last()));
        assert(s =~= trimmed_end(s) + after);
        after
    } else {
        assert(s =~= s + Seq::empty());
        Seq::empty()
    }
}

proof fn blanks_go_at_the_start(before: Seq<char>, rest: Seq<char>)
    requires
        is_blank(before),
    ensures
        trimmed_start(before + rest) == trimmed_start(rest),
    decreases before.len(),
{
    if before.len() == 0 {
        assert(before + rest =~= rest);
    } else {
        assert((before + rest)[0] == before[0]);
        assert((before + rest).skip(1) =~= before.skip(1) + rest);
        assert(is_blank(before.skip(1)));
        blanks_go_at_the_start(before.skip(1), rest);
    }
}

proof fn blanks_go_at_the_end(rest: Seq<char>, after: Seq<char>)
    requires
        is_blank(after),
    ensures
        trimmed_end(rest + after) == trimmed_end(rest),
    decreases after.len(),
{
    if after.len() == 0 {
        assert(rest + after =~= rest);
    } else {
        assert((rest + after).last() == after.last());
        assert((rest + after).drop_last() =~= rest + after.drop_last());
        assert(is_blank(after.drop_last()));
        blanks_go_at_the_end(rest, after.drop_last());
    }
}

proof fn trimmed_start_is_clean(s: Seq<char>)
    ensures
        trimmed_start(s).len() > 0 ==> !white_space(trimmed_start(s)[0]),
    decreases s.len(),
{
    if s.len() > 0 && white_space(s[0]) {
        trimmed_start_is_clean(s.skip(1));
    }
}

proof fn trimmed_end_is_clean(s: Seq<char>)
    requires
        s.len() > 0 ==> !white_space(s[0]),
    ensures
        is_trimmed(trimmed_end(s)),
    decreases s.len(),
{
    if s.len() > 0 && white_space(s.last()) {
        trimmed_end_is_clean(s.drop_last());
    }
}

/// Text stripped of a suffix does not end with that suffix any more.
pub proof fn stripped_has_no_suffix(s: Seq<char>, suffix: Seq<char>)
    requires
        suffix.len() > 0,
    ensures
        !ends_with(strip_suffixes(s, suffix), suffix),
    decreases s.len(),
{
    if ends_with(s, suffix) {
        stripped_has_no_suffix(s.take(s.len() - suffix.len()), suffix);
    }
}

/// The number that a decimal numeral stands for.
pub open spec fn value_of(numeral: Seq<char>) -> int
    decreases numeral.len(),
{
    if numeral.len() == 0 {
        0
    } else {
        10 * value_of(numeral.drop_last()) + (numeral.last() as int - '0' as int)
    }
}

/// A numeral stands for its number, is made of digits only, and begins with a zero only
/// where it is that of zero; so different numbers have different numerals.
pub proof fn numerals_stand_for_their_numbers(n: nat)
    ensures
        value_of(decimal(n)) == n,
        decimal(n).len() > 0,
        forall|i: int| 0 <= i < decimal(n).len() ==> '0' <= #[trigger] decimal(n)[i] <= '9',
        decimal(n)[0] == '0' ==> n == 0,
        n == 0 ==> decimal(n) == seq!['0'],
    decreases n,
{
    reveal_with_fuel(value_of, 2);
    if n < 10 {
        assert(decimal(n).drop_last() =~= Seq::<char>::empty());
    } else {
        numerals_stand_for_their_numbers(n / 10);
        assert(decimal(n).drop_last() =~= decimal(n / 10));
        assert(decimal(n)[0] == decimal(n / 10)[0]);
    }
}

/// Whether `pattern` stands in `chars` at position `i`.
fn matches_here(chars: &Vec<char>, pattern: &Vec<char>, i: usize) -> (r: bool)
    requires
        i + pattern@.len() <= chars@.len(),
    ensures
        r == matches_at(chars@, pattern@, i as int),
{
    let mut k: usize = 0;
    while k < pattern.len()
        invariant
            k <= pattern@.len(),
            i + pattern@.len() <= chars.len(),
            forall|m: int| 0 <= m < k ==> chars@[i + m] == #[trigger] pattern@[m],
        decreases pattern@.len() - k,
    {
        if chars[i + k] != pattern[k] {
            assert(chars@.subrange(i as int, i + pattern@.len())[k as int] != pattern@[k as int]);
            return false;
        }
        k = k + 1;
    }
    assert(chars@.subrange(i as int, i + pattern@.len()) =~= pattern@);
    true
}

/// The first position where `pattern` stands in `chars`.
pub fn find_chars(chars: &Vec<char>, pattern: &Vec<char>) -> (r: Option<usize>)
    ensures
        match r {
            Some(i) => find(chars@, pattern@) == Some(i as int),
            None => find(chars@, pattern@) is None,
        },
{
    if pattern.len() > chars.len() {
        return None;
    }
    let last: usize = chars.len() - pattern.len();
    let mut i: usize = 0;
    loop
        invariant
            i <= last,
            last + pattern@.len() == chars@.len(),
            find(chars@, pattern@) == find_from(chars@, pattern@, i as int),
        decreases last - i,
    {
        if matches_here(chars, pattern, i) {
            return Some(i);
        }
        if i == last {
            assert(find_from(chars@, pattern@, i + 1) is None);
            return None;
        }
        i = i + 1;
    }
}

/// Whether `pattern` stands somewhere in `s`.
pub fn contains(s: &str, pattern: &str) -> (r: bool)
    ensures
        r == holds_text(s@, pattern@),
{
    proof {
        find_is_first(s@, pattern@);
    }
    find_chars(&char_vec(s), &char_vec(pattern)).is_some()
}

/// Whether `s` begins with `prefix`.
pub fn starts_with(s: &str, prefix: &str) -> (r: bool)
    ensures
        r == begins_with(s@, prefix@),
{
    let chars = char_vec(s);
    let pattern = char_vec(prefix);
    if pattern.len() > chars.len() {
        return false;
    }
    assert(chars@.subrange(0, pattern@.len() as int) =~= chars@.take(pattern@.len() as int));
    matches_here(&chars, &pattern, 0)
}

/// Whether two strings hold the same characters.
pub fn same_text(a: &str, b: &str) -> (r: bool)
    ensures
        r == (a@ == b@),
{
    let x = char_vec(a);
    let y = char_vec(b);
    if x.len() != y.len() {
        return false;
    }
    assert(x@.subrange(0, y@.len() as int) =~= x@);
    matches_here(&x, &y, 0)
}

/// How many of the leading `chars` are left once all copies of `suffix` at the end are gone.
pub fn stripped_len(chars: &Vec<char>, suffix: &Vec<char>) -> (r: usize)
    requires
        suffix@.len() > 0,
    ensures
        r <= chars@.len(),
        strip_suffixes(chars@, suffix@) == chars@.take(r as int),
{
    let mut end: usize = chars.len();
    assert(chars@.take(end as int) =~= chars@);
    while end >= suffix.len()
        invariant
            suffix@.len() > 0,
            end <= chars@.len(),
            strip_suffixes(chars@, suffix@) == strip_suffixes(chars@.take(end as int), suffix@),
        ensures
            end <= chars@.len(),
            strip_suffixes(chars@, suffix@) == chars@.take(end as int),
        decreases end,
    {
        let start: usize = end - suffix.len();
        let ghost head = chars@.take(end as int);
        assert(head.skip(head.len() - suffix@.len()) =~= chars@.subrange(
            start as int,
            start + suffix@.len(),
        ));
        if !matches_here(chars, suffix, start) {
            break;
        }
        assert(head.take(head.len() - suffix@.len()) =~= chars@.take(start as int));
        end = start;
    }
    end
}

/// `s` without the white space at either end.
pub fn trim(s: &str) -> (r: String)
    ensures
        r@ == trimmed(s@),
{
    let chars = char_vec(s);
    let mut from: usize = 0;
    assert(chars@.skip(0) =~= s@);
    while from < chars.len() && chars[from].is_whitespace()
        invariant
            from <= chars@.len(),
            chars@ == s@,
            trimmed_start(s@) == trimmed_start(chars@.skip(from as int)),
        decreases chars@.len() - from,
    {
        assert(chars@.skip(from as int).skip(1) =~= chars@.skip(from + 1));
        from = from + 1;
    }
    let mut to: usize = chars.len();
    let ghost start = chars@.skip(from as int);
    assert(trimmed_start(s@) == start);
    assert(chars@.subrange(from as int, to as int) =~= start);
    while from < to && chars[to - 1].is_whitespace()
        invariant
            from <= to <= chars@.len(),
            trimmed_end(start) == trimmed_end(chars@.subrange(from as int, to as int)),
        decreases to,
    {
        assert(chars@.subrange(from as int, to as int).drop_last() =~= chars@.subrange(
            from as int,
            to - 1,
        ));
        to = to - 1;
    }
    string_of(&chars, from, to)
}

/// The decimal numeral of `n`.
pub fn decimal_of(n: u64) -> (r: String)
    ensures
        r@ == decimal(n as nat),
    decreases n,
{
    if n < 10 {
        let mut r = String::new();
        r.push(digit_of(n));
        r
    } else {
        let mut r = decimal_of(n / 10);
        r.push(digit_of(n % 10));
        r
    }
}

/// The decimal digit of value `d`.
fn digit_of(d: u64) -> (r: char)
    requires
        d < 10,
    ensures
        r == digit(d as nat),
{
    (48u8 + d as u8) as char
}

} // verus!
