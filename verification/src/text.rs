//! Text as sequences of characters: searching, splitting, joining and
//! trimming, each given as a spec function on `Seq<char>` and as an
//! executable function on `Vec<char>` that is proved to compute it.

use vstd::prelude::*;

verus! {

/// `String::push` appends one character to the end of the string.
pub assume_specification[ String::push ](s: &mut String, ch: char)
    ensures
        final(s)@ == old(s)@.push(ch),
;

/// The characters of a string slice, in order.
pub fn chars_of(s: &str) -> (v: Vec<char>)
    ensures
        v@ == s@,
{
    let mut v: Vec<char> = Vec::new();
    for c in it: s.chars()
        invariant
            v@ == it.seq().take(it.index() as int),
            it.seq() == s@,
    {
        v.push(c);
    }
    v
}

/// The string made of the given characters, in order.
pub fn string_of(cs: &Vec<char>) -> (s: String)
    ensures
        s@ == cs@,
{
    let mut s = String::new();
    let mut i: usize = 0;
    while i < cs.len()
        invariant
            i <= cs.len(),
            s@ == cs@.take(i as int),
        decreases cs.len() - i,
    {
        s.push(cs[i]);
        i += 1;
    }
    s
}

/// A copy of the characters from `lo` up to `hi`.
pub fn slice_of(cs: &Vec<char>, lo: usize, hi: usize) -> (r: Vec<char>)
    requires
        lo <= hi <= cs.len(),
    ensures
        r@ == cs@.subrange(lo as int, hi as int),
{
    let mut r: Vec<char> = Vec::new();
    let mut i: usize = lo;
    while i < hi
        invariant
            lo <= i <= hi <= cs.len(),
            r@ == cs@.subrange(lo as int, i as int),
        decreases hi - i,
    {
        r.push(cs[i]);
        i += 1;
    }
    r
}

/// Appends the characters of `tail` to `out`.
pub fn append_chars(out: &mut Vec<char>, tail: &Vec<char>)
    ensures
        final(out)@ == old(out)@ + tail@,
{
    let mut i: usize = 0;
    while i < tail.len()
        invariant
            i <= tail.len(),
            out@ == old(out)@ + tail@.take(i as int),
        decreases tail.len() - i,
    {
        out.push(tail[i]);
        i += 1;
    }
    assert(tail@.take(tail.len() as int) == tail@);
}

/// Whether two texts hold the same characters.
pub fn same_chars(a: &Vec<char>, b: &Vec<char>) -> (r: bool)
    ensures
        r == (a@ == b@),
{
    if a.len() != b.len() {
        return false;
    }
    let mut i: usize = 0;
    while i < a.len()
        invariant
            i <= a.len(),
            a.len() == b.len(),
            a@.take(i as int) == b@.take(i as int),
        decreases a.len() - i,
    {
        if a[i] != b[i] {
            return false;
        }
        assert(a@.take(i + 1) == a@.take(i as int).push(a@[i as int]));
        assert(b@.take(i + 1) == b@.take(i as int).push(b@[i as int]));
        i += 1;
    }
    assert(a@.take(a.len() as int) == a@);
    assert(b@.take(b.len() as int) == b@);
    true
}

/// `needle` stands in `hay` at index `i`.
pub open spec fn matches_at(hay: Seq<char>, needle: Seq<char>, i: int) -> bool {
    0 <= i && i + needle.len() <= hay.len() && hay.subrange(i, i + needle.len()) == needle
}

/// The first index at or after `from` where `needle` stands in `hay`.
pub open spec fn find_from(hay: Seq<char>, needle: Seq<char>, from: int) -> Option<int>
    decreases hay.len() + 1 - from,
{
    if from < 0 || from + needle.len() > hay.len() {
        None
    } else if matches_at(hay, needle, from) {
        Some(from)
    } else {
        find_from(hay, needle, from + 1)
    }
}

/// The first index where `needle` stands in `hay`.
pub open spec fn find(hay: Seq<char>, needle: Seq<char>) -> Option<int> {
    find_from(hay, needle, 0)
}

/// `needle` stands somewhere in `hay`.
pub open spec fn contains(hay: Seq<char>, needle: Seq<char>) -> bool {
    exists|i: int| matches_at(hay, needle, i)
}

/// `s` begins with `prefix`.
pub open spec fn starts_with(s: Seq<char>, prefix: Seq<char>) -> bool {
    matches_at(s, prefix, 0)
}

/// `s` ends with `suffix`.
pub open spec fn ends_with(s: Seq<char>, suffix: Seq<char>) -> bool {
    matches_at(s, suffix, s.len() - suffix.len())
}

/// What `find_from` returns is the least match at or after `from`, and it
/// returns nothing only where there is no such match.
pub proof fn lemma_find_from(hay: Seq<char>, needle: Seq<char>, from: int)
    requires
        0 <= from,
    ensures
        match find_from(hay, needle, from) {
            Some(i) => from <= i && matches_at(hay, needle, i) && forall|j: int|
                from <= j < i ==> !matches_at(hay, needle, j),
            None => forall|j: int| from <= j ==> !matches_at(hay, needle, j),
        },
    decreases hay.len() + 1 - from,
{
    if from + needle.len() > hay.len() {
    } else if matches_at(hay, needle, from) {
    } else {
        lemma_find_from(hay, needle, from + 1);
    }
}

/// The least match is what `find_from` returns: where `needle` stands at
/// `at` and nowhere from `from` up to `at`, `find_from` returns `at`.
pub proof fn lemma_find_from_is(hay: Seq<char>, needle: Seq<char>, from: int, at: int)
    requires
        0 <= from <= at,
        matches_at(hay, needle, at),
        forall|j: int| from <= j < at ==> !matches_at(hay, needle, j),
    ensures
        find_from(hay, needle, from) == Some(at),
    decreases at - from,
{
    if from < at {
        lemma_find_from_is(hay, needle, from + 1, at);
    }
}

/// `find` succeeds exactly where `needle` occurs in `hay`.
pub proof fn lemma_find_contains(hay: Seq<char>, needle: Seq<char>)
    ensures
        find(hay, needle) is Some <==> contains(hay, needle),
{
    lemma_find_from(hay, needle, 0);
    if contains(hay, needle) {
        let i = choose|i: int| matches_at(hay, needle, i);
        assert(matches_at(hay, needle, i));
    }
}

/// Whether `needle` stands in `hay` at index `i`.
pub fn matches_here(hay: &Vec<char>, needle: &Vec<char>, i: usize) -> (r: bool)
    ensures
        r == matches_at(hay@, needle@, i as int),
{
    if needle.len() > hay.len() || i > hay.len() - needle.len() {
        return false;
    }
    let mut k: usize = 0;
    while k < needle.len()
        invariant
            k <= needle.len(),
            i + needle.len() <= hay.len(),
            hay@.subrange(i as int, i + k) == needle@.take(k as int),
        decreases needle.len() - k,
    {
        if hay[i + k] != needle[k] {
            assert(hay@.subrange(i as int, i + needle.len())[k as int] != needle@[k as int]);
            return false;
        }
        assert(hay@.subrange(i as int, i + k + 1) == hay@.subrange(i as int, i + k).push(
            hay@[i + k],
        ));
        assert(needle@.take(k + 1) == needle@.take(k as int).push(needle@[k as int]));
        k += 1;
    }
    assert(needle@.take(needle.len() as int) == needle@);
    true
}

/// The first index at or after `from` where `needle` stands in `hay`.
pub fn find_in(hay: &Vec<char>, needle: &Vec<char>, from: usize) -> (r: Option<usize>)
    ensures
        match r {
            Some(i) => find_from(hay@, needle@, from as int) == Some(i as int) && from <= i && i
                + needle.len() <= hay.len(),
            None => find_from(hay@, needle@, from as int) is None,
        },
{
    if needle.len() > hay.len() {
        return None;
    }
    let last: usize = hay.len() - needle.len();
    let mut i: usize = from;
    while i <= last
        invariant
            from <= i,
            last == hay.len() - needle.len(),
            needle.len() <= hay.len(),
            find_from(hay@, needle@, from as int) == find_from(hay@, needle@, i as int),
        decreases last + 1 - i,
    {
        if matches_here(hay, needle, i) {
            return Some(i);
        }
        if i == last {
            assert(find_from(hay@, needle@, i + 1) is None);
            return None;
        }
        i += 1;
    }
    None
}

/// Whether `needle` occurs in `hay`.
pub fn contains_text(hay: &Vec<char>, needle: &Vec<char>) -> (r: bool)
    ensures
        r == contains(hay@, needle@),
{
    proof {
        lemma_find_contains(hay@, needle@);
    }
    find_in(hay, needle, 0).is_some()
}

/// The pieces of `s` between the occurrences of `sep`, reading from index
/// `from`: a text without the separator is one piece, and two separators
/// side by side hold an empty piece between them.
pub open spec fn split_from(s: Seq<char>, sep: Seq<char>, from: int) -> Seq<Seq<char>>
    decreases s.len() + 1 - from,
{
    match find_from(s, sep, from) {
        Some(i) if sep.len() > 0 && from <= i && i + sep.len() <= s.len() => seq![
            s.subrange(from, i),
        ] + split_from(s, sep, i + sep.len()),
        _ => seq![s.subrange(from, s.len() as int)],
    }
}

/// The pieces of `s` between the occurrences of `sep`.
pub open spec fn split(s: Seq<char>, sep: Seq<char>) -> Seq<Seq<char>> {
    split_from(s, sep, 0)
}

/// The texts that a vector of character vectors holds.
pub open spec fn texts(parts: Seq<Vec<char>>) -> Seq<Seq<char>> {
    parts.map_values(|p: Vec<char>| p@)
}

/// The pieces of `s` between the occurrences of `sep`.
pub fn split_text(s: &Vec<char>, sep: &Vec<char>) -> (parts: Vec<Vec<char>>)
    ensures
        texts(parts@) == split(s@, sep@),
        parts.len() >= 1,
{
    let mut parts: Vec<Vec<char>> = Vec::new();
    let mut start: usize = 0;
    loop
        invariant_except_break
            start <= s.len(),
            split(s@, sep@) == texts(parts@) + split_from(s@, sep@, start as int),
        ensures
            texts(parts@) == split(s@, sep@),
            parts.len() >= 1,
        decreases s.len() - start,
    {
        let ghost before = texts(parts@);
        let found = if sep.len() > 0 {
            find_in(s, sep, start)
        } else {
            None
        };
        match found {
            Some(i) => {
                parts.push(slice_of(s, start, i));
                assert(texts(parts@) == before + seq![s@.subrange(start as int, i as int)]);
                start = i + sep.len();
            },
            None => {
                parts.push(slice_of(s, start, s.len()));
                assert(texts(parts@) == before + seq![
                    s@.subrange(start as int, s.len() as int),
                ]);
                break ;
            },
        }
    }
    parts
}

/// The pieces of `parts` in order, with `sep` between each two.
pub open spec fn join(parts: Seq<Seq<char>>, sep: Seq<char>) -> Seq<char>
    decreases parts.len(),
{
    if parts.len() == 0 {
        Seq::empty()
    } else if parts.len() == 1 {
        parts[0]
    } else {
        join(parts.drop_last(), sep) + sep + parts.last()
    }
}

/// Joining a piece in front of others puts the separator after it.
pub proof fn lemma_join_front(first: Seq<char>, rest: Seq<Seq<char>>, sep: Seq<char>)
    requires
        rest.len() > 0,
    ensures
        join(seq![first] + rest, sep) == first + sep + join(rest, sep),
    decreases rest.len(),
{
    let all = seq![first] + rest;
    assert(all.last() == rest.last());
    assert(join(all, sep) == join(all.drop_last(), sep) + sep + all.last());
    if rest.len() == 1 {
        assert(all.drop_last() == seq![first]);
        assert(join(seq![first], sep) == first);
        assert(join(rest, sep) == rest[0]);
    } else {
        assert(all.drop_last() == seq![first] + rest.drop_last());
        lemma_join_front(first, rest.drop_last(), sep);
        assert(join(rest, sep) == join(rest.drop_last(), sep) + sep + rest.last());
        assert(first + sep + join(rest.drop_last(), sep) + sep + rest.last() == first + sep + (join(
            rest.drop_last(),
            sep,
        ) + sep + rest.last()));
    }
}

/// Splitting cuts nothing away but the separators: the pieces of a text,
/// joined with the separator between them, are the text.
pub proof fn lemma_join_split(s: Seq<char>, sep: Seq<char>, from: int)
    requires
        0 <= from <= s.len(),
    ensures
        join(split_from(s, sep, from), sep) == s.subrange(from, s.len() as int),
        split_from(s, sep, from).len() >= 1,
    decreases s.len() + 1 - from,
{
    lemma_find_from(s, sep, from);
    match find_from(s, sep, from) {
        Some(i) if sep.len() > 0 && from <= i && i + sep.len() <= s.len() => {
            lemma_join_split(s, sep, i + sep.len());
            let rest = split_from(s, sep, i + sep.len());
            lemma_join_front(s.subrange(from, i), rest, sep);
            assert(s.subrange(from, i) + sep + s.subrange(i + sep.len(), s.len() as int)
                == s.subrange(from, s.len() as int)) by {
                assert(s.subrange(i, i + sep.len()) == sep);
                assert(s.subrange(from, i) + s.subrange(i, i + sep.len()) + s.subrange(
                    i + sep.len(),
                    s.len() as int,
                ) == s.subrange(from, s.len() as int));
            }
        },
        _ => {},
    }
}

/// A text without the separator is one piece.
pub proof fn lemma_split_whole(s: Seq<char>, sep: Seq<char>)
    requires
        !contains(s, sep),
    ensures
        split(s, sep) == seq![s],
{
    lemma_find_contains(s, sep);
    assert(s.subrange(0, s.len() as int) == s);
}

/// The pieces of `parts` from index `lo` up to `hi`, with `sep` between
/// each two.
pub fn join_text(parts: &Vec<Vec<char>>, lo: usize, hi: usize, sep: &Vec<char>) -> (r: Vec<char>)
    requires
        lo <= hi <= parts.len(),
    ensures
        r@ == join(texts(parts@).subrange(lo as int, hi as int), sep@),
{
    let ghost all = texts(parts@).subrange(lo as int, hi as int);
    let mut r: Vec<char> = Vec::new();
    let mut i: usize = lo;
    while i < hi
        invariant
            lo <= i <= hi <= parts.len(),
            all == texts(parts@).subrange(lo as int, hi as int),
            r@ == join(all.take(i - lo), sep@),
        decreases hi - i,
    {
        proof {
            let next = all.take(i + 1 - lo);
            assert(next.drop_last() == all.take(i - lo));
            assert(next.last() == parts[i as int]@);
        }
        if i > lo {
            append_chars(&mut r, sep);
        }
        append_chars(&mut r, &parts[i]);
        i += 1;
    }
    assert(all.take(hi - lo) == all);
    r
}

/// The first index at or after `from` that holds no space, or the length.
pub open spec fn skip_spaces(s: Seq<char>, from: int) -> int
    decreases s.len() - from,
{
    if 0 <= from < s.len() && s[from] == ' ' {
        skip_spaces(s, from + 1)
    } else {
        from
    }
}

/// `s` without the spaces at its end.
pub open spec fn trim_end(s: Seq<char>) -> Seq<char>
    decreases s.len(),
{
    if s.len() > 0 && s.last() == ' ' {
        trim_end(s.drop_last())
    } else {
        s
    }
}

/// `s` without the spaces at its start and at its end.
pub open spec fn trim(s: Seq<char>) -> Seq<char> {
    let a = skip_spaces(s, 0);
    if 0 <= a <= s.len() {
        trim_end(s.skip(a))
    } else {
        s
    }
}

/// `s` without the spaces at its start and at its end.
pub fn trim_text(s: &Vec<char>) -> (r: Vec<char>)
    ensures
        r@ == trim(s@),
{
    let mut a: usize = 0;
    while a < s.len() && s[a] == ' '
        invariant
            a <= s.len(),
            skip_spaces(s@, 0) == skip_spaces(s@, a as int),
        decreases s.len() - a,
    {
        a += 1;
    }
    let mut b: usize = s.len();
    while b > a && s[b - 1] == ' '
        invariant
            a <= b <= s.len(),
            trim_end(s@.skip(a as int)) == trim_end(s@.subrange(a as int, b as int)),
        decreases b,
    {
        assert(s@.subrange(a as int, b as int).drop_last() == s@.subrange(a as int, b - 1));
        b -= 1;
    }
    assert(s@.skip(a as int) == s@.subrange(a as int, s.len() as int));
    slice_of(s, a, b)
}

/// The white space of ASCII: space, tab, line feed, form feed, carriage return.
pub open spec fn is_whitespace(c: char) -> bool {
    c == ' ' || c == '\t' || c == '\n' || c == '\x0C' || c == '\r'
}

/// Whether `c` is white space of ASCII.
pub fn whitespace(c: char) -> (r: bool)
    ensures
        r == is_whitespace(c),
{
    c == ' ' || c == '\t' || c == '\n' || c == '\x0C' || c == '\r'
}

/// The first index at or after `from` that holds no white space, or the length.
pub open spec fn skip_whitespace(s: Seq<char>, from: int) -> int
    decreases s.len() - from,
{
    if 0 <= from < s.len() && is_whitespace(s[from]) {
        skip_whitespace(s, from + 1)
    } else {
        from
    }
}

/// The first index at or after `from` that holds white space, or the length.
pub open spec fn skip_word(s: Seq<char>, from: int) -> int
    decreases s.len() - from,
{
    if 0 <= from < s.len() && !is_whitespace(s[from]) {
        skip_word(s, from + 1)
    } else {
        from
    }
}

/// The words of `s` from index `from` on: the longest runs of characters
/// that are no white space.
pub open spec fn words_from(s: Seq<char>, from: int) -> Seq<Seq<char>>
    decreases s.len() - from,
{
    let a = skip_whitespace(s, from);
    let b = skip_word(s, a);
    if from <= a < b <= s.len() {
        seq![s.subrange(a, b)] + words_from(s, b)
    } else {
        Seq::empty()
    }
}

/// The words of `s`.
pub open spec fn words(s: Seq<char>) -> Seq<Seq<char>> {
    words_from(s, 0)
}

/// The words of `s`.
pub fn words_of(s: &Vec<char>) -> (r: Vec<Vec<char>>)
    ensures
        texts(r@) == words(s@),
{
    let mut r: Vec<Vec<char>> = Vec::new();
    let mut from: usize = 0;
    loop
        invariant_except_break
            from <= s.len(),
            words(s@) == texts(r@) + words_from(s@, from as int),
        ensures
            texts(r@) == words(s@),
        decreases s.len() - from,
    {
        let mut a: usize = from;
        while a < s.len() && whitespace(s[a])
            invariant
                from <= a <= s.len(),
                skip_whitespace(s@, from as int) == skip_whitespace(s@, a as int),
            decreases s.len() - a,
        {
            a += 1;
        }
        let mut b: usize = a;
        while b < s.len() && !whitespace(s[b])
            invariant
                a <= b <= s.len(),
                skip_word(s@, a as int) == skip_word(s@, b as int),
            decreases s.len() - b,
        {
            b += 1;
        }
        if a < b {
            let ghost before = texts(r@);
            r.push(slice_of(s, a, b));
            assert(texts(r@) == before + seq![s@.subrange(a as int, b as int)]);
            from = b;
        } else {
            assert(texts(r@) + Seq::<Seq<char>>::empty() == texts(r@));
            break ;
        }
    }
    r
}

/// What the digit `c` counts for in base ten, or in base sixteen where `hex`
/// holds.
pub open spec fn digit_value(c: char, hex: bool) -> Option<nat> {
    if '0' <= c <= '9' {
        Some((c as u32 - '0' as u32) as nat)
    } else if hex && 'a' <= c <= 'f' {
        Some((c as u32 - 'a' as u32 + 10) as nat)
    } else if hex && 'A' <= c <= 'F' {
        Some((c as u32 - 'A' as u32 + 10) as nat)
    } else {
        None
    }
}

/// The base: sixteen where `hex` holds, else ten.
pub open spec fn radix(hex: bool) -> nat {
    if hex {
        16
    } else {
        10
    }
}

/// Every character of `s` is a digit of the base.
pub open spec fn all_digits(s: Seq<char>, hex: bool) -> bool {
    forall|i: int| 0 <= i < s.len() ==> (#[trigger] digit_value(s[i], hex)) is Some
}

/// The number that the digits of `s` write in the base, most significant
/// digit first.
pub open spec fn number_value(s: Seq<char>, hex: bool) -> nat
    decreases s.len(),
{
    if s.len() == 0 {
        0
    } else {
        number_value(s.drop_last(), hex) * radix(hex) + match digit_value(s.last(), hex) {
            Some(d) => d,
            None => 0,
        }
    }
}

/// The number that `s` writes, where `s` is one digit or more and nothing
/// else.
pub open spec fn parse_number(s: Seq<char>, hex: bool) -> Option<nat> {
    if s.len() > 0 && all_digits(s, hex) {
        Some(number_value(s, hex))
    } else {
        None
    }
}

/// A longer row of digits writes no smaller number than its beginning.
pub proof fn lemma_number_value_grows(s: Seq<char>, hex: bool, n: int)
    requires
        0 <= n <= s.len(),
    ensures
        number_value(s.take(n), hex) <= number_value(s, hex),
    decreases s.len(),
{
    if n == s.len() {
        assert(s.take(n) == s);
    } else {
        assert(s.drop_last().take(n) == s.take(n));
        lemma_number_value_grows(s.drop_last(), hex, n);
        assert(number_value(s.drop_last(), hex) <= number_value(s.drop_last(), hex) * radix(hex))
            by (nonlinear_arith)
            requires
                radix(hex) >= 1,
        ;
    }
}

/// What the digit `c` counts for.
pub fn digit_of(c: char, hex: bool) -> (r: Option<usize>)
    ensures
        match r {
            Some(d) => digit_value(c, hex) == Some(d as nat) && d < 16,
            None => digit_value(c, hex) is None,
        },
{
    if '0' <= c && c <= '9' {
        Some((c as u32 - '0' as u32) as usize)
    } else if hex && 'a' <= c && c <= 'f' {
        Some((c as u32 - 'a' as u32 + 10) as usize)
    } else if hex && 'A' <= c && c <= 'F' {
        Some((c as u32 - 'A' as u32 + 10) as usize)
    } else {
        None
    }
}

/// The number that `s` writes in base ten, or in base sixteen where `hex`
/// holds; nothing where `s` is empty, holds anything but digits, or writes a
/// number that a `usize` cannot hold.
pub fn parse_usize(s: &Vec<char>, hex: bool) -> (r: Option<usize>)
    ensures
        r == match parse_number(s@, hex) {
            Some(v) if v <= usize::MAX => Some(v as usize),
            _ => None::<usize>,
        },
{
    if s.len() == 0 {
        return None;
    }
    let base: usize = if hex {
        16
    } else {
        10
    };
    let mut acc: usize = 0;
    let mut i: usize = 0;
    while i < s.len()
        invariant
            i <= s.len(),
            base == radix(hex),
            all_digits(s@.take(i as int), hex),
            acc == number_value(s@.take(i as int), hex),
        decreases s.len() - i,
    {
        let ghost next = s@.take(i + 1);
        assert(next.drop_last() == s@.take(i as int));
        match digit_of(s[i], hex) {
            None => {
                assert(digit_value(s@[i as int], hex) is None);
                return None;
            },
            Some(d) => {
                assert forall|k: int| 0 <= k < next.len() implies (#[trigger] digit_value(
                    next[k],
                    hex,
                )) is Some by {
                    if k < i {
                        assert(next[k] == s@.take(i as int)[k]);
                    }
                }
                let shifted = match acc.checked_mul(base) {
                    Some(v) => v,
                    None => {
                        proof {
                            lemma_number_value_grows(s@, hex, i + 1);
                        }
                        return None;
                    },
                };
                acc = match shifted.checked_add(d) {
                    Some(v) => v,
                    None => {
                        proof {
                            lemma_number_value_grows(s@, hex, i + 1);
                        }
                        return None;
                    },
                };
            },
        }
        i += 1;
    }
    assert(s@.take(s.len() as int) == s@);
    Some(acc)
}

/// The whole number that `s` writes in base ten: digits, with `+` or `-`
/// before them or with neither.
pub open spec fn parse_integer(s: Seq<char>) -> Option<int> {
    if s.len() > 0 && s[0] == '-' {
        match parse_number(s.skip(1), false) {
            Some(v) => Some(-(v as int)),
            None => None,
        }
    } else if s.len() > 0 && s[0] == '+' {
        match parse_number(s.skip(1), false) {
            Some(v) => Some(v as int),
            None => None,
        }
    } else {
        match parse_number(s, false) {
            Some(v) => Some(v as int),
            None => None,
        }
    }
}

/// The whole number that `s` writes; nothing where `s` writes none, or one
/// that an `isize` cannot hold.
pub fn parse_isize(s: &Vec<char>) -> (r: Option<isize>)
    ensures
        r == match parse_integer(s@) {
            Some(v) if isize::MIN <= v <= isize::MAX => Some(v as isize),
            _ => None::<isize>,
        },
{
    if s.len() > 0 && (s[0] == '-' || s[0] == '+') {
        let negative = s[0] == '-';
        let digits = slice_of(s, 1, s.len());
        assert(digits@ == s@.skip(1));
        match parse_usize(&digits, false) {
            None => None,
            Some(m) => {
                if negative {
                    if m as u128 <= isize::MAX as u128 + 1 {
                        Some((-(m as i128)) as isize)
                    } else {
                        None
                    }
                } else if m as u128 <= isize::MAX as u128 {
                    Some(m as isize)
                } else {
                    None
                }
            },
        }
    } else {
        match parse_usize(s, false) {
            Some(m) if m as u128 <= isize::MAX as u128 => Some(m as isize),
            _ => None,
        }
    }
}

/// The character that writes the digit `d` in base ten.
pub open spec fn digit_char(d: nat) -> char {
    if d == 0 {
        '0'
    } else if d == 1 {
        '1'
    } else if d == 2 {
        '2'
    } else if d == 3 {
        '3'
    } else if d == 4 {
        '4'
    } else if d == 5 {
        '5'
    } else if d == 6 {
        '6'
    } else if d == 7 {
        '7'
    } else if d == 8 {
        '8'
    } else {
        '9'
    }
}

/// `n` written in base ten, without leading zeros.
pub open spec fn decimal_text(n: nat) -> Seq<char>
    decreases n,
{
    if n < 10 {
        seq![digit_char(n)]
    } else {
        decimal_text(n / 10).push(digit_char(n % 10))
    }
}

/// The character that writes the digit `d`.
pub fn digit_to_char(d: usize) -> (c: char)
    requires
        d < 10,
    ensures
        c == digit_char(d as nat),
{
    if d == 0 {
        '0'
    } else if d == 1 {
        '1'
    } else if d == 2 {
        '2'
    } else if d == 3 {
        '3'
    } else if d == 4 {
        '4'
    } else if d == 5 {
        '5'
    } else if d == 6 {
        '6'
    } else if d == 7 {
        '7'
    } else if d == 8 {
        '8'
    } else {
        '9'
    }
}

/// Appends `n`, written in base ten, to `out`.
pub fn push_decimal(out: &mut Vec<char>, n: usize)
    ensures
        final(out)@ == old(out)@ + decimal_text(n as nat),
    decreases n,
{
    if n >= 10 {
        push_decimal(out, n / 10);
    }
    out.push(digit_to_char(n % 10));
}

/// What a row of digits written by `decimal_text` reads back as.
pub proof fn lemma_decimal_round_trip(n: nat)
    ensures
        parse_number(decimal_text(n), false) == Some(n),
    decreases n,
{
    let t = decimal_text(n);
    assert(digit_value(digit_char(n % 10), false) == Some(n % 10));
    if n < 10 {
        assert(t.drop_last() == Seq::<char>::empty());
        assert(number_value(t.drop_last(), false) == 0);
        assert(number_value(t, false) == n);
    } else {
        lemma_decimal_round_trip(n / 10);
        assert(t.drop_last() == decimal_text(n / 10));
        assert(number_value(t, false) == number_value(t.drop_last(), false) * 10 + n % 10);
        assert forall|i: int| 0 <= i < t.len() implies (#[trigger] digit_value(t[i], false))
            is Some by {
            if i < t.len() - 1 {
                assert(t[i] == decimal_text(n / 10)[i]);
            }
        }
    }
}

/// The small letter for a capital letter of ASCII; any other character
/// unchanged.
pub open spec fn lower(c: char) -> char {
    if 'A' <= c && c <= 'Z' {
        ((c as u8) + 32) as u8 as char
    } else {
        c
    }
}

/// Two texts agree but for the case of ASCII letters.
pub open spec fn eq_ignore_case(a: Seq<char>, b: Seq<char>) -> bool {
    a.len() == b.len() && forall|i: int| 0 <= i < a.len() ==> lower(a[i]) == lower(b[i])
}

/// The small letter for a capital letter of ASCII.
pub fn to_lower(c: char) -> (r: char)
    ensures
        r == lower(c),
{
    if 'A' <= c && c <= 'Z' {
        ((c as u8) + 32) as char
    } else {
        c
    }
}

/// Whether two texts agree but for the case of ASCII letters.
pub fn same_ignore_case(a: &Vec<char>, b: &Vec<char>) -> (r: bool)
    ensures
        r == eq_ignore_case(a@, b@),
{
    if a.len() != b.len() {
        return false;
    }
    let mut i: usize = 0;
    while i < a.len()
        invariant
            i <= a.len(),
            a.len() == b.len(),
            forall|k: int| 0 <= k < i ==> lower(a@[k]) == lower(b@[k]),
        decreases a.len() - i,
    {
        if to_lower(a[i]) != to_lower(b[i]) {
            return false;
        }
        i += 1;
    }
    true
}

} // verus!
