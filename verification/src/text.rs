//! Text as sequences of characters: trimming, prefixes and decimal numbers.

use vstd::prelude::*;
use vstd::string::*;

verus! {

/// The characters of a string slice, in order.
pub fn chars_of(s: &str) -> (chars: Vec<char>)
    ensures
        chars@ == s@,
{
    let mut chars: Vec<char> = Vec::new();
    for c in it: s.chars()
        invariant
            chars@ == it.seq().take(it.index() as int),
            it.seq() == s@,
    {
        chars.push(c);
    }
    chars
}

/// Whether two string slices hold the same text.
pub fn same_text(a: &str, b: &str) -> (same: bool)
    ensures
        same == (a@ == b@),
{
    a.to_owned() == b.to_owned()
}

/// The characters that Unicode gives the property `White_Space`.
pub open spec fn is_whitespace(c: char) -> bool {
    let code = c as u32;
    ||| 0x09 <= code <= 0x0d
    ||| code == 0x20
    ||| code == 0x85
    ||| code == 0xa0
    ||| code == 0x1680
    ||| 0x2000 <= code <= 0x200a
    ||| code == 0x2028
    ||| code == 0x2029
    ||| code == 0x202f
    ||| code == 0x205f
    ||| code == 0x3000
}

/// Tells whether a character is white space.
pub fn char_is_whitespace(c: char) -> (white: bool)
    ensures
        white == is_whitespace(c),
{
    let code: u32 = c as u32;
    (0x09 <= code && code <= 0x0d) || code == 0x20 || code == 0x85 || code == 0xa0 || code
        == 0x1680 || (0x2000 <= code && code <= 0x200a) || code == 0x2028 || code == 0x2029
        || code == 0x202f || code == 0x205f || code == 0x3000
}

/// A text without the white space it begins with.
pub open spec fn trim_start(s: Seq<char>) -> Seq<char>
    decreases s.len(),
{
    if s.len() > 0 && is_whitespace(s.first()) {
        trim_start(s.drop_first())
    } else {
        s
    }
}

/// A text without the white space it ends with.
pub open spec fn trim_end(s: Seq<char>) -> Seq<char>
    decreases s.len(),
{
    if s.len() > 0 && is_whitespace(s.last()) {
        trim_end(s.drop_last())
    } else {
        s
    }
}

/// A text without the white space at both of its ends.
pub open spec fn trimmed(s: Seq<char>) -> Seq<char> {
    trim_end(trim_start(s))
}

/// A text without the copies of `pattern` that it begins with, one after
/// another.
pub open spec fn without_leading(s: Seq<char>, pattern: Seq<char>) -> Seq<char>
    decreases s.len(),
{
    if pattern.len() > 0 && pattern.is_prefix_of(s) {
        without_leading(s.skip(pattern.len() as int), pattern)
    } else {
        s
    }
}

/// Whether `pattern` stands in `chars` at position `at`.
fn stands_at(chars: &Vec<char>, at: usize, pattern: &Vec<char>) -> (found: bool)
    requires
        at <= chars.len(),
    ensures
        found == pattern@.is_prefix_of(chars@.skip(at as int)),
{
    if pattern.len() > chars.len() - at {
        return false;
    }
    let ghost rest = chars@.skip(at as int);
    let mut i: usize = 0;
    while i < pattern.len()
        invariant
            i <= pattern.len(),
            at <= chars.len(),
            pattern.len() <= chars.len() - at,
            rest == chars@.skip(at as int),
            forall|j: int| 0 <= j < i ==> pattern@[j] == rest[j],
        decreases pattern.len() - i,
    {
        if pattern[i] != chars[at + i] {
            assert(rest.subrange(0, pattern@.len() as int)[i as int] != pattern@[i as int]);
            return false;
        }
        i += 1;
    }
    assert(pattern@ =~= rest.subrange(0, pattern@.len() as int));
    true
}

/// The position in `chars` behind the leading copies of `pattern`.
pub fn skip_leading(chars: &Vec<char>, pattern: &Vec<char>) -> (at: usize)
    requires
        pattern@.len() > 0,
    ensures
        at <= chars@.len(),
        chars@.skip(at as int) == without_leading(chars@, pattern@),
{
    let mut at: usize = 0;
    assert(chars@.skip(0) == chars@);
    while stands_at(chars, at, pattern)
        invariant
            at <= chars.len(),
            pattern@.len() > 0,
            without_leading(chars@, pattern@) == without_leading(
                chars@.skip(at as int),
                pattern@,
            ),
        decreases chars.len() - at,
    {
        assert(chars@.skip(at as int).skip(pattern@.len() as int) == chars@.skip(
            at + pattern@.len(),
        ));
        at += pattern.len();
    }
    at
}

/// The bounds of what is left of `chars` from position `from` on when the
/// white space at both ends is taken away.
pub fn trim_bounds(chars: &Vec<char>, from: usize) -> (bounds: (usize, usize))
    requires
        from <= chars.len(),
    ensures
        from <= bounds.0 <= bounds.1 <= chars.len(),
        chars@.subrange(bounds.0 as int, bounds.1 as int) == trimmed(chars@.skip(from as int)),
{
    let n = chars.len();
    let mut start: usize = from;
    while start < n && char_is_whitespace(chars[start])
        invariant
            from <= start <= n,
            n == chars.len(),
            trim_start(chars@.skip(from as int)) == trim_start(chars@.skip(start as int)),
        decreases n - start,
    {
        assert(chars@.skip(start as int).drop_first() == chars@.skip(start + 1));
        start += 1;
    }
    assert(chars@.skip(start as int) == chars@.subrange(start as int, n as int));
    let mut end: usize = n;
    while end > start && char_is_whitespace(chars[end - 1])
        invariant
            start <= end <= n,
            n == chars.len(),
            trimmed(chars@.skip(from as int)) == trim_end(
                chars@.subrange(start as int, end as int),
            ),
        decreases end,
    {
        assert(chars@.subrange(start as int, end as int).drop_last() == chars@.subrange(
            start as int,
            end - 1,
        ));
        end -= 1;
    }
    (start, end)
}

/// What trimming leaves is a stretch of the text that neither begins nor ends
/// with white space, and only white space stands outside it.
pub proof fn lemma_trimmed(s: Seq<char>)
    ensures
        trimmed(s).len() > 0 ==> !is_whitespace(trimmed(s).first()) && !is_whitespace(
            trimmed(s).last(),
        ),
        exists|start: int, end: int|
            0 <= start <= end <= s.len() && trimmed(s) == #[trigger] s.subrange(start, end)
                && (forall|i: int| 0 <= i < start ==> is_whitespace(s[i])) && (forall|i: int|
                end <= i < s.len() ==> is_whitespace(s[i])),
{
    lemma_trim_start(s);
    let start = choose|start: int|
        0 <= start <= s.len() && trim_start(s) == s.skip(start) && (forall|i: int|
            0 <= i < start ==> is_whitespace(s[i])) && (start < s.len() ==> !is_whitespace(
            s[start],
        ));
    let rest = s.skip(start);
    lemma_trim_end(rest);
    let kept = choose|kept: int|
        0 <= kept <= rest.len() && trim_end(rest) == rest.take(kept) && (forall|i: int|
            kept <= i < rest.len() ==> is_whitespace(rest[i])) && (kept > 0 ==> !is_whitespace(
            rest[kept - 1],
        ));
    assert(rest.take(kept) =~= s.subrange(start, start + kept));
    assert forall|i: int| start + kept <= i < s.len() implies is_whitespace(s[i]) by {
        assert(rest[i - start] == s[i]);
    }
    if kept > 0 {
        assert(rest.take(kept).first() == s[start]);
        assert(rest.take(kept).last() == rest[kept - 1]);
    }
}

/// What `trim_start` leaves: the text from its first character on that is no
/// white space.
proof fn lemma_trim_start(s: Seq<char>)
    ensures
        exists|start: int|
            0 <= start <= s.len() && trim_start(s) == #[trigger] s.skip(start) && (forall|i: int|
                0 <= i < start ==> is_whitespace(s[i])) && (start < s.len() ==> !is_whitespace(
                s[start],
            )),
    decreases s.len(),
{
    if s.len() > 0 && is_whitespace(s.first()) {
        let rest = s.drop_first();
        lemma_trim_start(rest);
        let inner = choose|start: int|
            0 <= start <= rest.len() && trim_start(rest) == #[trigger] rest.skip(start) && (
            forall|i: int| 0 <= i < start ==> is_whitespace(rest[i])) && (start < rest.len()
                ==> !is_whitespace(rest[start]));
        assert(rest.skip(inner) =~= s.skip(inner + 1));
        assert forall|i: int| 0 <= i < inner + 1 implies is_whitespace(s[i]) by {
            if i > 0 {
                assert(rest[i - 1] == s[i]);
            }
        }
        if inner + 1 < s.len() {
            assert(rest[inner] == s[inner + 1]);
        }
    } else {
        assert(s.skip(0) =~= s);
    }
}

/// What `trim_end` leaves: the text up to its last character that is no
/// white space.
proof fn lemma_trim_end(s: Seq<char>)
    ensures
        exists|kept: int|
            0 <= kept <= s.len() && trim_end(s) == #[trigger] s.take(kept) && (forall|i: int|
                kept <= i < s.len() ==> is_whitespace(s[i])) && (kept > 0 ==> !is_whitespace(
                s[kept - 1],
            )),
    decreases s.len(),
{
    if s.len() > 0 && is_whitespace(s.last()) {
        let rest = s.drop_last();
        lemma_trim_end(rest);
        let inner = choose|kept: int|
            0 <= kept <= rest.len() && trim_end(rest) == #[trigger] rest.take(kept) && (
            forall|i: int| kept <= i < rest.len() ==> is_whitespace(rest[i])) && (kept > 0
                ==> !is_whitespace(rest[kept - 1]));
        assert(rest.take(inner) =~= s.take(inner));
        assert forall|i: int| inner <= i < s.len() implies is_whitespace(s[i]) by {
            if i < rest.len() {
                assert(rest[i] == s[i]);
            }
        }
        if inner > 0 {
            assert(rest[inner - 1] == s[inner - 1]);
        }
    } else {
        assert(s.take(s.len() as int) =~= s);
    }
}

/// The text of `s` without the white space at both of its ends.
pub fn trim(s: &str) -> (text: String)
    ensures
        text@ == trimmed(s@),
{
    let chars = chars_of(s);
    assert(chars@.skip(0) == chars@);
    let (start, end) = trim_bounds(&chars, 0);
    s.substring_char(start, end).to_owned()
}

/// The decimal digit for a number below ten.
pub open spec fn digit(d: int) -> char
    recommends
        0 <= d < 10,
{
    if d == 0 {
        '0'
    } else if d == 1 {
        '1'
    } else if d == 2 {
        '2'
    } else if d == 3 {
        '3'
    } else if d == 4 {
        '4'
    } else if d == 5 {
        '5'
    } else if d == 6 {
        '6'
    } else if d == 7 {
        '7'
    } else if d == 8 {
        '8'
    } else {
        '9'
    }
}

/// A natural number written in decimal digits, without leading zeros.
pub open spec fn decimal(n: nat) -> Seq<char>
    decreases n,
{
    if n < 10 {
        seq![digit(n as int)]
    } else {
        decimal(n / 10).push(digit((n % 10) as int))
    }
}

/// The text of one decimal digit.
fn digit_text(d: u128) -> (text: &'static str)
    requires
        d < 10,
    ensures
        text@ == seq![digit(d as int)],
{
    proof {
        reveal_strlit("0");
        reveal_strlit("1");
        reveal_strlit("2");
        reveal_strlit("3");
        reveal_strlit("4");
        reveal_strlit("5");
        reveal_strlit("6");
        reveal_strlit("7");
        reveal_strlit("8");
        reveal_strlit("9");
    }
    let text = if d == 0 {
        "0"
    } else if d == 1 {
        "1"
    } else if d == 2 {
        "2"
    } else if d == 3 {
        "3"
    } else if d == 4 {
        "4"
    } else if d == 5 {
        "5"
    } else if d == 6 {
        "6"
    } else if d == 7 {
        "7"
    } else if d == 8 {
        "8"
    } else {
        "9"
    };
    assert(text@ =~= seq![digit(d as int)]);
    text
}

/// Writes a number in decimal digits.
pub fn decimal_string(n: u128) -> (text: String)
    ensures
        text@ == decimal(n as nat),
    decreases n,
{
    if n < 10 {
        digit_text(n).to_owned()
    } else {
        let mut text = decimal_string(n / 10);
        text.append(digit_text(n % 10));
        assert(text@ =~= decimal(n as nat));
        text
    }
}

/// How many characters stand before the first `mark` in `s`: all of them
/// where there is no `mark`.
pub open spec fn count_before(s: Seq<char>, mark: char) -> nat
    decreases s.len(),
{
    if s.len() == 0 || s.first() == mark {
        0
    } else {
        1 + count_before(s.drop_first(), mark)
    }
}

/// How many characters stand behind the last `mark` in `s`: all of them
/// where there is no `mark`.
pub open spec fn count_after(s: Seq<char>, mark: char) -> nat
    decreases s.len(),
{
    if s.len() == 0 || s.last() == mark {
        0
    } else {
        1 + count_after(s.drop_last(), mark)
    }
}

/// What `count_before` counts: it stops at a `mark`, and no `mark` stands
/// before that.
pub proof fn lemma_count_before(s: Seq<char>, mark: char)
    ensures
        count_before(s, mark) <= s.len(),
        count_before(s, mark) < s.len() <==> s.contains(mark),
        count_before(s, mark) < s.len() ==> s[count_before(s, mark) as int] == mark,
        !s.take(count_before(s, mark) as int).contains(mark),
    decreases s.len(),
{
    let n = count_before(s, mark);
    if s.len() == 0 {
    } else if s.first() == mark {
        assert(s[0] == mark);
    } else {
        let rest = s.drop_first();
        lemma_count_before(rest, mark);
        let m = count_before(rest, mark);
        if s.contains(mark) {
            let i = choose|i: int| 0 <= i < s.len() && s[i] == mark;
            assert(rest[i - 1] == mark);
        }
        if rest.contains(mark) {
            let i = choose|i: int| 0 <= i < rest.len() && rest[i] == mark;
            assert(s[i + 1] == mark);
        }
        if s.take(n as int).contains(mark) {
            let i = choose|i: int| 0 <= i < n && s.take(n as int)[i] == mark;
            assert(rest.take(m as int)[i - 1] == mark);
        }
    }
}

/// What `count_after` counts: a `mark` stands right before the counted
/// characters, and none among them.
pub proof fn lemma_count_after(s: Seq<char>, mark: char)
    ensures
        count_after(s, mark) <= s.len(),
        count_after(s, mark) < s.len() <==> s.contains(mark),
        count_after(s, mark) < s.len() ==> s[s.len() - count_after(s, mark) - 1] == mark,
        !s.skip(s.len() - count_after(s, mark)).contains(mark),
    decreases s.len(),
{
    let n = count_after(s, mark);
    if s.len() == 0 {
    } else if s.last() == mark {
        assert(s[s.len() - 1] == mark);
    } else {
        let rest = s.drop_last();
        lemma_count_after(rest, mark);
        let m = count_after(rest, mark);
        if s.contains(mark) {
            let i = choose|i: int| 0 <= i < s.len() && s[i] == mark;
            assert(rest[i] == mark);
        }
        if rest.contains(mark) {
            let i = choose|i: int| 0 <= i < rest.len() && rest[i] == mark;
            assert(s[i] == mark);
        }
        let tail = s.skip(s.len() - n);
        if tail.contains(mark) {
            let i = choose|i: int| 0 <= i < tail.len() && tail[i] == mark;
            assert(rest.skip(rest.len() - m)[i] == mark);
        }
    }
}

/// Counts the characters before the first `mark`.
pub fn chars_before(chars: &Vec<char>, mark: char) -> (count: usize)
    ensures
        count == count_before(chars@, mark),
{
    let mut i: usize = 0;
    assert(chars@.skip(0) == chars@);
    while i < chars.len() && chars[i] != mark
        invariant
            i <= chars.len(),
            count_before(chars@, mark) == i + count_before(chars@.skip(i as int), mark),
        decreases chars.len() - i,
    {
        assert(chars@.skip(i as int).drop_first() == chars@.skip(i + 1));
        i += 1;
    }
    i
}

/// Counts the characters behind the last `mark`.
pub fn chars_after(chars: &Vec<char>, mark: char) -> (count: usize)
    ensures
        count == count_after(chars@, mark),
{
    let n = chars.len();
    let mut i: usize = 0;
    assert(chars@.take(n as int) == chars@);
    while i < n && chars[n - 1 - i] != mark
        invariant
            i <= n,
            n == chars.len(),
            count_after(chars@, mark) == i + count_after(chars@.take(n - i), mark),
        decreases n - i,
    {
        assert(chars@.take(n - i).drop_last() == chars@.take(n - i - 1));
        i += 1;
    }
    i
}

/// A text that may be absent, as plain values.
pub open spec fn text_view(text: Option<String>) -> Option<Seq<char>> {
    match text {
        Some(text) => Some(text@),
        None => None,
    }
}

} // verus!
