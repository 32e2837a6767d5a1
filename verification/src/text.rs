//! Text as sequences of characters: comparison, building, decimal numbers.

use vstd::prelude::*;
use vstd::string::*;

verus! {

/// The texts of a list of strings.
pub open spec fn lines(v: Seq<String>) -> Seq<Seq<char>> {
    v.map_values(|e: String| e@)
}

/// Builds a string from its characters with `String::from_iter`, which
/// std documents as collecting the characters in order. The contract
/// claims exactly that: the string's characters are those of `chars`.
#[verifier::external_body]
pub(crate) fn string_of(chars: &Vec<char>) -> (s: String)
    ensures
        s@ == chars@,
{
    String::from_iter(chars.iter())
}

/// The characters of a string, in order.
pub fn chars_of(s: &str) -> (chars: Vec<char>)
    ensures
        chars@ == s@,
{
    let n = s.unicode_len();
    let mut chars: Vec<char> = Vec::new();
    let mut i: usize = 0;
    while i < n
        invariant
            n == s@.len(),
            0 <= i <= n,
            chars@ == s@.take(i as int),
        decreases n - i,
    {
        chars.push(s.get_char(i));
        i = i + 1;
        assert(chars@ =~= s@.take(i as int));
    }
    assert(s@.take(n as int) =~= s@);
    chars
}

/// Whether two strings hold the same characters.
pub fn same_text(a: &str, b: &str) -> (same: bool)
    ensures
        same == (a@ == b@),
{
    let n = a.unicode_len();
    if b.unicode_len() != n {
        return false;
    }
    let mut i: usize = 0;
    while i < n
        invariant
            n == a@.len(),
            n == b@.len(),
            0 <= i <= n,
            forall|j: int| 0 <= j < i ==> a@[j] == b@[j],
        decreases n - i,
    {
        if a.get_char(i) != b.get_char(i) {
            return false;
        }
        i = i + 1;
    }
    assert(a@ =~= b@);
    true
}

/// `head` followed by `tail`.
pub fn joined(head: &str, tail: &str) -> (s: String)
    ensures
        s@ == head@ + tail@,
{
    let mut s = String::from_str(head);
    s.append(tail);
    s
}

/// A failure's text: what failed, a colon, and the cause.
pub open spec fn failure_text(what: Seq<char>, cause: Seq<char>) -> Seq<char> {
    what + ": "@ + cause
}

/// Builds the text of a failure.
pub fn failure(what: &str, cause: &str) -> (s: String)
    ensures
        s@ == failure_text(what@, cause@),
{
    let mut s = String::from_str(what);
    s.append(": ");
    s.append(cause);
    s
}

/// The decimal digit for `d`.
pub open spec fn digit(d: int) -> char {
    if d == 0 {
        '0'
    } else if d == 1 {
        '1'
    } else if d == 2 {
        '2'
    } else if d == 3 {
        '3'
    } else if d == 4 {
        '4'
    } else if d == 5 {
        '5'
    } else if d == 6 {
        '6'
    } else if d == 7 {
        '7'
    } else if d == 8 {
        '8'
    } else {
        '9'
    }
}

/// The decimal numeral of `n`, without leading zeros.
pub open spec fn decimal(n: nat) -> Seq<char>
    decreases n,
{
    if n < 10 {
        seq![digit(n as int)]
    } else {
        decimal(n / 10).push(digit((n % 10) as int))
    }
}

fn digit_char(d: u64) -> (c: char)
    requires
        d < 10,
    ensures
        c == digit(d as int),
{
    if d == 0 {
        '0'
    } else if d == 1 {
        '1'
    } else if d == 2 {
        '2'
    } else if d == 3 {
        '3'
    } else if d == 4 {
        '4'
    } else if d == 5 {
        '5'
    } else if d == 6 {
        '6'
    } else if d == 7 {
        '7'
    } else if d == 8 {
        '8'
    } else {
        '9'
    }
}

/// The decimal numeral of `n` as a string.
pub fn number_text(n: u64) -> (s: String)
    ensures
        s@ == decimal(n as nat),
{
    // Digits come out lowest first; `tail` holds them in reading order.
    let mut rest: u64 = n;
    let mut low_first: Vec<char> = Vec::new();
    let ghost mut tail: Seq<char> = Seq::empty();
    while rest >= 10
        invariant
            low_first@.len() == tail.len(),
            forall|j: int| 0 <= j < tail.len() ==> low_first@[j] == tail[tail.len() - 1 - j],
            decimal(n as nat) == decimal(rest as nat) + tail,
        decreases rest,
    {
        let c = digit_char(rest % 10);
        low_first.push(c);
        proof {
            assert(decimal(rest as nat) == decimal((rest / 10) as nat).push(c));
            assert(decimal((rest / 10) as nat).push(c) + tail =~= decimal((rest / 10) as nat) + (
            seq![c] + tail));
            tail = seq![c] + tail;
        }
        rest = rest / 10;
    }
    let c = digit_char(rest);
    low_first.push(c);
    proof {
        assert(decimal(rest as nat) + tail =~= seq![c] + tail);
        tail = seq![c] + tail;
    }
    let mut chars: Vec<char> = Vec::new();
    let mut i: usize = low_first.len();
    while i > 0
        invariant
            0 <= i <= low_first.len(),
            low_first@.len() == tail.len(),
            forall|j: int| 0 <= j < tail.len() ==> low_first@[j] == tail[tail.len() - 1 - j],
            chars@ == tail.take(tail.len() - i),
        decreases i,
    {
        i = i - 1;
        chars.push(low_first[i]);
        assert(chars@ =~= tail.take(tail.len() - i));
    }
    assert(tail.take(tail.len() as int) =~= tail);
    string_of(&chars)
}

/// Whether a character is white space, as Unicode defines it.
pub open spec fn is_space(c: char) -> bool {
    let n = c as u32;
    ||| 0x09 <= n <= 0x0d
    ||| n == 0x20
    ||| n == 0x85
    ||| n == 0xa0
    ||| n == 0x1680
    ||| 0x2000 <= n <= 0x200a
    ||| n == 0x2028
    ||| n == 0x2029
    ||| n == 0x202f
    ||| n == 0x205f
    ||| n == 0x3000
}

/// Whether a character is white space.
pub fn is_whitespace(c: char) -> (b: bool)
    ensures
        b == is_space(c),
{
    let n = c as u32;
    (0x09 <= n && n <= 0x0d) || n == 0x20 || n == 0x85 || n == 0xa0 || n == 0x1680 || (0x2000 <= n
        && n <= 0x200a) || n == 0x2028 || n == 0x2029 || n == 0x202f || n == 0x205f || n == 0x3000
}

/// `s` without its carriage returns.
pub open spec fn without_returns(s: Seq<char>) -> Seq<char>
    decreases s.len(),
{
    if s.len() == 0 {
        s
    } else if s.last() == '\r' {
        without_returns(s.drop_last())
    } else {
        without_returns(s.drop_last()).push(s.last())
    }
}

/// The words of `s`, each followed by the next after one space: white space
/// at the ends is dropped, and every run of white space between two words
/// becomes a single space.
pub open spec fn squeezed(s: Seq<char>) -> Seq<char>
    decreases s.len(),
{
    if s.len() == 0 {
        s
    } else if is_space(s.last()) {
        squeezed(s.drop_last())
    } else if s.len() >= 2 && is_space(s[s.len() - 2]) && squeezed(s.drop_last()).len() > 0 {
        squeezed(s.drop_last()).push(' ').push(s.last())
    } else {
        squeezed(s.drop_last()).push(s.last())
    }
}

/// The text as it is displayed: carriage returns removed, then the words
/// joined by single spaces.
pub open spec fn display_text(s: Seq<char>) -> Seq<char> {
    squeezed(without_returns(s))
}

/// The display text of a sequence of characters.
pub fn clean_chars(input: &Vec<char>) -> (out: Vec<char>)
    ensures
        out@ == display_text(input@),
{
    let mut out: Vec<char> = Vec::new();
    let mut gap = false;
    let ghost mut kept: Seq<char> = Seq::empty();
    let mut i: usize = 0;
    while i < input.len()
        invariant
            0 <= i <= input.len(),
            kept == without_returns(input@.take(i as int)),
            out@ == squeezed(kept),
            gap == (kept.len() > 0 && is_space(kept.last())),
        decreases input.len() - i,
    {
        let c = input[i];
        proof {
            assert(input@.take(i + 1).drop_last() =~= input@.take(i as int));
        }
        if c != '\r' {
            proof {
                assert(kept.push(c).drop_last() =~= kept);
            }
            if is_whitespace(c) {
                gap = true;
            } else {
                if gap && out.len() > 0 {
                    out.push(' ');
                }
                out.push(c);
                gap = false;
            }
            proof {
                kept = kept.push(c);
            }
        }
        i = i + 1;
    }
    assert(input@.take(input.len() as int) =~= input@);
    out
}

/// Cleans a string for display: carriage returns are removed, and the words
/// are joined by single spaces.
pub fn clean_display_string(input: &str) -> (out: String)
    ensures
        out@ == display_text(input@),
{
    let chars = chars_of(input);
    let cleaned = clean_chars(&chars);
    string_of(&cleaned)
}

/// `s` without the white space at its ends.
pub open spec fn trimmed(s: Seq<char>) -> Seq<char>
    decreases s.len(),
{
    if s.len() == 0 {
        s
    } else if is_space(s.last()) {
        trimmed(s.drop_last())
    } else {
        without_leading_space(s)
    }
}

/// `s` without the white space at its start.
pub open spec fn without_leading_space(s: Seq<char>) -> Seq<char>
    decreases s.len(),
{
    if s.len() == 0 {
        s
    } else if is_space(s.first()) {
        without_leading_space(s.drop_first())
    } else {
        s
    }
}

/// The characters from `from` up to `to`.
pub fn slice_of(chars: &Vec<char>, from: usize, to: usize) -> (out: Vec<char>)
    requires
        from <= to <= chars.len(),
    ensures
        out@ == chars@.subrange(from as int, to as int),
{
    let mut out: Vec<char> = Vec::new();
    let mut i: usize = from;
    while i < to
        invariant
            from <= i <= to,
            to <= chars.len(),
            out@ == chars@.subrange(from as int, i as int),
        decreases to - i,
    {
        out.push(chars[i]);
        i = i + 1;
        assert(out@ =~= chars@.subrange(from as int, i as int));
    }
    out
}

/// The characters without the white space at the ends.
pub fn trim_chars(chars: &Vec<char>) -> (out: Vec<char>)
    ensures
        out@ == trimmed(chars@),
{
    let mut end: usize = chars.len();
    assert(chars@.take(end as int) =~= chars@);
    while end > 0 && is_whitespace(chars[end - 1])
        invariant
            0 <= end <= chars.len(),
            trimmed(chars@) == trimmed(chars@.take(end as int)),
        decreases end,
    {
        proof {
            assert(chars@.take(end as int).drop_last() =~= chars@.take(end - 1));
        }
        end = end - 1;
    }
    let mut start: usize = 0;
    while start < end && is_whitespace(chars[start])
        invariant
            0 <= start <= end <= chars.len(),
            end > 0 ==> !is_space(chars@[end - 1]),
            trimmed(chars@) == without_leading_space(chars@.subrange(start as int, end as int)),
        decreases end - start,
    {
        proof {
            assert(chars@.subrange(start as int, end as int).drop_first() =~= chars@.subrange(
                start + 1,
                end as int,
            ));
        }
        start = start + 1;
    }
    proof {
        if end == 0 {
            assert(chars@.take(0) =~= Seq::<char>::empty());
        } else if start == 0 {
            assert(chars@.take(end as int) =~= chars@.subrange(0, end as int));
        }
    }
    slice_of(chars, start, end)
}

/// Whether every character is white space.
pub open spec fn all_space(s: Seq<char>) -> bool {
    forall|i: int| 0 <= i < s.len() ==> is_space(#[trigger] s[i])
}

/// Whether every character from `from` on is white space.
pub fn blank_from(chars: &Vec<char>, from: usize) -> (b: bool)
    requires
        from <= chars.len(),
    ensures
        b == all_space(chars@.skip(from as int)),
{
    let mut i: usize = from;
    while i < chars.len()
        invariant
            from <= i <= chars.len(),
            forall|j: int| from <= j < i ==> is_space(#[trigger] chars@[j]),
        decreases chars.len() - i,
    {
        if !is_whitespace(chars[i]) {
            assert(chars@.skip(from as int)[i - from] == chars@[i as int]);
            return false;
        }
        i = i + 1;
    }
    assert forall|k: int| 0 <= k < chars@.skip(from as int).len() implies is_space(
        #[trigger] chars@.skip(from as int)[k],
    ) by {
        assert(chars@.skip(from as int)[k] == chars@[from + k]);
    }
    true
}

/// Whether `pattern` stands in `s` at position `at`.
pub open spec fn occurs_at(s: Seq<char>, pattern: Seq<char>, at: int) -> bool {
    0 <= at && at + pattern.len() <= s.len() && s.subrange(at, at + pattern.len()) == pattern
}

/// Whether `pattern` stands in `chars` at position `at`.
pub fn matches_at(chars: &Vec<char>, pattern: &Vec<char>, at: usize) -> (b: bool)
    ensures
        b == occurs_at(chars@, pattern@, at as int),
{
    if pattern.len() > chars.len() || at > chars.len() - pattern.len() {
        return false;
    }
    let mut i: usize = 0;
    while i < pattern.len()
        invariant
            0 <= i <= pattern.len(),
            at + pattern.len() <= chars.len(),
            forall|j: int| 0 <= j < i ==> chars@[at + j] == pattern@[j],
        decreases pattern.len() - i,
    {
        if chars[at + i] != pattern[i] {
            assert(chars@.subrange(at as int, at + pattern.len())[i as int] == chars@[at + i]);
            return false;
        }
        i = i + 1;
    }
    assert(chars@.subrange(at as int, at + pattern.len()) =~= pattern@);
    true
}

/// The last position at which `pattern` stands in `s`.
pub open spec fn last_occurrence(s: Seq<char>, pattern: Seq<char>) -> Option<int> {
    if exists|at: int| occurs_at(s, pattern, at) {
        Some(
            choose|at: int|
                occurs_at(s, pattern, at) && forall|later: int|
                    at < later ==> !occurs_at(s, pattern, later),
        )
    } else {
        None
    }
}

/// The last position at which `pattern` stands in `chars`, if any.
pub fn find_last(chars: &Vec<char>, pattern: &Vec<char>) -> (found: Option<usize>)
    ensures
        match found {
            Some(at) => {
                &&& occurs_at(chars@, pattern@, at as int)
                &&& forall|later: int| at < later ==> !occurs_at(chars@, pattern@, later)
                &&& last_occurrence(chars@, pattern@) == Some(at as int)
            },
            None => {
                &&& forall|at: int| !occurs_at(chars@, pattern@, at)
                &&& last_occurrence(chars@, pattern@).is_none()
            },
        },
{
    if pattern.len() > chars.len() {
        return None;
    }
    let mut at: usize = chars.len() - pattern.len();
    loop
        invariant
            at + pattern.len() <= chars.len(),
            forall|later: int| at < later ==> !occurs_at(chars@, pattern@, later),
        decreases at,
    {
        if matches_at(chars, pattern, at) {
            proof {
                let chosen = choose|p: int|
                    occurs_at(chars@, pattern@, p) && forall|later: int|
                        p < later ==> !occurs_at(chars@, pattern@, later);
                assert(occurs_at(chars@, pattern@, at as int) && forall|later: int|
                    at < later ==> !occurs_at(chars@, pattern@, later));
                if chosen < at {
                    assert(!occurs_at(chars@, pattern@, at as int));
                }
            }
            return Some(at);
        }
        if at == 0 {
            return None;
        }
        at = at - 1;
    }
}

} // verus!
