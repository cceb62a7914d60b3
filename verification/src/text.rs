//! Character-level scanning shared by the parsers of this crate: classes of
//! characters, the longest run of a class, words, lines and decimal numbers.

use vstd::prelude::*;

verus! {

/// Whether `c` has the Unicode property `White_Space`.
pub open spec fn is_whitespace(c: char) -> bool {
    ||| '\u{9}' <= c <= '\u{d}'
    ||| c == ' '
    ||| c == '\u{85}'
    ||| c == '\u{a0}'
    ||| c == '\u{1680}'
    ||| '\u{2000}' <= c <= '\u{200a}'
    ||| c == '\u{2028}'
    ||| c == '\u{2029}'
    ||| c == '\u{202f}'
    ||| c == '\u{205f}'
    ||| c == '\u{3000}'
}

/// Whether `c` is an ASCII decimal digit.
pub open spec fn is_digit(c: char) -> bool {
    '0' <= c <= '9'
}

/// A set of characters that a scan can run over.
#[derive(Clone, Copy, Debug, PartialEq, Eq, Structural)]
pub enum CharClass {
    /// The characters with the Unicode property `White_Space`.
    Whitespace,
    /// All other characters.
    NonWhitespace,
    /// Every character but this one.
    Except(char),
}

impl CharClass {
    /// Whether `c` belongs to the class.
    pub open spec fn has(self, c: char) -> bool {
        match self {
            CharClass::Whitespace => is_whitespace(c),
            CharClass::NonWhitespace => !is_whitespace(c),
            CharClass::Except(x) => c != x,
        }
    }

    /// Whether `c` belongs to the class.
    pub fn contains(&self, c: char) -> (b: bool)
        ensures
            b == self.has(c),
    {
        match self {
            CharClass::Whitespace => whitespace(c),
            CharClass::NonWhitespace => !whitespace(c),
            CharClass::Except(x) => c != *x,
        }
    }
}

/// Whether `c` has the Unicode property `White_Space`.
pub fn whitespace(c: char) -> (b: bool)
    ensures
        b == is_whitespace(c),
{
    ('\u{9}' <= c && c <= '\u{d}') || c == ' ' || c == '\u{85}' || c == '\u{a0}' || c
        == '\u{1680}' || ('\u{2000}' <= c && c <= '\u{200a}') || c == '\u{2028}' || c
        == '\u{2029}' || c == '\u{202f}' || c == '\u{205f}' || c == '\u{3000}'
}

/// The length of the longest prefix of `s` whose characters all belong to
/// `class`.
pub open spec fn span(s: Seq<char>, class: CharClass) -> nat
    decreases s.len(),
{
    if s.len() == 0 || !class.has(s[0]) {
        0
    } else {
        1 + span(s.drop_first(), class)
    }
}

/// `span` is the one position that ends a run: everything before it belongs
/// to the class, and the character at it, if there is one, does not.
pub proof fn lemma_span(s: Seq<char>, class: CharClass)
    ensures
        span(s, class) <= s.len(),
        forall|i: int| 0 <= i < span(s, class) ==> class.has(#[trigger] s[i]),
        span(s, class) < s.len() ==> !class.has(s[span(s, class) as int]),
    decreases s.len(),
{
    if s.len() != 0 && class.has(s[0]) {
        let rest = s.drop_first();
        lemma_span(rest, class);
        assert forall|i: int| 0 <= i < span(s, class) implies class.has(#[trigger] s[i]) by {
            if i > 0 {
                assert(s[i] == rest[i - 1]);
            }
        }
        if span(s, class) < s.len() {
            assert(s[span(s, class) as int] == rest[span(rest, class) as int]);
        }
    }
}

/// A position that ends a run of `class` at the start of `s` is `span`.
pub proof fn lemma_span_unique(s: Seq<char>, class: CharClass, n: int)
    requires
        0 <= n <= s.len(),
        forall|i: int| 0 <= i < n ==> class.has(#[trigger] s[i]),
        n < s.len() ==> !class.has(s[n]),
    ensures
        span(s, class) == n,
    decreases s.len(),
{
    if s.len() != 0 && class.has(s[0]) {
        let rest = s.drop_first();
        assert(n > 0);
        assert forall|i: int| 0 <= i < n - 1 implies class.has(#[trigger] rest[i]) by {
            assert(rest[i] == s[i + 1]);
        }
        if n - 1 < rest.len() {
            assert(rest[n - 1] == s[n]);
        }
        lemma_span_unique(rest, class, n - 1);
    } else if s.len() != 0 {
        if n > 0 {
            assert(class.has(s[0]));
        }
    }
}

/// The characters of `s`, in order.
pub fn chars_of(s: &str) -> (v: Vec<char>)
    ensures
        v@ == s@,
{
    let mut v: Vec<char> = Vec::new();
    for c in it: s.chars()
        invariant
            v@ == it.seq().take(it.index()),
            it.seq() == s@,
    {
        v.push(c);
    }
    v
}

/// The end of the run of `class` that starts at `from` and stays below `to`.
pub(crate) fn scan(v: &Vec<char>, from: usize, to: usize, class: CharClass) -> (end: usize)
    requires
        from <= to <= v.len(),
    ensures
        from <= end <= to,
        end - from == span(v@.subrange(from as int, to as int), class),
{
    let mut end = from;
    while end < to && class.contains(v[end])
        invariant
            from <= end <= to <= v.len(),
            forall|i: int| from <= i < end ==> class.has(#[trigger] v@[i]),
        decreases to - end,
    {
        end += 1;
    }
    proof {
        let s = v@.subrange(from as int, to as int);
        assert forall|i: int| 0 <= i < end - from implies class.has(#[trigger] s[i]) by {
            assert(s[i] == v@[from + i]);
        }
        lemma_span_unique(s, class, end - from);
    }
    end
}

/// The `n`-th word of `s`, counting from zero, where a word is a longest run
/// of characters that are not whitespace; `None` if `s` has no more than `n`
/// words.
pub open spec fn nth_word(s: Seq<char>, n: nat) -> Option<Seq<char>>
    decreases s.len(),
    via nth_word_decreases
{
    let rest = s.skip(span(s, CharClass::Whitespace) as int);
    let len = span(rest, CharClass::NonWhitespace);
    if len == 0 {
        None
    } else if n == 0 {
        Some(rest.take(len as int))
    } else {
        nth_word(rest.skip(len as int), (n - 1) as nat)
    }
}

#[via_fn]
proof fn nth_word_decreases(s: Seq<char>, n: nat) {
    lemma_span(s, CharClass::Whitespace);
    lemma_span(s.skip(span(s, CharClass::Whitespace) as int), CharClass::NonWhitespace);
}

/// The bounds in `v` of the `n`-th word of `v[from..to]`.
pub(crate) fn find_word(v: &Vec<char>, from: usize, to: usize, n: usize) -> (word: Option<
    (usize, usize),
>)
    requires
        from <= to <= v.len(),
    ensures
        match word {
            Some((start, end)) => from <= start < end <= to && nth_word(
                v@.subrange(from as int, to as int),
                n as nat,
            ) == Some(v@.subrange(start as int, end as int)),
            None => nth_word(v@.subrange(from as int, to as int), n as nat) is None,
        },
{
    let mut at = from;
    let mut left = n;
    loop
        invariant
            from <= at <= to <= v.len(),
            left <= n,
            nth_word(v@.subrange(from as int, to as int), n as nat) == nth_word(
                v@.subrange(at as int, to as int),
                left as nat,
            ),
        decreases to - at,
    {
        let ghost s = v@.subrange(at as int, to as int);
        let start = scan(v, at, to, CharClass::Whitespace);
        let end = scan(v, start, to, CharClass::NonWhitespace);
        proof {
            assert(s.skip(start - at) =~= v@.subrange(start as int, to as int));
            assert(v@.subrange(start as int, to as int).take(end - start) =~= v@.subrange(
                start as int,
                end as int,
            ));
            assert(v@.subrange(start as int, to as int).skip(end - start) =~= v@.subrange(
                end as int,
                to as int,
            ));
        }
        if end == start {
            return None;
        }
        if left == 0 {
            return Some((start, end));
        }
        left -= 1;
        at = end;
    }
}

/// The number that the decimal digits `s` write.
pub open spec fn decimal(s: Seq<char>) -> nat
    decreases s.len(),
{
    if s.len() == 0 {
        0
    } else {
        decimal(s.drop_last()) * 10 + (s.last() as nat - '0' as nat) as nat
    }
}

/// Whether every character of `s` is an ASCII decimal digit.
pub open spec fn all_digits(s: Seq<char>) -> bool {
    forall|i: int| 0 <= i < s.len() ==> is_digit(#[trigger] s[i])
}

/// `s` without the `+` that it may start with.
pub open spec fn without_sign(s: Seq<char>) -> Seq<char> {
    if s.len() > 0 && s[0] == '+' {
        s.skip(1)
    } else {
        s
    }
}

/// The `u32` that `s` writes in decimal: an optional `+`, then one or more
/// ASCII digits, with a value that fits; `None` for any other text.
pub open spec fn parse_u32(s: Seq<char>) -> Option<u32> {
    let digits = without_sign(s);
    if digits.len() > 0 && all_digits(digits) && decimal(digits) <= u32::MAX {
        Some(decimal(digits) as u32)
    } else {
        None
    }
}

/// A number does not get smaller when digits are written after it.
pub proof fn lemma_decimal_grows(s: Seq<char>, n: int)
    requires
        0 <= n <= s.len(),
    ensures
        decimal(s.take(n)) <= decimal(s),
    decreases s.len() - n,
{
    if n < s.len() {
        lemma_decimal_grows(s, n + 1);
        assert(s.take(n + 1).drop_last() =~= s.take(n));
    } else {
        assert(s.take(n) =~= s);
    }
}

/// The value of the digit `c`, if it is one.
pub fn digit(c: char) -> (d: Option<u32>)
    ensures
        d is Some <==> is_digit(c),
        d is Some ==> d.unwrap() == c as u32 - '0' as u32,
{
    if '0' <= c && c <= '9' {
        Some(c as u32 - '0' as u32)
    } else {
        None
    }
}

/// Reads `v[from..to]` as a `u32` in decimal.
pub(crate) fn read_u32(v: &Vec<char>, from: usize, to: usize) -> (value: Option<u32>)
    requires
        from <= to <= v.len(),
    ensures
        value == parse_u32(v@.subrange(from as int, to as int)),
{
    let ghost s = v@.subrange(from as int, to as int);
    let first = if from < to && v[from] == '+' {
        from + 1
    } else {
        from
    };
    let ghost digits = v@.subrange(first as int, to as int);
    assert(digits =~= without_sign(s));
    if first == to {
        return None;
    }
    let mut acc: u64 = 0;
    let mut i = first;
    while i < to
        invariant
            from <= first <= i <= to <= v.len(),
            first < to,
            s == v@.subrange(from as int, to as int),
            digits == v@.subrange(first as int, to as int),
            digits == without_sign(s),
            forall|j: int| 0 <= j < i - first ==> is_digit(#[trigger] digits[j]),
            acc == decimal(digits.take(i - first)),
            acc <= u32::MAX,
        decreases to - i,
    {
        let d = match digit(v[i]) {
            Some(d) => d,
            None => {
                assert(!is_digit(digits[i - first]));
                return None;
            },
        };
        proof {
            assert(digits.take(i - first + 1).drop_last() =~= digits.take(i - first));
            assert(digits.take(i - first + 1).last() == v@[i as int]);
        }
        acc = acc * 10 + d as u64;
        if acc > u32::MAX as u64 {
            proof {
                lemma_decimal_grows(digits, i - first + 1);
            }
            return None;
        }
        i += 1;
    }
    assert(digits.take(to - first) =~= digits);
    Some(acc as u32)
}

} // verus!
