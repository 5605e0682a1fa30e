//! Character and string helpers shared by the other modules.
//!
//! Text is handled as sequences of characters: a string is turned into a
//! vector of its characters once, worked on by index, and turned back.

use vstd::prelude::*;
use vstd::string::StringExecFns;
use vstd::string::StringSliceAdditionalSpecFns;
use vstd::utf8::encode_utf8_decode_utf8;

verus! {

/// Whether `c`, a character beyond ASCII, is whitespace as
/// `char::is_whitespace` decides it.
pub uninterp spec fn unicode_whitespace(c: char) -> bool;

/// Whether `c` is whitespace. Among the ASCII characters the whitespace is
/// the space and U+0009 to U+000D (tab, line feed, vertical tab, form feed,
/// carriage return). Beyond ASCII it is what `char::is_whitespace` says.
pub open spec fn is_space(c: char) -> bool {
    if c <= '\x7f' {
        c == ' ' || ('\t' <= c <= '\r')
    } else {
        unicode_whitespace(c)
    }
}

/// Calls `char::is_whitespace`, which tells whether a character has the
/// Unicode property White_Space. The result is a function of the character
/// alone. For an ASCII character the contract spells it out: the property
/// holds of the space and of U+0009 to U+000D and of no other. For any other
/// character the result is named, not spelled out.
#[verifier::external_body]
pub(crate) fn is_whitespace(c: char) -> (r: bool)
    ensures
        r == is_space(c),
        c > '\x7f' ==> r == unicode_whitespace(c),
{
    c.is_whitespace()
}

/// Calls `String::push`, which appends one character to the string.
#[verifier::external_body]
pub(crate) fn push_char(s: &mut String, c: char)
    ensures
        final(s)@ == old(s)@.push(c),
{
    s.push(c)
}

/// Whether two string slices hold the same characters. They do exactly when
/// their UTF-8 bytes are the same.
pub fn str_eq(a: &str, b: &str) -> (same: bool)
    ensures
        same == (a@ == b@),
{
    let x = a.as_bytes();
    let y = b.as_bytes();
    proof {
        encode_utf8_decode_utf8(a@);
        encode_utf8_decode_utf8(b@);
    }
    if x.len() != y.len() {
        return false;
    }
    let mut i: usize = 0;
    while i < x.len()
        invariant
            i <= x@.len() == y@.len(),
            x@ == a.spec_bytes(),
            y@ == b.spec_bytes(),
            forall|j: int| 0 <= j < i ==> x@[j] == y@[j],
        decreases x@.len() - i,
    {
        if x[i] != y[i] {
            return false;
        }
        i += 1;
    }
    proof {
        assert(x@ =~= y@);
        encode_utf8_decode_utf8(a@);
        encode_utf8_decode_utf8(b@);
    }
    true
}

/// The characters of `s`, in order.
pub fn to_chars(s: &str) -> (chars: Vec<char>)
    ensures
        chars@ == s@,
{
    let mut chars: Vec<char> = Vec::new();
    for ch in it: s.chars()
        invariant
            it.seq() == s@,
            chars@ == s@.take(it.index() as int),
    {
        chars.push(ch);
    }
    chars
}

/// The string made of `chars[from..to]`.
pub fn from_chars(chars: &Vec<char>, from: usize, to: usize) -> (s: String)
    requires
        from <= to <= chars@.len(),
    ensures
        s@ == chars@.subrange(from as int, to as int),
{
    let mut s = String::new();
    let mut i: usize = from;
    while i < to
        invariant
            from <= i <= to <= chars@.len(),
            s@ == chars@.subrange(from as int, i as int),
        decreases to - i,
    {
        push_char(&mut s, chars[i]);
        i += 1;
    }
    s
}

/// `a` followed by `b`.
pub fn joined(a: &str, b: &str) -> (s: String)
    ensures
        s@ == a@ + b@,
{
    let mut s = String::from_str(a);
    s.append(b);
    s
}

/// The texts of a sequence of strings.
pub open spec fn texts(strings: Seq<String>) -> Seq<Seq<char>> {
    Seq::new(strings.len(), |i: int| strings[i]@)
}

/// For each character of `s`, whether it is whitespace.
pub open spec fn whitespace_flags(s: Seq<char>) -> Seq<bool> {
    Seq::new(s.len(), |i: int| is_space(s[i]))
}

/// The number of flags set at the start of `flags`.
pub open spec fn leading_run(flags: Seq<bool>) -> nat
    decreases flags.len(),
{
    if flags.len() > 0 && flags[0] {
        1 + leading_run(flags.drop_first())
    } else {
        0
    }
}

/// The number of flags set at the end of `flags`.
pub open spec fn trailing_run(flags: Seq<bool>) -> nat
    decreases flags.len(),
{
    if flags.len() > 0 && flags.last() {
        1 + trailing_run(flags.drop_last())
    } else {
        0
    }
}

/// The part of a text that trimming keeps, given which of its characters
/// are whitespace: it starts after the leading run of whitespace and ends
/// before the trailing run of what is left. For a text of whitespace only
/// the part is empty.
pub open spec fn kept_span(flags: Seq<bool>) -> (int, int) {
    let from = leading_run(flags) as int;
    (from, flags.len() - trailing_run(flags.subrange(from, flags.len() as int)))
}

/// `s` without leading and trailing whitespace.
pub open spec fn trimmed(s: Seq<char>) -> Seq<char> {
    let span = kept_span(whitespace_flags(s));
    s.subrange(span.0, span.1)
}

/// The bounds of the part that trimming keeps, given which characters are
/// whitespace.
pub fn trim_span(flags: &Vec<bool>) -> (span: (usize, usize))
    ensures
        span.0 <= span.1 <= flags@.len(),
        span.0 == kept_span(flags@).0,
        span.1 == kept_span(flags@).1,
{
    let n = flags.len();
    let mut from: usize = 0;
    assert(flags@.subrange(0, n as int) =~= flags@);
    while from < n && flags[from]
        invariant
            from <= n == flags@.len(),
            leading_run(flags@) == from + leading_run(flags@.subrange(from as int, n as int)),
        decreases n - from,
    {
        assert(flags@.subrange(from as int, n as int).drop_first() =~= flags@.subrange(
            from as int + 1,
            n as int,
        ));
        from += 1;
    }
    let ghost rest = flags@.subrange(from as int, n as int);
    let mut to: usize = n;
    while to > from && flags[to - 1]
        invariant
            from <= to <= n == flags@.len(),
            rest == flags@.subrange(from as int, n as int),
            trailing_run(rest) == (n - to) + trailing_run(flags@.subrange(from as int, to as int)),
        decreases to,
    {
        assert(flags@.subrange(from as int, to as int).drop_last() =~= flags@.subrange(
            from as int,
            to as int - 1,
        ));
        to -= 1;
    }
    (from, to)
}

/// For each character of `chars`, whether it is whitespace.
fn flags_of(chars: &Vec<char>) -> (flags: Vec<bool>)
    ensures
        flags@ == whitespace_flags(chars@),
{
    let mut flags: Vec<bool> = Vec::new();
    let mut i: usize = 0;
    while i < chars.len()
        invariant
            i <= chars@.len(),
            flags@.len() == i,
            forall|j: int| 0 <= j < i ==> flags@[j] == is_space(chars@[j]),
        decreases chars@.len() - i,
    {
        flags.push(is_whitespace(chars[i]));
        i += 1;
    }
    assert(flags@ =~= whitespace_flags(chars@));
    flags
}

/// `s` with leading and trailing whitespace removed.
pub fn trim(s: &str) -> (out: String)
    ensures
        out@ == trimmed(s@),
{
    let chars = to_chars(s);
    let flags = flags_of(&chars);
    let (from, to) = trim_span(&flags);
    from_chars(&chars, from, to)
}

} // verus!
