//! Text operations on the characters of a string.

use vstd::prelude::*;
use vstd::utf8::{decode_utf8, encode_utf8, is_char_boundary};

verus! {

/// The pieces of `s` between the separators: one more piece than separators, in order.
pub open spec fn split_text(s: Seq<char>, sep: char) -> Seq<Seq<char>>
    decreases s.len(),
{
    if s.len() == 0 {
        seq![Seq::<char>::empty()]
    } else {
        let before = split_text(s.drop_last(), sep);
        if s.last() == sep {
            before.push(Seq::<char>::empty())
        } else {
            before.drop_last().push(before.last().push(s.last()))
        }
    }
}

/// Whether `needle` stands somewhere in `s`.
pub open spec fn contains_text(s: Seq<char>, needle: Seq<char>) -> bool {
    exists|i: int| #[trigger] stands_at(s, needle, i)
}

/// Whether `needle` stands in `s` from position `i` on.
pub open spec fn stands_at(s: Seq<char>, needle: Seq<char>, i: int) -> bool {
    &&& 0 <= i
    &&& i + needle.len() <= s.len()
    &&& s.subrange(i, i + needle.len()) == needle
}

/// Whether the last character of `s` is a line feed.
pub open spec fn ends_line(s: Seq<char>) -> bool {
    s.len() > 0 && s.last() == '\n'
}

/// The decimal digit of `d`, for `d` below ten.
pub open spec fn digit(d: nat) -> char {
    (d + '0' as nat) as char
}

/// The decimal notation of `n`, without leading zeros.
pub open spec fn decimal_text(n: nat) -> Seq<char>
    decreases n,
{
    if n < 10 {
        seq![digit(n)]
    } else {
        decimal_text(n / 10).push(digit(n % 10))
    }
}

/// Whether the first `n` bytes of a longer text end where a character ends.
pub open spec fn clippable(s: Seq<char>, n: nat) -> bool {
    encode_utf8(s).len() > n ==> is_char_boundary(encode_utf8(s), n as int)
}

/// The first `n` bytes of a text, or the whole text where it is shorter.
pub open spec fn clipped(s: Seq<char>, n: nat) -> Seq<char> {
    if encode_utf8(s).len() > n {
        decode_utf8(encode_utf8(s).take(n as int))
    } else {
        s
    }
}

/// The contents of each string of a sequence.
pub open spec fn texts(v: Seq<String>) -> Seq<Seq<char>> {
    v.map_values(|s: String| s@)
}

/// The contents of an optional string.
pub open spec fn text_of(t: Option<String>) -> Option<Seq<char>> {
    match t {
        Some(t) => Some(t@),
        None => None,
    }
}

/// The contents of a text or of the line that says why there is none.
pub open spec fn outcome_of(t: Result<String, String>) -> Result<Seq<char>, Seq<char>> {
    match t {
        Ok(t) => Ok(t@),
        Err(e) => Err(e@),
    }
}

/// An outcome with the contents of the line that says what went wrong.
pub open spec fn done_of(t: Result<(), String>) -> Result<(), Seq<char>> {
    match t {
        Ok(_) => Ok(()),
        Err(e) => Err(e@),
    }
}

/// The characters of `s`, in order.
pub fn chars_of(s: &str) -> (r: Vec<char>)
    ensures
        r@ == s@,
{
    let mut r: Vec<char> = Vec::new();
    for c in it: s.chars()
        invariant
            it.seq() == s@,
            r@ == s@.take(it.index() as int),
    {
        r.push(c);
    }
    assert(s@.take(s@.len() as int) == s@);
    r
}

/// Cuts `s` at every separator.
pub fn split(s: &str, sep: char) -> (r: Vec<String>)
    ensures
        texts(r@) == split_text(s@, sep),
{
    let chars = chars_of(s);
    let mut r: Vec<String> = Vec::new();
    let mut start: usize = 0;
    let mut i: usize = 0;
    assert(s@.subrange(0, 0) == Seq::<char>::empty());
    assert(texts(r@).push(s@.subrange(0, 0)) == seq![Seq::<char>::empty()]);
    assert(s@.take(0).len() == 0);
    while i < chars.len()
        invariant
            chars@ == s@,
            start <= i <= chars.len(),
            split_text(s@.take(i as int), sep) == texts(r@).push(
                s@.subrange(start as int, i as int),
            ),
        decreases chars.len() - i,
    {
        let ghost pieces = texts(r@);
        let ghost piece = s@.subrange(start as int, i as int);
        assert(s@.take(i + 1).drop_last() == s@.take(i as int));
        assert(pieces.push(piece).drop_last() == pieces);
        if chars[i] == sep {
            r.push(s.substring_char(start, i).to_owned());
            start = i + 1;
            assert(texts(r@) == pieces.push(piece));
            assert(s@.subrange(start as int, i + 1) == Seq::<char>::empty());
        } else {
            assert(s@.subrange(start as int, i + 1) == piece.push(s@[i as int]));
        }
        i = i + 1;
    }
    let ghost pieces = texts(r@);
    assert(s@.take(i as int) == s@);
    r.push(s.substring_char(start, i).to_owned());
    assert(texts(r@) == pieces.push(s@.subrange(start as int, i as int)));
    r
}

/// Whether `needle` stands in `s` from position `i` on.
fn matches_at(s: &Vec<char>, needle: &Vec<char>, i: usize) -> (r: bool)
    requires
        i + needle@.len() <= s@.len(),
    ensures
        r == stands_at(s@, needle@, i as int),
{
    let len: usize = s.len();
    let mut j: usize = 0;
    while j < needle.len()
        invariant
            len == s@.len(),
            i + needle@.len() <= len,
            j <= needle@.len(),
            forall|k: int| 0 <= k < j ==> s@[i + k] == needle@[k],
        decreases needle@.len() - j,
    {
        if s[i + j] != needle[j] {
            assert(s@.subrange(i as int, i + needle@.len())[j as int] != needle@[j as int]);
            return false;
        }
        j = j + 1;
    }
    assert(s@.subrange(i as int, i + needle@.len()) == needle@);
    true
}

/// Searches `s` for `needle`.
pub fn contains(s: &str, needle: &str) -> (r: bool)
    ensures
        r == contains_text(s@, needle@),
{
    let s_chars = chars_of(s);
    let needle_chars = chars_of(needle);
    if needle_chars.len() > s_chars.len() {
        return false;
    }
    let last: usize = s_chars.len() - needle_chars.len();
    let mut i: usize = 0;
    loop
        invariant
            s_chars@ == s@,
            needle_chars@ == needle@,
            last + needle@.len() == s@.len(),
            i <= last,
            forall|k: int| 0 <= k < i ==> !stands_at(s@, needle@, k),
        decreases last - i,
    {
        if matches_at(&s_chars, &needle_chars, i) {
            return true;
        }
        if i == last {
            return false;
        }
        i = i + 1;
    }
}

/// Whether [`clip`] can cut `s` after `n` bytes.
pub fn can_clip(s: &str, n: usize) -> (r: bool)
    ensures
        r == clippable(s@, n as nat),
{
    s.as_bytes().len() <= n || s.is_char_boundary(n)
}

/// Keeps the first `n` bytes of `s`.
pub fn clip(s: &str, n: usize) -> (r: &str)
    requires
        clippable(s@, n as nat),
    ensures
        r@ == clipped(s@, n as nat),
{
    if s.as_bytes().len() > n {
        let r = s.split_at(n).0;
        proof {
            vstd::utf8::encode_utf8_decode_utf8(r@);
            assert(encode_utf8(r@) == encode_utf8(s@).take(n as int));
        }
        r
    } else {
        s
    }
}

/// Whether `s` ends with a line feed.
pub fn ends_with_line_feed(s: &str) -> (r: bool)
    ensures
        r == ends_line(s@),
{
    let n: usize = s.unicode_len();
    n > 0 && s.get_char(n - 1) == '\n'
}

/// One decimal digit.
fn digit_str(d: u64) -> (r: &'static str)
    requires
        d < 10,
    ensures
        r@ == seq![digit(d as nat)],
{
    proof {
        reveal_strlit("0");
        reveal_strlit("1");
        reveal_strlit("2");
        reveal_strlit("3");
        reveal_strlit("4");
        reveal_strlit("5");
        reveal_strlit("6");
        reveal_strlit("7");
        reveal_strlit("8");
        reveal_strlit("9");
    }
    match d {
        0 => "0",
        1 => "1",
        2 => "2",
        3 => "3",
        4 => "4",
        5 => "5",
        6 => "6",
        7 => "7",
        8 => "8",
        _ => "9",
    }
}

/// Writes `n` in decimal notation.
pub fn decimal(n: u64) -> (r: String)
    ensures
        r@ == decimal_text(n as nat),
    decreases n,
{
    if n < 10 {
        digit_str(n).to_owned()
    } else {
        let r = decimal(n / 10).concat(digit_str(n % 10));
        assert(r@ == decimal_text(n as nat));
        r
    }
}

} // verus!
