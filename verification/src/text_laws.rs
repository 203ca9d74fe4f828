//! What holds of the operations on text, for every text.

use vstd::prelude::*;
use vstd::utf8::{encode_utf8, is_char_boundary};

use crate::text::{
    clippable, clipped, contains_text, decimal_text, done_of, ends_line, outcome_of, stands_at,
    text_of, texts,
};

verus! {

/// The number that a sequence of decimal digits stands for.
pub open spec fn value_of(digits: Seq<char>) -> int
    decreases digits.len(),
{
    if digits.len() == 0 {
        0
    } else {
        value_of(digits.drop_last()) * 10 + (digits.last() as int - '0' as int)
    }
}

/// The notation of a number reads back as the number, is made of decimal digits only, and has no
/// leading zero but for the number zero.
pub proof fn law_decimal_reads_back(n: nat)
    ensures
        value_of(decimal_text(n)) == n,
        forall|i: int|
            0 <= i < decimal_text(n).len() ==> '0' <= #[trigger] decimal_text(n)[i]
                && decimal_text(n)[i] <= '9',
        decimal_text(n).len() > 0,
        decimal_text(n)[0] == '0' ==> n == 0 && decimal_text(n).len() == 1,
    decreases n,
{
    if n < 10 {
        assert(decimal_text(n).drop_last().len() == 0);
        assert(value_of(decimal_text(n).drop_last()) == 0);
    } else {
        law_decimal_reads_back(n / 10);
        assert(decimal_text(n).drop_last() == decimal_text(n / 10));
        assert(decimal_text(n)[0] == decimal_text(n / 10)[0]);
    }
}

/// A text holds another where it is the other with something before it and something after it.
pub proof fn law_contained_text_stands_between(s: Seq<char>, needle: Seq<char>)
    ensures
        contains_text(s, needle) <==> exists|before: Seq<char>, after: Seq<char>|
            s == #[trigger] (before + needle + after),
{
    if contains_text(s, needle) {
        let i = choose|i: int| #[trigger] stands_at(s, needle, i);
        let before = s.take(i);
        let after = s.skip(i + needle.len());
        assert(s =~= before + needle + after) by {
            assert(s.subrange(i, i + needle.len()) == needle);
            assert forall|k: int| 0 <= k < s.len() implies s[k] == (before + needle + after)[k] by {
                if i <= k < i + needle.len() {
                    assert(s.subrange(i, i + needle.len())[k - i] == s[k]);
                }
            }
        }
    }
    if exists|before: Seq<char>, after: Seq<char>| s == #[trigger] (before + needle + after) {
        let (before, after) = choose|before: Seq<char>, after: Seq<char>|
            s == #[trigger] (before + needle + after);
        assert(s.subrange(before.len() as int, (before.len() + needle.len()) as int) =~= needle);
        assert(stands_at(s, needle, before.len() as int));
    }
}

/// A text ends a line where it is some text with a line feed after it.
pub proof fn law_line_feed_comes_last(s: Seq<char>)
    ensures
        forall|body: Seq<char>| s == #[trigger] body.push('\n') ==> ends_line(s),
        ends_line(s) ==> s == s.drop_last().push('\n'),
{
    if ends_line(s) {
        assert(s == s.drop_last().push('\n'));
    }
}

/// Clipping a text keeps its first bytes: as many as asked for, or all of a shorter text. It is
/// possible where the text is short enough or a character ends there.
pub proof fn law_clipping_keeps_the_first_bytes(s: Seq<char>, n: nat)
    ensures
        clippable(s, n) <==> encode_utf8(s).len() <= n || is_char_boundary(
            encode_utf8(s),
            n as int,
        ),
        clippable(s, n) ==> encode_utf8(clipped(s, n)).len() <= n,
        clippable(s, n) ==> encode_utf8(clipped(s, n)).is_prefix_of(encode_utf8(s)),
        clippable(s, n) && encode_utf8(s).len() > n ==> encode_utf8(clipped(s, n)).len() == n,
        encode_utf8(s).len() <= n ==> clipped(s, n) == s,
{
    let bytes = encode_utf8(s);
    if clippable(s, n) && bytes.len() > n {
        vstd::utf8::encode_utf8_valid_utf8(s);
        vstd::utf8::valid_utf8_split(bytes, n as int);
        assert(bytes.subrange(0, n as int) == bytes.take(n as int));
        vstd::utf8::decode_utf8_encode_utf8(bytes.take(n as int));
    }
}

/// What stands for a text in a contract is the whole text.
pub proof fn law_views_of_text_are_whole(t: String, list: Seq<String>)
    ensures
        text_of(Some(t)) == Some(t@),
        text_of(None) is None,
        outcome_of(Ok(t)) == Ok::<Seq<char>, Seq<char>>(t@),
        outcome_of(Err(t)) == Err::<Seq<char>, Seq<char>>(t@),
        done_of(Ok(())) is Ok,
        done_of(Err(t)) == Err::<(), Seq<char>>(t@),
        texts(list).len() == list.len(),
        forall|i: int| 0 <= i < list.len() ==> #[trigger] texts(list)[i] == list[i]@,
{
}

} // verus!
