//! What the text operations do.

use crate::text;
use vstd::prelude::*;

verus! {

/// Whether `text` is `part`, with `before` and `after` around it.
pub open spec fn is_around<T>(text: Seq<T>, before: Seq<T>, part: Seq<T>, after: Seq<T>) -> bool {
    text == before + part + after
}

/// Whether `part` stands somewhere in `text`.
pub open spec fn holds<T>(text: Seq<T>, part: Seq<T>) -> bool {
    exists|before: Seq<T>, after: Seq<T>| #[trigger] is_around(text, before, part, after)
}

/// Searching finds a part wherever it stands, and nothing else.
pub proof fn law_search_finds_every_place<T>(text: Seq<T>, part: Seq<T>)
    ensures
        text::occurs(part, text) <==> holds(text, part),
{
    if text::occurs(part, text) {
        let i = choose|i: int|
            0 <= i <= text.len() - part.len() && #[trigger] text.subrange(i, i + part.len())
                == part;
        let (before, after) = (text.take(i), text.skip(i + part.len()));
        assert(text =~= before + text.subrange(i, i + part.len()) + after);
        assert(is_around(text, before, part, after));
    }
    if holds(text, part) {
        let (before, after) = choose|before: Seq<T>, after: Seq<T>| #[trigger]
            is_around(text, before, part, after);
        let i = before.len() as int;
        assert(text.subrange(i, i + part.len()) =~= part);
    }
}

/// Whether `text` is nothing but white space.
pub open spec fn is_all_white(text: Seq<char>) -> bool {
    forall|i: int| 0 <= i < text.len() ==> text::is_white_space(#[trigger] text[i])
}

/// Whether neither end of `text` is white space.
pub open spec fn is_tight(text: Seq<char>) -> bool {
    text.len() > 0 ==> !text::is_white_space(text[0]) && !text::is_white_space(text.last())
}

/// Trimming takes off all the white space around a text and nothing else.
pub proof fn law_trimming_takes_off_the_white_space(
    before: Seq<char>,
    core: Seq<char>,
    after: Seq<char>,
)
    requires
        is_all_white(before),
        is_tight(core),
        is_all_white(after),
    ensures
        text::trim(before + core + after) == core,
{
    assert(before + core + after == before + (core + after));
    lemma_white_start(before, core + after);
    if core.len() > 0 {
        assert((core + after)[0] == core[0]);
        lemma_white_end(core, after);
    } else {
        assert(core + after == after + core);
        lemma_white_start(after, core);
        assert(text::trim_start(core) == core);
        assert(text::trim_end(core) == core);
    }
}

proof fn lemma_white_start(white: Seq<char>, rest: Seq<char>)
    requires
        is_all_white(white),
    ensures
        text::trim_start(white + rest) == text::trim_start(rest),
    decreases white.len(),
{
    if white.len() == 0 {
        assert(white + rest == rest);
    } else {
        let less = white.drop_first();
        assert(is_all_white(less)) by {
            assert forall|i: int| 0 <= i < less.len() implies text::is_white_space(
                #[trigger] less[i],
            ) by {
                assert(text::is_white_space(white[i + 1]));
            }
        }
        assert(text::is_white_space(white[0]));
        assert((white + rest).drop_first() == less + rest);
        lemma_white_start(less, rest);
    }
}

proof fn lemma_white_end(rest: Seq<char>, white: Seq<char>)
    requires
        is_all_white(white),
    ensures
        text::trim_end(rest + white) == text::trim_end(rest),
    decreases white.len(),
{
    if white.len() == 0 {
        assert(rest + white == rest);
    } else {
        let less = white.drop_last();
        assert(is_all_white(less)) by {
            assert forall|i: int| 0 <= i < less.len() implies text::is_white_space(
                #[trigger] less[i],
            ) by {
                assert(text::is_white_space(white[i]));
            }
        }
        assert(text::is_white_space(white[white.len() - 1]));
        assert((rest + white).drop_last() == rest + less);
        lemma_white_end(rest, less);
    }
}

/// Every `c` at the end is taken off, and nothing where there is none.
pub proof fn law_trailing_characters_are_taken_off(text: Seq<char>, c: char)
    ensures
        text::trim_end_char(text.push(c), c) == text::trim_end_char(text, c),
        text.len() == 0 || text.last() != c ==> text::trim_end_char(text, c) == text,
{
    assert(text.push(c).drop_last() == text);
}

/// Lower case changes the letters from A to Z, each to the one 32 further on, and keeps all else in
/// its place.
pub proof fn law_lower_case_changes_ascii_letters(text: Seq<char>, i: int)
    requires
        0 <= i < text.len(),
    ensures
        text::lower(text).len() == text.len(),
        'A' <= text[i] <= 'Z' ==> text::lower(text)[i] as u32 == text[i] as u32 + 32,
        !('A' <= text[i] <= 'Z') ==> text::lower(text)[i] == text[i],
{
}

/// A text is cut at the first `c`, and kept whole where there is none.
pub proof fn law_cut_at_the_first(head: Seq<char>, tail: Seq<char>, c: char)
    requires
        !head.contains(c),
    ensures
        text::before_char(head.push(c) + tail, c) == head,
        text::before_char(head, c) == head,
{
    assert(head.push(c) + tail == head + (seq![c] + tail));
    text::lemma_before_char(head, seq![c] + tail, c);
    text::lemma_before_char(head, seq![], c);
    assert(head + Seq::<char>::empty() == head);
}

/// A text is cut at the last `c`, and kept whole where there is none.
pub proof fn law_cut_at_the_last(head: Seq<char>, tail: Seq<char>, c: char)
    requires
        !tail.contains(c),
    ensures
        text::before_last_char(head.push(c) + tail, c) == head,
        text::before_last_char(tail, c) == tail,
{
    let text = head.push(c) + tail;
    text.index_of_last_ensures(c);
    tail.index_of_last_ensures(c);
    let n = head.len() as int;
    assert(text[n] == c);
    let i = text.index_of_last(c)->0;
    assert(i > n ==> text[i] == tail[i - n - 1]);
    assert(text.take(n) == head);
}

/// A number is written digit by digit: the last digit stands behind what is written of the rest.
pub proof fn law_numbers_are_written_in_digits(n: nat, d: nat)
    requires
        n > 0,
    ensures
        d < 10 ==> text::decimal(10 * n + d) == text::decimal(n).push((48 + d) as char),
        d < 10 ==> text::decimal(d) == seq![(48 + d) as char],
        d < 10 ==> text::hex(16 * n + d) == text::hex(n).push((48 + d) as char),
        d < 10 ==> text::hex(d) == seq![(48 + d) as char],
        10 <= d < 16 ==> text::hex(16 * n + d) == text::hex(n).push((87 + d) as char),
        10 <= d < 16 ==> text::hex(d) == seq![(87 + d) as char],
{
}

/// A percent sign and two hexadecimal digits, in either letter case, stand for the character of
/// that number. Any other character stands for itself.
pub proof fn law_percent_encoding_is_decoded(high: nat, low: nat, c: char, rest: Seq<char>)
    requires
        high < 16,
        low < 16,
        c != '%',
    ensures
        text::percent_decoded(
            seq!['%', text::digit(high), text::digit(low)] + rest,
        ) == seq![(16 * high + low) as char] + text::percent_decoded(rest),
        text::percent_decoded(
            seq!['%', upper_digit(high), upper_digit(low)] + rest,
        ) == seq![(16 * high + low) as char] + text::percent_decoded(rest),
        text::percent_decoded(seq![c] + rest) == seq![c] + text::percent_decoded(rest),
{
    let (a, b) = (
        seq!['%', text::digit(high), text::digit(low)] + rest,
        seq!['%', upper_digit(high), upper_digit(low)] + rest,
    );
    assert(a.skip(3) == rest && b.skip(3) == rest);
    assert((seq![c] + rest).drop_first() == rest);
    assert(text::begins_encoded(a) && text::begins_encoded(b));
}

/// The digit for `d` in upper case: `0` to `9`, then `A`, `B` and so on.
pub open spec fn upper_digit(d: nat) -> char {
    if d < 10 {
        (48 + d) as char
    } else {
        (55 + d) as char
    }
}

/// Bytes are read as the text that they encode, and as nothing where they encode none.
pub proof fn law_utf8_reads_back(text: Seq<char>, bytes: Seq<u8>)
    requires
        !vstd::utf8::valid_utf8(bytes),
    ensures
        text::utf8_or_empty(vstd::utf8::encode_utf8(text)) == text,
        text::utf8_or_empty(bytes).len() == 0,
{
    vstd::utf8::encode_utf8_valid_utf8(text);
    vstd::utf8::encode_utf8_decode_utf8(text);
}

/// White space is what Unicode counts as such, and nothing else: the five controls from tab to
/// carriage return, the next line, the spaces of all widths, and the separators of lines and
/// paragraphs.
pub proof fn law_white_space_is_that_of_unicode(c: char, yes: bool)
    requires
        call_ensures(text::char_is_white_space, (c,), yes),
    ensures
        ({
            let point = c as int;
            &&& point < 0x80 ==> (yes <==> 9 <= point <= 13 || point == 32)
            &&& 0x80 <= point < 0x2000 ==> (yes <==> point == 0x85 || point == 0xa0 || point
                == 0x1680)
            &&& 0x2000 <= point < 0x2100 ==> (yes <==> point <= 0x200a || point == 0x2028 || point
                == 0x2029 || point == 0x202f || point == 0x205f)
            &&& 0x2100 <= point ==> (yes <==> point == 0x3000)
            &&& yes == text::is_white_space(c)
        }),
{
}

/// Only the upper-case letters of ASCII have another lower case.
pub proof fn law_letters_are_lowered(c: char, l: char)
    requires
        call_ensures(text::char_to_lower, (c,), l),
    ensures
        l == text::lower_char(c),
        0x41 <= c as int <= 0x5a ==> l as int == c as int + 0x20,
        !(0x41 <= c as int <= 0x5a) ==> l == c,
{
}

} // verus!
