//! The text operations the helper's rules are made of, over the characters of a string.

use vstd::prelude::*;
use vstd::string::StrSliceExecFns;

verus! {

/// Appending one character to a `String` (`String::push`) puts it behind all the others.
pub assume_specification[ String::push ](s: &mut String, c: char)
    ensures
        final(s)@ == old(s)@.push(c),
;

/// The characters of Unicode's `White_Space` property.
pub open spec fn is_white_space(c: char) -> bool {
    ||| '\u{9}' <= c <= '\u{d}'
    ||| c == ' '
    ||| c == '\u{85}'
    ||| c == '\u{a0}'
    ||| c == '\u{1680}'
    ||| '\u{2000}' <= c <= '\u{200a}'
    ||| c == '\u{2028}'
    ||| c == '\u{2029}'
    ||| c == '\u{202f}'
    ||| c == '\u{205f}'
    ||| c == '\u{3000}'
}

/// `text` without the white space at its start.
pub open spec fn trim_start(text: Seq<char>) -> Seq<char>
    decreases text.len(),
{
    if text.len() > 0 && is_white_space(text[0]) {
        trim_start(text.drop_first())
    } else {
        text
    }
}

/// `text` without the white space at its end.
pub open spec fn trim_end(text: Seq<char>) -> Seq<char>
    decreases text.len(),
{
    if text.len() > 0 && is_white_space(text.last()) {
        trim_end(text.drop_last())
    } else {
        text
    }
}

/// `text` without the white space at either end.
pub open spec fn trim(text: Seq<char>) -> Seq<char> {
    trim_end(trim_start(text))
}

/// `text` without the run of `c` at its end.
pub open spec fn trim_end_char(text: Seq<char>, c: char) -> Seq<char>
    decreases text.len(),
{
    if text.len() > 0 && text.last() == c {
        trim_end_char(text.drop_last(), c)
    } else {
        text
    }
}

/// Trimmed text has nothing to trim.
pub proof fn lemma_trim_twice(text: Seq<char>)
    ensures
        trim(trim(text)) == trim(text),
{
    lemma_trim_start(text);
    let start = trim_start(text);
    lemma_trim_end(start);
    let t = trim_end(start);
    assert(t.len() > 0 ==> t[0] == start[0]);
}

proof fn lemma_trim_start(text: Seq<char>)
    ensures
        trim_start(text).len() > 0 ==> !is_white_space(trim_start(text)[0]),
    decreases text.len(),
{
    if text.len() > 0 && is_white_space(text[0]) {
        lemma_trim_start(text.drop_first());
    }
}

proof fn lemma_trim_end(text: Seq<char>)
    ensures
        trim_end(text).is_prefix_of(text),
        trim_end(text).len() > 0 ==> !is_white_space(trim_end(text).last()),
    decreases text.len(),
{
    if text.len() > 0 && is_white_space(text.last()) {
        lemma_trim_end(text.drop_last());
    }
}

/// What is left of `text` without the run of `c` at its end is a prefix that does not end in `c`.
pub proof fn lemma_trim_end_char(text: Seq<char>, c: char)
    ensures
        trim_end_char(text, c).is_prefix_of(text),
        trim_end_char(text, c).len() > 0 ==> trim_end_char(text, c).last() != c,
    decreases text.len(),
{
    if text.len() > 0 && text.last() == c {
        lemma_trim_end_char(text.drop_last(), c);
    }
}

/// `c` with an upper-case ASCII letter made lower case.
pub open spec fn lower_char(c: char) -> char {
    if 'A' <= c <= 'Z' {
        (c as u32 + 32) as char
    } else {
        c
    }
}

/// `text` with every upper-case ASCII letter made lower case.
pub open spec fn lower(text: Seq<char>) -> Seq<char> {
    text.map_values(|c: char| lower_char(c))
}

/// Whether `part` occurs in `text` without a gap.
pub open spec fn occurs<T>(part: Seq<T>, text: Seq<T>) -> bool {
    exists|i: int|
        0 <= i <= text.len() - part.len() && #[trigger] text.subrange(i, i + part.len()) == part
}

/// The characters of `text`, one by one.
pub fn chars_of(text: &str) -> (chars: Vec<char>)
    ensures
        chars@ == text@,
{
    let mut chars: Vec<char> = Vec::new();
    for c in iter: text.chars()
        invariant
            iter.seq() == text@,
            chars@ == text@.take(iter.index()),
    {
        chars.push(c);
    }
    chars
}

/// Whether `c` is white space.
pub fn char_is_white_space(c: char) -> (yes: bool)
    ensures
        yes == is_white_space(c),
{
    ('\u{9}' <= c && c <= '\u{d}') || c == ' ' || c == '\u{85}' || c == '\u{a0}'
        || c == '\u{1680}' || ('\u{2000}' <= c && c <= '\u{200a}') || c == '\u{2028}'
        || c == '\u{2029}' || c == '\u{202f}' || c == '\u{205f}' || c == '\u{3000}'
}

/// Makes an upper-case ASCII letter lower case.
pub fn char_to_lower(c: char) -> (l: char)
    ensures
        l == lower_char(c),
{
    if 'A' <= c && c <= 'Z' {
        (c as u8 + 32) as char
    } else {
        c
    }
}

/// The first index past the white space at the start of `chars`.
fn white_space_end(chars: &Vec<char>) -> (start: usize)
    ensures
        start <= chars@.len(),
        chars@.skip(start as int) == trim_start(chars@),
{
    let mut start: usize = 0;
    assert(chars@.skip(0) == chars@);
    while start < chars.len() && char_is_white_space(chars[start])
        invariant
            start <= chars@.len(),
            trim_start(chars@.skip(start as int)) == trim_start(chars@),
        decreases chars@.len() - start,
    {
        assert(chars@.skip(start as int).drop_first() == chars@.skip(start + 1));
        start = start + 1;
    }
    start
}

/// `text` without the white space at either end.
pub fn trimmed(text: &str) -> (r: String)
    ensures
        r@ == trim(text@),
{
    let chars = chars_of(text);
    let start = white_space_end(&chars);
    let mut end: usize = chars.len();
    assert(chars@.subrange(start as int, end as int) == trim_start(chars@));
    while start < end && char_is_white_space(chars[end - 1])
        invariant
            start <= end <= chars@.len(),
            trim_end(chars@.subrange(start as int, end as int)) == trim(chars@),
        decreases end - start,
    {
        assert(chars@.subrange(start as int, end as int).drop_last() == chars@.subrange(
            start as int,
            end - 1,
        ));
        end = end - 1;
    }
    text.substring_char(start, end).to_owned()
}

/// `text` without the run of `c` at its end.
pub fn without_trailing(text: &str, c: char) -> (r: String)
    ensures
        r@ == trim_end_char(text@, c),
{
    let chars = chars_of(text);
    let mut end: usize = chars.len();
    assert(chars@.take(end as int) == chars@);
    while 0 < end && chars[end - 1] == c
        invariant
            end <= chars@.len(),
            trim_end_char(chars@.take(end as int), c) == trim_end_char(chars@, c),
        decreases end,
    {
        assert(chars@.take(end as int).drop_last() == chars@.take(end - 1));
        end = end - 1;
    }
    assert(chars@.take(end as int) == text@.subrange(0, end as int));
    text.substring_char(0, end).to_owned()
}

/// `text` with every upper-case ASCII letter made lower case.
pub fn lowered(text: &str) -> (r: String)
    ensures
        r@ == lower(text@),
{
    let mut r = String::new();
    for c in iter: text.chars()
        invariant
            iter.seq() == text@,
            r@ == lower(text@.take(iter.index())),
    {
        proof {
            assert(text@.take(iter.index() + 1) == text@.take(iter.index()).push(c));
            assert(lower(text@.take(iter.index()).push(c)) == lower(text@.take(iter.index())).push(
                lower_char(c),
            ));
        }
        r.push(char_to_lower(c));
    }
    assert(text@.take(text@.len() as int) == text@);
    r
}

/// Whether two strings hold the same characters.
pub fn same_text(a: &str, b: &str) -> (same: bool)
    ensures
        same == (a@ == b@),
{
    proof {
        vstd::utf8::encode_utf8_decode_utf8(a@);
        vstd::utf8::encode_utf8_decode_utf8(b@);
    }
    same_bytes(a.as_bytes(), b.as_bytes())
}

/// Whether two byte strings are equal.
pub fn same_bytes(a: &[u8], b: &[u8]) -> (same: bool)
    ensures
        same == (a@ == b@),
{
    if a.len() != b.len() {
        return false;
    }
    for i in 0..a.len()
        invariant
            a@.len() == b@.len(),
            a@.take(i as int) == b@.take(i as int),
    {
        if a[i] != b[i] {
            assert(a@[i as int] != b@[i as int]);
            return false;
        }
        assert(a@.take(i + 1) == a@.take(i as int).push(a@[i as int]));
        assert(b@.take(i + 1) == b@.take(i as int).push(b@[i as int]));
    }
    assert(a@.take(a@.len() as int) == a@);
    assert(b@.take(b@.len() as int) == b@);
    true
}

/// Whether `text` begins with `prefix`.
pub fn begins_with(text: &str, prefix: &str) -> (yes: bool)
    ensures
        yes == prefix@.is_prefix_of(text@),
{
    let chars = chars_of(text);
    let wanted = chars_of(prefix);
    chars_match_at(&chars, 0, &wanted)
}

/// Whether `part` stands in `chars` at `at`.
fn chars_match_at(chars: &Vec<char>, at: usize, part: &Vec<char>) -> (yes: bool)
    requires
        at <= chars@.len(),
    ensures
        yes == (at + part@.len() <= chars@.len() && chars@.subrange(
            at as int,
            at + part@.len(),
        ) == part@),
{
    let len = chars.len();
    if len - at < part.len() {
        return false;
    }
    for i in 0..part.len()
        invariant
            at + part@.len() <= len == chars@.len(),
            forall|j: int| 0 <= j < i ==> chars@[at + j] == part@[j],
    {
        if chars[at + i] != part[i] {
            assert(chars@.subrange(at as int, at + part@.len())[i as int] != part@[i as int]);
            return false;
        }
    }
    assert(chars@.subrange(at as int, at + part@.len()) == part@);
    true
}

/// Whether `part` occurs in `text`.
pub fn text_contains(text: &str, part: &str) -> (yes: bool)
    ensures
        yes == occurs(part@, text@),
{
    let chars = chars_of(text);
    let wanted = chars_of(part);
    if chars.len() < wanted.len() {
        return false;
    }
    let last = chars.len() - wanted.len();
    let mut i: usize = 0;
    loop
        invariant
            chars@ == text@,
            wanted@ == part@,
            i <= last,
            last + wanted@.len() == chars@.len(),
            forall|j: int|
                0 <= j < i ==> #[trigger] chars@.subrange(j, j + wanted@.len()) != wanted@,
        decreases last - i,
    {
        if chars_match_at(&chars, i, &wanted) {
            return true;
        }
        if i == last {
            return false;
        }
        i = i + 1;
    }
}

/// Whether the bytes `part` occur in `bytes`.
pub fn bytes_contain(bytes: &[u8], part: &[u8]) -> (yes: bool)
    ensures
        yes == occurs(part@, bytes@),
{
    if bytes.len() < part.len() {
        return false;
    }
    let last = bytes.len() - part.len();
    let mut i: usize = 0;
    loop
        invariant
            i <= last,
            last + part@.len() == bytes@.len() <= usize::MAX,
            forall|j: int| 0 <= j < i ==> #[trigger] bytes@.subrange(j, j + part@.len()) != part@,
        decreases last - i,
    {
        if same_bytes(vstd::slice::slice_subrange(bytes, i, i + part.len()), part) {
            return true;
        }
        if i == last {
            return false;
        }
        i = i + 1;
    }
}

/// The digit for `d`: `0` to `9`, then `a`, `b` and so on.
pub open spec fn digit(d: nat) -> char {
    if d < 10 {
        (48 + d) as char
    } else {
        (87 + d) as char
    }
}

/// `n` written in `base`, without leading zeros.
pub open spec fn numeral(n: nat, base: nat) -> Seq<char>
    recommends
        2 <= base <= 16,
    decreases n,
{
    if n < base || base < 2 {
        seq![digit(n)]
    } else {
        proof {
            lemma_quotient_smaller(n, base);
        }
        numeral(n / base, base).push(digit(n % base))
    }
}

/// Dividing a positive number by two or more makes it smaller.
pub proof fn lemma_quotient_smaller(n: nat, base: nat)
    by (nonlinear_arith)
    requires
        base >= 2,
        n >= base,
    ensures
        n / base < n,
{
}

/// `n` in lower-case hexadecimal.
pub open spec fn hex(n: nat) -> Seq<char> {
    numeral(n, 16)
}

/// `n` in decimal.
pub open spec fn decimal(n: nat) -> Seq<char> {
    numeral(n, 10)
}

/// Two numbers with the same numeral are the same number.
pub proof fn lemma_numeral_injective(a: nat, b: nat, base: nat)
    requires
        2 <= base <= 16,
        numeral(a, base) == numeral(b, base),
    ensures
        a == b,
    decreases a,
{
    let (x, y) = (numeral(a, base), numeral(b, base));
    lemma_numeral_not_empty(a, base);
    lemma_numeral_not_empty(b, base);
    assert(x.last() == y.last());
    if a < base && b < base {
    } else if a < base {
        lemma_numeral_not_empty(b / base, base);
        assert(x.len() == 1 && y.len() > 1);
    } else if b < base {
        lemma_numeral_not_empty(a / base, base);
        assert(y.len() == 1 && x.len() > 1);
    } else {
        assert(x.drop_last() == numeral(a / base, base));
        assert(y.drop_last() == numeral(b / base, base));
        lemma_numeral_injective(a / base, b / base, base);
        assert(0 <= a % base < base && 0 <= b % base < base) by (nonlinear_arith)
            requires
                base >= 2,
        ;
        assert(a == base * (a / base) + a % base) by (nonlinear_arith)
            requires
                base >= 2,
        ;
        assert(b == base * (b / base) + b % base) by (nonlinear_arith)
            requires
                base >= 2,
        ;
    }
}

/// A numeral has at least one digit.
pub proof fn lemma_numeral_not_empty(n: nat, base: nat)
    ensures
        numeral(n, base).len() > 0,
{
}

/// Writes `n` in `base` at the end of `out`.
fn push_numeral(out: &mut String, n: u64, base: u64)
    requires
        2 <= base <= 16,
    ensures
        final(out)@ == old(out)@ + numeral(n as nat, base as nat),
    decreases n,
{
    if n >= base {
        proof {
            lemma_quotient_smaller(n as nat, base as nat);
        }
        push_numeral(out, n / base, base);
    }
    assert(0 <= n % base < base) by (nonlinear_arith)
        requires
            base >= 2,
    ;
    let d: u8 = (n % base) as u8;
    assert(n < base ==> d == n) by (nonlinear_arith)
        requires
            base >= 2,
            d == n % base,
    ;
    let c = if d < 10 {
        (48 + d) as char
    } else {
        (87 + d) as char
    };
    out.push(c);
    assert(out@ == old(out)@ + numeral(n as nat, base as nat));
}

/// `n` in lower-case hexadecimal.
pub fn hex_text(n: u64) -> (r: String)
    ensures
        r@ == hex(n as nat),
{
    let mut r = String::new();
    push_numeral(&mut r, n, 16);
    r
}

/// `n` in decimal.
pub fn decimal_text(n: u64) -> (r: String)
    ensures
        r@ == decimal(n as nat),
{
    let mut r = String::new();
    push_numeral(&mut r, n, 10);
    r
}

/// The text that `bytes` encode in UTF-8, or nothing where they encode none.
pub open spec fn utf8_or_empty(bytes: Seq<u8>) -> Seq<char> {
    if vstd::utf8::valid_utf8(bytes) {
        vstd::utf8::decode_utf8(bytes)
    } else {
        seq![]
    }
}

/// `std::str::from_utf8`: the text that `bytes` encode, exactly where they are valid UTF-8.
#[verifier::external_body]
fn from_utf8(bytes: &[u8]) -> (text: Option<&str>)
    ensures
        text is Some <==> vstd::utf8::valid_utf8(bytes@),
        text matches Some(s) ==> vstd::utf8::encode_utf8(s@) == bytes@,
{
    std::str::from_utf8(bytes).ok()
}

/// The text that `bytes` encode in UTF-8, or nothing where they encode none.
pub fn utf8_text(bytes: &[u8]) -> (text: String)
    ensures
        text@ == utf8_or_empty(bytes@),
{
    match from_utf8(bytes) {
        Some(text) => {
            proof {
                vstd::utf8::encode_utf8_decode_utf8(text@);
            }
            text.to_owned()
        },
        None => String::new(),
    }
}

/// The value of a hexadecimal digit, in either letter case.
pub open spec fn hex_value(c: char) -> Option<nat> {
    if '0' <= c <= '9' {
        Some((c as nat - 48) as nat)
    } else if 'a' <= c <= 'f' {
        Some((c as nat - 87) as nat)
    } else if 'A' <= c <= 'F' {
        Some((c as nat - 55) as nat)
    } else {
        None
    }
}

/// Whether `text` begins with a percent sign and two hexadecimal digits.
pub open spec fn begins_encoded(text: Seq<char>) -> bool {
    text.len() >= 3 && text[0] == '%' && hex_value(text[1]) is Some && hex_value(text[2]) is Some
}

/// `text` with every percent sign and two hexadecimal digits replaced by the character that has
/// that number.
pub open spec fn percent_decoded(text: Seq<char>) -> Seq<char>
    decreases text.len(),
{
    if text.len() == 0 {
        seq![]
    } else if begins_encoded(text) {
        seq![(16 * hex_value(text[1])->0 + hex_value(text[2])->0) as char] + percent_decoded(
            text.skip(3),
        )
    } else {
        seq![text[0]] + percent_decoded(text.drop_first())
    }
}

/// The value of a hexadecimal digit.
fn hex_digit(c: char) -> (value: Option<u8>)
    ensures
        match value {
            Some(v) => hex_value(c) == Some(v as nat) && v < 16,
            None => hex_value(c) is None,
        },
{
    if '0' <= c && c <= '9' {
        Some(c as u8 - 48)
    } else if 'a' <= c && c <= 'f' {
        Some(c as u8 - 87)
    } else if 'A' <= c && c <= 'F' {
        Some(c as u8 - 55)
    } else {
        None
    }
}

/// The character that stands behind a percent sign at `at`.
fn encoded_char(chars: &Vec<char>, at: usize) -> (c: Option<char>)
    requires
        at < chars@.len(),
    ensures
        ({
            let rest = chars@.skip(at as int);
            match c {
                Some(c) => begins_encoded(rest) && c == (16 * hex_value(rest[1])->0 + hex_value(
                    rest[2],
                )->0) as char,
                None => !begins_encoded(rest),
            }
        }),
{
    if chars[at] != '%' || chars.len() - at < 3 {
        return None;
    }
    match (hex_digit(chars[at + 1]), hex_digit(chars[at + 2])) {
        (Some(high), Some(low)) => Some((16 * high + low) as char),
        _ => None,
    }
}

/// `text` with every percent sign and two hexadecimal digits replaced by the character that has
/// that number.
pub fn decoded(text: &str) -> (r: String)
    ensures
        r@ == percent_decoded(text@),
{
    let chars = chars_of(text);
    let mut out = String::new();
    let mut i: usize = 0;
    assert(chars@.skip(0) == chars@);
    while i < chars.len()
        invariant
            chars@ == text@,
            i <= chars@.len(),
            out@ + percent_decoded(chars@.skip(i as int)) == percent_decoded(text@),
        decreases chars@.len() - i,
    {
        let ghost rest = chars@.skip(i as int);
        let ghost before = out@;
        match encoded_char(&chars, i) {
            Some(c) => {
                out.push(c);
                assert(rest.skip(3) == chars@.skip(i + 3));
                assert(before.push(c) + percent_decoded(rest.skip(3)) == before + (seq![c]
                    + percent_decoded(rest.skip(3))));
                i = i + 3;
            },
            None => {
                let c = chars[i];
                out.push(c);
                assert(rest.drop_first() == chars@.skip(i + 1));
                assert(before.push(c) + percent_decoded(rest.drop_first()) == before + (seq![c]
                    + percent_decoded(rest.drop_first())));
                i = i + 1;
            },
        }
    }
    assert(chars@.skip(i as int) == Seq::<char>::empty());
    assert(out@ + Seq::<char>::empty() == out@);
    out
}

/// What has no percent sign in it stays as it is in front of what is decoded.
pub proof fn lemma_decoded_prefix(head: Seq<char>, tail: Seq<char>)
    requires
        !head.contains('%'),
    ensures
        percent_decoded(head + tail) == head + percent_decoded(tail),
    decreases head.len(),
{
    let text = head + tail;
    if head.len() == 0 {
        assert(text == tail);
        assert(percent_decoded(text) == head + percent_decoded(tail));
    } else {
        let rest = head.drop_first();
        assert(text[0] == head[0] && head.contains(head[0]));
        assert(!rest.contains('%')) by {
            if rest.contains('%') {
                let i = choose|i: int| 0 <= i < rest.len() && rest[i] == '%';
                assert(head[i + 1] == '%');
            }
        }
        lemma_decoded_prefix(rest, tail);
        assert(text.drop_first() == rest + tail);
        assert(percent_decoded(text) == head + percent_decoded(tail));
    }
}

/// What the texts of a list say.
pub open spec fn texts_view(texts: Seq<String>) -> Seq<Seq<char>> {
    texts.map_values(|t: String| t@)
}

/// What an optional text says.
pub open spec fn option_view(text: Option<String>) -> Option<Seq<char>> {
    match text {
        Some(text) => Some(text@),
        None => None,
    }
}

/// A copy of a list of texts.
pub fn copy_texts(texts: &Vec<String>) -> (copy: Vec<String>)
    ensures
        texts_view(copy@) == texts_view(texts@),
{
    let mut copy: Vec<String> = Vec::new();
    for i in 0..texts.len()
        invariant
            copy@.len() == i,
            forall|j: int| 0 <= j < i ==> (#[trigger] copy@[j])@ == texts@[j]@,
    {
        copy.push(texts[i].clone());
    }
    assert(texts_view(copy@) == texts_view(texts@));
    copy
}

/// Whether `text` is in a list.
pub fn is_listed(texts: &Vec<String>, text: &str) -> (listed: bool)
    ensures
        listed == texts_view(texts@).contains(text@),
{
    let ghost view = texts_view(texts@);
    for i in 0..texts.len()
        invariant
            view == texts_view(texts@),
            forall|j: int| 0 <= j < i ==> #[trigger] view[j] != text@,
    {
        assert(view[i as int] == texts@[i as int]@);
        if same_text(&texts[i], text) {
            return true;
        }
    }
    false
}

/// The part of `text` before the first `c`, or all of it.
pub open spec fn before_char(text: Seq<char>, c: char) -> Seq<char>
    decreases text.len(),
{
    if text.len() == 0 || text[0] == c {
        seq![]
    } else {
        seq![text[0]] + before_char(text.drop_first(), c)
    }
}

/// The part of `text` before the first `c`, or all of it.
pub fn text_before(text: &str, c: char) -> (r: String)
    ensures
        r@ == before_char(text@, c),
{
    let chars = chars_of(text);
    let mut end: usize = 0;
    assert(chars@.skip(0) == chars@);
    while end < chars.len() && chars[end] != c
        invariant
            end <= chars@.len(),
            chars@.take(end as int) + before_char(chars@.skip(end as int), c) == before_char(
                chars@,
                c,
            ),
        decreases chars@.len() - end,
    {
        assert(chars@.skip(end as int).drop_first() == chars@.skip(end + 1));
        assert(chars@.take(end + 1) == chars@.take(end as int).push(chars@[end as int]));
        assert(chars@.take(end as int) + (seq![chars@[end as int]] + before_char(
            chars@.skip(end + 1),
            c,
        )) == chars@.take(end + 1) + before_char(chars@.skip(end + 1), c));
        end = end + 1;
    }
    assert(chars@.take(end as int) + Seq::<char>::empty() == chars@.take(end as int));
    assert(chars@.take(end as int) == text@.subrange(0, end as int));
    text.substring_char(0, end).to_owned()
}

/// What stands before the first `c` is `head`, where `head` has none and is followed by one or by
/// nothing.
pub proof fn lemma_before_char(head: Seq<char>, tail: Seq<char>, c: char)
    requires
        !head.contains(c),
        tail.len() > 0 ==> tail[0] == c,
    ensures
        before_char(head + tail, c) == head,
    decreases head.len(),
{
    let text = head + tail;
    if head.len() == 0 {
        assert(text == tail);
        assert(before_char(text, c) == head);
    } else {
        let rest = head.drop_first();
        assert(text[0] == head[0] && head.contains(head[0]));
        assert(!rest.contains(c)) by {
            if rest.contains(c) {
                let i = choose|i: int| 0 <= i < rest.len() && rest[i] == c;
                assert(head[i + 1] == c);
            }
        }
        lemma_before_char(rest, tail, c);
        assert(text.drop_first() == rest + tail);
        assert(before_char(text, c) == head);
    }
}

/// What stands before the first `c` has none in it, and is followed by one unless it is all.
pub proof fn lemma_before_char_has_none(text: Seq<char>, c: char)
    ensures
        !before_char(text, c).contains(c),
        before_char(text, c).len() <= text.len(),
        before_char(text, c).len() < text.len() ==> text[before_char(text, c).len() as int] == c,
    decreases text.len(),
{
    if text.len() > 0 && text[0] != c {
        let rest = text.drop_first();
        lemma_before_char_has_none(rest, c);
        let before = before_char(text, c);
        if before.contains(c) {
            let i = choose|i: int| 0 <= i < before.len() && before[i] == c;
            assert(i > 0 && before[i] == before_char(rest, c)[i - 1]);
            assert(before_char(rest, c).contains(c));
        }
    }
}

/// What stands before the first `c` begins the text.
pub proof fn lemma_before_char_is_prefix(text: Seq<char>, c: char)
    ensures
        before_char(text, c).is_prefix_of(text),
    decreases text.len(),
{
    if text.len() > 0 && text[0] != c {
        let rest = text.drop_first();
        lemma_before_char_is_prefix(rest, c);
        let before = before_char(text, c);
        assert forall|i: int| 0 <= i < before.len() implies before[i] == #[trigger] text[i] by {
            if i > 0 {
                assert(before[i] == before_char(rest, c)[i - 1]);
                assert(rest[i - 1] == text[i]);
                assert(before_char(rest, c)[i - 1] == rest[i - 1]);
            }
        }
    }
}

/// The part of `text` before the last `c`, or all of it.
pub open spec fn before_last_char(text: Seq<char>, c: char) -> Seq<char> {
    match text.index_of_last(c) {
        Some(i) => text.take(i),
        None => text,
    }
}

/// The part of `text` before the last `c`, or all of it.
pub fn text_before_last(text: &str, c: char) -> (r: String)
    ensures
        r@ == before_last_char(text@, c),
{
    let chars = chars_of(text);
    let mut end: usize = chars.len();
    while 0 < end
        invariant
            chars@ == text@,
            end <= chars@.len(),
            forall|j: int| end <= j < chars@.len() ==> #[trigger] chars@[j] != c,
        decreases end,
    {
        end = end - 1;
        if chars[end] == c {
            proof {
                text@.index_of_last_ensures(c);
            }
            return text.substring_char(0, end).to_owned();
        }
    }
    proof {
        text@.index_of_last_ensures(c);
    }
    text.to_owned()
}

} // verus!
