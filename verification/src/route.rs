//! Where a URL path leads: what a URL parser makes of its dot segments before it is requested.

use crate::text;
use vstd::prelude::*;

verus! {

/// Whether a segment stands for the place it is in: a dot, as it is or percent-encoded.
pub open spec fn is_single_dot(segment: Seq<char>) -> bool {
    let segment = text::lower(segment);
    segment == "."@ || segment == "%2e"@
}

/// Whether a segment stands for the place above the one it is in: two dots, each as it is or
/// percent-encoded.
pub open spec fn is_double_dot(segment: Seq<char>) -> bool {
    let segment = text::lower(segment);
    segment == ".."@ || segment == ".%2e"@ || segment == "%2e."@ || segment == "%2e%2e"@
}

/// `text` up to and including its last slash.
pub open spec fn up_to_slash(text: Seq<char>) -> Seq<char>
    decreases text.len(),
{
    if text.len() == 0 || text.last() == '/' {
        text
    } else {
        up_to_slash(text.drop_last())
    }
}

/// The place above `place`, which ends in a slash. The topmost has none above it.
pub open spec fn parent(place: Seq<char>) -> Seq<char> {
    let above = up_to_slash(place.drop_last());
    if above.len() == 0 {
        place
    } else {
        above
    }
}

/// Where `rest` leads from `place`, which ends in a slash.
pub open spec fn followed(place: Seq<char>, rest: Seq<char>) -> Seq<char>
    decreases rest.len(),
{
    let segment = text::before_char(rest, '/');
    let last = segment.len() >= rest.len();
    let next = if is_single_dot(segment) {
        place
    } else if is_double_dot(segment) {
        parent(place)
    } else if last {
        place + segment
    } else {
        (place + segment).push('/')
    };
    if last {
        next
    } else {
        followed(next, rest.skip(segment.len() as int + 1))
    }
}

/// Where `route`, a path without a query, leads: each segment that is a single dot is left out, and
/// each that is a double dot with the segment before it.
pub open spec fn resolved(route: Seq<char>) -> Seq<char> {
    if route.len() > 0 && route[0] == '/' {
        followed(seq!['/'], route.drop_first())
    } else {
        route
    }
}

/// Where the segment that begins at `from` ends.
fn segment_end(chars: &Vec<char>, from: usize) -> (end: usize)
    requires
        from <= chars@.len(),
    ensures
        from <= end <= chars@.len(),
        text::before_char(chars@.skip(from as int), '/') == chars@.subrange(
            from as int,
            end as int,
        ),
        end < chars@.len() ==> chars@[end as int] == '/',
{
    let mut end: usize = from;
    while end < chars.len() && chars[end] != '/'
        invariant
            from <= end <= chars@.len(),
            forall|i: int| from <= i < end ==> #[trigger] chars@[i] != '/',
        decreases chars@.len() - end,
    {
        end = end + 1;
    }
    proof {
        let (head, tail) = (chars@.subrange(from as int, end as int), chars@.skip(end as int));
        assert(chars@.skip(from as int) == head + tail);
        text::lemma_before_char(head, tail, '/');
    }
    end
}

/// The characters from `from` up to `to`.
fn text_between(chars: &Vec<char>, from: usize, to: usize) -> (r: String)
    requires
        from <= to <= chars@.len(),
    ensures
        r@ == chars@.subrange(from as int, to as int),
{
    let mut r = String::new();
    for i in from..to
        invariant
            from <= to <= chars@.len(),
            r@ == chars@.subrange(from as int, i as int),
    {
        r.push(chars[i]);
    }
    r
}

/// Goes to the place above.
fn go_up(place: &mut Vec<char>)
    requires
        old(place)@.len() > 0,
    ensures
        final(place)@ == parent(old(place)@),
{
    let ghost before = place@;
    let mut n: usize = place.len() - 1;
    assert(before.take(n as int) == before.drop_last());
    while 0 < n && place[n - 1] != '/'
        invariant
            place@ == before,
            n < before.len(),
            up_to_slash(before.take(n as int)) == up_to_slash(before.drop_last()),
        decreases n,
    {
        assert(before.take(n as int).drop_last() == before.take(n - 1));
        n = n - 1;
    }
    assert(up_to_slash(before.take(n as int)) == before.take(n as int));
    if 0 < n {
        place.truncate(n);
        assert(place@ == before.take(n as int));
    }
}

/// Adds a segment.
fn go_down(place: &mut Vec<char>, chars: &Vec<char>, from: usize, to: usize)
    requires
        from <= to <= chars@.len(),
    ensures
        final(place)@ == old(place)@ + chars@.subrange(from as int, to as int),
{
    let ghost before = place@;
    for i in from..to
        invariant
            from <= to <= chars@.len(),
            place@ == before + chars@.subrange(from as int, i as int),
    {
        place.push(chars[i]);
    }
}

/// The text that the characters make.
fn text_of(chars: &Vec<char>) -> (r: String)
    ensures
        r@ == chars@,
{
    let r = text_between(chars, 0, chars.len());
    assert(chars@.subrange(0, chars@.len() as int) == chars@);
    r
}

/// Whether a segment stands for the place it is in.
fn single_dot(segment: &str) -> (yes: bool)
    ensures
        yes == is_single_dot(segment@),
{
    let segment = text::lowered(segment);
    text::same_text(&segment, ".") || text::same_text(&segment, "%2e")
}

/// Whether a segment stands for the place above the one it is in.
fn double_dot(segment: &str) -> (yes: bool)
    ensures
        yes == is_double_dot(segment@),
{
    let segment = text::lowered(segment);
    text::same_text(&segment, "..") || text::same_text(&segment, ".%2e") || text::same_text(
        &segment,
        "%2e.",
    ) || text::same_text(&segment, "%2e%2e")
}

/// Where `route`, a path without a query, leads.
pub fn resolve(route: &str) -> (r: String)
    ensures
        r@ == resolved(route@),
{
    let chars = text::chars_of(route);
    if chars.len() == 0 || chars[0] != '/' {
        return route.to_owned();
    }
    let mut place: Vec<char> = Vec::new();
    place.push('/');
    let mut at: usize = 1;
    proof {
        assert(place@ == seq!['/']);
        assert(chars@.skip(1) == route@.drop_first());
    }
    loop
        invariant
            chars@ == route@,
            1 <= at <= chars@.len(),
            place@.len() > 0,
            followed(place@, chars@.skip(at as int)) == resolved(route@),
        decreases chars@.len() - at,
    {
        let ghost rest = chars@.skip(at as int);
        let end = segment_end(&chars, at);
        let segment = text_between(&chars, at, end);
        let last = end == chars.len();
        assert(last == (segment@.len() >= rest.len()));
        if single_dot(&segment) {
            // Leads nowhere else.
        } else if double_dot(&segment) {
            go_up(&mut place);
        } else {
            go_down(&mut place, &chars, at, end);
            if !last {
                place.push('/');
            }
        }
        if last {
            return text_of(&place);
        }
        assert(rest.skip(segment@.len() as int + 1) == chars@.skip(end + 1));
        at = end + 1;
    }
}

/// The place above is one, or the place itself.
proof fn lemma_up_is_a_place(place: Seq<char>)
    ensures
        up_to_slash(place).is_prefix_of(place),
        up_to_slash(place).len() > 0 ==> up_to_slash(place).last() == '/',
    decreases place.len(),
{
    if place.len() > 0 && place.last() != '/' {
        lemma_up_is_a_place(place.drop_last());
    }
}

/// Whether the characters of `route` from `from` up to `to` are one of its segments: behind a
/// slash, and up to the next one or the end.
pub open spec fn is_segment(route: Seq<char>, from: int, to: int) -> bool {
    &&& 0 < from <= to <= route.len()
    &&& route[from - 1] == '/'
    &&& to < route.len() ==> route[to] == '/'
    &&& !route.subrange(from, to).contains('/')
}

/// Whether no segment of `route` is a dot segment.
pub open spec fn has_no_dots(route: Seq<char>) -> bool {
    forall|from: int, to: int| #[trigger]
        is_segment(route, from, to) ==> !is_single_dot(route.subrange(from, to)) && !is_double_dot(
            route.subrange(from, to),
        )
}

/// What a path leads to has no dot segment left, so it is requested as it stands.
pub proof fn law_resolved_has_no_dots(route: Seq<char>)
    requires
        route.len() > 0,
        route[0] == '/',
    ensures
        has_no_dots(resolved(route)),
        resolved(route).len() > 0,
        resolved(route)[0] == '/',
{
    let top = seq!['/'];
    assert(has_no_dots(top)) by {
        assert forall|from: int, to: int| #[trigger] is_segment(top, from, to) implies
            !is_single_dot(top.subrange(from, to)) && !is_double_dot(top.subrange(from, to)) by {
            lemma_empty_is_no_dot(top.subrange(from, to));
        }
    }
    lemma_followed_has_no_dots(top, route.drop_first());
}

/// An empty segment is no dot segment.
proof fn lemma_empty_is_no_dot(segment: Seq<char>)
    requires
        segment.len() == 0,
    ensures
        !is_single_dot(segment),
        !is_double_dot(segment),
{
    reveal_strlit(".");
    reveal_strlit("%2e");
    reveal_strlit("..");
    reveal_strlit(".%2e");
    reveal_strlit("%2e.");
    reveal_strlit("%2e%2e");
    assert(text::lower(segment).len() == 0);
}

/// A place that another begins with has no dot segments where that has none.
proof fn lemma_place_above_has_no_dots(above: Seq<char>, place: Seq<char>)
    requires
        has_no_dots(place),
        above.is_prefix_of(place),
        above.len() > 0,
        above.last() == '/',
    ensures
        has_no_dots(above),
{
    assert forall|from: int, to: int| #[trigger] is_segment(above, from, to) implies
        !is_single_dot(above.subrange(from, to)) && !is_double_dot(above.subrange(from, to)) by {
        if to < above.len() {
            assert(above.subrange(from, to) == place.subrange(from, to));
            assert(place[to] == above[to] && place[from - 1] == above[from - 1]);
            assert(is_segment(place, from, to));
        } else {
            if from < to {
                assert(above.subrange(from, to).last() == '/');
                assert(above.subrange(from, to).contains('/'));
            }
            lemma_empty_is_no_dot(above.subrange(from, to));
        }
    }
}

/// A segment that is no dot segment makes none of a place.
proof fn lemma_place_below_has_no_dots(place: Seq<char>, segment: Seq<char>, last: bool)
    requires
        has_no_dots(place),
        place.len() > 0,
        place.last() == '/',
        !segment.contains('/'),
        !is_single_dot(segment),
        !is_double_dot(segment),
    ensures
        has_no_dots(if last {
            place + segment
        } else {
            (place + segment).push('/')
        }),
{
    let n = place.len() as int;
    let end = n + segment.len();
    let below = if last {
        place + segment
    } else {
        (place + segment).push('/')
    };
    assert forall|from: int, to: int| #[trigger] is_segment(below, from, to) implies
        !is_single_dot(below.subrange(from, to)) && !is_double_dot(below.subrange(from, to)) by {
        let part = below.subrange(from, to);
        if from < n {
            assert(below[n - 1] == '/');
            if to >= n {
                assert(part[n - 1 - from] == '/');
                assert(part.contains('/'));
            }
            assert(part == place.subrange(from, to));
            assert(place[from - 1] == below[from - 1] && place[to] == below[to]);
            assert(is_segment(place, from, to));
        } else if from == n {
            if to < end {
                assert(segment[to - n] == '/');
                assert(segment.contains('/'));
            }
            if to > end {
                assert(part[end - from] == '/');
                assert(part.contains('/'));
            }
            assert(part == segment);
        } else if from <= end {
            assert(below[from - 1] == segment[from - 1 - n]);
            assert(segment.contains('/'));
        } else {
            lemma_empty_is_no_dot(part);
        }
    }
}

proof fn lemma_followed_has_no_dots(place: Seq<char>, rest: Seq<char>)
    requires
        has_no_dots(place),
        place.len() > 0,
        place[0] == '/',
        place.last() == '/',
    ensures
        has_no_dots(followed(place, rest)),
        followed(place, rest).len() > 0,
        followed(place, rest)[0] == '/',
    decreases rest.len(),
{
    let segment = text::before_char(rest, '/');
    let last = segment.len() >= rest.len();
    text::lemma_before_char_has_none(rest, '/');
    let next = if is_single_dot(segment) {
        place
    } else if is_double_dot(segment) {
        parent(place)
    } else if last {
        place + segment
    } else {
        (place + segment).push('/')
    };
    if is_double_dot(segment) && !is_single_dot(segment) {
        let above = up_to_slash(place.drop_last());
        lemma_up_is_a_place(place.drop_last());
        if above.len() > 0 {
            assert(above.is_prefix_of(place)) by {
                assert(above == place.take(above.len() as int));
            }
            lemma_place_above_has_no_dots(above, place);
            assert(above[0] == place[0]);
        }
    } else if !is_single_dot(segment) {
        lemma_place_below_has_no_dots(place, segment, last);
    }
    if !last {
        lemma_followed_has_no_dots(next, rest.skip(segment.len() as int + 1));
    }
}

/// Whether the last segment of `route` is a dot.
pub open spec fn ends_in_dot(route: Seq<char>) -> bool {
    let n = route.len() as int;
    n >= 2 && route[n - 1] == '.' && route[n - 2] == '/'
}

/// A path that has no percent sign, no two dots on end and no dot segment but maybe the last leads
/// where it says. A dot at the end is left out.
pub proof fn law_plain_route_leads_where_it_says(route: Seq<char>)
    requires
        !route.contains('%'),
        !text::occurs(".."@, route),
        !text::occurs("/./"@, route),
    ensures
        resolved(route) == (if ends_in_dot(route) && route[0] == '/' {
            route.drop_last()
        } else {
            route
        }),
{
    if route.len() > 0 && route[0] == '/' {
        assert(seq!['/'] + route.drop_first() == route);
        lemma_plain_followed(seq!['/'], route.drop_first());
    }
}

proof fn lemma_plain_followed(place: Seq<char>, rest: Seq<char>)
    requires
        place.len() > 0,
        place.last() == '/',
        !(place + rest).contains('%'),
        !text::occurs(".."@, place + rest),
        !text::occurs("/./"@, place + rest),
    ensures
        followed(place, rest) == (if ends_in_dot(place + rest) {
            (place + rest).drop_last()
        } else {
            place + rest
        }),
    decreases rest.len(),
{
    reveal_strlit(".");
    reveal_strlit("..");
    reveal_strlit("%2e");
    reveal_strlit(".%2e");
    reveal_strlit("%2e.");
    reveal_strlit("%2e%2e");
    reveal_strlit("/./");
    let whole = place + rest;
    let n = place.len() as int;
    let segment = text::before_char(rest, '/');
    let k = segment.len() as int;
    let last = k >= rest.len();
    let lower = text::lower(segment);
    text::lemma_before_char_is_prefix(rest, '/');
    text::lemma_before_char_has_none(rest, '/');
    assert(k <= rest.len());
    assert(forall|i: int| 0 <= i < k ==> whole[n + i] == #[trigger] segment[i]);
    assert(forall|i: int| 0 <= i < k ==> #[trigger] lower[i] == text::lower_char(segment[i]));
    assert(!lower.contains('%')) by {
        if lower.contains('%') {
            let i = choose|i: int| 0 <= i < k && lower[i] == '%';
            assert(lower[i] == text::lower_char(segment[i]));
            assert(whole[n + i] == segment[i]);
            assert(whole.contains('%'));
        }
    }
    assert("%2e"@[0] == '%' && ".%2e"@[1] == '%' && "%2e."@[0] == '%' && "%2e%2e"@[0] == '%');
    assert(is_single_dot(segment) ==> lower == "."@);
    assert(is_double_dot(segment) ==> lower == ".."@);
    if lower == ".."@ {
        assert(lower[0] == '.' && lower[1] == '.');
        assert(whole[n] == segment[0] && whole[n + 1] == segment[1]);
        assert(whole.subrange(n, n + ".."@.len()) == ".."@);
        assert(text::occurs(".."@, whole));
    }
    if last {
        assert(segment == rest);
        if lower == "."@ {
            assert(lower[0] == '.' && whole[n] == segment[0]);
            assert(whole.drop_last() == place);
        } else if ends_in_dot(whole) {
            if k == 1 {
                assert(whole[n] == segment[0]);
                assert(lower =~= "."@);
            } else if k >= 2 {
                assert(whole[n + k - 2] == segment[k - 2]);
                assert(segment.contains('/'));
            }
        }
    } else {
        let left = rest.skip(k + 1);
        assert(rest[k] == '/');
        if lower == "."@ {
            assert(lower[0] == '.' && whole[n] == segment[0]);
            assert(whole[n + 1] == rest[1]);
            assert(whole.subrange(n - 1, n - 1 + "/./"@.len()) == "/./"@);
            assert(text::occurs("/./"@, whole));
        }
        let next = (place + segment).push('/');
        assert(rest == segment + seq!['/'] + left);
        assert(next + left == whole);
        lemma_plain_followed(next, left);
    }
}

} // verus!
