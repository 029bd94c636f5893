//! Splitting a block of SQL into its statements.
use crate::text::{self, chars_of, trim_slice};
use vstd::prelude::*;

verus! {

/// Where a quotation that is open at `i` ends: behind its closing mark. A
/// doubled mark stands for one mark inside.
pub open spec fn doubled_end(s: Seq<char>, i: int, mark: char) -> Option<int>
    decreases s.len() - i,
{
    if i < 0 || i >= s.len() {
        None
    } else if s[i] != mark {
        doubled_end(s, i + 1, mark)
    } else if i + 1 < s.len() && s[i + 1] == mark {
        doubled_end(s, i + 2, mark)
    } else {
        Some(i + 1)
    }
}

/// Where a quotation without doubled marks ends.
pub open spec fn plain_end(s: Seq<char>, i: int, mark: char) -> Option<int>
    decreases s.len() - i,
{
    if i < 0 || i >= s.len() {
        None
    } else if s[i] != mark {
        plain_end(s, i + 1, mark)
    } else {
        Some(i + 1)
    }
}

/// Where a line comment ends: behind the line feed, or with the text.
pub open spec fn line_comment_end(s: Seq<char>, i: int) -> int
    decreases s.len() - i,
{
    if i < 0 || i >= s.len() {
        s.len() as int
    } else if s[i] != '\n' {
        line_comment_end(s, i + 1)
    } else {
        i + 1
    }
}

/// Where a block comment ends: behind `*/`.
pub open spec fn block_comment_end(s: Seq<char>, i: int) -> Option<int>
    decreases s.len() - i,
{
    if i < 0 || i + 1 >= s.len() {
        None
    } else if s[i] == '*' && s[i + 1] == '/' {
        Some(i + 2)
    } else {
        block_comment_end(s, i + 1)
    }
}

/// `c` stands behind position `i`.
pub open spec fn followed_by(s: Seq<char>, i: int, c: char) -> bool {
    i + 1 < s.len() && s[i + 1] == c
}

/// Where the lexical element that begins at `i` ends: a quotation, a comment,
/// or one character. None if a quotation or a block comment stays open.
pub open spec fn element_end(s: Seq<char>, i: int) -> Option<int> {
    let c = s[i];
    if c == '\'' || c == '"' {
        doubled_end(s, i + 1, c)
    } else if c == '`' {
        plain_end(s, i + 1, '`')
    } else if c == '[' {
        plain_end(s, i + 1, ']')
    } else if c == '-' && followed_by(s, i, '-') {
        Some(line_comment_end(s, i + 2))
    } else if c == '/' && followed_by(s, i, '*') {
        block_comment_end(s, i + 2)
    } else {
        Some(i + 1)
    }
}

/// The text from `start` on, cut behind each semicolon that is an element of
/// its own, where the elements up to `i` are known to hold none.
pub open spec fn pieces(s: Seq<char>, start: int, i: int) -> Option<Seq<Seq<char>>>
    decreases s.len() - i,
    via pieces_get_shorter
{
    if i < 0 || i >= s.len() {
        Some(seq![s.subrange(start, s.len() as int)])
    } else {
        match element_end(s, i) {
            None => None,
            Some(end) => if s[i] == ';' {
                match pieces(s, end, end) {
                    None => None,
                    Some(rest) => Some(seq![s.subrange(start, end)] + rest),
                }
            } else {
                pieces(s, start, end)
            },
        }
    }
}

#[via_fn]
proof fn pieces_get_shorter(s: Seq<char>, start: int, i: int) {
    if 0 <= i < s.len() {
        element_moves_on(s, i);
    }
}

proof fn doubled_moves_on(s: Seq<char>, i: int, mark: char)
    requires
        0 <= i,
    ensures
        doubled_end(s, i, mark) matches Some(end) ==> i < end <= s.len(),
    decreases s.len() - i,
{
    if i < s.len() {
        if s[i] != mark {
            doubled_moves_on(s, i + 1, mark);
        } else if i + 1 < s.len() && s[i + 1] == mark {
            doubled_moves_on(s, i + 2, mark);
        }
    }
}

proof fn plain_moves_on(s: Seq<char>, i: int, mark: char)
    requires
        0 <= i,
    ensures
        plain_end(s, i, mark) matches Some(end) ==> i < end <= s.len(),
    decreases s.len() - i,
{
    if i < s.len() && s[i] != mark {
        plain_moves_on(s, i + 1, mark);
    }
}

proof fn line_comment_moves_on(s: Seq<char>, i: int)
    requires
        0 <= i <= s.len(),
    ensures
        i <= line_comment_end(s, i) <= s.len(),
    decreases s.len() - i,
{
    if i < s.len() && s[i] != '\n' {
        line_comment_moves_on(s, i + 1);
    }
}

proof fn block_comment_moves_on(s: Seq<char>, i: int)
    requires
        0 <= i,
    ensures
        block_comment_end(s, i) matches Some(end) ==> i < end <= s.len(),
    decreases s.len() - i,
{
    if i + 1 < s.len() && !(s[i] == '*' && s[i + 1] == '/') {
        block_comment_moves_on(s, i + 1);
    }
}

/// Every element has at least one character.
pub proof fn element_moves_on(s: Seq<char>, i: int)
    requires
        0 <= i < s.len(),
    ensures
        element_end(s, i) matches Some(end) ==> i < end <= s.len(),
{
    doubled_moves_on(s, i + 1, s[i]);
    plain_moves_on(s, i + 1, '`');
    plain_moves_on(s, i + 1, ']');
    if followed_by(s, i, '-') {
        line_comment_moves_on(s, i + 2);
    }
    block_comment_moves_on(s, i + 2);
}

/// The characters that a piece may hold without being a statement.
pub open spec fn is_filler(c: char) -> bool {
    c == ';' || c == ' ' || c == '\t' || c == '\r' || c == '\n'
}

/// A piece that ends with a semicolon holds a statement.
pub open spec fn holds_statement(piece: Seq<char>) -> bool {
    exists|i: int| 0 <= i < piece.len() && !is_filler(#[trigger] piece[i])
}

/// The statements among the pieces, trimmed. The last piece has no semicolon
/// and counts unless it is all white space.
pub open spec fn statements_of(list: Seq<Seq<char>>) -> Seq<Seq<char>>
    decreases list.len(),
{
    if list.len() == 0 {
        Seq::empty()
    } else if list.len() == 1 {
        if text::trim(list[0]).len() > 0 {
            seq![text::trim(list[0])]
        } else {
            Seq::empty()
        }
    } else {
        (if holds_statement(list[0]) {
            seq![text::trim(list[0])]
        } else {
            Seq::empty()
        }) + statements_of(list.drop_first())
    }
}

/// The pieces one after the other.
pub open spec fn joined(list: Seq<Seq<char>>) -> Seq<char>
    decreases list.len(),
{
    if list.len() == 0 {
        Seq::empty()
    } else {
        list[0] + joined(list.drop_first())
    }
}

/// Cutting loses nothing: the pieces put together are the text again.
pub proof fn pieces_join_to_the_text(s: Seq<char>, start: int, i: int)
    requires
        0 <= start <= i <= s.len(),
        pieces(s, start, i) is Some,
    ensures
        joined(pieces(s, start, i).unwrap()) == s.skip(start),
        pieces(s, start, i).unwrap().len() >= 1,
    decreases s.len() - i,
{
    if i == s.len() {
        let list = pieces(s, start, i).unwrap();
        assert(list.drop_first() =~= Seq::empty());
        assert(joined(list.drop_first()) =~= Seq::<char>::empty());
        assert(joined(list) =~= s.skip(start));
    } else {
        element_moves_on(s, i);
        let end = element_end(s, i).unwrap();
        if s[i] == ';' {
            pieces_join_to_the_text(s, end, end);
            let rest = pieces(s, end, end).unwrap();
            let list = pieces(s, start, i).unwrap();
            assert(list.drop_first() =~= rest);
            assert(joined(list) =~= s.skip(start));
        } else {
            pieces_join_to_the_text(s, start, end);
        }
    }
}

/// Every piece but the last ends with the semicolon at which it was cut.
pub proof fn pieces_end_at_semicolons(s: Seq<char>, start: int, i: int)
    requires
        0 <= start <= i <= s.len(),
        pieces(s, start, i) is Some,
    ensures
        forall|k: int|
            0 <= k < pieces(s, start, i).unwrap().len() - 1 ==> (#[trigger] pieces(
                s,
                start,
                i,
            ).unwrap()[k]).len() > 0 && pieces(s, start, i).unwrap()[k].last() == ';',
    decreases s.len() - i,
{
    if i < s.len() {
        element_moves_on(s, i);
        let end = element_end(s, i).unwrap();
        if s[i] == ';' {
            pieces_end_at_semicolons(s, end, end);
            let rest = pieces(s, end, end).unwrap();
            let list = pieces(s, start, i).unwrap();
            assert(end == i + 1);
            assert(list[0].last() == ';');
            assert forall|k: int| 0 <= k < list.len() - 1 implies (#[trigger] list[k]).len() > 0
                && list[k].last() == ';' by {
                if k > 0 {
                    assert(list[k] == rest[k - 1]);
                }
            }
        } else {
            pieces_end_at_semicolons(s, start, end);
        }
    }
}

proof fn kept_are_trimmed(list: Seq<Seq<char>>)
    requires
        forall|k: int|
            0 <= k < list.len() - 1 ==> (#[trigger] list[k]).len() > 0 && list[k].last() == ';',
    ensures
        forall|k: int|
            0 <= k < statements_of(list).len() ==> (#[trigger] statements_of(list)[k]).len() > 0
                && !text::is_space(statements_of(list)[k][0]) && !text::is_space(
                statements_of(list)[k].last(),
            ),
    decreases list.len(),
{
    if list.len() == 1 {
        text::trim_leaves_no_border(list[0]);
    } else if list.len() > 1 {
        let rest = list.drop_first();
        assert forall|k: int| 0 <= k < rest.len() - 1 implies (#[trigger] rest[k]).len() > 0
            && rest[k].last() == ';' by {
            assert(rest[k] == list[k + 1]);
        }
        kept_are_trimmed(rest);
        text::trim_leaves_no_border(list[0]);
        assert(!text::is_space(list[0][list[0].len() - 1]));
        let head = if holds_statement(list[0]) {
            seq![text::trim(list[0])]
        } else {
            Seq::empty()
        };
        let all = statements_of(list);
        assert(all =~= head + statements_of(rest));
        assert forall|k: int| 0 <= k < all.len() implies (#[trigger] all[k]).len() > 0
            && !text::is_space(all[k][0]) && !text::is_space(all[k].last()) by {
            if k >= head.len() {
                assert(all[k] == statements_of(rest)[k - head.len()]);
            }
        }
    }
}

/// Every statement of a block is trimmed and holds something but white space.
pub proof fn statements_are_trimmed(block: Seq<char>)
    requires
        pieces(block, 0, 0) is Some,
    ensures
        ({
            let all = statements_of(pieces(block, 0, 0).unwrap());
            forall|k: int|
                0 <= k < all.len() ==> (#[trigger] all[k]).len() > 0 && !text::is_space(all[k][0])
                    && !text::is_space(all[k].last())
        }),
{
    pieces_end_at_semicolons(block, 0, 0);
    kept_are_trimmed(pieces(block, 0, 0).unwrap());
}

proof fn doubled_stays(s: Seq<char>, a: int, b: int, i: int, mark: char)
    requires
        0 <= a <= i,
        b <= s.len(),
        doubled_end(s, i, mark) matches Some(end) && end <= b,
    ensures
        doubled_end(s.subrange(a, b), i - a, mark) == Some(doubled_end(s, i, mark).unwrap() - a),
    decreases s.len() - i,
{
    doubled_moves_on(s, i, mark);
    if s[i] != mark {
        doubled_stays(s, a, b, i + 1, mark);
    } else if i + 1 < s.len() && s[i + 1] == mark {
        doubled_moves_on(s, i + 2, mark);
        doubled_stays(s, a, b, i + 2, mark);
    }
}

proof fn plain_stays(s: Seq<char>, a: int, b: int, i: int, mark: char)
    requires
        0 <= a <= i,
        b <= s.len(),
        plain_end(s, i, mark) matches Some(end) && end <= b,
    ensures
        plain_end(s.subrange(a, b), i - a, mark) == Some(plain_end(s, i, mark).unwrap() - a),
    decreases s.len() - i,
{
    plain_moves_on(s, i, mark);
    if s[i] != mark {
        plain_stays(s, a, b, i + 1, mark);
    }
}

proof fn block_comment_stays(s: Seq<char>, a: int, b: int, i: int)
    requires
        0 <= a <= i,
        b <= s.len(),
        block_comment_end(s, i) matches Some(end) && end <= b,
    ensures
        block_comment_end(s.subrange(a, b), i - a) == Some(block_comment_end(s, i).unwrap() - a),
    decreases s.len() - i,
{
    block_comment_moves_on(s, i);
    if !(s[i] == '*' && s[i + 1] == '/') {
        block_comment_moves_on(s, i + 1);
        block_comment_stays(s, a, b, i + 1);
    }
}

/// A line comment ends where it ended, or with the cut text.
proof fn line_comment_stays(s: Seq<char>, a: int, b: int, i: int)
    requires
        0 <= a <= i <= b <= s.len(),
    ensures
        line_comment_end(s.subrange(a, b), i - a) == (if line_comment_end(s, i) <= b {
            line_comment_end(s, i) - a
        } else {
            b - a
        }),
    decreases b - i,
{
    line_comment_moves_on(s, i);
    if i < b && s[i] != '\n' {
        line_comment_stays(s, a, b, i + 1);
    }
}

/// What the element that begins at `i` is, does not depend on what stands before it
/// or behind it.
proof fn element_stays(s: Seq<char>, a: int, b: int, i: int)
    requires
        0 <= a <= i < b <= s.len(),
        element_end(s, i) matches Some(end) && end <= b,
    ensures
        element_end(s.subrange(a, b), i - a) == Some(element_end(s, i).unwrap() - a),
{
    let c = s[i];
    assert(s.subrange(a, b)[i - a] == c);
    if c == '\'' || c == '"' {
        doubled_stays(s, a, b, i + 1, c);
    } else if c == '`' {
        plain_stays(s, a, b, i + 1, '`');
    } else if c == '[' {
        plain_stays(s, a, b, i + 1, ']');
    } else if c == '-' && followed_by(s, i, '-') {
        line_comment_moves_on(s, i + 2);
        line_comment_stays(s, a, b, i + 2);
    } else if c == '/' && followed_by(s, i, '*') {
        block_comment_moves_on(s, i + 2);
        block_comment_stays(s, a, b, i + 2);
    }
}

proof fn doubled_ends_with_mark(s: Seq<char>, i: int, mark: char)
    requires
        0 <= i,
    ensures
        doubled_end(s, i, mark) matches Some(end) ==> s[end - 1] == mark,
    decreases s.len() - i,
{
    if i < s.len() {
        if s[i] != mark {
            doubled_ends_with_mark(s, i + 1, mark);
        } else if i + 1 < s.len() && s[i + 1] == mark {
            doubled_ends_with_mark(s, i + 2, mark);
        }
    }
}

proof fn plain_ends_with_mark(s: Seq<char>, i: int, mark: char)
    requires
        0 <= i,
    ensures
        plain_end(s, i, mark) matches Some(end) ==> s[end - 1] == mark,
    decreases s.len() - i,
{
    if i < s.len() && s[i] != mark {
        plain_ends_with_mark(s, i + 1, mark);
    }
}

proof fn block_comment_ends_with_slash(s: Seq<char>, i: int)
    requires
        0 <= i,
    ensures
        block_comment_end(s, i) matches Some(end) ==> s[end - 1] == '/',
    decreases s.len() - i,
{
    if i + 1 < s.len() && !(s[i] == '*' && s[i + 1] == '/') {
        block_comment_ends_with_slash(s, i + 1);
    }
}

/// White space before a piece is passed over.
proof fn leading_space_is_passed(s: Seq<char>, start: int, i: int, a: int)
    requires
        0 <= start <= i <= a <= s.len(),
        forall|k: int| i <= k < a ==> text::is_space(#[trigger] s[k]),
    ensures
        pieces(s, start, i) == pieces(s, start, a),
    decreases a - i,
{
    if i < a {
        assert(text::is_space(s[i]));
        assert(element_end(s, i) == Some(i + 1));
        element_moves_on(s, i);
        leading_space_is_passed(s, start, i + 1, a);
    }
}

/// The first of several pieces ends behind a semicolon at `i` or later.
proof fn first_piece_reaches(s: Seq<char>, start: int, i: int)
    requires
        0 <= start <= i <= s.len(),
        pieces(s, start, i) matches Some(list) && list.len() >= 2,
    ensures
        ({
            let first = pieces(s, start, i).unwrap()[0];
            &&& i < start + first.len() <= s.len()
            &&& first == s.subrange(start, start + first.len())
        }),
    decreases s.len() - i,
{
    if i < s.len() {
        element_moves_on(s, i);
        let end = element_end(s, i).unwrap();
        if s[i] != ';' {
            first_piece_reaches(s, start, end);
        }
    }
}

/// A piece that was cut at a semicolon falls into itself and nothing.
proof fn cut_piece_stays(s: Seq<char>, start: int, a: int, b: int, i: int)
    requires
        0 <= start <= a <= i,
        pieces(s, start, i) matches Some(list) && list.len() >= 2 && b == start + list[0].len(),
    ensures
        pieces(s.subrange(a, b), 0, i - a) == Some(
            seq![s.subrange(a, b), Seq::<char>::empty()],
        ),
    decreases s.len() - i,
{
    first_piece_reaches(s, start, i);
    let t = s.subrange(a, b);
    element_moves_on(s, i);
    let end = element_end(s, i).unwrap();
    assert(t[i - a] == s[i]);
    if s[i] == ';' {
        let list = pieces(s, start, i).unwrap();
        assert(list[0] == s.subrange(start, end));
        assert(b == end);
        element_stays(s, a, b, i);
        assert(t.subrange(0, b - a) =~= t);
        assert(t.subrange(b - a, b - a) =~= Seq::<char>::empty());
        assert(pieces(t, b - a, b - a) == Some(seq![t.subrange(b - a, b - a)]));
        assert(seq![t] + seq![Seq::<char>::empty()] =~= seq![t, Seq::<char>::empty()]);
    } else {
        assert(pieces(s, start, i) == pieces(s, start, end));
        first_piece_reaches(s, start, end);
        element_stays(s, a, b, i);
        element_moves_on(t, i - a);
        cut_piece_stays(s, start, a, b, end);
    }
}

/// The last piece, trimmed, falls into itself alone.
proof fn last_piece_stays(s: Seq<char>, start: int, a: int, b: int, i: int)
    requires
        0 <= start <= a <= i <= b <= s.len(),
        pieces(s, start, i) matches Some(list) && list.len() == 1,
        forall|k: int| b <= k < s.len() ==> text::is_space(#[trigger] s[k]),
        a < b ==> !text::is_space(s[b - 1]),
    ensures
        pieces(s.subrange(a, b), 0, i - a) == Some(seq![s.subrange(a, b)]),
        i < b ==> s[i] != ';',
    decreases s.len() - i,
{
    let t = s.subrange(a, b);
    if i == b {
        assert(t.subrange(0, t.len() as int) =~= t);
    } else {
        element_moves_on(s, i);
        let end = element_end(s, i).unwrap();
        assert(t[i - a] == s[i]);
        if s[i] == ';' {
            pieces_join_to_the_text(s, end, end);
            assert(false);
        }
        assert(pieces(s, start, i) == pieces(s, start, end));
        if end <= b {
            element_stays(s, a, b, i);
            element_moves_on(t, i - a);
            last_piece_stays(s, start, a, b, end);
        } else {
            assert(text::is_space(s[end - 1]));
            doubled_ends_with_mark(s, i + 1, s[i]);
            plain_ends_with_mark(s, i + 1, '`');
            plain_ends_with_mark(s, i + 1, ']');
            block_comment_ends_with_slash(s, i + 2);
            assert(s[i] == '-' && followed_by(s, i, '-'));
            assert(i + 2 <= b) by {
                if b == i + 1 {
                    assert(text::is_space(s[b]));
                }
            }
            assert(t[i + 1 - a] == '-');
            line_comment_stays(s, a, b, i + 2);
            assert(element_end(t, i - a) == Some(b - a));
            assert(t.subrange(0, t.len() as int) =~= t);
            assert(pieces(t, 0, b - a) == Some(seq![t]));
        }
    }
}

/// A statement that is trimmed, holds more than semicolons and white space, and
/// splits into itself alone.
pub open spec fn is_one_statement(t: Seq<char>) -> bool {
    &&& t.len() > 0
    &&& text::trim(t) == t
    &&& holds_statement(t)
    &&& pieces(t, 0, 0) matches Some(list) && statements_of(list) == seq![t]
}

/// The white space of a text is what separates statements.
pub open spec fn plain_space(s: Seq<char>) -> bool {
    forall|k: int| 0 <= k < s.len() && text::is_space(#[trigger] s[k]) ==> is_filler(s[k])
}

proof fn cut_piece_is_one(s: Seq<char>, start: int)
    requires
        0 <= start <= s.len(),
        pieces(s, start, start) matches Some(list) && list.len() >= 2 && holds_statement(list[0]),
    ensures
        ({
            let t = text::trim(pieces(s, start, start).unwrap()[0]);
            &&& holds_statement(t) ==> is_one_statement(t)
            &&& plain_space(s) ==> holds_statement(t)
        }),
{
    let piece = pieces(s, start, start).unwrap()[0];
    first_piece_reaches(s, start, start);
    pieces_end_at_semicolons(s, start, start);
    let end = start + piece.len();
    let (lo, hi) = text::trim_cuts_space_off(piece);
    assert(!text::is_space(piece[piece.len() - 1]));
    assert(hi == piece.len());
    let a = start + lo;
    let t = s.subrange(a, end);
    assert(t =~= piece.subrange(lo, hi));
    let at = choose|k: int| 0 <= k < piece.len() && !is_filler(#[trigger] piece[k]);
    if at < lo {
        assert(text::is_space(piece[at]));
        assert(s[start + at] == piece[at]);
        assert(!plain_space(s));
    } else {
        assert(t[at - lo] == piece[at]);
    }
    text::trim_leaves_no_border(piece);
    text::bordered_text_stays(t);
    assert forall|k: int| start <= k < a implies text::is_space(#[trigger] s[k]) by {
        assert(text::is_space(piece[k - start]));
    }
    leading_space_is_passed(s, start, start, a);
    cut_piece_stays(s, start, a, end, a);
    let list = seq![t, Seq::<char>::empty()];
    assert(list.drop_first() =~= seq![Seq::<char>::empty()]);
    text::trim_leaves_no_border(Seq::<char>::empty());
    assert(text::all_space(Seq::<char>::empty()));
    assert(statements_of(list.drop_first()) == Seq::<Seq<char>>::empty());
    assert(holds_statement(t) ==> statements_of(list) =~= seq![t]);
}

proof fn last_piece_is_one(s: Seq<char>, start: int)
    requires
        0 <= start <= s.len(),
        pieces(s, start, start) matches Some(list) && list.len() == 1 && text::trim(list[0]).len()
            > 0,
    ensures
        is_one_statement(text::trim(pieces(s, start, start).unwrap()[0])),
{
    let piece = pieces(s, start, start).unwrap()[0];
    pieces_join_to_the_text(s, start, start);
    let whole = pieces(s, start, start).unwrap();
    assert(whole.drop_first() =~= Seq::empty());
    assert(joined(whole.drop_first()) =~= Seq::<char>::empty());
    assert(piece =~= s.skip(start));
    let (lo, hi) = text::trim_cuts_space_off(piece);
    let a = start + lo;
    let b = start + hi;
    let t = s.subrange(a, b);
    assert(t =~= piece.subrange(lo, hi));
    text::trim_leaves_no_border(piece);
    text::bordered_text_stays(t);
    assert(t.last() == s[b - 1]);
    assert forall|k: int| start <= k < a implies text::is_space(#[trigger] s[k]) by {
        assert(text::is_space(piece[k - start]));
    }
    assert forall|k: int| b <= k < s.len() implies text::is_space(#[trigger] s[k]) by {
        assert(text::is_space(piece[k - start]));
    }
    leading_space_is_passed(s, start, start, a);
    last_piece_stays(s, start, a, b, a);
    assert(t[0] == s[a]);
    assert(!is_filler(t[0]));
    assert(statements_of(seq![t]) =~= seq![t]);
}

/// Each of the statements that holds more than semicolons and white space splits
/// into itself alone; `always` says that each holds more.
spec fn all_stay(all: Seq<Seq<char>>, always: bool) -> bool {
    forall|k: int|
        0 <= k < all.len() ==> (holds_statement(#[trigger] all[k]) ==> is_one_statement(all[k]))
            && (always ==> holds_statement(all[k]))
}

proof fn statements_stay_from(s: Seq<char>, start: int, i: int)
    requires
        0 <= start <= i <= s.len(),
        pieces(s, start, start) is Some,
        pieces(s, start, start) == pieces(s, start, i),
    ensures
        all_stay(statements_of(pieces(s, start, start).unwrap()), plain_space(s)),
    decreases s.len() - i,
{
    let list = pieces(s, start, start).unwrap();
    pieces_join_to_the_text(s, start, start);
    if i == s.len() {
        assert(list.len() == 1);
        if text::trim(list[0]).len() > 0 {
            last_piece_is_one(s, start);
        }
    } else {
        element_moves_on(s, i);
        let end = element_end(s, i).unwrap();
        if s[i] == ';' {
            pieces_join_to_the_text(s, end, end);
            statements_stay_from(s, end, end);
            let rest = pieces(s, end, end).unwrap();
            assert(list.drop_first() =~= rest);
            let head = if holds_statement(list[0]) {
                seq![text::trim(list[0])]
            } else {
                Seq::empty()
            };
            if holds_statement(list[0]) {
                cut_piece_is_one(s, start);
            }
            let all = statements_of(list);
            assert(all =~= head + statements_of(rest));
            assert forall|k: int| 0 <= k < all.len() implies (holds_statement(#[trigger] all[k])
                ==> is_one_statement(all[k])) && (plain_space(s) ==> holds_statement(all[k])) by {
                if k >= head.len() {
                    assert(all[k] == statements_of(rest)[k - head.len()]);
                }
            }
        } else {
            statements_stay_from(s, start, end);
        }
    }
}

/// Every statement that a block is split into is trimmed, holds more than semicolons
/// and white space, and is split into itself alone, if the block has no other white
/// space than blanks, tabs, carriage returns and line feeds. In any block this holds
/// of every statement that is more than semicolons.
pub proof fn statements_split_into_themselves(block: Seq<char>)
    requires
        pieces(block, 0, 0) is Some,
    ensures
        ({
            let all = statements_of(pieces(block, 0, 0).unwrap());
            &&& plain_space(block) ==> forall|k: int|
                0 <= k < all.len() ==> is_one_statement(#[trigger] all[k])
            &&& forall|k: int|
                0 <= k < all.len() && holds_statement(#[trigger] all[k]) ==> is_one_statement(
                    all[k],
                )
        }),
{
    statements_stay_from(block, 0, 0);
}

fn doubled(chars: &[char], from: usize, mark: char) -> (end: Option<usize>)
    requires
        from <= chars@.len(),
    ensures
        end is Some == doubled_end(chars@, from as int, mark) is Some,
        end matches Some(e) ==> doubled_end(chars@, from as int, mark) == Some(e as int) && from < e
            <= chars@.len(),
{
    let mut i: usize = from;
    while i < chars.len()
        invariant
            from <= i <= chars@.len(),
            doubled_end(chars@, i as int, mark) == doubled_end(chars@, from as int, mark),
        decreases chars.len() - i,
    {
        if chars[i] != mark {
            i += 1;
        } else if i + 1 < chars.len() && chars[i + 1] == mark {
            i += 2;
        } else {
            return Some(i + 1);
        }
    }
    None
}

fn plain(chars: &[char], from: usize, mark: char) -> (end: Option<usize>)
    requires
        from <= chars@.len(),
    ensures
        end is Some == plain_end(chars@, from as int, mark) is Some,
        end matches Some(e) ==> plain_end(chars@, from as int, mark) == Some(e as int) && from < e
            <= chars@.len(),
{
    let mut i: usize = from;
    while i < chars.len()
        invariant
            from <= i <= chars@.len(),
            plain_end(chars@, i as int, mark) == plain_end(chars@, from as int, mark),
        decreases chars.len() - i,
    {
        if chars[i] == mark {
            return Some(i + 1);
        }
        i += 1;
    }
    None
}

fn line_comment(chars: &[char], from: usize) -> (end: usize)
    requires
        from <= chars@.len(),
    ensures
        end == line_comment_end(chars@, from as int),
        from <= end <= chars@.len(),
{
    let mut i: usize = from;
    while i < chars.len()
        invariant
            from <= i <= chars@.len(),
            line_comment_end(chars@, i as int) == line_comment_end(chars@, from as int),
        decreases chars.len() - i,
    {
        if chars[i] == '\n' {
            return i + 1;
        }
        i += 1;
    }
    i
}

fn block_comment(chars: &[char], from: usize) -> (end: Option<usize>)
    requires
        from <= chars@.len(),
    ensures
        end is Some == block_comment_end(chars@, from as int) is Some,
        end matches Some(e) ==> block_comment_end(chars@, from as int) == Some(e as int) && from < e
            <= chars@.len(),
{
    let mut i: usize = from;
    while i < chars.len()
        invariant
            from <= i <= chars@.len(),
            block_comment_end(chars@, i as int) == block_comment_end(chars@, from as int),
        decreases chars.len() - i,
    {
        if chars[i] == '*' && i + 1 < chars.len() && chars[i + 1] == '/' {
            return Some(i + 2);
        }
        i += 1;
    }
    None
}

fn element(chars: &[char], i: usize) -> (end: Option<usize>)
    requires
        i < chars@.len(),
    ensures
        end is Some == element_end(chars@, i as int) is Some,
        end matches Some(e) ==> element_end(chars@, i as int) == Some(e as int) && i < e
            <= chars@.len(),
{
    let c: char = chars[i];
    if c == '\'' || c == '"' {
        doubled(chars, i + 1, c)
    } else if c == '`' {
        plain(chars, i + 1, '`')
    } else if c == '[' {
        plain(chars, i + 1, ']')
    } else if c == '-' && i + 1 < chars.len() && chars[i + 1] == '-' {
        Some(line_comment(chars, i + 2))
    } else if c == '/' && i + 1 < chars.len() && chars[i + 1] == '*' {
        block_comment(chars, i + 2)
    } else {
        Some(i + 1)
    }
}

fn has_statement(chars: &[char], from: usize, to: usize) -> (yes: bool)
    requires
        from <= to <= chars@.len(),
    ensures
        yes == holds_statement(chars@.subrange(from as int, to as int)),
{
    let ghost piece = chars@.subrange(from as int, to as int);
    let mut i: usize = from;
    while i < to
        invariant
            from <= i <= to <= chars@.len(),
            piece == chars@.subrange(from as int, to as int),
            forall|k: int| 0 <= k < i - from ==> is_filler(#[trigger] piece[k]),
        decreases to - i,
    {
        let c: char = chars[i];
        if !(c == ';' || c == ' ' || c == '\t' || c == '\r' || c == '\n') {
            assert(!is_filler(piece[i - from]));
            return true;
        }
        assert(piece[i - from] == c);
        i += 1;
    }
    false
}

/// Why a block cannot be split.
#[derive(Clone, Copy, Debug, PartialEq, Eq, Structural)]
pub enum SplitError {
    Unterminated,
}

impl SplitError {
    /// The error in words.
    pub fn message(&self) -> (text: &'static str)
        ensures
            text@ == "unterminated quoted value or block comment in SQL recipe"@,
    {
        "unterminated quoted value or block comment in SQL recipe"
    }
}

/// The statements of a block, in order. A semicolon inside a quotation or a
/// comment separates nothing.
pub fn split_sql(block: &str) -> (result: Result<Vec<String>, SplitError>)
    ensures
        match pieces(block@, 0, 0) {
            Some(list) => result matches Ok(statements) && text::texts(statements@)
                == statements_of(list),
            None => result is Err,
        },
{
    let chars = chars_of(block);
    let mut statements: Vec<String> = Vec::new();
    let mut start: usize = 0;
    let mut i: usize = 0;
    proof {
        if pieces(block@, 0, 0) is Some {
            pieces_join_to_the_text(block@, 0, 0);
            let list = pieces(block@, 0, 0).unwrap();
            assert(text::texts(statements@) + statements_of(list) =~= statements_of(list));
        }
    }
    while i < chars.len()
        invariant
            chars@ == block@,
            start <= i <= chars@.len(),
            pieces(block@, 0, 0) is Some == pieces(block@, start as int, i as int) is Some,
            pieces(block@, start as int, i as int) matches Some(rest) ==> rest.len() >= 1
                && statements_of(pieces(block@, 0, 0).unwrap()) == text::texts(statements@)
                + statements_of(rest),
        decreases chars.len() - i,
    {
        proof {
            element_moves_on(block@, i as int);
        }
        match element(&chars, i) {
            None => {
                return Err(SplitError::Unterminated);
            },
            Some(end) => {
                if chars[i] == ';' {
                    let ghost whole = pieces(block@, start as int, i as int);
                    let ghost before = statements@;
                    let ghost piece = block@.subrange(start as int, end as int);
                    proof {
                        if pieces(block@, end as int, end as int) is Some {
                            pieces_join_to_the_text(block@, end as int, end as int);
                            let rest = pieces(block@, end as int, end as int).unwrap();
                            assert(whole.unwrap().drop_first() =~= rest);
                            assert(whole.unwrap()[0] == piece);
                        }
                    }
                    if has_statement(&chars, start, end) {
                        statements.push(trim_slice(&chars, start, end));
                        assert(text::texts(statements@) =~= text::texts(before).push(
                            text::trim(piece),
                        ));
                    }
                    proof {
                        if pieces(block@, end as int, end as int) is Some {
                            let rest = pieces(block@, end as int, end as int).unwrap();
                            assert(text::texts(statements@) + statements_of(rest) =~= text::texts(
                                before,
                            ) + statements_of(whole.unwrap()));
                        }
                    }
                    start = end;
                    i = end;
                } else {
                    proof {
                        if pieces(block@, start as int, end as int) is Some {
                            pieces_join_to_the_text(block@, start as int, end as int);
                        }
                    }
                    i = end;
                }
            },
        }
    }
    let ghost last = block@.subrange(start as int, block@.len() as int);
    let ghost before = statements@;
    let tail = trim_slice(&chars, start, chars.len());
    assert(pieces(block@, start as int, i as int).unwrap() =~= seq![last]);
    if !tail.as_str().is_empty() {
        statements.push(tail);
        assert(text::texts(statements@) =~= text::texts(before).push(text::trim(last)));
    }
    assert(text::texts(statements@) =~= statements_of(pieces(block@, 0, 0).unwrap()));
    Ok(statements)
}

} // verus!
