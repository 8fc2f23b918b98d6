//! Small helpers on text and on lists.

use rand::prelude::SliceRandom;
use vstd::prelude::*;

verus! {

/// Says that `c` is white space: one of the code points with the Unicode
/// property `White_Space`.
pub open spec fn is_white_space(c: char) -> bool {
    let n = c as u32;
    ||| 0x09 <= n <= 0x0d
    ||| n == 0x20
    ||| n == 0x85
    ||| n == 0xa0
    ||| n == 0x1680
    ||| 0x2000 <= n <= 0x200a
    ||| n == 0x2028
    ||| n == 0x2029
    ||| n == 0x202f
    ||| n == 0x205f
    ||| n == 0x3000
}

/// `text` without the white space it starts with.
pub open spec fn trim_start(text: Seq<char>) -> Seq<char>
    decreases text.len(),
{
    if text.len() > 0 && is_white_space(text[0]) {
        trim_start(text.drop_first())
    } else {
        text
    }
}

/// `text` without the white space it ends with.
pub open spec fn trim_end(text: Seq<char>) -> Seq<char>
    decreases text.len(),
{
    if text.len() > 0 && is_white_space(text.last()) {
        trim_end(text.drop_last())
    } else {
        text
    }
}

/// `text` without the white space at its two ends.
pub open spec fn trimmed(text: Seq<char>) -> Seq<char> {
    trim_end(trim_start(text))
}

/// The pieces of `text` between the occurrences of `delimiter`, in order.
/// There is one piece more than there are delimiters; a piece is empty where
/// two delimiters touch, and at an end where the text starts or ends with
/// one.
pub open spec fn split_on(text: Seq<char>, delimiter: char) -> Seq<Seq<char>>
    decreases text.len(),
{
    if text.len() == 0 {
        seq![Seq::empty()]
    } else {
        let before = split_on(text.drop_last(), delimiter);
        if text.last() == delimiter {
            before.push(Seq::empty())
        } else {
            before.drop_last().push(before.last().push(text.last()))
        }
    }
}

/// Each of `pieces`, trimmed.
pub open spec fn trimmed_all(pieces: Seq<Seq<char>>) -> Seq<Seq<char>> {
    pieces.map_values(|piece: Seq<char>| trimmed(piece))
}

/// The trimmed pieces of `text` between the occurrences of `delimiter`; none
/// for an empty text.
pub open spec fn split_and_trim(text: Seq<char>, delimiter: char) -> Seq<Seq<char>> {
    if text.len() == 0 {
        Seq::empty()
    } else {
        trimmed_all(split_on(text, delimiter))
    }
}

/// The strings of a vector, as sequences of characters.
pub open spec fn string_views(strings: Seq<String>) -> Seq<Seq<char>> {
    strings.map_values(|string: String| string@)
}

/// Tells whether `c` is white space.
pub fn is_white_space_char(c: char) -> (white: bool)
    ensures
        white == is_white_space(c),
{
    let n = c as u32;
    (0x09 <= n && n <= 0x0d) || n == 0x20 || n == 0x85 || n == 0xa0 || n == 0x1680 || (0x2000 <= n
        && n <= 0x200a) || n == 0x2028 || n == 0x2029 || n == 0x202f || n == 0x205f || n == 0x3000
}

/// The characters of `text`, one by one.
pub(crate) fn chars_of(text: &str) -> (chars: Vec<char>)
    ensures
        chars@ == text@,
{
    let mut chars: Vec<char> = Vec::new();
    for c in iter: text.chars()
        invariant
            iter.seq() == text@,
            chars@ == text@.take(iter.index() as int),
    {
        chars.push(c);
        assert(text@.take(iter.index() + 1) =~= text@.take(iter.index() as int).push(c));
    }
    assert(text@.take(text@.len() as int) =~= text@);
    chars
}

/// The characters `from..to` of `text`, trimmed, as a string of their own.
fn trimmed_piece(text: &str, chars: &Vec<char>, from: usize, to: usize) -> (piece: String)
    requires
        chars@ == text@,
        from <= to <= chars@.len(),
    ensures
        piece@ == trimmed(text@.subrange(from as int, to as int)),
{
    let ghost whole = text@.subrange(from as int, to as int);
    let mut first = from;
    while first < to && is_white_space_char(chars[first])
        invariant
            chars@ == text@,
            from <= first <= to <= chars@.len(),
            trim_start(whole) == trim_start(text@.subrange(first as int, to as int)),
        decreases to - first,
    {
        assert(text@.subrange(first as int, to as int).drop_first() =~= text@.subrange(
            first + 1,
            to as int,
        ));
        first += 1;
    }
    let ghost started = text@.subrange(first as int, to as int);
    assert(trim_start(whole) == started);
    let mut last = to;
    while first < last && is_white_space_char(chars[last - 1])
        invariant
            chars@ == text@,
            first <= last <= to <= chars@.len(),
            trim_end(started) == trim_end(text@.subrange(first as int, last as int)),
        decreases last - first,
    {
        assert(text@.subrange(first as int, last as int).drop_last() =~= text@.subrange(
            first as int,
            last - 1,
        ));
        last -= 1;
    }
    assert(trim_end(started) == text@.subrange(first as int, last as int));
    text.substring_char(first, last).to_owned()
}

/// Splits `input` at every `delimiter` and trims each piece. An empty input
/// gives no piece at all.
pub fn split_and_collect(input: &str, delimiter: char) -> (parts: Vec<String>)
    ensures
        string_views(parts@) == split_and_trim(input@, delimiter),
{
    let mut parts: Vec<String> = Vec::new();
    if input.is_empty() {
        assert(string_views(parts@) =~= Seq::<Seq<char>>::empty());
        return parts;
    }
    let chars = chars_of(input);
    let ghost done: Seq<Seq<char>> = Seq::empty();
    let mut start: usize = 0;
    let mut i: usize = 0;
    assert(input@.take(0) =~= Seq::<char>::empty());
    assert(input@.subrange(0, 0) =~= Seq::<char>::empty());
    while i < chars.len()
        invariant
            chars@ == input@,
            start <= i <= chars@.len(),
            split_on(input@.take(i as int), delimiter) == done.push(
                input@.subrange(start as int, i as int),
            ),
            string_views(parts@) == trimmed_all(done),
        decreases chars@.len() - i,
    {
        let ghost piece = input@.subrange(start as int, i as int);
        assert(input@.take(i + 1).drop_last() =~= input@.take(i as int));
        assert(done.push(piece).drop_last() =~= done);
        if chars[i] == delimiter {
            let part = trimmed_piece(input, &chars, start, i);
            let ghost before = parts@;
            parts.push(part);
            proof {
                assert(string_views(parts@) =~= string_views(before).push(part@));
                assert(trimmed_all(done.push(piece)) =~= trimmed_all(done).push(trimmed(piece)));
                done = done.push(piece);
            }
            start = i + 1;
            assert(input@.subrange(start as int, i + 1) =~= Seq::<char>::empty());
        } else {
            assert(input@.subrange(start as int, i + 1) =~= piece.push(input@[i as int]));
        }
        i += 1;
    }
    assert(input@.take(i as int) =~= input@);
    let part = trimmed_piece(input, &chars, start, i);
    let ghost before = parts@;
    let ghost piece = input@.subrange(start as int, i as int);
    parts.push(part);
    assert(string_views(parts@) =~= string_views(before).push(part@));
    assert(trimmed_all(done.push(piece)) =~= trimmed_all(done).push(trimmed(piece)));
    parts
}

/// The pieces laid end to end with `delimiter` between each two.
pub open spec fn join_with(pieces: Seq<Seq<char>>, delimiter: char) -> Seq<char>
    decreases pieces.len(),
{
    if pieces.len() == 0 {
        Seq::empty()
    } else if pieces.len() == 1 {
        pieces[0]
    } else {
        join_with(pieces.drop_last(), delimiter).push(delimiter) + pieces.last()
    }
}

/// Splitting loses nothing: there is at least one piece, no piece holds the
/// delimiter, and the pieces joined with the delimiter give the text back.
pub proof fn lemma_split_on_joins(text: Seq<char>, delimiter: char)
    ensures
        split_on(text, delimiter).len() >= 1,
        forall|k: int, i: int|
            0 <= k < split_on(text, delimiter).len() && 0 <= i < split_on(text, delimiter)[k].len()
                ==> #[trigger] split_on(text, delimiter)[k][i] != delimiter,
        join_with(split_on(text, delimiter), delimiter) == text,
    decreases text.len(),
{
    let pieces = split_on(text, delimiter);
    if text.len() == 0 {
        assert(join_with(pieces, delimiter) =~= text);
    } else {
        let front = text.drop_last();
        let before = split_on(front, delimiter);
        lemma_split_on_joins(front, delimiter);
        if text.last() == delimiter {
            assert(pieces.drop_last() =~= before);
            assert(join_with(pieces, delimiter) =~= text);
        } else {
            let grown = before.last().push(text.last());
            assert(pieces.last() == grown);
            assert(pieces.drop_last() =~= before.drop_last());
            assert forall|k: int, i: int|
                0 <= k < pieces.len() && 0 <= i < pieces[k].len() implies #[trigger] pieces[k][i]
                != delimiter by {
                if k < pieces.len() - 1 {
                    assert(pieces[k][i] == before[k][i]);
                } else if i < before.last().len() {
                    assert(pieces[k][i] == before[k][i]);
                }
            }
            if before.len() == 1 {
                assert(join_with(pieces, delimiter) =~= text);
            } else {
                let head = join_with(before.drop_last(), delimiter).push(delimiter);
                assert(join_with(before, delimiter) == head + before.last());
                assert(join_with(pieces, delimiter) == head + grown);
                assert(text =~= front.push(text.last()));
                assert(head + grown =~= (head + before.last()).push(text.last()));
            }
        }
    }
}

/// What is left of a text after trimming neither starts nor ends with white
/// space, and trimming it again changes nothing.
pub proof fn lemma_trimmed_ends(text: Seq<char>)
    ensures
        trimmed(text).len() > 0 ==> !is_white_space(trimmed(text)[0]) && !is_white_space(
            trimmed(text).last(),
        ),
        trimmed(trimmed(text)) == trimmed(text),
{
    lemma_trim_start_ends(text);
    lemma_trim_end_ends(trim_start(text));
    let kept = trimmed(text);
    if kept.len() > 0 {
        assert(kept[0] == trim_start(text)[0]);
    }
}

/// What is left after trimming at the start is a tail of the text that does
/// not start with white space.
proof fn lemma_trim_start_ends(text: Seq<char>)
    ensures
        trim_start(text).len() <= text.len(),
        trim_start(text) == text.skip(text.len() - trim_start(text).len()),
        trim_start(text).len() > 0 ==> !is_white_space(trim_start(text)[0]),
    decreases text.len(),
{
    if text.len() > 0 && is_white_space(text[0]) {
        lemma_trim_start_ends(text.drop_first());
        assert(trim_start(text) =~= text.skip(text.len() - trim_start(text).len()));
    } else {
        assert(trim_start(text) =~= text.skip(0));
    }
}

/// What is left after trimming at the end is a head of the text that does
/// not end with white space.
proof fn lemma_trim_end_ends(text: Seq<char>)
    ensures
        trim_end(text).len() <= text.len(),
        trim_end(text) == text.take(trim_end(text).len() as int),
        trim_end(text).len() > 0 ==> !is_white_space(trim_end(text).last()),
    decreases text.len(),
{
    if text.len() > 0 && is_white_space(text.last()) {
        lemma_trim_end_ends(text.drop_last());
        assert(trim_end(text) =~= text.take(trim_end(text).len() as int));
    } else {
        assert(trim_end(text) =~= text.take(text.len() as int));
    }
}

/// One of `items`, picked at random; none where there is no item.
///
/// Calls `SliceRandom::choose` of the rand crate with the generator of the
/// current thread. The contract states what that function promises of every
/// pick: none exactly for an empty slice, else a reference to an item of it.
#[verifier::external_body]
pub fn random_choice<T>(items: &[T]) -> (choice: Option<&T>)
    ensures
        match choice {
            Some(item) => items@.contains(*item),
            None => items@.len() == 0,
        },
{
    let mut rng = rand::thread_rng();
    items.choose(&mut rng)
}

} // verus!
