//! Text as sequences of characters: fields between separators, lines, and
//! letters without regard to their case.

use vstd::prelude::*;
use vstd::string::*;

verus! {

/// The fields of `s` when it is cut at every `sep`, read from left to right:
/// a separator opens a new, empty field and any other character extends the
/// field that is open. An empty text has one empty field.
pub open spec fn split_on(s: Seq<char>, sep: char) -> Seq<Seq<char>>
    decreases s.len(),
{
    if s.len() == 0 {
        seq![Seq::<char>::empty()]
    } else {
        let before = split_on(s.drop_last(), sep);
        if s.last() == sep {
            before.push(Seq::<char>::empty())
        } else {
            before.drop_last().push(before.last().push(s.last()))
        }
    }
}

/// The texts of `parts` written one after the other with `sep` between
/// neighbours.
pub open spec fn join_with(parts: Seq<Seq<char>>, sep: char) -> Seq<char>
    decreases parts.len(),
{
    if parts.len() == 0 {
        Seq::<char>::empty()
    } else if parts.len() == 1 {
        parts[0]
    } else {
        join_with(parts.drop_last(), sep) + seq![sep] + parts.last()
    }
}

/// `piece` without the carriage return at its end, if it has one there.
pub open spec fn without_cr(piece: Seq<char>) -> Seq<char> {
    if piece.len() > 0 && piece.last() == '\r' {
        piece.drop_last()
    } else {
        piece
    }
}

/// The lines of `text`. A line ends at a line feed; the line feed, and a
/// carriage return directly before it, belong to neither line. What
/// follows the last line feed is a line of its own unless it is empty, and
/// keeps a carriage return at its end.
pub open spec fn lines_of(text: Seq<char>) -> Seq<Seq<char>> {
    let pieces = split_on(text, '\n');
    let ended = pieces.drop_last().map_values(|piece: Seq<char>| without_cr(piece));
    if pieces.last().len() == 0 {
        ended
    } else {
        ended.push(pieces.last())
    }
}

/// `c` with an upper-case letter of `A` to `Z` replaced by its lower-case
/// form; any other character is left as it is.
pub open spec fn fold_char(c: char) -> char {
    if 'A' <= c <= 'Z' {
        ((c as u8) + 32) as char
    } else {
        c
    }
}

/// `s` with each character folded to lower case.
pub open spec fn fold_case(s: Seq<char>) -> Seq<char> {
    Seq::new(s.len(), |i: int| fold_char(s[i]))
}

/// The texts that a sequence of string slices stands for.
pub open spec fn views(parts: Seq<&str>) -> Seq<Seq<char>> {
    parts.map_values(|p: &str| p@)
}

/// Cuts `s` at every `sep`. The fields come in their order; none holds
/// the separator, and joined with it they give `s` again.
pub fn split<'a>(s: &'a str, sep: char) -> (parts: Vec<&'a str>)
    ensures
        views(parts@) == split_on(s@, sep),
        parts@.len() >= 1,
        join_with(views(parts@), sep) == s@,
        forall|i: int| 0 <= i < parts@.len() ==> !(#[trigger] views(parts@)[i]).contains(sep),
{
    let len: usize = s.unicode_len();
    let mut parts: Vec<&'a str> = Vec::new();
    let mut start: usize = 0;
    let mut i: usize = 0;
    assert(s@.take(0) =~= Seq::<char>::empty());
    for c in it: s.chars()
        invariant
            i == it.index(),
            it.seq() == s@,
            len == s@.len(),
            start <= i <= len,
            split_on(s@.take(i as int), sep) == views(parts@).push(
                s@.subrange(start as int, i as int),
            ),
    {
        let ghost prefix = s@.take(i as int);
        let ghost next = s@.take(i + 1);
        assert(next.drop_last() =~= prefix);
        let ghost open = s@.subrange(start as int, i as int);
        if c == sep {
            parts.push(s.substring_char(start, i));
            start = i + 1;
            assert(s@.subrange(start as int, i + 1) =~= Seq::<char>::empty());
        } else {
            assert(s@.subrange(start as int, i + 1) =~= open.push(c));
        }
        i = i + 1;
    }
    assert(s@.take(len as int) =~= s@);
    parts.push(s.substring_char(start, len));
    proof {
        lemma_join_split(s@, sep);
    }
    parts
}

/// Cuts `text` into its lines.
pub fn lines<'a>(text: &'a str) -> (lines: Vec<&'a str>)
    ensures
        views(lines@) == lines_of(text@),
{
    let pieces = split(text, '\n');
    proof {
        lemma_split_has_a_field(text@, '\n');
    }
    let ghost ended = views(pieces@).drop_last().map_values(|piece: Seq<char>| without_cr(piece));
    let mut lines: Vec<&'a str> = Vec::new();
    let last: usize = pieces.len() - 1;
    let mut i: usize = 0;
    while i < last
        invariant
            i <= last,
            last + 1 == pieces@.len(),
            ended == views(pieces@).drop_last().map_values(|piece: Seq<char>| without_cr(piece)),
            views(lines@) == ended.take(i as int),
        decreases last - i,
    {
        let piece: &'a str = pieces[i];
        let len: usize = piece.unicode_len();
        let ghost before = views(lines@);
        if len > 0 && piece.get_char(len - 1) == '\r' {
            let cut: &'a str = piece.substring_char(0, len - 1);
            lines.push(cut);
        } else {
            lines.push(piece);
        }
        assert(before.push(ended[i as int]) =~= ended.take(i + 1));
        i = i + 1;
    }
    assert(ended.take(last as int) =~= ended);
    let tail: &'a str = pieces[last];
    if !tail.is_empty() {
        lines.push(tail);
    }
    lines
}

/// Folds one character to lower case.
fn fold(c: char) -> (folded: char)
    ensures
        folded == fold_char(c),
{
    if c >= 'A' && c <= 'Z' {
        ((c as u8) + 32) as char
    } else {
        c
    }
}

/// Whether `text`, folded to lower case, is `word`.
pub fn spells(text: &str, word: &str) -> (same: bool)
    ensures
        same == (fold_case(text@) == word@),
{
    let len: usize = word.unicode_len();
    if text.unicode_len() != len {
        return false;
    }
    let mut i: usize = 0;
    while i < len
        invariant
            i <= len,
            len == word@.len(),
            len == text@.len(),
            forall|k: int| 0 <= k < i ==> fold_char(text@[k]) == word@[k],
        decreases len - i,
    {
        if fold(text.get_char(i)) != word.get_char(i) {
            return false;
        }
        i = i + 1;
    }
    assert(fold_case(text@) =~= word@);
    true
}

/// Cutting a text always leaves at least one field.
pub proof fn lemma_split_has_a_field(s: Seq<char>, sep: char)
    ensures
        split_on(s, sep).len() >= 1,
    decreases s.len(),
{
    if s.len() > 0 {
        lemma_split_has_a_field(s.drop_last(), sep);
    }
}

/// A text without the separator is its own single field.
pub proof fn lemma_split_plain(s: Seq<char>, sep: char)
    requires
        !s.contains(sep),
    ensures
        split_on(s, sep) == seq![s],
    decreases s.len(),
{
    if s.len() > 0 {
        let front = s.drop_last();
        lemma_split_plain(front, sep);
        assert(front.push(s.last()) =~= s);
    } else {
        assert(s =~= Seq::<char>::empty());
    }
}

/// Text without the separator, written behind `a`, extends the last field
/// of `a`.
pub proof fn lemma_split_extend(a: Seq<char>, u: Seq<char>, sep: char)
    requires
        !u.contains(sep),
    ensures
        split_on(a, sep).len() >= 1,
        split_on(a + u, sep) == split_on(a, sep).drop_last().push(split_on(a, sep).last() + u),
    decreases u.len(),
{
    lemma_split_has_a_field(a, sep);
    let fields = split_on(a, sep);
    if u.len() > 0 {
        let front = u.drop_last();
        lemma_split_extend(a, front, sep);
        assert((a + u).drop_last() =~= a + front);
        assert((fields.last() + front).push(u.last()) =~= fields.last() + u);
    }
}

/// Cutting happens on both sides of a separator independently.
pub proof fn lemma_split_append(a: Seq<char>, b: Seq<char>, sep: char)
    ensures
        split_on(a + seq![sep] + b, sep) == split_on(a, sep) + split_on(b, sep),
    decreases b.len(),
{
    let whole = a + seq![sep] + b;
    if b.len() == 0 {
        assert(whole.drop_last() =~= a);
    } else {
        let front = b.drop_last();
        lemma_split_append(a, front, sep);
        lemma_split_has_a_field(front, sep);
        assert(whole.drop_last() =~= a + seq![sep] + front);
    }
}

/// Joining fields that hold no separator and cutting the result gives the
/// fields back.
pub proof fn lemma_split_join(parts: Seq<Seq<char>>, sep: char)
    requires
        parts.len() >= 1,
        forall|i: int| 0 <= i < parts.len() ==> !(#[trigger] parts[i]).contains(sep),
    ensures
        split_on(join_with(parts, sep), sep) == parts,
    decreases parts.len(),
{
    if parts.len() == 1 {
        lemma_split_plain(parts[0], sep);
    } else {
        let front = parts.drop_last();
        lemma_split_join(front, sep);
        lemma_split_append(join_with(front, sep), parts.last(), sep);
        lemma_split_plain(parts.last(), sep);
    }
}

/// Cutting a text and joining its fields gives the text back, and no field
/// holds the separator.
pub proof fn lemma_join_split(s: Seq<char>, sep: char)
    ensures
        join_with(split_on(s, sep), sep) == s,
        forall|i: int|
            0 <= i < split_on(s, sep).len() ==> !(#[trigger] split_on(s, sep)[i]).contains(sep),
    decreases s.len(),
{
    let fields = split_on(s, sep);
    if s.len() > 0 {
        let before = split_on(s.drop_last(), sep);
        lemma_join_split(s.drop_last(), sep);
        lemma_split_has_a_field(s.drop_last(), sep);
        if s.last() == sep {
            assert(fields.drop_last() =~= before);
        } else {
            assert(fields.drop_last() =~= before.drop_last());
            if before.len() > 1 {
                assert(s.drop_last().push(s.last()) =~= s);
            }
        }
    }
}

/// A character that is in none of the parts and is not the separator is
/// not in the joined text.
pub proof fn lemma_join_lacks(parts: Seq<Seq<char>>, sep: char, c: char)
    requires
        c != sep,
        forall|i: int| 0 <= i < parts.len() ==> !(#[trigger] parts[i]).contains(c),
    ensures
        !join_with(parts, sep).contains(c),
    decreases parts.len(),
{
    if parts.len() >= 2 {
        let front = parts.drop_last();
        lemma_join_lacks(front, sep, c);
    } else if parts.len() == 1 {
    }
}

} // verus!
