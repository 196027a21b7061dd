//! Small pieces of text that the diagnostics are put together from.

use vstd::prelude::*;
use vstd::string::*;

verus! {

/// The character that stands for a single decimal digit.
pub open spec fn digit_char(digit: nat) -> char
    recommends
        digit < 10,
{
    if digit == 0 {
        '0'
    } else if digit == 1 {
        '1'
    } else if digit == 2 {
        '2'
    } else if digit == 3 {
        '3'
    } else if digit == 4 {
        '4'
    } else if digit == 5 {
        '5'
    } else if digit == 6 {
        '6'
    } else if digit == 7 {
        '7'
    } else if digit == 8 {
        '8'
    } else {
        '9'
    }
}

/// A number written in base ten, most significant digit first, with no
/// leading zero except for zero itself.
pub open spec fn decimal(n: nat) -> Seq<char>
    decreases n,
{
    if n < 10 {
        seq![digit_char(n)]
    } else {
        decimal(n / 10).push(digit_char(n % 10))
    }
}

/// The one-character text of a decimal digit.
fn digit_text(digit: u64) -> (text: &'static str)
    requires
        digit < 10,
    ensures
        text@ == seq![digit_char(digit as nat)],
{
    proof {
        reveal_strlit("0");
        reveal_strlit("1");
        reveal_strlit("2");
        reveal_strlit("3");
        reveal_strlit("4");
        reveal_strlit("5");
        reveal_strlit("6");
        reveal_strlit("7");
        reveal_strlit("8");
        reveal_strlit("9");
    }
    let text = if digit == 0 {
        "0"
    } else if digit == 1 {
        "1"
    } else if digit == 2 {
        "2"
    } else if digit == 3 {
        "3"
    } else if digit == 4 {
        "4"
    } else if digit == 5 {
        "5"
    } else if digit == 6 {
        "6"
    } else if digit == 7 {
        "7"
    } else if digit == 8 {
        "8"
    } else {
        "9"
    };
    assert(text@ =~= seq![digit_char(digit as nat)]);
    text
}

/// Writes `n` in base ten at the end of `out`.
pub fn append_decimal(out: &mut String, n: u64)
    ensures
        final(out)@ == old(out)@ + decimal(n as nat),
    decreases n,
{
    if n >= 10 {
        append_decimal(out, n / 10);
    }
    out.append(digit_text(n % 10));
}

/// The pieces that `text` falls into when it is cut at every `sep`. There is
/// always at least one piece; a piece is empty where two separators meet, and
/// at either end of a text that starts or ends with one.
pub open spec fn split(text: Seq<char>, sep: char) -> Seq<Seq<char>>
    decreases text.len(),
{
    if text.len() == 0 {
        seq![Seq::empty()]
    } else {
        let front = split(text.drop_last(), sep);
        if text.last() == sep {
            front.push(Seq::empty())
        } else {
            front.drop_last().push(front.last().push(text.last()))
        }
    }
}

/// The pieces written one after the other, with `sep` between each two.
pub open spec fn join(pieces: Seq<Seq<char>>, sep: Seq<char>) -> Seq<char>
    decreases pieces.len(),
{
    if pieces.len() == 0 {
        Seq::empty()
    } else if pieces.len() == 1 {
        pieces[0]
    } else {
        join(pieces.drop_last(), sep) + sep + pieces.last()
    }
}

/// What each text of a list says.
pub open spec fn views(pieces: Seq<&str>) -> Seq<Seq<char>> {
    Seq::new(pieces.len(), |i: int| pieces[i]@)
}

/// What each string of a list says.
pub open spec fn string_views(pieces: Seq<String>) -> Seq<Seq<char>> {
    Seq::new(pieces.len(), |i: int| pieces[i]@)
}

/// Cutting a text never yields nothing.
pub proof fn lemma_split_nonempty(text: Seq<char>, sep: char)
    ensures
        split(text, sep).len() >= 1,
    decreases text.len(),
{
    if text.len() > 0 {
        lemma_split_nonempty(text.drop_last(), sep);
    }
}

/// No piece of a cut text holds the separator.
pub proof fn lemma_split_pieces_hold_no_sep(text: Seq<char>, sep: char)
    ensures
        forall|i: int, j: int|
            0 <= i < split(text, sep).len() && 0 <= j < split(text, sep)[i].len() ==> split(
                text,
                sep,
            )[i][j] != sep,
    decreases text.len(),
{
    if text.len() > 0 {
        lemma_split_nonempty(text.drop_last(), sep);
        lemma_split_pieces_hold_no_sep(text.drop_last(), sep);
    }
}

/// Joining the pieces of a cut text with the separator gives the text back.
pub proof fn lemma_join_split(text: Seq<char>, sep: char)
    ensures
        join(split(text, sep), seq![sep]) == text,
    decreases text.len(),
{
    if text.len() == 0 {
        assert(join(split(text, sep), seq![sep]) =~= text);
    } else {
        let front = split(text.drop_last(), sep);
        lemma_split_nonempty(text.drop_last(), sep);
        lemma_join_split(text.drop_last(), sep);
        lemma_join_push_to_last(front, seq![sep], text.last());
        if text.last() == sep {
            let pieces = front.push(Seq::empty());
            assert(pieces.drop_last() =~= front);
            assert(join(pieces, seq![sep]) =~= text.drop_last() + seq![sep]);
        }
        assert(text.drop_last().push(text.last()) =~= text);
    }
}

/// A character added to the last piece is a character added to the joined
/// text.
proof fn lemma_join_push_to_last(pieces: Seq<Seq<char>>, sep: Seq<char>, c: char)
    requires
        pieces.len() >= 1,
    ensures
        join(pieces.drop_last().push(pieces.last().push(c)), sep) == join(pieces, sep).push(c),
{
    let grown = pieces.drop_last().push(pieces.last().push(c));
    if pieces.len() == 1 {
        assert(grown[0] == pieces[0].push(c));
    } else {
        assert(grown.drop_last() =~= pieces.drop_last());
        assert(join(grown, sep) =~= join(pieces, sep).push(c));
    }
}

/// Whether the text is exactly the given character.
pub fn is_char(text: &str, c: char) -> (same: bool)
    ensures
        same == (text@ == seq![c]),
{
    if text.unicode_len() == 1 {
        let same = text.get_char(0) == c;
        proof {
            if same {
                assert(text@ =~= seq![c]);
            }
        }
        same
    } else {
        false
    }
}

/// Whether the text is exactly the given character, twice.
pub fn is_char_pair(text: &str, c: char) -> (same: bool)
    ensures
        same == (text@ == seq![c, c]),
{
    if text.unicode_len() == 2 {
        let same = text.get_char(0) == c && text.get_char(1) == c;
        proof {
            if same {
                assert(text@ =~= seq![c, c]);
            }
        }
        same
    } else {
        false
    }
}

/// Cuts the text at every `sep`. The pieces are slices of the text.
pub fn split_text<'a>(text: &'a str, sep: char) -> (pieces: Vec<&'a str>)
    ensures
        views(pieces@) == split(text@, sep),
{
    let len = text.unicode_len();
    let mut pieces: Vec<&'a str> = Vec::new();
    let mut start: usize = 0;
    let mut i: usize = 0;
    proof {
        assert(text@.take(0).len() == 0);
        assert(text@.subrange(0, 0) =~= Seq::<char>::empty());
        assert(views(pieces@).push(text@.subrange(0, 0)) =~= seq![Seq::<char>::empty()]);
    }
    while i < len
        invariant
            len == text@.len(),
            start <= i <= len,
            split(text@.take(i as int), sep) == views(pieces@).push(
                text@.subrange(start as int, i as int),
            ),
        decreases len - i,
    {
        let ghost before = split(text@.take(i as int), sep);
        proof {
            assert(text@.take(i + 1).drop_last() =~= text@.take(i as int));
            assert(text@.take(i + 1).last() == text@[i as int]);
            assert(before.last() == text@.subrange(start as int, i as int));
            assert(before.drop_last() =~= views(pieces@));
        }
        if text.get_char(i) == sep {
            let piece = text.substring_char(start, i);
            let ghost old_pieces = pieces@;
            pieces.push(piece);
            start = i + 1;
            proof {
                assert(views(pieces@) =~= views(old_pieces).push(piece@));
                assert(text@.subrange(start as int, i + 1) =~= Seq::<char>::empty());
            }
        } else {
            proof {
                assert(text@.subrange(start as int, i + 1) =~= text@.subrange(
                    start as int,
                    i as int,
                ).push(text@[i as int]));
            }
        }
        i += 1;
    }
    let piece = text.substring_char(start, len);
    let ghost old_pieces = pieces@;
    pieces.push(piece);
    proof {
        assert(text@.take(len as int) =~= text@);
        assert(views(pieces@) =~= views(old_pieces).push(piece@));
    }
    pieces
}

/// Writes the pieces one after the other, with `sep` between each two.
pub fn join_texts(pieces: &Vec<&str>, sep: &str) -> (text: String)
    ensures
        text@ == join(views(pieces@), sep@),
{
    let mut text = String::new();
    let mut i: usize = 0;
    while i < pieces.len()
        invariant
            i <= pieces.len(),
            text@ == join(views(pieces@).take(i as int), sep@),
        decreases pieces.len() - i,
    {
        let ghost all = views(pieces@);
        proof {
            assert(all.take(i + 1).drop_last() =~= all.take(i as int));
            assert(all.take(i + 1).last() == pieces@[i as int]@);
        }
        if i > 0 {
            text.append(sep);
        } else {
            proof {
                assert(Seq::<char>::empty() + pieces@[0]@ =~= pieces@[0]@);
            }
        }
        text.append(pieces[i]);
        i += 1;
    }
    proof {
        assert(views(pieces@).take(i as int) =~= views(pieces@));
    }
    text
}

} // verus!
