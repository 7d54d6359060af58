//! The file format: a document is stored as its lines joined by newlines.
//!
//! Saving puts one newline between two rows and none after the last. Loading
//! cuts the text at every newline and drops the carriage returns that end a
//! line, so that files with CRLF line ends load as well.

use vstd::prelude::*;

verus! {

/// The stored form of `rows`: the rows in order, with a newline between each
/// two and none at the end.
pub open spec fn join_lines(rows: Seq<Seq<char>>) -> Seq<char>
    decreases rows.len(),
{
    if rows.len() == 0 {
        Seq::empty()
    } else if rows.len() == 1 {
        rows[0]
    } else {
        join_lines(rows.drop_last()) + seq!['\n'] + rows.last()
    }
}

/// The pieces into which the newlines cut `text`. There is always at least
/// one piece: the empty text gives one empty piece, and a text that ends in a
/// newline gives an empty last piece.
pub open spec fn split_lines(text: Seq<char>) -> Seq<Seq<char>>
    decreases text.len(),
{
    if text.len() == 0 {
        seq![Seq::empty()]
    } else {
        let before = split_lines(text.drop_last());
        if text.last() == '\n' {
            before.push(Seq::empty())
        } else {
            before.update(before.len() - 1, before.last().push(text.last()))
        }
    }
}

/// Whether `c` ends a line: a carriage return or a newline.
pub open spec fn is_line_end(c: char) -> bool {
    c == '\r' || c == '\n'
}

/// `line` without the carriage returns and newlines at its end.
pub open spec fn strip_line_end(line: Seq<char>) -> Seq<char>
    decreases line.len(),
{
    if line.len() > 0 && is_line_end(line.last()) {
        strip_line_end(line.drop_last())
    } else {
        line
    }
}

/// The rows that loading `text` gives: its pieces between newlines, each
/// without the carriage returns at its end.
pub open spec fn load_lines(text: Seq<char>) -> Seq<Seq<char>> {
    split_lines(text).map_values(|line: Seq<char>| strip_line_end(line))
}

/// Whether a row comes back from the file as it went in: it holds no
/// newline and does not end in a carriage return.
pub open spec fn survives_storage(row: Seq<char>) -> bool {
    &&& !row.contains('\n')
    &&& row.len() > 0 ==> row.last() != '\r'
}

/// Cutting a text gives at least one piece.
pub proof fn lemma_split_nonempty(text: Seq<char>)
    ensures
        split_lines(text).len() >= 1,
    decreases text.len(),
{
    if text.len() > 0 {
        lemma_split_nonempty(text.drop_last());
    }
}

/// Text without a newline, put behind any text, only lengthens the last piece.
pub proof fn lemma_split_append(text: Seq<char>, tail: Seq<char>)
    requires
        !tail.contains('\n'),
    ensures
        split_lines(text).len() >= 1,
        split_lines(text + tail) == split_lines(text).update(
            split_lines(text).len() - 1,
            split_lines(text).last() + tail,
        ),
    decreases tail.len(),
{
    lemma_split_nonempty(text);
    let pieces = split_lines(text);
    if tail.len() == 0 {
        assert(text + tail == text);
        assert(pieces.last() + tail == pieces.last());
        assert(pieces.update(pieces.len() - 1, pieces.last()) == pieces);
    } else {
        let shorter = tail.drop_last();
        assert(tail.last() != '\n') by {
            assert(tail[tail.len() - 1] == tail.last());
        }
        assert(!shorter.contains('\n')) by {
            if shorter.contains('\n') {
                let i = choose|i: int| 0 <= i < shorter.len() && shorter[i] == '\n';
                assert(tail[i] == '\n');
            }
        }
        lemma_split_append(text, shorter);
        assert((text + tail).drop_last() == text + shorter);
        assert((text + tail).last() == tail.last());
        assert(pieces.last() + tail == (pieces.last() + shorter).push(tail.last()));
        assert(split_lines(text + tail) == pieces.update(pieces.len() - 1, pieces.last() + tail));
    }
}

/// Cutting the stored form of a document gives back its rows, where there is
/// at least one row and no row holds a newline.
pub proof fn lemma_split_join(rows: Seq<Seq<char>>)
    requires
        rows.len() >= 1,
        forall|i: int| 0 <= i < rows.len() ==> !(#[trigger] rows[i]).contains('\n'),
    ensures
        split_lines(join_lines(rows)) == rows,
    decreases rows.len(),
{
    if rows.len() == 1 {
        let empty = Seq::<char>::empty();
        lemma_split_append(empty, rows[0]);
        assert(empty + rows[0] == rows[0]);
        assert(split_lines(empty) == seq![empty]);
        assert(seq![empty].update(0, rows[0]) == rows);
    } else {
        let init = rows.drop_last();
        assert forall|i: int| 0 <= i < init.len() implies !(#[trigger] init[i]).contains('\n') by {
            assert(init[i] == rows[i]);
        }
        lemma_split_join(init);
        let joined = join_lines(init);
        let cut = joined + seq!['\n'];
        assert(cut.drop_last() == joined);
        assert(split_lines(cut) == init.push(Seq::empty()));
        lemma_split_append(cut, rows.last());
        assert(Seq::<char>::empty() + rows.last() == rows.last());
        assert(init.push(Seq::empty()).update(init.len() as int, rows.last()) == rows);
    }
}

/// Saving a document and loading what was saved gives back the document,
/// where it has at least one row and every row survives storage. (A document
/// without rows is stored as the empty text, as is a document of one empty
/// row, and the empty text loads as one empty row.)
pub proof fn lemma_load_join(rows: Seq<Seq<char>>)
    requires
        rows.len() >= 1,
        forall|i: int| 0 <= i < rows.len() ==> survives_storage(#[trigger] rows[i]),
    ensures
        load_lines(join_lines(rows)) == rows,
{
    lemma_split_join(rows);
    assert(load_lines(join_lines(rows)) =~= rows);
}

/// Removes the carriage returns and newlines at the end of `line`.
pub fn strip_line(line: &mut Vec<char>)
    ensures
        final(line)@ == strip_line_end(old(line)@),
{
    while line.len() > 0 && (line[line.len() - 1] == '\r' || line[line.len() - 1] == '\n')
        invariant
            strip_line_end(line@) == strip_line_end(old(line)@),
        decreases line.len(),
    {
        line.pop();
    }
}

} // verus!
