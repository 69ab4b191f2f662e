//! The text that a range of an editor selects in a file.
use crate::position::{char_index_at, char_index_of};
use crate::text::{chars_of, find_char, push_chars, until};
use vstd::prelude::*;

verus! {

/// A place in a text: a line and a UTF-16 position within it, both from zero.
#[derive(Debug, Clone, Copy, PartialEq, Eq, Structural)]
pub struct Position {
    pub line: u32,
    pub character: u32,
}

/// The text from `start` up to, not including, `end`.
#[derive(Debug, Clone, Copy, PartialEq, Eq, Structural)]
pub struct Range {
    pub start: Position,
    pub end: Position,
}

/// The index of the first line feed of `s`, or the length of `s` if it has
/// none.
pub open spec fn line_end(s: Seq<char>) -> int {
    until(s, '\n')
}

/// `s` without the carriage return at its end, if it has one.
pub open spec fn without_cr(s: Seq<char>) -> Seq<char> {
    if s.len() > 0 && s.last() == '\r' {
        s.drop_last()
    } else {
        s
    }
}

/// The lines of a text, as `str::lines` yields them: a line ends at a line
/// feed, or at a carriage return followed by a line feed, and neither belongs
/// to the line; what follows the last line feed is a line unless it is empty.
pub open spec fn split_lines(s: Seq<char>) -> Seq<Seq<char>>
    decreases s.len(),
{
    if s.len() == 0 {
        Seq::empty()
    } else {
        let e = line_end(s);
        if 0 <= e < s.len() {
            seq![without_cr(s.take(e))] + split_lines(s.skip(e + 1))
        } else {
            seq![s]
        }
    }
}

/// The text of a selection within one line.
pub open spec fn single_line_text(line: Seq<char>, start: nat, end: nat) -> Seq<char> {
    match (char_index_at(line, start), char_index_at(line, end)) {
        (Some(a), Some(b)) => if a <= b {
            line.subrange(a, b)
        } else {
            Seq::empty()
        },
        _ => Seq::empty(),
    }
}

/// The part of the first line of a selection: from `start` to the line's end.
pub open spec fn first_line_text(line: Seq<char>, start: nat) -> Seq<char> {
    match char_index_at(line, start) {
        Some(a) => line.skip(a),
        None => Seq::empty(),
    }
}

/// The part of the last line of a selection: from the line's start to `end`.
pub open spec fn last_line_text(line: Seq<char>, end: nat) -> Seq<char> {
    match char_index_at(line, end) {
        Some(b) => line.take(b),
        None => Seq::empty(),
    }
}

/// What the line `i` gives to a selection of several lines. A line that the
/// text does not have gives nothing; every other line but the last of the
/// range is followed by a line feed.
pub open spec fn line_piece(lines: Seq<Seq<char>>, range: Range, i: int) -> Seq<char> {
    if 0 <= i < lines.len() {
        let part = if i == range.start.line {
            first_line_text(lines[i], range.start.character as nat)
        } else if i == range.end.line {
            last_line_text(lines[i], range.end.character as nat)
        } else {
            lines[i]
        };
        if i < range.end.line {
            part.push('\n')
        } else {
            part
        }
    } else {
        Seq::empty()
    }
}

/// What the lines from `i` to the last line of the range give to a selection.
pub open spec fn pieces_from(lines: Seq<Seq<char>>, range: Range, i: int) -> Seq<char>
    decreases range.end.line - i + 1,
{
    if i > range.end.line {
        Seq::empty()
    } else {
        line_piece(lines, range, i) + pieces_from(lines, range, i + 1)
    }
}

/// The text that `range` selects in a text of the given lines.
pub open spec fn selected_text(lines: Seq<Seq<char>>, range: Range) -> Seq<char> {
    if range.start.line == range.end.line {
        if range.start.line < lines.len() {
            single_line_text(
                lines[range.start.line as int],
                range.start.character as nat,
                range.end.character as nat,
            )
        } else {
            Seq::empty()
        }
    } else {
        pieces_from(lines, range, range.start.line as int)
    }
}

/// The views of a sequence of lines.
pub open spec fn lines_view(lines: Seq<Vec<char>>) -> Seq<Seq<char>> {
    Seq::new(lines.len(), |i: int| lines[i]@)
}

/// Lines that the text does not have give nothing to a selection.
pub proof fn lemma_pieces_beyond(lines: Seq<Seq<char>>, range: Range, i: int)
    requires
        i >= lines.len(),
    ensures
        pieces_from(lines, range, i) == Seq::<char>::empty(),
    decreases range.end.line - i + 1,
{
    if i <= range.end.line {
        lemma_pieces_beyond(lines, range, i + 1);
        assert(Seq::<char>::empty() + Seq::<char>::empty() =~= Seq::<char>::empty());
    }
}

fn copy_range(chars: &Vec<char>, from: usize, to: usize) -> (r: Vec<char>)
    requires
        from <= to <= chars@.len(),
    ensures
        r@ == chars@.subrange(from as int, to as int),
{
    let mut r: Vec<char> = Vec::new();
    let mut i: usize = from;
    while i < to
        invariant
            from <= i <= to <= chars@.len(),
            r@ == chars@.subrange(from as int, i as int),
        decreases to - i,
    {
        r.push(chars[i]);
        assert(chars@.subrange(from as int, i + 1) =~= chars@.subrange(from as int, i as int).push(
            chars@[i as int],
        ));
        i = i + 1;
    }
    r
}

/// Splits a text into its lines.
pub fn lines_of(chars: &Vec<char>) -> (lines: Vec<Vec<char>>)
    ensures
        lines_view(lines@) == split_lines(chars@),
{
    let n = chars.len();
    let mut lines: Vec<Vec<char>> = Vec::new();
    let mut start: usize = 0;
    assert(chars@.skip(0) =~= chars@);
    assert(lines_view(lines@) + split_lines(chars@) =~= split_lines(chars@));
    while start < n
        invariant
            n == chars@.len(),
            start <= n,
            split_lines(chars@) == lines_view(lines@) + split_lines(chars@.skip(start as int)),
        decreases n - start,
    {
        let ghost rest = chars@.skip(start as int);
        let ghost before = lines_view(lines@);
        let j = find_char(chars, start, '\n');
        if j == n {
            let line = copy_range(chars, start, n);
            lines.push(line);
            proof {
                assert(chars@.subrange(start as int, n as int) =~= rest);
                assert(chars@.skip(n as int) =~= Seq::<char>::empty());
                assert(lines_view(lines@) =~= before + seq![rest]);
                assert(before + seq![rest] + Seq::<Seq<char>>::empty() =~= before + seq![rest]);
            }
            start = n;
        } else {
            let end = if j > start && chars[j - 1] == '\r' {
                j - 1
            } else {
                j
            };
            let line = copy_range(chars, start, end);
            lines.push(line);
            proof {
                let e = j - start;
                assert(rest.take(e) =~= chars@.subrange(start as int, j as int));
                assert(without_cr(rest.take(e)) =~= chars@.subrange(start as int, end as int));
                assert(rest.skip(e + 1) =~= chars@.skip(j + 1));
                assert(lines_view(lines@) =~= before + seq![without_cr(rest.take(e))]);
                assert(before + (seq![without_cr(rest.take(e))] + split_lines(rest.skip(e + 1)))
                    =~= before + seq![without_cr(rest.take(e))] + split_lines(rest.skip(e + 1)));
            }
            start = j + 1;
        }
    }
    assert(chars@.skip(start as int) =~= Seq::<char>::empty());
    assert(lines_view(lines@) + Seq::<Seq<char>>::empty() =~= lines_view(lines@));
    lines
}

/// The text that `range` selects in a text of the given lines.
pub fn text_in_range(lines: &Vec<Vec<char>>, range: Range) -> (text: String)
    ensures
        text@ == selected_text(lines_view(lines@), range),
{
    let ghost all = lines_view(lines@);
    let first = range.start.line as usize;
    let last = range.end.line as usize;
    let mut out = String::new();
    if first == last {
        if first < lines.len() {
            let line = &lines[first];
            assert(all[first as int] == line@);
            let a = char_index_of(line, range.start.character as usize);
            let b = char_index_of(line, range.end.character as usize);
            match (a, b) {
                (Some(a), Some(b)) => {
                    if a <= b {
                        push_chars(&mut out, line, a, b);
                        assert(Seq::<char>::empty() + line@.subrange(a as int, b as int)
                            =~= line@.subrange(a as int, b as int));
                    }
                },
                _ => {},
            }
        }
        return out;
    }
    if first > last {
        return out;
    }
    let mut i: usize = first;
    assert(out@ + pieces_from(all, range, i as int) =~= pieces_from(all, range, first as int));
    while i <= last && i < lines.len()
        invariant
            all == lines_view(lines@),
            first == range.start.line,
            last == range.end.line,
            first < last,
            first <= i <= last + 1,
            out@ + pieces_from(all, range, i as int) == pieces_from(all, range, first as int),
        decreases last + 1 - i,
    {
        let ghost before = out@;
        let line = &lines[i];
        assert(all[i as int] == line@);
        if i == first {
            match char_index_of(line, range.start.character as usize) {
                Some(a) => {
                    push_chars(&mut out, line, a, line.len());
                    assert(line@.subrange(a as int, line@.len() as int) =~= line@.skip(a as int));
                },
                None => {
                    assert(before + Seq::<char>::empty() =~= before);
                },
            }
        } else if i == last {
            match char_index_of(line, range.end.character as usize) {
                Some(b) => {
                    push_chars(&mut out, line, 0, b);
                    assert(line@.subrange(0, b as int) =~= line@.take(b as int));
                },
                None => {
                    assert(before + Seq::<char>::empty() =~= before);
                },
            }
        } else {
            push_chars(&mut out, line, 0, line.len());
            assert(line@.subrange(0, line@.len() as int) =~= line@);
        }
        if i < last {
            out.push('\n');
        }
        proof {
            let piece = line_piece(all, range, i as int);
            assert(out@ =~= before + piece);
            assert(before + (piece + pieces_from(all, range, i + 1)) =~= before + piece
                + pieces_from(all, range, i + 1));
        }
        i = i + 1;
    }
    proof {
        if i <= last {
            lemma_pieces_beyond(all, range, i as int);
        }
        assert(out@ + Seq::<char>::empty() =~= out@);
    }
    out
}

/// The text that `range` selects in `content`; the text of a file as it was
/// read.
pub fn read_text_from_range(content: &str, range: Range) -> (text: String)
    ensures
        text@ == selected_text(split_lines(content@), range),
{
    let chars = chars_of(content);
    let lines = lines_of(&chars);
    text_in_range(&lines, range)
}

} // verus!
