//! Positions in a line of text, counted in UTF-16 code units as editors count
//! them and in UTF-8 bytes as the text is stored.
use vstd::prelude::*;
use vstd::string::*;
use vstd::utf8::*;

verus! {

/// Number of UTF-16 code units that encode `c`.
pub open spec fn utf16_len(c: char) -> nat {
    if (c as u32) < 0x10000 {
        1
    } else {
        2
    }
}

/// Number of UTF-8 bytes that encode `c`.
pub open spec fn utf8_len(c: char) -> nat {
    if (c as u32) < 0x80 {
        1
    } else if (c as u32) < 0x800 {
        2
    } else if (c as u32) < 0x10000 {
        3
    } else {
        4
    }
}

/// Number of UTF-16 code units that encode `s`.
pub open spec fn utf16_width(s: Seq<char>) -> nat
    decreases s.len(),
{
    if s.len() == 0 {
        0
    } else {
        utf16_len(s[0]) + utf16_width(s.drop_first())
    }
}

/// Number of UTF-8 bytes that encode `s`.
pub open spec fn utf8_width(s: Seq<char>) -> nat
    decreases s.len(),
{
    if s.len() == 0 {
        0
    } else {
        utf8_len(s[0]) + utf8_width(s.drop_first())
    }
}

/// The UTF-16 position at which the character with index `k` starts.
pub open spec fn utf16_offset(line: Seq<char>, k: int) -> nat {
    utf16_width(line.take(k))
}

/// The byte position at which the character with index `k` starts.
pub open spec fn byte_offset(line: Seq<char>, k: int) -> nat {
    utf8_width(line.take(k))
}

/// The UTF-16 position `p` falls on the character with index `k`: at its
/// start or, for a character of two units, between its units. The end of the
/// line counts as a character of no width.
pub open spec fn covers(line: Seq<char>, p: nat, k: int) -> bool {
    &&& 0 <= k <= line.len()
    &&& utf16_offset(line, k) <= p
    &&& k < line.len() ==> p < utf16_offset(line, k + 1)
    &&& k == line.len() ==> p == utf16_offset(line, k)
}

/// The index of the character on which the UTF-16 position `p` falls; `None`
/// for a position behind the end of the line.
pub open spec fn char_index_at(line: Seq<char>, p: nat) -> Option<int> {
    if exists|k: int| covers(line, p, k) {
        Some(choose|k: int| covers(line, p, k))
    } else {
        None
    }
}

/// The byte position of the UTF-16 position `p`.
pub open spec fn utf16_to_byte(line: Seq<char>, p: nat) -> Option<nat> {
    match char_index_at(line, p) {
        Some(k) => Some(byte_offset(line, k)),
        None => None,
    }
}

/// A character of `line`, or its end, starts at byte `b`.
pub open spec fn starts_at_byte(line: Seq<char>, b: nat, k: int) -> bool {
    0 <= k <= line.len() && byte_offset(line, k) == b
}

/// The UTF-16 position of the byte position `b`; `None` for a byte inside a
/// character and for one behind the end of the line.
pub open spec fn byte_to_utf16(line: Seq<char>, b: nat) -> Option<nat> {
    if exists|k: int| starts_at_byte(line, b, k) {
        Some(utf16_offset(line, choose|k: int| starts_at_byte(line, b, k)))
    } else {
        None
    }
}

/// `p` is the UTF-16 position at which a character of `line`, or its end,
/// starts.
pub open spec fn is_char_position(line: Seq<char>, p: nat) -> bool {
    exists|k: int| 0 <= k <= line.len() && utf16_offset(line, k) == p
}

/// `utf8_width` is the length of the UTF-8 encoding.
pub proof fn lemma_utf8_width_is_encoded_len(s: Seq<char>)
    ensures
        utf8_width(s) == encode_utf8(s).len(),
    decreases s.len(),
{
    if s.len() > 0 {
        char_is_scalar(s[0]);
        lemma_utf8_width_is_encoded_len(s.drop_first());
    }
}

/// The encoding of two texts one after the other is the two encodings one
/// after the other.
pub proof fn lemma_encode_concat(a: Seq<char>, b: Seq<char>)
    ensures
        encode_utf8(a + b) == encode_utf8(a) + encode_utf8(b),
    decreases a.len(),
{
    if a.len() == 0 {
        assert(a + b =~= b);
        assert(encode_utf8(a) + encode_utf8(b) =~= encode_utf8(b));
    } else {
        assert((a + b).drop_first() =~= a.drop_first() + b);
        lemma_encode_concat(a.drop_first(), b);
        assert(encode_scalar(a[0] as u32) + (encode_utf8(a.drop_first()) + encode_utf8(b))
            =~= encode_scalar(a[0] as u32) + encode_utf8(a.drop_first()) + encode_utf8(b));
    }
}

/// The bytes of a line between the byte offsets of two characters are the
/// encoding of the characters between them: to cut the stored bytes at the
/// converted positions is to cut the text at the characters.
pub proof fn lemma_byte_slice(line: Seq<char>, a: int, b: int)
    requires
        0 <= a <= b <= line.len(),
    ensures
        byte_offset(line, a) <= byte_offset(line, b) <= encode_utf8(line).len(),
        encode_utf8(line).subrange(byte_offset(line, a) as int, byte_offset(line, b) as int)
            == encode_utf8(line.subrange(a, b)),
{
    let head = line.take(a);
    let middle = line.subrange(a, b);
    let tail = line.skip(b);
    assert(line.take(b) =~= head + middle);
    assert(line =~= line.take(b) + tail);
    lemma_encode_concat(head, middle);
    lemma_encode_concat(line.take(b), tail);
    lemma_utf8_width_is_encoded_len(head);
    lemma_utf8_width_is_encoded_len(line.take(b));
    assert(encode_utf8(line).subrange(encode_utf8(head).len() as int, encode_utf8(line.take(b)).len() as int)
        =~= encode_utf8(middle));
}

/// Widths add up over concatenation.
pub proof fn lemma_width_concat(a: Seq<char>, b: Seq<char>)
    ensures
        utf16_width(a + b) == utf16_width(a) + utf16_width(b),
        utf8_width(a + b) == utf8_width(a) + utf8_width(b),
    decreases a.len(),
{
    if a.len() == 0 {
        assert(a + b =~= b);
    } else {
        assert((a + b).drop_first() =~= a.drop_first() + b);
        lemma_width_concat(a.drop_first(), b);
    }
}

/// Every character takes at least one unit and at least as many bytes as
/// units.
pub proof fn lemma_width_bounds(s: Seq<char>)
    ensures
        s.len() <= utf16_width(s) <= utf8_width(s),
    decreases s.len(),
{
    if s.len() > 0 {
        lemma_width_bounds(s.drop_first());
    }
}

/// The offset of the next character is that of this one plus its width.
pub proof fn lemma_offset_step(line: Seq<char>, k: int)
    requires
        0 <= k < line.len(),
    ensures
        utf16_offset(line, k + 1) == utf16_offset(line, k) + utf16_len(line[k]),
        byte_offset(line, k + 1) == byte_offset(line, k) + utf8_len(line[k]),
{
    let one = seq![line[k]];
    assert(line.take(k + 1) =~= line.take(k) + one);
    lemma_width_concat(line.take(k), one);
    reveal_with_fuel(utf16_width, 2);
    reveal_with_fuel(utf8_width, 2);
    assert(utf16_width(one) == utf16_len(line[k]));
    assert(utf8_width(one) == utf8_len(line[k]));
}

/// Offsets grow with the index, strictly.
pub proof fn lemma_offset_monotone(line: Seq<char>, j: int, k: int)
    requires
        0 <= j <= k <= line.len(),
    ensures
        utf16_offset(line, j) + (k - j) <= utf16_offset(line, k),
        byte_offset(line, j) + (k - j) <= byte_offset(line, k),
        utf16_offset(line, k) - utf16_offset(line, j) <= byte_offset(line, k) - byte_offset(
            line,
            j,
        ),
{
    let rest = line.subrange(j, k);
    assert(line.take(k) =~= line.take(j) + rest);
    lemma_width_concat(line.take(j), rest);
    lemma_width_bounds(rest);
}

/// The offset of the end of the line is the width of the line.
pub proof fn lemma_offset_end(line: Seq<char>)
    ensures
        utf16_offset(line, line.len() as int) == utf16_width(line),
        byte_offset(line, line.len() as int) == utf8_width(line),
        utf16_offset(line, 0) == 0,
        byte_offset(line, 0) == 0,
{
    assert(line.take(line.len() as int) =~= line);
    assert(line.take(0) =~= Seq::<char>::empty());
}

/// A position falls on one character at most.
pub proof fn lemma_covers_unique(line: Seq<char>, p: nat, j: int, k: int)
    requires
        covers(line, p, j),
        covers(line, p, k),
    ensures
        j == k,
{
    if j < k {
        lemma_offset_monotone(line, j + 1, k);
    } else if k < j {
        lemma_offset_monotone(line, k + 1, j);
    }
}

/// A position that falls on the character `k` converts to that character's
/// byte offset.
pub proof fn lemma_covers_gives(line: Seq<char>, p: nat, k: int)
    requires
        covers(line, p, k),
    ensures
        char_index_at(line, p) == Some(k),
        utf16_to_byte(line, p) == Some(byte_offset(line, k)),
{
    let c = choose|c: int| covers(line, p, c);
    lemma_covers_unique(line, p, c, k);
}

/// No character covers a position behind the end of the line.
pub proof fn lemma_behind_end(line: Seq<char>, p: nat)
    requires
        p > utf16_width(line),
    ensures
        char_index_at(line, p) is None,
        utf16_to_byte(line, p) is None,
{
    lemma_offset_end(line);
    assert forall|k: int| !covers(line, p, k) by {
        if 0 <= k < line.len() {
            lemma_offset_monotone(line, k + 1, line.len() as int);
        }
    }
}

/// Every position up to the end of the line falls on a character.
pub proof fn lemma_covered(line: Seq<char>, p: nat) -> (k: int)
    requires
        p <= utf16_width(line),
    ensures
        covers(line, p, k),
    decreases line.len(),
{
    lemma_offset_end(line);
    if p == utf16_width(line) {
        line.len() as int
    } else {
        let last = line.len() - 1;
        lemma_offset_step(line, last);
        if utf16_offset(line, last) <= p {
            last
        } else {
            let shorter = line.take(last);
            lemma_offset_end(shorter);
            let k = lemma_covered(shorter, p);
            assert(shorter.take(k) =~= line.take(k));
            if k < shorter.len() {
                assert(shorter.take(k + 1) =~= line.take(k + 1));
            }
            k
        }
    }
}

/// Two characters that start at the same byte are the same character.
pub proof fn lemma_starts_unique(line: Seq<char>, b: nat, j: int, k: int)
    requires
        starts_at_byte(line, b, j),
        starts_at_byte(line, b, k),
    ensures
        j == k,
{
    if j < k {
        lemma_offset_monotone(line, j, k);
    } else if k < j {
        lemma_offset_monotone(line, k, j);
    }
}

/// The start of the character `k` converts to that character's UTF-16 offset.
pub proof fn lemma_starts_gives(line: Seq<char>, b: nat, k: int)
    requires
        starts_at_byte(line, b, k),
    ensures
        byte_to_utf16(line, b) == Some(utf16_offset(line, k)),
{
    let c = choose|c: int| starts_at_byte(line, b, c);
    lemma_starts_unique(line, b, c, k);
}

/// Converting the position of a character to bytes and back yields the
/// position.
pub proof fn lemma_utf16_byte_round_trip(line: Seq<char>, p: nat)
    requires
        is_char_position(line, p),
    ensures
        utf16_to_byte(line, p) is Some,
        byte_to_utf16(line, utf16_to_byte(line, p)->0) == Some(p),
{
    let k = choose|k: int| 0 <= k <= line.len() && utf16_offset(line, k) == p;
    if k < line.len() {
        lemma_offset_step(line, k);
    }
    lemma_covers_gives(line, p, k);
    lemma_starts_gives(line, byte_offset(line, k), k);
}

/// Converting the start of a character from bytes to UTF-16 and back yields
/// the byte position.
pub proof fn lemma_byte_utf16_round_trip(line: Seq<char>, b: nat)
    requires
        byte_to_utf16(line, b) is Some,
    ensures
        utf16_to_byte(line, byte_to_utf16(line, b)->0) == Some(b),
{
    let k = choose|k: int| starts_at_byte(line, b, k);
    if k < line.len() {
        lemma_offset_step(line, k);
    }
    lemma_covers_gives(line, utf16_offset(line, k), k);
}

/// The conversion to bytes keeps the order of positions, and keeps the
/// positions of two different characters apart.
pub proof fn lemma_utf16_to_byte_monotone(line: Seq<char>, p: nat, q: nat)
    requires
        p <= q <= utf16_width(line),
    ensures
        utf16_to_byte(line, p) is Some,
        utf16_to_byte(line, q) is Some,
        utf16_to_byte(line, p)->0 <= utf16_to_byte(line, q)->0,
        p < q && is_char_position(line, p) && is_char_position(line, q) ==> utf16_to_byte(
            line,
            p,
        )->0 < utf16_to_byte(line, q)->0,
{
    let j = lemma_covered(line, p);
    let k = lemma_covered(line, q);
    lemma_covers_gives(line, p, j);
    lemma_covers_gives(line, q, k);
    if k < j {
        lemma_offset_monotone(line, k + 1, j);
    } else {
        lemma_offset_monotone(line, j, k);
    }
    if p < q && is_char_position(line, p) && is_char_position(line, q) {
        let a = choose|a: int| 0 <= a <= line.len() && utf16_offset(line, a) == p;
        let b = choose|b: int| 0 <= b <= line.len() && utf16_offset(line, b) == q;
        if a < line.len() {
            lemma_offset_step(line, a);
        }
        if b < line.len() {
            lemma_offset_step(line, b);
        }
        lemma_covers_unique(line, p, a, j);
        lemma_covers_unique(line, q, b, k);
        if j < k {
            lemma_offset_monotone(line, j, k);
        }
    }
}

/// Number of UTF-16 code units that encode `c`, as `char::len_utf16` gives it.
pub fn char_utf16_len(c: char) -> (n: usize)
    ensures
        n == utf16_len(c),
{
    if (c as u32) < 0x10000 {
        1
    } else {
        2
    }
}

/// Number of UTF-8 bytes that encode `c`, as `char::len_utf8` gives it.
pub fn char_utf8_len(c: char) -> (n: usize)
    ensures
        n == utf8_len(c),
{
    let code = c as u32;
    if code < 0x80 {
        1
    } else if code < 0x800 {
        2
    } else if code < 0x10000 {
        3
    } else {
        4
    }
}

/// Converts a position in UTF-16 code units to a position in bytes.
///
/// A position between the two units of a character is taken to the start of
/// that character; a position behind the end of the line has no byte.
pub fn char_pos_to_byte_pos(line: &str, utf16_pos: usize) -> (r: Option<usize>)
    ensures
        match r {
            Some(b) => utf16_to_byte(line@, utf16_pos as nat) == Some(b as nat),
            None => utf16_to_byte(line@, utf16_pos as nat) is None,
        },
        r is Some <==> utf16_pos <= utf16_width(line@),
{
    let total = line.as_bytes().len();
    proof {
        lemma_utf8_width_is_encoded_len(line@);
        lemma_offset_end(line@);
    }
    let mut units: usize = 0;
    let mut bytes: usize = 0;
    for c in it: line.chars()
        invariant
            it.seq() == line@,
            units == utf16_offset(line@, it.index() as int),
            bytes == byte_offset(line@, it.index() as int),
            units <= utf16_pos,
            units <= bytes,
            total == utf8_width(line@),
            byte_offset(line@, line@.len() as int) == utf8_width(line@),
    {
        proof {
            let k = it.index() as int;
            lemma_offset_step(line@, k);
            lemma_offset_monotone(line@, k + 1, line@.len() as int);
        }
        let width = char_utf16_len(c);
        if utf16_pos - units < width {
            proof {
                lemma_covers_gives(line@, utf16_pos as nat, it.index() as int);
                lemma_covered_at(line@, utf16_pos as nat, it.index() as int);
            }
            return Some(bytes);
        }
        units = units + width;
        bytes = bytes + char_utf8_len(c);
    }
    if units == utf16_pos {
        proof {
            lemma_covers_gives(line@, utf16_pos as nat, line@.len() as int);
        }
        Some(bytes)
    } else {
        proof {
            lemma_behind_end(line@, utf16_pos as nat);
        }
        None
    }
}

/// A position covered by a character lies within the line.
pub proof fn lemma_covered_at(line: Seq<char>, p: nat, k: int)
    requires
        covers(line, p, k),
    ensures
        p <= utf16_width(line),
{
    lemma_offset_end(line);
    if k < line.len() {
        lemma_offset_monotone(line, k + 1, line.len() as int);
    }
}

/// Converts a position in bytes to a position in UTF-16 code units.
///
/// Only the start of a character, and the end of the line, have a position.
pub fn byte_pos_to_char_pos(line: &str, byte_pos: usize) -> (r: Option<usize>)
    ensures
        match r {
            Some(p) => byte_to_utf16(line@, byte_pos as nat) == Some(p as nat),
            None => byte_to_utf16(line@, byte_pos as nat) is None,
        },
{
    let total = line.as_bytes().len();
    proof {
        lemma_utf8_width_is_encoded_len(line@);
        lemma_offset_end(line@);
    }
    let mut units: usize = 0;
    let mut bytes: usize = 0;
    for c in it: line.chars()
        invariant
            it.seq() == line@,
            units == utf16_offset(line@, it.index() as int),
            bytes == byte_offset(line@, it.index() as int),
            bytes <= byte_pos,
            units <= bytes,
            total == utf8_width(line@),
            byte_offset(line@, line@.len() as int) == utf8_width(line@),
    {
        proof {
            let k = it.index() as int;
            lemma_offset_step(line@, k);
            lemma_offset_monotone(line@, k + 1, line@.len() as int);
        }
        if bytes == byte_pos {
            proof {
                lemma_starts_gives(line@, byte_pos as nat, it.index() as int);
            }
            return Some(units);
        }
        let width = char_utf8_len(c);
        if byte_pos - bytes < width {
            proof {
                lemma_no_start_inside(line@, byte_pos as nat, it.index() as int);
            }
            return None;
        }
        units = units + char_utf16_len(c);
        bytes = bytes + width;
    }
    if bytes == byte_pos {
        proof {
            lemma_starts_gives(line@, byte_pos as nat, line@.len() as int);
        }
        Some(units)
    } else {
        proof {
            lemma_no_start_behind(line@, byte_pos as nat);
        }
        None
    }
}

/// No character starts strictly between the starts of two neighbours.
pub proof fn lemma_no_start_inside(line: Seq<char>, b: nat, k: int)
    requires
        0 <= k < line.len(),
        byte_offset(line, k) < b < byte_offset(line, k + 1),
    ensures
        byte_to_utf16(line, b) is None,
{
    assert forall|j: int| !starts_at_byte(line, b, j) by {
        if 0 <= j <= k {
            lemma_offset_monotone(line, j, k);
        } else if k < j <= line.len() {
            lemma_offset_monotone(line, k + 1, j);
        }
    }
}

/// No character starts behind the end of the line.
pub proof fn lemma_no_start_behind(line: Seq<char>, b: nat)
    requires
        b > utf8_width(line),
    ensures
        byte_to_utf16(line, b) is None,
{
    lemma_offset_end(line);
    assert forall|j: int| !starts_at_byte(line, b, j) by {
        if 0 <= j <= line.len() {
            lemma_offset_monotone(line, j, line.len() as int);
        }
    }
}

/// The index of the character of `line` on which the UTF-16 position falls.
pub fn char_index_of(line: &Vec<char>, utf16_pos: usize) -> (r: Option<usize>)
    ensures
        match r {
            Some(k) => char_index_at(line@, utf16_pos as nat) == Some(k as int),
            None => char_index_at(line@, utf16_pos as nat) is None,
        },
{
    proof {
        lemma_offset_end(line@);
    }
    let mut units: usize = 0;
    let mut k: usize = 0;
    while k < line.len()
        invariant
            k <= line@.len(),
            units == utf16_offset(line@, k as int),
            units <= utf16_pos,
        decreases line@.len() - k,
    {
        proof {
            lemma_offset_step(line@, k as int);
        }
        let width = char_utf16_len(line[k]);
        if utf16_pos - units < width {
            proof {
                lemma_covers_gives(line@, utf16_pos as nat, k as int);
            }
            return Some(k);
        }
        units = units + width;
        k = k + 1;
    }
    if units == utf16_pos {
        proof {
            lemma_covers_gives(line@, utf16_pos as nat, k as int);
        }
        Some(k)
    } else {
        proof {
            lemma_offset_end(line@);
            lemma_behind_end(line@, utf16_pos as nat);
        }
        None
    }
}

} // verus!
