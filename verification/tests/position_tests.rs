use ide_bridge::position::{
    byte_pos_to_char_pos, char_index_of, char_pos_to_byte_pos, char_utf16_len, char_utf8_len,
};

fn expected_byte(line: &str, utf16_pos: usize) -> Option<usize> {
    let mut units = 0;
    for (byte, c) in line.char_indices() {
        if utf16_pos < units + c.len_utf16() {
            return Some(byte);
        }
        units += c.len_utf16();
    }
    if units == utf16_pos {
        Some(line.len())
    } else {
        None
    }
}

#[test]
fn char_lengths_match_std() {
    for c in ['a', '\u{7f}', '\u{80}', 'é', '\u{7ff}', '\u{800}', '中', '\u{ffff}', '\u{10000}', '😀', '\u{10ffff}'] {
        assert_eq!(char_utf8_len(c), c.len_utf8(), "{:?}", c);
        assert_eq!(char_utf16_len(c), c.len_utf16(), "{:?}", c);
    }
}

#[test]
fn ascii_positions_are_byte_positions() {
    let line = "0123456789";
    for p in 0..=10 {
        assert_eq!(char_pos_to_byte_pos(line, p), Some(p));
    }
    assert_eq!(char_pos_to_byte_pos(line, 11), None);
}

#[test]
fn empty_line_has_one_position() {
    assert_eq!(char_pos_to_byte_pos("", 0), Some(0));
    assert_eq!(char_pos_to_byte_pos("", 1), None);
    assert_eq!(byte_pos_to_char_pos("", 0), Some(0));
    assert_eq!(byte_pos_to_char_pos("", 1), None);
}

#[test]
fn wide_characters_move_the_byte_position() {
    let line = "aé中😀z";
    assert_eq!(char_pos_to_byte_pos(line, 0), Some(0));
    assert_eq!(char_pos_to_byte_pos(line, 1), Some(1));
    assert_eq!(char_pos_to_byte_pos(line, 2), Some(3));
    assert_eq!(char_pos_to_byte_pos(line, 3), Some(6));
    assert_eq!(char_pos_to_byte_pos(line, 5), Some(10));
    assert_eq!(char_pos_to_byte_pos(line, 6), Some(11));
    assert_eq!(char_pos_to_byte_pos(line, 7), None);
}

#[test]
fn position_inside_a_pair_goes_to_the_start_of_the_character() {
    let line = "a😀z";
    assert_eq!(char_pos_to_byte_pos(line, 1), Some(1));
    assert_eq!(char_pos_to_byte_pos(line, 2), Some(1));
    assert_eq!(char_pos_to_byte_pos(line, 3), Some(5));
}

#[test]
fn conversion_agrees_with_a_walk_over_the_characters() {
    for line in ["", "abc", "ünïcödé", "日本語のテキスト", "mix 😀 of 🦀 all", "\u{10000}\u{10ffff}"] {
        for p in 0..=(line.encode_utf16().count() + 2) {
            assert_eq!(char_pos_to_byte_pos(line, p), expected_byte(line, p), "{:?} at {}", line, p);
        }
    }
}

#[test]
fn to_bytes_and_back_yields_the_position() {
    for line in ["", "abc", "aé中😀z", "😀😀", "tab\there"] {
        let mut units = 0;
        let mut positions = vec![0];
        for c in line.chars() {
            units += c.len_utf16();
            positions.push(units);
        }
        for p in positions {
            let b = char_pos_to_byte_pos(line, p).unwrap();
            assert!(line.is_char_boundary(b));
            assert_eq!(byte_pos_to_char_pos(line, b), Some(p), "{:?} at {}", line, p);
        }
    }
}

#[test]
fn conversion_is_monotone() {
    let line = "aé中😀z😀";
    let total = line.encode_utf16().count();
    let mut last = 0;
    for p in 0..=total {
        let b = char_pos_to_byte_pos(line, p).unwrap();
        assert!(b >= last);
        last = b;
    }
}

#[test]
fn byte_inside_a_character_has_no_position() {
    let line = "aé中😀";
    assert_eq!(byte_pos_to_char_pos(line, 0), Some(0));
    assert_eq!(byte_pos_to_char_pos(line, 1), Some(1));
    assert_eq!(byte_pos_to_char_pos(line, 2), None);
    assert_eq!(byte_pos_to_char_pos(line, 3), Some(2));
    assert_eq!(byte_pos_to_char_pos(line, 4), None);
    assert_eq!(byte_pos_to_char_pos(line, 5), None);
    assert_eq!(byte_pos_to_char_pos(line, 6), Some(3));
    assert_eq!(byte_pos_to_char_pos(line, 7), None);
    assert_eq!(byte_pos_to_char_pos(line, 10), Some(5));
    assert_eq!(byte_pos_to_char_pos(line, 11), None);
}

#[test]
fn char_index_counts_characters() {
    let line: Vec<char> = "a😀z".chars().collect();
    assert_eq!(char_index_of(&line, 0), Some(0));
    assert_eq!(char_index_of(&line, 1), Some(1));
    assert_eq!(char_index_of(&line, 2), Some(1));
    assert_eq!(char_index_of(&line, 3), Some(2));
    assert_eq!(char_index_of(&line, 4), Some(3));
    assert_eq!(char_index_of(&line, 5), None);
}
