use trending_tui::text::{chars_of, clip_to_columns, text_le, truncate, truncate_to_width, Glyph};

#[test]
fn short_texts_are_not_truncated() {
    assert_eq!(truncate("", 0), "");
    assert_eq!(truncate("abc", 3), "abc");
    assert_eq!(truncate("abc", 10), "abc");
    assert_eq!(truncate("héllo", 5), "héllo");
}

#[test]
fn long_texts_end_in_three_dots() {
    assert_eq!(truncate("abcdefghij", 8), "abcde...");
    assert_eq!(truncate("abcdefghij", 9), "abcdef...");
    assert_eq!(truncate("abcd", 3), "...");
    assert_eq!(truncate("abcd", 2), "...");
    assert_eq!(truncate("abcd", 0), "...");
    assert_eq!(truncate("ééééé", 4), "é...");
}

#[test]
fn characters_come_out_in_order() {
    assert_eq!(chars_of(""), Vec::<char>::new());
    assert_eq!(chars_of("aé漢"), vec!['a', 'é', '漢']);
}

#[test]
fn narrow_texts_are_not_cut_by_width() {
    assert_eq!(truncate_to_width("", 0), "");
    assert_eq!(truncate_to_width("hello", 5), "hello");
    assert_eq!(truncate_to_width("漢字", 4), "漢字");
}

#[test]
fn wide_texts_are_cut_to_columns_and_end_in_an_ellipsis() {
    assert_eq!(truncate_to_width("hello world", 8), "hello w…");
    assert_eq!(truncate_to_width("hello", 1), "…");
    assert_eq!(truncate_to_width("hello", 0), "…");
    assert_eq!(truncate_to_width("漢字漢字", 5), "漢字…");
    assert_eq!(truncate_to_width("漢字漢字", 4), "漢…");
    assert_eq!(truncate_to_width("a漢字", 3), "a…");
}

#[test]
fn control_characters_take_no_column() {
    assert_eq!(truncate_to_width("a\u{7}b\u{7}cdef", 4), "a\u{7}b\u{7}c…");
}

#[test]
fn clipping_keeps_the_cells_that_fit() {
    let cells = vec![Glyph::new('a', 1), Glyph::new('b', 2), Glyph::new('c', 0), Glyph::new('d', 1)];
    assert_eq!(clip_to_columns(&cells, 0), "…");
    assert_eq!(clip_to_columns(&cells, 1), "a…");
    assert_eq!(clip_to_columns(&cells, 2), "a…");
    assert_eq!(clip_to_columns(&cells, 3), "abc…");
    assert_eq!(clip_to_columns(&cells, 4), "abcd…");
    assert_eq!(clip_to_columns(&cells, usize::MAX), "abcd…");
    assert_eq!(clip_to_columns(&vec![Glyph::new('x', usize::MAX)], 5), "…");
    assert_eq!(clip_to_columns(&vec![], 5), "…");
}

#[test]
fn texts_are_ordered_as_in_a_dictionary() {
    assert!(text_le("", ""));
    assert!(text_le("", "a"));
    assert!(!text_le("a", ""));
    assert!(text_le("a", "a"));
    assert!(text_le("a", "ab"));
    assert!(!text_le("ab", "a"));
    assert!(text_le("ab", "b"));
    assert!(!text_le("b", "ab"));
    assert!(text_le("2024-01-31T00:00:00Z", "2024-02-01T00:00:00Z"));
    assert!(!text_le("2025-01-01T00:00:00Z", "2024-12-31T23:59:59Z"));
    assert!(text_le("Z", "a"));
    assert!(text_le("z", "é"));
    for (a, b) in [("abc", "abd"), ("x", "xy"), ("é", "z"), ("", "q")] {
        assert_eq!(text_le(a, b), a <= b);
        assert_eq!(text_le(b, a), b <= a);
    }
}
