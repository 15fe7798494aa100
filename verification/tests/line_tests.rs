use editcore::graphemewidth::GraphemeWidth;
use editcore::line::Line;

#[test]
fn from_ascii_counts_graphemes() {
    let line = Line::from("hello");
    assert_eq!(line.grapheme_count(), 5);
    assert_eq!(line.to_string(), "hello");
}

#[test]
fn empty_line() {
    let line = Line::default();
    assert_eq!(line.grapheme_count(), 0);
    assert_eq!(line.width(), 0);
    assert_eq!(line.to_string(), "");
    assert_eq!(line.get_visible_graphemes(0, 10), "");
}

#[test]
fn combining_mark_is_one_grapheme() {
    // 'a' followed by a combining acute accent forms one cluster
    let line = Line::from("a\u{0301}bc");
    assert_eq!(line.grapheme_count(), 3);
    assert_eq!(line.to_string(), "a\u{0301}bc");
}

#[test]
fn width_accounts_full_width_clusters() {
    let line = Line::from("a\u{5BBD}b");
    assert_eq!(line.grapheme_count(), 3);
    assert_eq!(line.width_until(0), 0);
    assert_eq!(line.width_until(1), 1);
    assert_eq!(line.width_until(2), 3);
    assert_eq!(line.width(), 4);
}

#[test]
fn width_until_clamps_out_of_range_index() {
    let line = Line::from("ab");
    assert_eq!(line.width_until(100), line.width());
}

#[test]
fn round_trip_full_window() {
    // the whole column window reproduces every grapheme once, in order
    let line = Line::from("hello world");
    assert_eq!(line.width_until(line.grapheme_count()), line.width());
    assert_eq!(line.get_visible_graphemes(0, line.width()), "hello world");
}

#[test]
fn round_trip_full_window_with_substitutions() {
    let line = Line::from("a\tb");
    assert_eq!(line.width(), 3);
    assert_eq!(line.get_visible_graphemes(0, 3), "a b");
}

#[test]
fn visible_graphemes_empty_range() {
    let line = Line::from("hello");
    assert_eq!(line.get_visible_graphemes(3, 3), "");
    assert_eq!(line.get_visible_graphemes(4, 2), "");
}

#[test]
fn visible_graphemes_window() {
    let line = Line::from("hello");
    assert_eq!(line.get_visible_graphemes(1, 4), "ell");
}

#[test]
fn straddling_full_width_cluster_renders_ellipsis() {
    let line = Line::from("\u{5BBD}a");
    // the full-width cluster covers columns 0..2; a window cut at column 1
    // shows an ellipsis instead of half a glyph
    assert_eq!(line.get_visible_graphemes(0, 1), "\u{22EF}");
    assert_eq!(line.get_visible_graphemes(1, 3), "\u{22EF}a");
    assert_eq!(line.get_visible_graphemes(0, 3), "\u{5BBD}a");
}

#[test]
fn replacement_for_space_and_tab() {
    assert_eq!(Line::replacement_character(" "), Some(' '));
    assert_eq!(Line::replacement_character("\t"), Some(' '));
}

#[test]
fn replacement_for_other_whitespace() {
    // a no-break space is visible whitespace and renders as an open box
    assert_eq!(Line::replacement_character("\u{00A0}"), Some('\u{2423}'));
}

#[test]
fn replacement_for_control_character() {
    assert_eq!(Line::replacement_character("\u{0007}"), Some('\u{25AF}'));
}

#[test]
fn replacement_for_zero_width_cluster() {
    assert_eq!(Line::replacement_character("\u{200B}"), Some('\u{00B7}'));
}

#[test]
fn replacement_for_plain_text() {
    assert_eq!(Line::replacement_character("a"), None);
    assert_eq!(Line::replacement_character("\u{5BBD}"), None);
}

#[test]
fn substituted_cluster_is_half_width() {
    // a tab renders as one column even though it is not a printable glyph
    let line = Line::from("\t\t");
    assert_eq!(line.width(), 2);
    assert_eq!(line.get_visible_graphemes(0, 2), "  ");
}

#[test]
fn insert_char_in_middle() {
    let mut line = Line::from("ac");
    line.insert_char('b', 1);
    assert_eq!(line.to_string(), "abc");
    assert_eq!(line.grapheme_count(), 3);
}

#[test]
fn insert_char_out_of_range_appends() {
    let mut line = Line::from("ab");
    line.insert_char('c', 99);
    assert_eq!(line.to_string(), "abc");
}

#[test]
fn append_char_appends() {
    let mut line = Line::from("ab");
    line.append_char('c');
    assert_eq!(line.to_string(), "abc");
}

#[test]
fn delete_in_middle() {
    let mut line = Line::from("abc");
    line.delete(1);
    assert_eq!(line.to_string(), "ac");
}

#[test]
fn delete_out_of_range_is_no_op() {
    let mut line = Line::from("abc");
    line.delete(3);
    assert_eq!(line.to_string(), "abc");
}

#[test]
fn delete_last_removes_final_grapheme() {
    let mut line = Line::from("abc");
    line.delete_last();
    assert_eq!(line.to_string(), "ab");
    let mut empty = Line::default();
    empty.delete_last();
    assert_eq!(empty.to_string(), "");
}

#[test]
fn insert_then_delete_restores_line() {
    // inserting a cluster and deleting at the same index restores the text
    for at in 0..=5 {
        let mut line = Line::from("hello");
        line.insert_char('x', at);
        line.delete(at);
        assert_eq!(line.to_string(), "hello");
    }
}

#[test]
fn append_concatenates() {
    let mut line = Line::from("foo");
    let other = Line::from("bar");
    line.append(&other);
    assert_eq!(line.to_string(), "foobar");
    assert_eq!(other.to_string(), "bar");
}

#[test]
fn split_in_middle() {
    let mut line = Line::from("foobar");
    let rest = line.split(3);
    assert_eq!(line.to_string(), "foo");
    assert_eq!(rest.to_string(), "bar");
}

#[test]
fn split_at_end_leaves_empty_remainder() {
    let mut line = Line::from("foo");
    let rest = line.split(3);
    assert_eq!(line.to_string(), "foo");
    assert_eq!(rest.to_string(), "");
}

#[test]
fn split_out_of_range_is_no_op() {
    let mut line = Line::from("foo");
    let rest = line.split(4);
    assert_eq!(line.to_string(), "foo");
    assert_eq!(rest.to_string(), "");
}

#[test]
fn grapheme_width_saturating_add() {
    assert_eq!(GraphemeWidth::Half.saturating_add(0), 1);
    assert_eq!(GraphemeWidth::Full.saturating_add(1), 3);
    assert_eq!(GraphemeWidth::Full.saturating_add(usize::MAX - 1), usize::MAX);
    assert_eq!(GraphemeWidth::Half.saturating_add(usize::MAX), usize::MAX);
}

#[test]
fn grapheme_width_into_usize() {
    assert_eq!(usize::from(GraphemeWidth::Half), 1);
    assert_eq!(usize::from(GraphemeWidth::Full), 2);
}

#[test]
fn control_character_renders_as_placeholder() {
    let line = editcore::line::Line::from("a\u{0007}b");
    assert_eq!(line.grapheme_count(), 3);
    assert_eq!(line.width(), 3);
    assert_eq!(line.get_visible_graphemes(0, 3), "a\u{25AF}b");
}
