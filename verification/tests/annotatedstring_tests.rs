use editcore::annotatedstring::{AnnotatedString, AnnotationType};

fn ranges(s: &AnnotatedString) -> Vec<(usize, usize)> {
    s.annotations.iter().map(|a| (a.start_byte_idx, a.end_byte_idx)).collect()
}

fn assert_all_valid(s: &AnnotatedString) {
    for a in &s.annotations {
        assert!(a.start_byte_idx <= a.end_byte_idx);
        assert!(a.end_byte_idx <= s.bytes.len());
    }
}

#[test]
fn from_has_no_annotations() {
    let s = AnnotatedString::from("hello");
    assert_eq!(s.bytes, b"hello".to_vec());
    assert!(s.annotations.is_empty());
}

#[test]
fn add_annotation_records_range() {
    let mut s = AnnotatedString::from("hello");
    s.add_annotation(AnnotationType::SearchMatch, 1, 3);
    assert_eq!(ranges(&s), vec![(1, 3)]);
    assert_eq!(s.annotations[0].annotation_type, AnnotationType::SearchMatch);
}

#[test]
fn add_annotation_clamps_end_to_length() {
    let mut s = AnnotatedString::from("hello");
    s.add_annotation(AnnotationType::SelectedMatch, 2, 100);
    assert_eq!(ranges(&s), vec![(2, 5)]);
}

#[test]
fn add_void_annotation_is_dropped() {
    let mut s = AnnotatedString::from("hello");
    s.add_annotation(AnnotationType::SearchMatch, 3, 3);
    s.add_annotation(AnnotationType::SearchMatch, 7, 9);
    assert!(s.annotations.is_empty());
}

#[test]
fn replace_substitutes_bytes() {
    let mut s = AnnotatedString::from("hello world");
    s.replace(0, 5, "goodbye");
    assert_eq!(s.bytes, b"goodbye world".to_vec());
}

#[test]
fn replace_clamps_end() {
    let mut s = AnnotatedString::from("abc");
    s.replace(1, 100, "x");
    assert_eq!(s.bytes, b"ax".to_vec());
}

#[test]
fn replace_with_start_past_end_is_no_op() {
    let mut s = AnnotatedString::from("abc");
    s.add_annotation(AnnotationType::SearchMatch, 0, 2);
    s.replace(10, 12, "x");
    assert_eq!(s.bytes, b"abc".to_vec());
    assert_eq!(ranges(&s), vec![(0, 2)]);
}

#[test]
fn same_length_replacement_keeps_offsets() {
    // a pure substitution moves no annotation
    let mut s = AnnotatedString::from("abcdef");
    s.add_annotation(AnnotationType::SearchMatch, 1, 4);
    s.add_annotation(AnnotationType::SelectedMatch, 4, 6);
    s.replace(2, 4, "XY");
    assert_eq!(s.bytes, b"abXYef".to_vec());
    assert_eq!(ranges(&s), vec![(1, 4), (4, 6)]);
    assert_all_valid(&s);
}

#[test]
fn edit_after_annotation_leaves_it_untouched() {
    // shrinking "world" to "x" happens entirely after the "hello" annotation
    let mut s = AnnotatedString::from("hello world");
    s.add_annotation(AnnotationType::SearchMatch, 0, 5);
    s.replace(6, 11, "x");
    assert_eq!(s.bytes, b"hello x".to_vec());
    assert_eq!(ranges(&s), vec![(0, 5)]);
    assert_all_valid(&s);
}

#[test]
fn edit_before_annotation_shifts_it() {
    // shrinking "hello" to "hi" pulls the "world" annotation left by three
    let mut s = AnnotatedString::from("hello world");
    s.add_annotation(AnnotationType::SearchMatch, 6, 11);
    s.replace(0, 5, "hi");
    assert_eq!(s.bytes, b"hi world".to_vec());
    assert_eq!(ranges(&s), vec![(3, 8)]);
    assert_all_valid(&s);
}

#[test]
fn partial_overlap_collapses_toward_edit() {
    // deleting two bytes inside the annotated span shrinks it, never inverts
    let mut s = AnnotatedString::from("abcdefgh");
    s.add_annotation(AnnotationType::SearchMatch, 2, 8);
    s.replace(4, 6, "");
    assert_eq!(s.bytes, b"abcdgh".to_vec());
    assert_eq!(ranges(&s), vec![(2, 6)]);
    assert_all_valid(&s);
}

#[test]
fn growth_inside_annotation_extends_its_end() {
    let mut s = AnnotatedString::from("abc");
    s.add_annotation(AnnotationType::SearchMatch, 1, 2);
    s.replace(1, 2, "XYZ");
    assert_eq!(s.bytes, b"aXYZc".to_vec());
    assert_eq!(ranges(&s), vec![(1, 4)]);
    assert_all_valid(&s);
}

#[test]
fn annotation_collapsed_by_deletion_is_dropped() {
    let mut s = AnnotatedString::from("abcdef");
    s.add_annotation(AnnotationType::SearchMatch, 2, 4);
    s.replace(0, 6, "");
    assert_eq!(s.bytes, b"".to_vec());
    assert!(s.annotations.is_empty());
}

#[test]
fn validity_is_kept_over_a_sequence_of_replacements() {
    let mut s = AnnotatedString::from("the quick brown fox jumps");
    s.add_annotation(AnnotationType::SearchMatch, 4, 9);
    s.add_annotation(AnnotationType::SearchMatch, 10, 15);
    s.add_annotation(AnnotationType::SelectedMatch, 20, 25);
    assert_all_valid(&s);
    s.replace(0, 3, "a");
    assert_all_valid(&s);
    s.replace(2, 7, "slow");
    assert_all_valid(&s);
    s.replace(5, 5, " very");
    assert_all_valid(&s);
    s.replace(0, s.bytes.len(), "gone");
    assert_all_valid(&s);
    for a in &s.annotations {
        assert!(a.start_byte_idx < a.end_byte_idx);
        assert!(a.start_byte_idx < s.bytes.len());
    }
}

#[test]
fn pure_insertion_shifts_later_annotations() {
    let mut s = AnnotatedString::from("abcd");
    s.add_annotation(AnnotationType::SearchMatch, 2, 4);
    s.replace(1, 1, "xx");
    assert_eq!(s.bytes, b"axxbcd".to_vec());
    assert_eq!(ranges(&s), vec![(4, 6)]);
    assert_all_valid(&s);
}

#[test]
fn parts_of_unannotated_string_is_one_segment() {
    let s = AnnotatedString::from("abc");
    let parts = s.parts();
    assert_eq!(parts.len(), 1);
    assert_eq!(parts[0].start_byte_idx, 0);
    assert_eq!(parts[0].end_byte_idx, 3);
    assert_eq!(parts[0].bytes, b"abc".to_vec());
    assert!(parts[0].annotation_types.is_empty());
}

#[test]
fn parts_of_empty_string_is_empty() {
    let s = AnnotatedString::from("");
    assert!(s.parts().is_empty());
}

#[test]
fn parts_split_at_annotation_boundaries() {
    let mut s = AnnotatedString::from("hello world");
    s.add_annotation(AnnotationType::SearchMatch, 0, 5);
    let parts = s.parts();
    assert_eq!(parts.len(), 2);
    assert_eq!(parts[0].bytes, b"hello".to_vec());
    assert_eq!(parts[0].annotation_types, vec![AnnotationType::SearchMatch]);
    assert_eq!(parts[1].bytes, b" world".to_vec());
    assert!(parts[1].annotation_types.is_empty());
}

#[test]
fn parts_of_overlapping_annotations() {
    let mut s = AnnotatedString::from("abcdef");
    s.add_annotation(AnnotationType::SearchMatch, 0, 4);
    s.add_annotation(AnnotationType::SelectedMatch, 2, 6);
    let parts = s.parts();
    assert_eq!(parts.len(), 3);
    assert_eq!(parts[0].bytes, b"ab".to_vec());
    assert_eq!(parts[0].annotation_types, vec![AnnotationType::SearchMatch]);
    assert_eq!(parts[1].bytes, b"cd".to_vec());
    assert_eq!(
        parts[1].annotation_types,
        vec![AnnotationType::SearchMatch, AnnotationType::SelectedMatch]
    );
    assert_eq!(parts[2].bytes, b"ef".to_vec());
    assert_eq!(parts[2].annotation_types, vec![AnnotationType::SelectedMatch]);
}
