use editcore::buffer::Buffer;
use editcore::size::Size;
use editcore::view::View;

fn view_sized(width: u16, height: u16) -> View {
    let mut v = View::new();
    v.resize(Size { width, height });
    v
}

#[test]
fn buffer_emptiness() {
    let b = Buffer::new();
    assert!(b.is_empty());
    let b = Buffer { lines: vec![String::from("x")] };
    assert!(!b.is_empty());
}

#[test]
fn render_empty_buffer_shows_welcome_and_tildes() {
    let v = view_sized(60, 6);
    let rows = v.render();
    assert_eq!(rows.len(), 6);
    for (i, row) in rows.iter().enumerate() {
        if i == 2 {
            assert!(row.starts_with('~'));
            assert!(row.contains("editcore editor -- version 0.1.0"));
        } else {
            assert_eq!(row, "~");
        }
    }
}

#[test]
fn render_shows_buffer_lines_first() {
    let mut v = view_sized(40, 4);
    v.buffer.lines = vec![String::from("alpha"), String::from("beta")];
    let rows = v.render();
    assert_eq!(rows[0], "alpha");
    assert_eq!(rows[1], "beta");
    assert_eq!(rows[3], "~");
}

#[test]
fn welcome_message_is_cut_at_narrow_widths() {
    let row = View::draw_welcome_message(5);
    assert_eq!(row.chars().count(), 5);
    assert!(row.starts_with('~'));
    let tiny = View::draw_welcome_message(1);
    assert_eq!(tiny, "~");
}

#[test]
fn welcome_message_is_roughly_centered() {
    let row = View::draw_welcome_message(60);
    // message is 32 columns wide: padding (60 - 32) / 2 = 14, one taken by '~'
    assert_eq!(row.chars().count(), 1 + 13 + 32);
    assert!(row.starts_with("~             editcore"));
}

#[test]
fn empty_row_is_a_tilde() {
    assert_eq!(View::draw_empty_row(), "~");
}

#[test]
fn status_snapshot_reflects_document() {
    let mut v = view_sized(10, 5);
    v.buffer.lines = vec![String::from("one"), String::from("two")];
    v.modified = true;
    let status = v.get_status();
    assert_eq!(status.total_lines, 2);
    assert!(status.is_modified);
    assert_eq!(status.file_name, "[No Name]");

    v.file_name = Some(String::from("f.txt"));
    assert!(v.is_file_loaded());
    assert_eq!(v.get_status().file_name, "f.txt");
}

#[test]
fn buffer_contents_joins_lines_with_newlines() {
    let b = Buffer::new();
    assert_eq!(b.contents(), "");
    let b = Buffer { lines: vec![String::from("alpha")] };
    assert_eq!(b.contents(), "alpha");
    let b = Buffer {
        lines: vec![String::from("alpha"), String::from("beta"), String::from("")],
    };
    assert_eq!(b.contents(), "alpha\nbeta\n");
}
