//! The document view: the buffer, its dimensions, and the pure computation
//! of what each screen row shows. Putting the rows on the terminal is the
//! embedding's business.

use vstd::prelude::*;
use vstd::string::StrSliceExecFns;
use vstd::string::StringExecFns;
use vstd::view::View as _;

use crate::buffer::Buffer;
use crate::size::Size;
use crate::uicomponents::DocumentStatus;
use crate::unicode::push_char;

verus! {

/// The banner shown on an empty row one third down the screen.
pub open spec fn welcome_text() -> Seq<char> {
    "editcore editor -- version 0.1.0"@
}

/// The filler shown on rows past the end of the document.
pub open spec fn empty_row_text() -> Seq<char> {
    "~"@
}

/// What the name of a document without a file name displays as.
pub open spec fn no_name_text() -> Seq<char> {
    "[No Name]"@
}

/// The welcome row: a tilde, then spaces that roughly center the banner,
/// cut off at the screen width.
pub open spec fn welcome_row_spec(width: int) -> Seq<char> {
    let msg = welcome_text();
    let padding = if width > msg.len() {
        (width - msg.len()) / 2
    } else {
        0
    };
    let pad = if padding > 0 {
        padding - 1
    } else {
        0
    };
    let full = seq!['~'] + Seq::new(pad as nat, |k: int| ' ') + msg;
    if width < full.len() {
        full.take(width)
    } else {
        full
    }
}

/// The document view.
pub struct View {
    pub buffer: Buffer,
    pub size: Size,
    pub file_name: Option<String>,
    pub modified: bool,
    pub needs_redraw: bool,
}

impl View {
    /// What screen row `r` shows: the document line at that row if there is
    /// one, else the welcome banner one third down the screen, else a tilde.
    pub open spec fn row_spec(self, r: int) -> Seq<char> {
        if r < self.buffer.lines@.len() {
            self.buffer.lines@[r]@
        } else if r == self.size.height as int / 3 {
            welcome_row_spec(self.size.width as int)
        } else {
            empty_row_text()
        }
    }

    /// A view of an empty, unnamed document, not yet sized.
    pub fn new() -> (r: Self)
        ensures
            r.buffer.lines@.len() == 0,
            r.size == (Size { width: 0, height: 0 }),
            r.file_name is None,
            !r.modified,
            r.needs_redraw,
    {
        View {
            buffer: Buffer::new(),
            size: Size { width: 0, height: 0 },
            file_name: None,
            modified: false,
            needs_redraw: true,
        }
    }

    /// The text of every screen row, top to bottom.
    pub fn render(&self) -> (rows: Vec<String>)
        ensures
            rows@.len() == self.size.height,
            forall|r: int| 0 <= r < rows@.len() ==> (#[trigger] rows@[r])@ == self.row_spec(r),
    {
        let mut rows: Vec<String> = Vec::new();
        let height = self.size.height as usize;
        let mut r: usize = 0;
        while r < height
            invariant
                height == self.size.height,
                r <= height,
                rows@.len() == r,
                forall|k: int| 0 <= k < r ==> (#[trigger] rows@[k])@ == self.row_spec(k),
            decreases height - r,
        {
            let row = if r < self.buffer.lines.len() {
                self.buffer.lines[r].clone()
            } else if r == height / 3 {
                Self::draw_welcome_message(self.size.width)
            } else {
                Self::draw_empty_row()
            };
            rows.push(row);
            r += 1;
        }
        rows
    }

    /// The welcome banner row for the given width.
    pub fn draw_welcome_message(width: u16) -> (r: String)
        ensures
            r@ == welcome_row_spec(width as int),
    {
        let msg = "editcore editor -- version 0.1.0";
        let msg_len = msg.unicode_len();
        let w = width as usize;
        let padding = if w > msg_len {
            (w - msg_len) / 2
        } else {
            0
        };
        let pad = if padding > 0 {
            padding - 1
        } else {
            0
        };
        let mut row = String::from_str("~");
        proof {
            reveal_strlit("~");
            assert(row@ =~= seq!['~'] + Seq::new(0, |k: int| ' '));
        }
        let mut i: usize = 0;
        while i < pad
            invariant
                i <= pad,
                row@ == seq!['~'] + Seq::new(i as nat, |k: int| ' '),
            decreases pad - i,
        {
            push_char(&mut row, ' ');
            proof {
                assert(row@ =~= seq!['~'] + Seq::new((i + 1) as nat, |k: int| ' '));
            }
            i += 1;
        }
        row.append(msg);
        let row_len = row.as_str().unicode_len();
        let cut = if w < row_len {
            w
        } else {
            row_len
        };
        let row_str = row.as_str().substring_char(0, cut);
        let r = String::from_str(row_str);
        proof {
            assert(r@ =~= welcome_row_spec(width as int));
        }
        r
    }

    /// The filler row drawn past the end of the document.
    pub fn draw_empty_row() -> (r: String)
        ensures
            r@ == empty_row_text(),
    {
        String::from_str("~")
    }

    /// Records the view's new dimensions.
    pub fn resize(&mut self, to: Size)
        ensures
            (*final(self) == View { size: to, needs_redraw: true, ..*old(self) }),
    {
        self.size = to;
        self.needs_redraw = true;
    }

    /// Whether the document has a known file name.
    pub fn is_file_loaded(&self) -> (r: bool)
        ensures
            r == (self.file_name is Some),
    {
        match &self.file_name {
            Some(_) => true,
            None => false,
        }
    }

    /// A snapshot of the document's state for the status bar.
    pub fn get_status(&self) -> (r: DocumentStatus)
        ensures
            r.total_lines == self.buffer.lines@.len(),
            r.is_modified == self.modified,
            self.file_name is Some ==> r.file_name@ == self.file_name->0@,
            self.file_name is None ==> r.file_name@ == no_name_text(),
    {
        let file_name = match &self.file_name {
            Some(name) => name.clone(),
            None => String::from_str("[No Name]"),
        };
        DocumentStatus {
            total_lines: self.buffer.lines.len(),
            is_modified: self.modified,
            file_name,
        }
    }
}

} // verus!
