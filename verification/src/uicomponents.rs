//! The presentation bars at the bottom of the screen: their state and the
//! strings they hold. Drawing them is the embedding's business; here lives
//! only what the command routing reads and writes.

use vstd::prelude::*;
use vstd::string::StrSliceExecFns;
use vstd::string::StringExecFns;

use crate::command::Edit;
use crate::size::Size;
use crate::unicode::{pop_char, push_char};

verus! {

/// A snapshot of the document's externally visible state.
pub struct DocumentStatus {
    pub total_lines: usize,
    pub is_modified: bool,
    pub file_name: String,
}

impl DocumentStatus {
    /// Whether two snapshots show the same thing.
    pub fn same_as(&self, other: &DocumentStatus) -> (r: bool)
        ensures
            r == (self.total_lines == other.total_lines && self.is_modified == other.is_modified
                && self.file_name@ == other.file_name@),
    {
        self.total_lines == other.total_lines && self.is_modified == other.is_modified
            && self.file_name == other.file_name
    }
}

/// The one-line bar showing transient status and warning messages.
pub struct MessageBar {
    pub message: String,
    pub size: Size,
    pub needs_redraw: bool,
}

impl MessageBar {
    /// An empty message bar.
    pub fn new() -> (r: Self)
        ensures
            r.message@.len() == 0,
            r.size == (Size { width: 0, height: 0 }),
            !r.needs_redraw,
    {
        MessageBar {
            message: String::new(),
            size: Size { width: 0, height: 0 },
            needs_redraw: false,
        }
    }

    /// Replaces the displayed message.
    pub fn update_message(&mut self, new_message: &str)
        ensures
            final(self).message@ == new_message@,
            final(self).size == old(self).size,
            final(self).needs_redraw,
    {
        self.message = String::from_str(new_message);
        self.needs_redraw = true;
    }

    /// Marks the bar as needing to be drawn again, or not.
    pub fn set_needs_redraw(&mut self, value: bool)
        ensures
            final(self).needs_redraw == value,
            final(self).message == old(self).message,
            final(self).size == old(self).size,
    {
        self.needs_redraw = value;
    }

    /// Records the bar's new dimensions.
    pub fn resize(&mut self, to: Size)
        ensures
            final(self).size == to,
            final(self).message == old(self).message,
            final(self).needs_redraw,
    {
        self.size = to;
        self.needs_redraw = true;
    }
}

/// The one-line bar showing the document status.
pub struct StatusBar {
    pub current_status: DocumentStatus,
    pub size: Size,
    pub needs_redraw: bool,
}

impl StatusBar {
    /// A status bar showing an empty, unnamed, unmodified document.
    pub fn new() -> (r: Self)
        ensures
            r.current_status.total_lines == 0,
            !r.current_status.is_modified,
            r.current_status.file_name@.len() == 0,
            r.size == (Size { width: 0, height: 0 }),
            !r.needs_redraw,
    {
        StatusBar {
            current_status: DocumentStatus {
                total_lines: 0,
                is_modified: false,
                file_name: String::new(),
            },
            size: Size { width: 0, height: 0 },
            needs_redraw: false,
        }
    }

    /// Shows a new snapshot; the bar is only marked for redrawing when the
    /// snapshot differs from the one displayed.
    pub fn update_status(&mut self, new_status: DocumentStatus)
        ensures
            final(self).current_status.total_lines == new_status.total_lines,
            final(self).current_status.is_modified == new_status.is_modified,
            final(self).current_status.file_name@ == new_status.file_name@,
            final(self).size == old(self).size,
    {
        if !self.current_status.same_as(&new_status) {
            self.current_status = new_status;
            self.needs_redraw = true;
        }
    }

    /// Records the bar's new dimensions.
    pub fn resize(&mut self, to: Size)
        ensures
            final(self).size == to,
            final(self).current_status == old(self).current_status,
            final(self).needs_redraw,
    {
        self.size = to;
        self.needs_redraw = true;
    }
}

/// The one-line bar used to compose a search query or a file name, shown in
/// place of the message bar while a prompt is active.
pub struct CommandBar {
    pub prompt: String,
    pub value: String,
    pub size: Size,
    pub needs_redraw: bool,
}

impl CommandBar {
    /// A command bar with no prompt and no pending input.
    pub fn new() -> (r: Self)
        ensures
            r.prompt@.len() == 0,
            r.value@.len() == 0,
            r.size == (Size { width: 0, height: 0 }),
            !r.needs_redraw,
    {
        CommandBar {
            prompt: String::new(),
            value: String::new(),
            size: Size { width: 0, height: 0 },
            needs_redraw: false,
        }
    }

    /// Applies one edit command to the pending input: characters are
    /// appended, backspace removes the last character, anything else leaves
    /// the input as it is.
    pub fn handle_edit_command(&mut self, command: Edit)
        ensures
            final(self).prompt == old(self).prompt,
            final(self).size == old(self).size,
            final(self).needs_redraw,
            (command matches Edit::Insert(c) ==> final(self).value@ == old(self).value@.push(c)),
            command == Edit::DeleteBackward ==> final(self).value@ == (if old(self).value@.len()
                > 0 {
                old(self).value@.drop_last()
            } else {
                old(self).value@
            }),
            command == Edit::Delete || command == Edit::InsertNewline ==> final(self).value@ == old(
                self,
            ).value@,
    {
        match command {
            Edit::Insert(character) => push_char(&mut self.value, character),
            Edit::DeleteBackward => {
                let _ = pop_char(&mut self.value);
            },
            Edit::Delete => {},
            Edit::InsertNewline => {},
        }
        self.needs_redraw = true;
    }

    /// The column at which the caret stands: after the prompt and the
    /// pending input, kept within the bar's width.
    pub open spec fn caret_col_spec(self) -> int {
        if self.prompt@.len() + self.value@.len() <= self.size.width {
            self.prompt@.len() + self.value@.len() as int
        } else {
            self.size.width as int
        }
    }

    /// The column at which the caret stands.
    pub fn caret_position_col(&self) -> (r: usize)
        ensures
            r == self.caret_col_spec(),
            r <= self.size.width,
    {
        let p = self.prompt.as_str().unicode_len();
        let v = self.value.as_str().unicode_len();
        let total = p.saturating_add(v);
        if total <= self.size.width as usize {
            total
        } else {
            self.size.width as usize
        }
    }

    /// Records the bar's new dimensions.
    pub fn resize(&mut self, to: Size)
        ensures
            final(self).size == to,
            final(self).prompt == old(self).prompt,
            final(self).value == old(self).value,
            final(self).needs_redraw,
    {
        self.size = to;
        self.needs_redraw = true;
    }

    /// Replaces the prompt text shown before the pending input.
    pub fn set_prompt(&mut self, prompt: &str)
        ensures
            final(self).prompt@ == prompt@,
            final(self).value == old(self).value,
            final(self).size == old(self).size,
            final(self).needs_redraw,
    {
        self.prompt = String::from_str(prompt);
        self.needs_redraw = true;
    }

    /// Discards the pending input.
    pub fn clear_value(&mut self)
        ensures
            final(self).value@.len() == 0,
            final(self).prompt == old(self).prompt,
            final(self).size == old(self).size,
            final(self).needs_redraw,
    {
        self.value = String::new();
        self.needs_redraw = true;
    }

    /// The pending input.
    pub fn value(&self) -> (r: String)
        ensures
            r@ == self.value@,
    {
        self.value.clone()
    }
}

} // verus!
