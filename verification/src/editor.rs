//! The editor controller: a modal state machine that consumes decoded
//! commands and decides, per current mode, which state change to make and
//! which outside action — writing a file, re-running a search, applying an
//! edit to the document — the embedding should perform next. Everything here
//! is pure state; the embedding runs the returned actions and reports their
//! outcomes back.

use vstd::prelude::*;
use vstd::string::StringExecFns;
use vstd::view::View as _;

use crate::command::{Command, Edit, Move, System};
use crate::position::Position;
use crate::size::Size;
use crate::uicomponents::{CommandBar, MessageBar, StatusBar};
use crate::view::no_name_text;
use crate::view::View;

verus! {

/// How many consecutive quit requests force a quit while unsaved changes
/// exist.
pub const QUIT_TIMES: u8 = 3;

/// Which prompt, if any, the editor is currently showing.
#[derive(Copy, Clone, Debug, PartialEq, Eq, Structural)]
pub enum PromptType {
    Search,
    Save,
    Normal,
}

impl PromptType {
    /// Whether no prompt is active.
    pub fn is_none(&self) -> (r: bool)
        ensures
            r == (*self == PromptType::Normal),
    {
        *self == PromptType::Normal
    }
}

/// What the embedding should do after a command was routed: the outside work
/// the editor itself cannot perform.
#[derive(Debug, PartialEq)]
pub enum Action {
    /// Nothing left to do.
    Nothing,
    /// Apply this edit to the document at the caret.
    EditDocument(Edit),
    /// Move the caret.
    MoveCursor(Move),
    /// Write the document to disk under this name, then report the outcome
    /// through `Editor::save`.
    WriteDocument(String),
    /// A search prompt was opened: remember the caret so it can be restored.
    EnterSearch,
    /// The pending search query changed: re-run the search and refresh the
    /// match annotations.
    UpdateSearch(String),
    /// The search was confirmed: leave the caret at the current match.
    FinishSearch,
    /// The search was dismissed: restore the remembered caret.
    CancelSearch,
}

/// What to draw where for one screen refresh.
pub struct ScreenPlan {
    /// The row of the bottom bar.
    pub bottom_bar_row: u16,
    /// Whether the bottom bar shows the command bar (a prompt is active)
    /// rather than the message bar.
    pub show_command_bar: bool,
    /// The row of the status bar, when the screen has room for it.
    pub status_bar_row: Option<u16>,
    /// Whether the screen has room for the document view.
    pub render_view: bool,
    /// Where the caret stands after drawing.
    pub caret: Position,
}

/// The help line shown on startup.
pub open spec fn help_text() -> Seq<char> {
    "HELP: Ctrl-F = Search | Ctrl-S = save | Ctrl-Q = quit"@
}

/// The prompt shown while a file name is being entered.
pub open spec fn save_prompt_text() -> Seq<char> {
    "Save as: "@
}

/// The prompt shown while a search query is being entered.
pub open spec fn search_prompt_text() -> Seq<char> {
    "Search (Esc to cancel): "@
}

/// The message shown when a save prompt is dismissed.
pub open spec fn save_aborted_text() -> Seq<char> {
    "Save aborted."@
}

/// The message shown after a successful save.
pub open spec fn save_ok_text() -> Seq<char> {
    "File saved successfully."@
}

/// The message shown after a failed save.
pub open spec fn save_failed_text() -> Seq<char> {
    "Error writing file!"@
}

/// The warning shown while quit confirmations are still outstanding.
pub open spec fn quit_warning_spec(remaining: int) -> Seq<char> {
    "WARNING! File has unsaved changes. Press Ctrl-Q "@ + (if remaining == 1 {
        "1"@
    } else {
        "2"@
    }) + " more times to quit."@
}

/// What the terminal title shows: the document name and the editor name.
pub open spec fn title_spec(v: View) -> Seq<char> {
    (if v.file_name is Some {
        v.file_name->0@
    } else {
        no_name_text()
    }) + " - editcore"@
}

/// The confirmation counter after one more quit request.
pub open spec fn quit_step_times(qt: u8) -> u8 {
    if qt < QUIT_TIMES {
        (qt + 1) as u8
    } else {
        qt
    }
}

/// Whether one more quit request makes the editor quit: immediately when the
/// document has no unsaved changes, else only once the counter reaches its
/// limit.
pub open spec fn quit_step_quits(qt: u8, modified: bool) -> bool {
    !modified || quit_step_times(qt) == QUIT_TIMES
}

/// The confirmation counter after `k` consecutive quit requests from zero.
pub open spec fn quit_times_after(k: nat) -> u8
    decreases k,
{
    if k == 0 {
        0
    } else {
        quit_step_times(quit_times_after((k - 1) as nat))
    }
}

/// Whether some quit request among `k` consecutive ones makes the editor
/// quit.
pub open spec fn quits_within(k: nat, modified: bool) -> bool
    decreases k,
{
    if k == 0 {
        false
    } else {
        quits_within((k - 1) as nat, modified) || quit_step_quits(
            quit_times_after((k - 1) as nat),
            modified,
        )
    }
}

/// Quit confirmation: starting from a reset counter, a document with no
/// unsaved changes quits on the first request, and a document with unsaved
/// changes quits exactly on the `QUIT_TIMES`-th consecutive request.
pub proof fn lemma_quit_confirmation(k: nat)
    ensures
        quit_times_after(k) == if k < QUIT_TIMES {
            k as u8
        } else {
            QUIT_TIMES
        },
        quits_within(k, false) <==> k >= 1,
        quits_within(k, true) <==> k >= QUIT_TIMES,
    decreases k,
{
    if k > 0 {
        lemma_quit_confirmation((k - 1) as nat);
    }
}

/// The view height that remains under the two bars.
pub open spec fn view_height(h: u16) -> u16 {
    if h >= 2 {
        (h - 2) as u16
    } else {
        0
    }
}

/// The editor state: the document view, the bars, the active prompt and the
/// quit confirmation counter.
pub struct Editor {
    pub should_quit: bool,
    pub view: View,
    pub status_bar: StatusBar,
    pub title: String,
    pub message_bar: MessageBar,
    pub command_bar: CommandBar,
    pub prompt_type: PromptType,
    pub terminal_size: Size,
    pub quit_times: u8,
}

impl Editor {
    /// The state invariant: the confirmation counter never passes its limit.
    pub open spec fn wf(self) -> bool {
        self.quit_times <= QUIT_TIMES
    }

    /// A fresh editor over an empty document, sized to the given terminal.
    pub fn new(size: Size) -> (r: Editor)
        ensures
            r.wf(),
            !r.should_quit,
            r.prompt_type == PromptType::Normal,
            r.quit_times == 0,
            r.terminal_size == size,
            r.message_bar.message@ == help_text(),
            r.view.buffer.lines@.len() == 0,
            r.view.file_name is None,
            !r.view.modified,
            r.view.size == (Size { width: size.width, height: view_height(size.height) }),
            r.command_bar.value@.len() == 0,
    {
        let mut editor = Editor {
            should_quit: false,
            view: View::new(),
            status_bar: StatusBar::new(),
            title: String::new(),
            message_bar: MessageBar::new(),
            command_bar: CommandBar::new(),
            prompt_type: PromptType::Normal,
            terminal_size: Size { width: 0, height: 0 },
            quit_times: 0,
        };
        editor.handle_resize_command(size);
        editor.update_message("HELP: Ctrl-F = Search | Ctrl-S = save | Ctrl-Q = quit");
        editor
    }

    /// Propagates new terminal dimensions to the view and the bars. The mode,
    /// the counters and all text are untouched.
    pub fn handle_resize_command(&mut self, size: Size)
        ensures
            final(self).terminal_size == size,
            final(self).view.size == (Size { width: size.width, height: view_height(size.height) }),
            final(self).message_bar.size == (Size { width: size.width, height: 1 }),
            final(self).status_bar.size == (Size { width: size.width, height: 1 }),
            final(self).command_bar.size == (Size { width: size.width, height: 1 }),
            final(self).prompt_type == old(self).prompt_type,
            final(self).quit_times == old(self).quit_times,
            final(self).should_quit == old(self).should_quit,
            final(self).view.buffer == old(self).view.buffer,
            final(self).view.file_name == old(self).view.file_name,
            final(self).view.modified == old(self).view.modified,
            final(self).message_bar.message == old(self).message_bar.message,
            final(self).command_bar.value == old(self).command_bar.value,
            final(self).command_bar.prompt == old(self).command_bar.prompt,
            final(self).status_bar.current_status == old(self).status_bar.current_status,
            final(self).title == old(self).title,
    {
        self.terminal_size = size;
        self.view.resize(Size { width: size.width, height: size.height.saturating_sub(2) });
        let bar_size = Size { width: size.width, height: 1 };
        self.message_bar.resize(bar_size);
        self.status_bar.resize(bar_size);
        self.command_bar.resize(bar_size);
    }

    /// Routes one decoded command according to the current mode and returns
    /// the action the embedding should perform.
    pub fn process_command(&mut self, command: Command) -> (action: Action)
        requires
            old(self).wf(),
        ensures
            final(self).wf(),
            (command matches Command::System(System::Resize(size)) ==> final(self).prompt_type
                == old(self).prompt_type && final(self).terminal_size == size && action
                == Action::Nothing && final(self).quit_times == 0 && final(self).should_quit
                == old(self).should_quit && final(self).view.size == (Size {
                width: size.width,
                height: view_height(size.height),
            }) && final(self).message_bar.size == (Size { width: size.width, height: 1 })
                && final(self).status_bar.size == (Size { width: size.width, height: 1 })
                && final(self).command_bar.size == (Size { width: size.width, height: 1 })
                && final(self).command_bar.value == old(self).command_bar.value && final(self).command_bar.prompt == old(self).command_bar.prompt),
            old(self).prompt_type == PromptType::Normal && command == Command::System(System::Search)
                ==> final(self).prompt_type == PromptType::Search && action == Action::EnterSearch,
            old(self).prompt_type != PromptType::Normal && command == Command::System(System::Dismiss)
                ==> final(self).prompt_type == PromptType::Normal && final(self).command_bar.value@.len() == 0 && (old(self).prompt_type == PromptType::Search
                ==> action == Action::CancelSearch),
            old(self).prompt_type != PromptType::Normal && command == Command::System(System::Quit)
                ==> *final(self) == *old(self) && action == Action::Nothing,
            old(self).prompt_type == PromptType::Normal && command == Command::System(System::Quit)
                ==> final(self).quit_times == quit_step_times(old(self).quit_times) && final(self).should_quit == (old(self).should_quit || quit_step_quits(
                old(self).quit_times,
                old(self).view.modified,
            )) && final(self).prompt_type == PromptType::Normal,
            old(self).prompt_type == PromptType::Normal && command != Command::System(
                System::Quit,
            ) ==> final(self).quit_times == 0,
            (command matches Command::System(System::Resize(_)) ==> final(self).quit_times == 0),
            final(self).view.buffer == old(self).view.buffer,
            final(self).view.file_name == old(self).view.file_name,
            old(self).prompt_type == PromptType::Normal && command == Command::System(
                System::Dismiss,
            ) ==> final(self).prompt_type == PromptType::Normal && action == Action::Nothing,
            !(command matches Command::Edit(_)) ==> final(self).view.modified == old(self).view.modified,
            (old(self).prompt_type == PromptType::Normal ==> (command matches Command::Edit(e)
                ==> action == Action::EditDocument(e) && final(self).view.modified && final(self).prompt_type == PromptType::Normal)),
            (old(self).prompt_type == PromptType::Normal ==> (command matches Command::Move(m)
                ==> action == Action::MoveCursor(m) && final(self).prompt_type == PromptType::Normal)),
            old(self).prompt_type == PromptType::Normal && command == Command::System(System::Save)
                && old(self).view.file_name is Some ==> final(self).prompt_type
                == PromptType::Normal && (action matches Action::WriteDocument(name) && name@
                == old(self).view.file_name->0@),
            old(self).prompt_type == PromptType::Normal && command == Command::System(System::Save)
                && old(self).view.file_name is None ==> final(self).prompt_type == PromptType::Save
                && final(self).command_bar.prompt@ == save_prompt_text() && final(self).command_bar.value@.len() == 0 && action == Action::Nothing,
            old(self).prompt_type != PromptType::Normal && ((command matches Command::Move(_))
                || command == Command::System(System::Save) || command == Command::System(
                System::Search,
            )) ==> *final(self) == *old(self) && action == Action::Nothing,
            old(self).prompt_type == PromptType::Save && command == Command::Edit(
                Edit::InsertNewline,
            ) ==> final(self).prompt_type == PromptType::Normal && (action matches
                Action::WriteDocument(name) && name@ == old(self).command_bar.value@),
            old(self).prompt_type == PromptType::Save && command == Command::System(System::Dismiss)
                ==> final(self).message_bar.message@ == save_aborted_text() && action
                == Action::Nothing,
            (old(self).prompt_type == PromptType::Save ==> (command matches Command::Edit(
                Edit::Insert(c),
            ) ==> final(self).prompt_type == PromptType::Save && action == Action::Nothing
                && final(self).command_bar.value@ == old(self).command_bar.value@.push(c))),
            old(self).prompt_type == PromptType::Save && command == Command::Edit(
                Edit::DeleteBackward,
            ) ==> final(self).prompt_type == PromptType::Save && action == Action::Nothing
                && final(self).command_bar.value@ == (if old(self).command_bar.value@.len() > 0 {
                old(self).command_bar.value@.drop_last()
            } else {
                old(self).command_bar.value@
            }),
            old(self).prompt_type == PromptType::Save && command == Command::Edit(Edit::Delete)
                ==> final(self).prompt_type == PromptType::Save && action == Action::Nothing
                && final(self).command_bar.value@ == old(self).command_bar.value@,
            old(self).prompt_type == PromptType::Search && command == Command::Edit(
                Edit::InsertNewline,
            ) ==> final(self).prompt_type == PromptType::Normal && action == Action::FinishSearch,
            old(self).prompt_type == PromptType::Search && ((command matches Command::Edit(
                Edit::Insert(_),
            )) || command == Command::Edit(Edit::DeleteBackward) || command == Command::Edit(
                Edit::Delete,
            )) ==> final(self).prompt_type == PromptType::Search && (action matches
                Action::UpdateSearch(query) && query@ == final(self).command_bar.value@),
    {
        if let Command::System(System::Resize(size)) = command {
            self.reset_quit_times();
            self.handle_resize_command(size);
            return Action::Nothing;
        }
        match self.prompt_type {
            PromptType::Search => self.process_command_during_search(command),
            PromptType::Save => self.process_command_during_save(command),
            PromptType::Normal => self.process_command_no_prompt(command),
        }
    }

    fn process_command_no_prompt(&mut self, command: Command) -> (action: Action)
        requires
            old(self).wf(),
            old(self).prompt_type == PromptType::Normal,
        ensures
            final(self).wf(),
            command == Command::System(System::Quit) ==> final(self).quit_times == quit_step_times(
                old(self).quit_times,
            ) && final(self).should_quit == (old(self).should_quit || quit_step_quits(
                old(self).quit_times,
                old(self).view.modified,
            )) && final(self).prompt_type == PromptType::Normal && action == Action::Nothing,
            command != Command::System(System::Quit) ==> final(self).quit_times == 0 && final(self).should_quit == old(self).should_quit,
            !(command matches Command::Edit(_)) ==> final(self).view == old(self).view,
            final(self).view.buffer == old(self).view.buffer,
            final(self).view.file_name == old(self).view.file_name,
            final(self).view.size == old(self).view.size,
            command == Command::System(System::Search) ==> final(self).prompt_type
                == PromptType::Search && action == Action::EnterSearch && final(self).command_bar.value@.len() == 0 && final(self).command_bar.prompt@
                == search_prompt_text(),
            command == Command::System(System::Save) && old(self).view.file_name is Some ==> final(self).prompt_type == PromptType::Normal && (action matches Action::WriteDocument(name)
                && name@ == old(self).view.file_name->0@),
            command == Command::System(System::Save) && old(self).view.file_name is None ==> final(self).prompt_type == PromptType::Save && final(self).command_bar.prompt@
                == save_prompt_text() && final(self).command_bar.value@.len() == 0 && action
                == Action::Nothing,
            command == Command::System(System::Dismiss) ==> final(self).prompt_type
                == PromptType::Normal && action == Action::Nothing,
            (command matches Command::System(System::Resize(_)) ==> final(self).prompt_type
                == PromptType::Normal && action == Action::Nothing),
            (command matches Command::Edit(e) ==> action == Action::EditDocument(e) && final(self).view.modified && final(self).prompt_type == PromptType::Normal),
            (command matches Command::Move(m) ==> action == Action::MoveCursor(m) && final(self).view == old(self).view && final(self).prompt_type == PromptType::Normal),
    {
        if command == Command::System(System::Quit) {
            self.handle_quit_command();
            return Action::Nothing;
        }
        self.reset_quit_times();
        match command {
            Command::System(System::Quit) => Action::Nothing,
            Command::System(System::Resize(_)) => Action::Nothing,
            Command::System(System::Dismiss) => Action::Nothing,
            Command::System(System::Search) => {
                self.set_prompt(PromptType::Search);
                Action::EnterSearch
            },
            Command::System(System::Save) => self.handle_save_command(),
            Command::Edit(edit_command) => {
                self.view.modified = true;
                Action::EditDocument(edit_command)
            },
            Command::Move(move_command) => Action::MoveCursor(move_command),
        }
    }

    /// One more quit request: the counter advances, and the editor either
    /// quits or warns how many confirmations remain.
    fn handle_quit_command(&mut self)
        requires
            old(self).wf(),
        ensures
            final(self).wf(),
            final(self).quit_times == quit_step_times(old(self).quit_times),
            final(self).should_quit == (old(self).should_quit || quit_step_quits(
                old(self).quit_times,
                old(self).view.modified,
            )),
            !old(self).view.modified ==> final(self).should_quit,
            old(self).view.modified && old(self).quit_times + 1 < QUIT_TIMES && !old(self).should_quit ==> !final(self).should_quit && final(self).quit_times == old(self).quit_times
                + 1,
            old(self).view.modified && old(self).quit_times + 1 == QUIT_TIMES ==> final(self).should_quit,
            final(self).prompt_type == old(self).prompt_type,
            final(self).view == old(self).view,
            final(self).command_bar == old(self).command_bar,
            final(self).status_bar == old(self).status_bar,
            final(self).title == old(self).title,
            final(self).terminal_size == old(self).terminal_size,
            !quit_step_quits(old(self).quit_times, old(self).view.modified) ==> final(self).message_bar.message@ == quit_warning_spec(
                QUIT_TIMES - quit_step_times(old(self).quit_times),
            ),
            quit_step_quits(old(self).quit_times, old(self).view.modified) ==> final(self).message_bar == old(self).message_bar,
    {
        if self.quit_times < QUIT_TIMES {
            self.quit_times = self.quit_times + 1;
        }
        if !self.view.modified || self.quit_times == QUIT_TIMES {
            self.should_quit = true;
        } else {
            let remaining = QUIT_TIMES - self.quit_times;
            let msg = Self::quit_warning(remaining);
            self.message_bar.update_message(msg.as_str());
        }
    }

    fn quit_warning(remaining: u8) -> (r: String)
        requires
            remaining == 1 || remaining == 2,
        ensures
            r@ == quit_warning_spec(remaining as int),
    {
        let mut s = String::from_str("WARNING! File has unsaved changes. Press Ctrl-Q ");
        if remaining == 1 {
            s.append("1");
        } else {
            s.append("2");
        }
        s.append(" more times to quit.");
        s
    }

    /// Any command other than a quit request resets the confirmation counter
    /// and clears a pending warning.
    fn reset_quit_times(&mut self)
        ensures
            final(self).quit_times == 0,
            final(self).prompt_type == old(self).prompt_type,
            final(self).should_quit == old(self).should_quit,
            final(self).view == old(self).view,
            final(self).command_bar == old(self).command_bar,
            final(self).status_bar == old(self).status_bar,
            final(self).title == old(self).title,
            final(self).terminal_size == old(self).terminal_size,
            final(self).message_bar.size == old(self).message_bar.size,
            old(self).quit_times == 0 ==> *final(self) == *old(self),
            old(self).quit_times > 0 ==> final(self).message_bar.message@.len() == 0,
    {
        if self.quit_times > 0 {
            self.quit_times = 0;
            self.update_message("");
            proof {
                reveal_strlit("");
            }
        }
    }

    fn handle_save_command(&mut self) -> (action: Action)
        requires
            old(self).wf(),
            old(self).prompt_type == PromptType::Normal,
        ensures
            final(self).wf(),
            final(self).quit_times == old(self).quit_times,
            final(self).should_quit == old(self).should_quit,
            old(self).view.file_name is Some ==> *final(self) == *old(self) && (action matches
                Action::WriteDocument(name) && name@ == old(self).view.file_name->0@),
            old(self).view.file_name is None ==> final(self).prompt_type == PromptType::Save
                && final(self).command_bar.prompt@ == save_prompt_text() && final(self).command_bar.value@.len() == 0 && action == Action::Nothing && final(self).view == old(self).view,
    {
        let loaded = self.view.is_file_loaded();
        if loaded {
            let name = match &self.view.file_name {
                Some(name) => name.clone(),
                None => String::new(),
            };
            Action::WriteDocument(name)
        } else {
            self.set_prompt(PromptType::Save);
            Action::Nothing
        }
    }

    /// Records the outcome of a document write that the embedding performed:
    /// on success the document is clean and known under the name it was
    /// written to, and the message bar says what happened.
    pub fn save(&mut self, file_name: Option<&str>, ok: bool)
        ensures
            ok ==> !final(self).view.modified,
            !ok ==> final(self).view.modified == old(self).view.modified,
            ok ==> (file_name matches Some(name) ==> (final(self).view.file_name matches Some(stored) && stored@ == name@)),
            ok && file_name is None ==> final(self).view.file_name == old(self).view.file_name,
            !ok ==> final(self).view.file_name == old(self).view.file_name,
            ok ==> final(self).message_bar.message@ == save_ok_text(),
            !ok ==> final(self).message_bar.message@ == save_failed_text(),
            final(self).prompt_type == old(self).prompt_type,
            final(self).quit_times == old(self).quit_times,
            final(self).should_quit == old(self).should_quit,
            final(self).view.buffer == old(self).view.buffer,
            final(self).view.size == old(self).view.size,
            final(self).command_bar == old(self).command_bar,
            final(self).status_bar == old(self).status_bar,
            final(self).title == old(self).title,
            final(self).terminal_size == old(self).terminal_size,
    {
        if ok {
            if let Some(name) = file_name {
                self.view.file_name = Some(String::from_str(name));
            }
            self.view.modified = false;
            self.update_message("File saved successfully.");
        } else {
            self.update_message("Error writing file!");
        }
    }

    fn process_command_during_save(&mut self, command: Command) -> (action: Action)
        requires
            old(self).wf(),
            old(self).prompt_type == PromptType::Save,
        ensures
            final(self).wf(),
            final(self).quit_times == old(self).quit_times,
            final(self).should_quit == old(self).should_quit,
            command matches Command::Move(_) ==> *final(self) == *old(self) && action
                == Action::Nothing,
            command == Command::System(System::Quit) || command == Command::System(System::Search)
                || command == Command::System(System::Save) || (command matches Command::System(
                System::Resize(_),
            )) ==> *final(self) == *old(self) && action == Action::Nothing,
            command == Command::System(System::Dismiss) ==> final(self).prompt_type
                == PromptType::Normal && final(self).command_bar.value@.len() == 0 && final(self).message_bar.message@ == save_aborted_text() && action == Action::Nothing && final(self).view == old(self).view,
            command == Command::Edit(Edit::InsertNewline) ==> final(self).prompt_type
                == PromptType::Normal && final(self).command_bar.value@.len() == 0 && (action matches
                Action::WriteDocument(name) && name@ == old(self).command_bar.value@) && final(self).view == old(self).view,
            (command matches Command::Edit(Edit::Insert(c)) ==> final(self).prompt_type
                == PromptType::Save && action == Action::Nothing && final(self).view == old(self).view && final(self).command_bar.value@ == old(self).command_bar.value@.push(c)),
            command == Command::Edit(Edit::DeleteBackward) ==> final(self).prompt_type
                == PromptType::Save && action == Action::Nothing && final(self).view == old(self).view && final(self).command_bar.value@ == (if old(self).command_bar.value@.len() > 0 {
                old(self).command_bar.value@.drop_last()
            } else {
                old(self).command_bar.value@
            }),
            command == Command::Edit(Edit::Delete) ==> final(self).prompt_type == PromptType::Save
                && action == Action::Nothing && final(self).view == old(self).view && final(self).command_bar.value@ == old(self).command_bar.value@,
    {
        match command {
            Command::System(System::Quit) => Action::Nothing,
            Command::System(System::Resize(_)) => Action::Nothing,
            Command::System(System::Search) => Action::Nothing,
            Command::System(System::Save) => Action::Nothing,
            Command::Move(_) => Action::Nothing,
            Command::System(System::Dismiss) => {
                self.set_prompt(PromptType::Normal);
                self.update_message("Save aborted.");
                Action::Nothing
            },
            Command::Edit(Edit::InsertNewline) => {
                let file_name = self.command_bar.value();
                self.set_prompt(PromptType::Normal);
                Action::WriteDocument(file_name)
            },
            Command::Edit(edit_command) => {
                self.command_bar.handle_edit_command(edit_command);
                Action::Nothing
            },
        }
    }

    fn process_command_during_search(&mut self, command: Command) -> (action: Action)
        requires
            old(self).wf(),
            old(self).prompt_type == PromptType::Search,
        ensures
            final(self).wf(),
            final(self).quit_times == old(self).quit_times,
            final(self).should_quit == old(self).should_quit,
            command matches Command::Move(_) ==> *final(self) == *old(self) && action
                == Action::Nothing,
            command == Command::System(System::Quit) || command == Command::System(System::Search)
                || command == Command::System(System::Save) || (command matches Command::System(
                System::Resize(_),
            )) ==> *final(self) == *old(self) && action == Action::Nothing,
            command == Command::System(System::Dismiss) ==> final(self).prompt_type
                == PromptType::Normal && final(self).command_bar.value@.len() == 0 && action
                == Action::CancelSearch && final(self).view == old(self).view,
            command == Command::Edit(Edit::InsertNewline) ==> final(self).prompt_type
                == PromptType::Normal && final(self).command_bar.value@.len() == 0 && action
                == Action::FinishSearch && final(self).view == old(self).view,
            (command matches Command::Edit(Edit::Insert(c)) ==> final(self).prompt_type
                == PromptType::Search && (action matches Action::UpdateSearch(q) && q@ == final(self).command_bar.value@) && final(self).view == old(self).view && final(self).command_bar.value@ == old(self).command_bar.value@.push(c)),
            command == Command::Edit(Edit::DeleteBackward) ==> final(self).prompt_type
                == PromptType::Search && (action matches Action::UpdateSearch(q) && q@ == final(self).command_bar.value@) && final(self).view == old(self).view && final(self).command_bar.value@ == (if old(self).command_bar.value@.len() > 0 {
                old(self).command_bar.value@.drop_last()
            } else {
                old(self).command_bar.value@
            }),
            command == Command::Edit(Edit::Delete) ==> final(self).prompt_type
                == PromptType::Search && (action matches Action::UpdateSearch(q) && q@ == final(self).command_bar.value@) && final(self).view == old(self).view && final(self).command_bar.value@ == old(self).command_bar.value@,
    {
        match command {
            Command::System(System::Quit) => Action::Nothing,
            Command::System(System::Resize(_)) => Action::Nothing,
            Command::System(System::Search) => Action::Nothing,
            Command::System(System::Save) => Action::Nothing,
            Command::Move(_) => Action::Nothing,
            Command::System(System::Dismiss) => {
                self.set_prompt(PromptType::Normal);
                Action::CancelSearch
            },
            Command::Edit(Edit::InsertNewline) => {
                self.set_prompt(PromptType::Normal);
                Action::FinishSearch
            },
            Command::Edit(edit_command) => {
                self.command_bar.handle_edit_command(edit_command);
                let query = self.command_bar.value();
                Action::UpdateSearch(query)
            },
        }
    }

    /// Replaces the message shown in the message bar.
    fn update_message(&mut self, new_message: &str)
        ensures
            final(self).message_bar.message@ == new_message@,
            final(self).message_bar.needs_redraw,
            final(self).message_bar.size == old(self).message_bar.size,
            final(self).prompt_type == old(self).prompt_type,
            final(self).quit_times == old(self).quit_times,
            final(self).should_quit == old(self).should_quit,
            final(self).view == old(self).view,
            final(self).command_bar == old(self).command_bar,
            final(self).status_bar == old(self).status_bar,
            final(self).title == old(self).title,
            final(self).terminal_size == old(self).terminal_size,
    {
        self.message_bar.update_message(new_message);
    }

    /// Whether a prompt is active.
    pub fn in_prompt(&self) -> (r: bool)
        ensures
            r == (self.prompt_type != PromptType::Normal),
    {
        !self.prompt_type.is_none()
    }

    fn set_prompt(&mut self, prompt_type: PromptType)
        ensures
            final(self).prompt_type == prompt_type,
            final(self).command_bar.value@.len() == 0,
            final(self).command_bar.size == old(self).command_bar.size,
            prompt_type == PromptType::Save ==> final(self).command_bar.prompt@
                == save_prompt_text(),
            prompt_type == PromptType::Search ==> final(self).command_bar.prompt@
                == search_prompt_text(),
            prompt_type == PromptType::Normal ==> final(self).command_bar.prompt == old(self).command_bar.prompt && final(self).message_bar.needs_redraw,
            final(self).message_bar.message == old(self).message_bar.message,
            final(self).message_bar.size == old(self).message_bar.size,
            final(self).quit_times == old(self).quit_times,
            final(self).should_quit == old(self).should_quit,
            final(self).view == old(self).view,
            final(self).status_bar == old(self).status_bar,
            final(self).title == old(self).title,
            final(self).terminal_size == old(self).terminal_size,
    {
        match prompt_type {
            PromptType::Normal => self.message_bar.set_needs_redraw(true),
            PromptType::Save => self.command_bar.set_prompt("Save as: "),
            PromptType::Search => self.command_bar.set_prompt("Search (Esc to cancel): "),
        }
        self.command_bar.clear_value();
        self.prompt_type = prompt_type;
    }

    /// Refreshes the status bar from the document and recomputes the
    /// terminal title; returns the new title when it changed, for the
    /// embedding to apply.
    pub fn refresh_status(&mut self) -> (new_title: Option<String>)
        ensures
            final(self).status_bar.current_status.total_lines == old(self).view.buffer.lines@.len(),
            final(self).status_bar.current_status.is_modified == old(self).view.modified,
            old(self).view.file_name is Some ==> final(self).status_bar.current_status.file_name@
                == old(self).view.file_name->0@,
            old(self).view.file_name is None ==> final(self).status_bar.current_status.file_name@
                == no_name_text(),
            final(self).title@ == title_spec(old(self).view),
            title_spec(old(self).view) != old(self).title@ ==> (new_title matches Some(t) && t@
                == title_spec(old(self).view)),
            title_spec(old(self).view) == old(self).title@ ==> new_title is None && final(self).title == old(self).title,
            final(self).view == old(self).view,
            final(self).prompt_type == old(self).prompt_type,
            final(self).quit_times == old(self).quit_times,
            final(self).should_quit == old(self).should_quit,
            final(self).message_bar == old(self).message_bar,
            final(self).command_bar == old(self).command_bar,
            final(self).terminal_size == old(self).terminal_size,
    {
        let status = self.view.get_status();
        let mut title = status.file_name.clone();
        title.append(" - editcore");
        self.status_bar.update_status(status);
        if !(title == self.title) {
            let out = title.clone();
            self.title = title;
            Some(out)
        } else {
            None
        }
    }

    /// What one screen refresh should draw: nothing at all when the terminal
    /// has no visible cell, else the bottom bar (the command bar during a
    /// prompt, the message bar otherwise), the status bar and the document
    /// view where the screen has room, and the caret position.
    pub fn refresh_screen(&self) -> (r: Option<ScreenPlan>)
        ensures
            (self.terminal_size.width == 0 || self.terminal_size.height == 0) <==> r is None,
            (r matches Some(plan) ==> {
                &&& plan.bottom_bar_row == self.terminal_size.height - 1
                &&& plan.show_command_bar == (self.prompt_type != PromptType::Normal)
                &&& self.terminal_size.height > 1 ==> (plan.status_bar_row matches Some(row)
                    && row == self.terminal_size.height - 2)
                &&& self.terminal_size.height <= 1 ==> plan.status_bar_row is None
                &&& plan.render_view == (self.terminal_size.height > 2)
                &&& self.prompt_type != PromptType::Normal ==> plan.caret.y
                    == self.terminal_size.height - 1 && plan.caret.x
                    == self.command_bar.caret_col_spec()
                &&& self.prompt_type == PromptType::Normal ==> plan.caret == (Position {
                    x: 0,
                    y: 0,
                })
            }),
    {
        if self.terminal_size.width == 0 || self.terminal_size.height == 0 {
            return None;
        }
        let bottom_bar_row = self.terminal_size.height - 1;
        let status_bar_row = if self.terminal_size.height > 1 {
            Some(self.terminal_size.height - 2)
        } else {
            None
        };
        let in_prompt = self.in_prompt();
        let caret = if in_prompt {
            let col = self.command_bar.caret_position_col();
            Position { x: col as u16, y: bottom_bar_row }
        } else {
            Position { x: 0, y: 0 }
        };
        Some(
            ScreenPlan {
                bottom_bar_row,
                show_command_bar: in_prompt,
                status_bar_row,
                render_view: self.terminal_size.height > 2,
                caret,
            },
        )
    }
}

} // verus!
