use editcore::command::{Command, Edit, Move, System};
use editcore::editor::{Action, Editor, PromptType, QUIT_TIMES};
use editcore::size::Size;

fn editor() -> Editor {
    Editor::new(Size { width: 80, height: 24 })
}

#[test]
fn new_editor_starts_in_normal_mode() {
    let e = editor();
    assert!(!e.should_quit);
    assert_eq!(e.prompt_type, PromptType::Normal);
    assert!(e.prompt_type.is_none());
    assert_eq!(e.quit_times, 0);
    assert_eq!(
        e.message_bar.message,
        "HELP: Ctrl-F = Search | Ctrl-S = save | Ctrl-Q = quit"
    );
}

#[test]
fn resize_propagates_dimensions() {
    let mut e = editor();
    e.handle_resize_command(Size { width: 40, height: 10 });
    assert_eq!(e.terminal_size, Size { width: 40, height: 10 });
    assert_eq!(e.view.size, Size { width: 40, height: 8 });
    assert_eq!(e.message_bar.size, Size { width: 40, height: 1 });
    assert_eq!(e.status_bar.size, Size { width: 40, height: 1 });
    assert_eq!(e.command_bar.size, Size { width: 40, height: 1 });
}

#[test]
fn resize_of_tiny_terminal_clamps_view_height() {
    let mut e = editor();
    e.handle_resize_command(Size { width: 7, height: 1 });
    assert_eq!(e.view.size, Size { width: 7, height: 0 });
}

#[test]
fn resize_command_keeps_mode() {
    let mut e = editor();
    e.process_command(Command::System(System::Search));
    assert_eq!(e.prompt_type, PromptType::Search);
    let action = e.process_command(Command::System(System::Resize(Size {
        width: 30,
        height: 9,
    })));
    assert_eq!(action, Action::Nothing);
    assert_eq!(e.prompt_type, PromptType::Search);
    assert_eq!(e.terminal_size, Size { width: 30, height: 9 });
}

#[test]
fn search_start_reaches_search_mode() {
    let mut e = editor();
    assert!(!e.in_prompt());
    let action = e.process_command(Command::System(System::Search));
    assert_eq!(action, Action::EnterSearch);
    assert_eq!(e.prompt_type, PromptType::Search);
    assert!(e.in_prompt());
    assert_eq!(e.command_bar.prompt, "Search (Esc to cancel): ");
    assert_eq!(e.command_bar.value, "");
}

#[test]
fn search_keystrokes_update_live_query() {
    let mut e = editor();
    e.process_command(Command::System(System::Search));
    let a1 = e.process_command(Command::Edit(Edit::Insert('f')));
    assert_eq!(a1, Action::UpdateSearch(String::from("f")));
    let a2 = e.process_command(Command::Edit(Edit::Insert('o')));
    assert_eq!(a2, Action::UpdateSearch(String::from("fo")));
    let a3 = e.process_command(Command::Edit(Edit::DeleteBackward));
    assert_eq!(a3, Action::UpdateSearch(String::from("f")));
    assert_eq!(e.prompt_type, PromptType::Search);
}

#[test]
fn dismiss_from_search_returns_to_normal() {
    let mut e = editor();
    e.process_command(Command::System(System::Search));
    e.process_command(Command::Edit(Edit::Insert('q')));
    let action = e.process_command(Command::System(System::Dismiss));
    assert_eq!(action, Action::CancelSearch);
    assert_eq!(e.prompt_type, PromptType::Normal);
    assert_eq!(e.command_bar.value, "");
}

#[test]
fn confirm_search_accepts_match() {
    let mut e = editor();
    e.process_command(Command::System(System::Search));
    let action = e.process_command(Command::Edit(Edit::InsertNewline));
    assert_eq!(action, Action::FinishSearch);
    assert_eq!(e.prompt_type, PromptType::Normal);
}

#[test]
fn quit_is_ignored_in_prompts() {
    let mut e = editor();
    e.process_command(Command::System(System::Search));
    let action = e.process_command(Command::System(System::Quit));
    assert_eq!(action, Action::Nothing);
    assert_eq!(e.prompt_type, PromptType::Search);
    assert!(!e.should_quit);

    let mut f = editor();
    f.process_command(Command::System(System::Save));
    assert_eq!(f.prompt_type, PromptType::Save);
    let action = f.process_command(Command::System(System::Quit));
    assert_eq!(action, Action::Nothing);
    assert_eq!(f.prompt_type, PromptType::Save);
    assert!(!f.should_quit);
}

#[test]
fn moves_and_saves_are_ignored_in_prompts() {
    let mut e = editor();
    e.process_command(Command::System(System::Search));
    assert_eq!(e.process_command(Command::Move(Move::Up)), Action::Nothing);
    assert_eq!(e.process_command(Command::System(System::Save)), Action::Nothing);
    assert_eq!(e.process_command(Command::System(System::Search)), Action::Nothing);
    assert_eq!(e.prompt_type, PromptType::Search);
}

#[test]
fn quit_on_clean_document_quits_at_once() {
    let mut e = editor();
    let action = e.process_command(Command::System(System::Quit));
    assert_eq!(action, Action::Nothing);
    assert!(e.should_quit);
}

#[test]
fn quit_on_modified_document_needs_confirmation() {
    let mut e = editor();
    e.view.modified = true;
    e.process_command(Command::System(System::Quit));
    assert!(!e.should_quit);
    assert_eq!(e.quit_times, 1);
    assert_eq!(
        e.message_bar.message,
        "WARNING! File has unsaved changes. Press Ctrl-Q 2 more times to quit."
    );
    e.process_command(Command::System(System::Quit));
    assert!(!e.should_quit);
    assert_eq!(
        e.message_bar.message,
        "WARNING! File has unsaved changes. Press Ctrl-Q 1 more times to quit."
    );
    e.process_command(Command::System(System::Quit));
    assert!(e.should_quit);
    assert_eq!(e.quit_times, QUIT_TIMES);
}

#[test]
fn other_command_resets_quit_confirmation() {
    let mut e = editor();
    e.view.modified = true;
    e.process_command(Command::System(System::Quit));
    e.process_command(Command::System(System::Quit));
    assert_eq!(e.quit_times, 2);
    e.process_command(Command::Move(Move::Down));
    assert_eq!(e.quit_times, 0);
    assert_eq!(e.message_bar.message, "");
    e.process_command(Command::System(System::Quit));
    e.process_command(Command::System(System::Quit));
    assert!(!e.should_quit);
    e.process_command(Command::System(System::Quit));
    assert!(e.should_quit);
}

#[test]
fn edits_are_dispatched_and_mark_the_document() {
    let mut e = editor();
    assert!(!e.view.modified);
    let action = e.process_command(Command::Edit(Edit::Insert('x')));
    assert_eq!(action, Action::EditDocument(Edit::Insert('x')));
    assert!(e.view.modified);
    let action = e.process_command(Command::Move(Move::End));
    assert_eq!(action, Action::MoveCursor(Move::End));
}

#[test]
fn save_without_file_name_prompts_for_one() {
    let mut e = editor();
    let action = e.process_command(Command::System(System::Save));
    assert_eq!(action, Action::Nothing);
    assert_eq!(e.prompt_type, PromptType::Save);
    assert_eq!(e.command_bar.prompt, "Save as: ");
}

#[test]
fn save_with_known_file_name_writes_it() {
    let mut e = editor();
    e.view.file_name = Some(String::from("notes.txt"));
    let action = e.process_command(Command::System(System::Save));
    assert_eq!(action, Action::WriteDocument(String::from("notes.txt")));
    assert_eq!(e.prompt_type, PromptType::Normal);
}

#[test]
fn save_prompt_collects_name_and_writes_on_confirm() {
    let mut e = editor();
    e.process_command(Command::System(System::Save));
    e.process_command(Command::Edit(Edit::Insert('a')));
    e.process_command(Command::Edit(Edit::Insert('b')));
    assert_eq!(e.command_bar.value, "ab");
    let action = e.process_command(Command::Edit(Edit::InsertNewline));
    assert_eq!(action, Action::WriteDocument(String::from("ab")));
    assert_eq!(e.prompt_type, PromptType::Normal);
}

#[test]
fn dismissing_save_prompt_aborts() {
    let mut e = editor();
    e.process_command(Command::System(System::Save));
    e.process_command(Command::Edit(Edit::Insert('a')));
    let action = e.process_command(Command::System(System::Dismiss));
    assert_eq!(action, Action::Nothing);
    assert_eq!(e.prompt_type, PromptType::Normal);
    assert_eq!(e.command_bar.value, "");
    assert_eq!(e.message_bar.message, "Save aborted.");
}

#[test]
fn successful_save_records_name_and_cleans_document() {
    let mut e = editor();
    e.view.modified = true;
    e.save(Some("out.txt"), true);
    assert_eq!(e.view.file_name, Some(String::from("out.txt")));
    assert!(!e.view.modified);
    assert_eq!(e.message_bar.message, "File saved successfully.");
}

#[test]
fn failed_save_only_reports() {
    let mut e = editor();
    e.view.modified = true;
    e.save(Some("out.txt"), false);
    assert_eq!(e.view.file_name, None);
    assert!(e.view.modified);
    assert_eq!(e.message_bar.message, "Error writing file!");
}

#[test]
fn refresh_status_builds_title() {
    let mut e = editor();
    let title = e.refresh_status();
    assert_eq!(title, Some(String::from("[No Name] - editcore")));
    assert_eq!(e.title, "[No Name] - editcore");
    let again = e.refresh_status();
    assert_eq!(again, None);
    e.view.file_name = Some(String::from("a.txt"));
    let renamed = e.refresh_status();
    assert_eq!(renamed, Some(String::from("a.txt - editcore")));
}

#[test]
fn refresh_screen_on_zero_size_draws_nothing() {
    let mut e = editor();
    e.handle_resize_command(Size { width: 0, height: 10 });
    assert!(e.refresh_screen().is_none());
    e.handle_resize_command(Size { width: 10, height: 0 });
    assert!(e.refresh_screen().is_none());
}

#[test]
fn refresh_screen_places_bars_and_caret() {
    let mut e = editor();
    let plan = e.refresh_screen().unwrap();
    assert_eq!(plan.bottom_bar_row, 23);
    assert_eq!(plan.status_bar_row, Some(22));
    assert!(!plan.show_command_bar);
    assert!(plan.render_view);
    assert_eq!(plan.caret.x, 0);
    assert_eq!(plan.caret.y, 0);

    e.process_command(Command::System(System::Search));
    e.process_command(Command::Edit(Edit::Insert('q')));
    let plan = e.refresh_screen().unwrap();
    assert!(plan.show_command_bar);
    assert_eq!(plan.caret.y, 23);
    // caret after "Search (Esc to cancel): " plus one typed character
    assert_eq!(plan.caret.x, 25);
}

#[test]
fn resize_resets_quit_confirmation() {
    let mut e = editor();
    e.view.modified = true;
    e.process_command(Command::System(System::Quit));
    e.process_command(Command::System(System::Quit));
    assert_eq!(e.quit_times, 2);
    e.process_command(Command::System(System::Resize(Size { width: 50, height: 12 })));
    assert_eq!(e.quit_times, 0);
    e.process_command(Command::System(System::Quit));
    e.process_command(Command::System(System::Quit));
    assert!(!e.should_quit);
    e.process_command(Command::System(System::Quit));
    assert!(e.should_quit);
}

#[test]
fn document_boundary_moves_are_routed() {
    let mut e = editor();
    let a = e.process_command(Command::Move(Move::StartOfDocument));
    assert_eq!(a, Action::MoveCursor(Move::StartOfDocument));
    let b = e.process_command(Command::Move(Move::EndOfDocument));
    assert_eq!(b, Action::MoveCursor(Move::EndOfDocument));
}
