use todocrab::app::{App, Mode};
use todocrab::keys::{Action, Key, KeyKind};
use todocrab::task::{Task, TaskState};

fn app_of(titles: &[&str]) -> App {
    App::restore(Some(titles.iter().map(|t| Task::new(t)).collect()))
}

fn tasks_of(app: &App) -> Vec<(String, TaskState)> {
    app.tasks().items().iter().map(|t| (t.title.clone(), t.state)).collect()
}

fn todo(titles: &[&str]) -> Vec<(String, TaskState)> {
    titles.iter().map(|t| (t.to_string(), TaskState::Todo)).collect()
}

fn apply_all(app: &mut App, actions: &[Action]) {
    for a in actions {
        app.apply(*a);
    }
}

fn type_in(app: &mut App, text: &str) {
    for c in text.chars() {
        app.apply(Action::Insert(c));
    }
}

const EVERY_ACTION: [Action; 16] = [
    Action::Quit,
    Action::Next,
    Action::Previous,
    Action::IncreaseState,
    Action::DecreaseState,
    Action::MoveUp,
    Action::MoveDown,
    Action::Add,
    Action::Delete,
    Action::Edit,
    Action::Confirm,
    Action::Cancel,
    Action::Yes,
    Action::No,
    Action::Insert('x'),
    Action::Backspace,
];

#[test]
fn new_app_is_empty_and_browsing() {
    let app = App::new();
    assert!(!app.should_quit());
    assert!(app.tasks().is_empty());
    assert_eq!(app.tasks().selected(), None);
    assert!(matches!(app.mode(), Mode::Normal));
    assert_eq!(app.input(), "");
    assert_eq!(app.cursor_position(), 0);
    assert_eq!(app.task_to_delete(), None);
}

#[test]
fn restore_without_stored_tasks_is_a_new_app() {
    let app = App::restore(None);
    assert!(app.tasks().is_empty());
    assert_eq!(app.tasks().selected(), None);
    assert!(matches!(app.mode(), Mode::Normal));
    assert!(!app.should_quit());
}

#[test]
fn restore_selects_the_first_stored_task() {
    let mut second = Task::new("b");
    second.state = TaskState::Done;
    let app = App::restore(Some(vec![Task::new("a"), second]));
    assert_eq!(
        tasks_of(&app),
        vec![("a".to_string(), TaskState::Todo), ("b".to_string(), TaskState::Done)]
    );
    assert_eq!(app.tasks().selected(), Some(0));
    assert!(matches!(app.mode(), Mode::Normal));
    assert_eq!(app.input(), "");
}

#[test]
fn restore_of_no_tasks_selects_nothing() {
    let app = App::restore(Some(vec![]));
    assert!(app.tasks().is_empty());
    assert_eq!(app.tasks().selected(), None);
}

#[test]
fn stored_and_restored_tasks_are_the_same() {
    let mut app = app_of(&["a", "b", "c"]);
    apply_all(
        &mut app,
        &[Action::IncreaseState, Action::Next, Action::DecreaseState, Action::MoveDown],
    );
    app.apply(Action::Edit);
    type_in(&mut app, "!");
    let stored = app.saved_tasks();
    let expected = tasks_of(&app);
    let back = App::restore(Some(stored));
    assert_eq!(tasks_of(&back), expected);
    assert_eq!(
        expected,
        vec![
            ("a".to_string(), TaskState::InProgress),
            ("c".to_string(), TaskState::Todo),
            ("b".to_string(), TaskState::Done),
        ]
    );
    assert_eq!(back.tasks().selected(), Some(0));
    assert!(matches!(back.mode(), Mode::Normal));
    assert_eq!(back.input(), "");
    assert_eq!(back.cursor_position(), 0);
    assert!(!back.should_quit());
}

#[test]
fn stored_and_restored_empty_list_is_empty() {
    let app = App::new();
    let back = App::restore(Some(app.saved_tasks()));
    assert!(back.tasks().is_empty());
    assert_eq!(back.tasks().selected(), None);
}

#[test]
fn tick_changes_nothing() {
    let app = app_of(&["a"]);
    app.tick();
    assert_eq!(tasks_of(&app), todo(&["a"]));
    assert_eq!(app.tasks().selected(), Some(0));
    assert!(!app.should_quit());
}

#[test]
fn quit_sets_the_flag() {
    let mut app = app_of(&["a"]);
    app.apply(Action::Quit);
    assert!(app.should_quit());
    assert!(matches!(app.mode(), Mode::Normal));
    assert_eq!(tasks_of(&app), todo(&["a"]));
}

#[test]
fn quit_is_not_an_action_while_typing() {
    let mut app = app_of(&["a"]);
    app.apply(Action::Add);
    app.apply(Action::Quit);
    assert!(!app.should_quit());
    assert!(matches!(app.mode(), Mode::Editing));
}

#[test]
fn navigation_moves_the_cursor() {
    let mut app = app_of(&["a", "b", "c"]);
    app.apply(Action::Next);
    assert_eq!(app.tasks().selected(), Some(1));
    app.apply(Action::Previous);
    app.apply(Action::Previous);
    assert_eq!(app.tasks().selected(), Some(2));
    app.apply(Action::Next);
    assert_eq!(app.tasks().selected(), Some(0));
}

#[test]
fn state_keys_change_the_selected_task() {
    let mut app = app_of(&["a", "b"]);
    app.apply(Action::Next);
    app.apply(Action::IncreaseState);
    assert_eq!(
        tasks_of(&app),
        vec![("a".to_string(), TaskState::Todo), ("b".to_string(), TaskState::InProgress)]
    );
    app.apply(Action::DecreaseState);
    app.apply(Action::DecreaseState);
    assert_eq!(
        tasks_of(&app),
        vec![("a".to_string(), TaskState::Todo), ("b".to_string(), TaskState::Done)]
    );
}

#[test]
fn move_keys_carry_the_selected_task() {
    let mut app = app_of(&["a", "b", "c"]);
    app.apply(Action::MoveDown);
    assert_eq!(tasks_of(&app), todo(&["b", "a", "c"]));
    assert_eq!(app.tasks().selected(), Some(1));
    app.apply(Action::MoveDown);
    assert_eq!(tasks_of(&app), todo(&["b", "c", "a"]));
    assert_eq!(app.tasks().selected(), Some(2));
    app.apply(Action::MoveDown);
    assert_eq!(tasks_of(&app), todo(&["b", "c", "a"]));
    assert_eq!(app.tasks().selected(), Some(2));
    app.apply(Action::MoveUp);
    app.apply(Action::MoveUp);
    assert_eq!(tasks_of(&app), todo(&["a", "b", "c"]));
    assert_eq!(app.tasks().selected(), Some(0));
    app.apply(Action::MoveUp);
    assert_eq!(tasks_of(&app), todo(&["a", "b", "c"]));
    assert_eq!(app.tasks().selected(), Some(0));
}

#[test]
fn actions_on_an_empty_list_do_nothing() {
    let mut app = App::new();
    apply_all(
        &mut app,
        &[
            Action::Next,
            Action::Previous,
            Action::IncreaseState,
            Action::DecreaseState,
            Action::MoveUp,
            Action::MoveDown,
            Action::Delete,
            Action::Edit,
        ],
    );
    assert!(app.tasks().is_empty());
    assert_eq!(app.tasks().selected(), None);
    assert!(matches!(app.mode(), Mode::Normal));
}

#[test]
fn add_opens_an_empty_buffer() {
    let mut app = app_of(&["a"]);
    app.apply(Action::Add);
    assert!(matches!(app.mode(), Mode::Editing));
    assert_eq!(app.input(), "");
    assert_eq!(app.cursor_position(), 0);
    assert!(app.is_typing());
}

#[test]
fn typing_inserts_at_the_cursor() {
    let mut app = App::new();
    app.apply(Action::Add);
    type_in(&mut app, "abc");
    assert_eq!(app.input(), "abc");
    assert_eq!(app.cursor_position(), 3);
}

#[test]
fn backspace_removes_the_character_before_the_cursor() {
    let mut app = App::new();
    app.apply(Action::Add);
    type_in(&mut app, "abc");
    app.apply(Action::Backspace);
    assert_eq!(app.input(), "ab");
    assert_eq!(app.cursor_position(), 2);
    app.apply(Action::Backspace);
    app.apply(Action::Backspace);
    assert_eq!(app.input(), "");
    assert_eq!(app.cursor_position(), 0);
}

#[test]
fn backspace_in_an_empty_buffer_does_nothing() {
    let mut app = App::new();
    app.apply(Action::Add);
    app.apply(Action::Backspace);
    assert_eq!(app.input(), "");
    assert_eq!(app.cursor_position(), 0);
    assert!(matches!(app.mode(), Mode::Editing));
}

#[test]
fn typing_counts_characters_not_bytes() {
    let mut app = App::new();
    app.apply(Action::Add);
    type_in(&mut app, "né");
    assert_eq!(app.cursor_position(), 2);
    type_in(&mut app, "e");
    assert_eq!(app.input(), "née");
    assert_eq!(app.cursor_position(), 3);
    app.apply(Action::Backspace);
    app.apply(Action::Backspace);
    assert_eq!(app.input(), "n");
    assert_eq!(app.cursor_position(), 1);
}

#[test]
fn confirm_adds_the_typed_task_and_resumes_browsing() {
    let mut app = app_of(&["buy milk"]);
    app.apply(Action::Add);
    type_in(&mut app, "call bob");
    app.apply(Action::Confirm);
    assert_eq!(tasks_of(&app), todo(&["buy milk", "call bob"]));
    assert_eq!(app.tasks().selected(), Some(0));
    assert!(matches!(app.mode(), Mode::Normal));
    assert_eq!(app.input(), "");
    assert_eq!(app.cursor_position(), 0);
}

#[test]
fn confirm_of_an_empty_title_adds_nothing() {
    let mut app = app_of(&["a"]);
    app.apply(Action::Add);
    app.apply(Action::Confirm);
    assert_eq!(tasks_of(&app), todo(&["a"]));
    assert!(matches!(app.mode(), Mode::Normal));
}

#[test]
fn adding_to_an_empty_list_leaves_nothing_selected() {
    let mut app = App::new();
    app.apply(Action::Add);
    type_in(&mut app, "first");
    app.apply(Action::Confirm);
    assert_eq!(tasks_of(&app), todo(&["first"]));
    assert_eq!(app.tasks().selected(), None);
    app.apply(Action::Next);
    assert_eq!(app.tasks().selected(), Some(0));
}

#[test]
fn cancel_drops_the_typed_title() {
    let mut app = app_of(&["a"]);
    app.apply(Action::Add);
    type_in(&mut app, "zzz");
    app.apply(Action::Cancel);
    assert_eq!(tasks_of(&app), todo(&["a"]));
    assert!(matches!(app.mode(), Mode::Normal));
    assert_eq!(app.input(), "");
    assert_eq!(app.cursor_position(), 0);
    app.apply(Action::Add);
    assert_eq!(app.input(), "");
}

#[test]
fn delete_asks_for_the_selected_task() {
    let mut app = app_of(&["a", "b"]);
    app.apply(Action::Next);
    app.apply(Action::Delete);
    assert!(matches!(app.mode(), Mode::ConfirmDelete { task_to_delete: 1 }));
    assert_eq!(app.task_to_delete(), Some(1));
    assert_eq!(tasks_of(&app), todo(&["a", "b"]));
}

#[test]
fn delete_without_a_selection_does_nothing() {
    let mut app = App::new();
    app.apply(Action::Add);
    type_in(&mut app, "a");
    app.apply(Action::Confirm);
    assert_eq!(app.tasks().selected(), None);
    app.apply(Action::Delete);
    assert!(matches!(app.mode(), Mode::Normal));
    assert_eq!(app.task_to_delete(), None);
    assert_eq!(tasks_of(&app), todo(&["a"]));
}

#[test]
fn yes_deletes_the_last_task_and_selects_the_new_last() {
    let mut app = app_of(&["a", "b", "c"]);
    app.apply(Action::Previous);
    app.apply(Action::Delete);
    app.apply(Action::Yes);
    assert_eq!(tasks_of(&app), todo(&["a", "b"]));
    assert_eq!(app.tasks().selected(), Some(1));
    assert!(matches!(app.mode(), Mode::Normal));
    assert_eq!(app.task_to_delete(), None);
}

#[test]
fn yes_deletes_an_inner_task_and_keeps_the_cursor_number() {
    let mut app = app_of(&["a", "b", "c"]);
    app.apply(Action::Next);
    app.apply(Action::Delete);
    app.apply(Action::Yes);
    assert_eq!(tasks_of(&app), todo(&["a", "c"]));
    assert_eq!(app.tasks().selected(), Some(1));
}

#[test]
fn deleting_down_to_nothing_selects_nothing() {
    let mut app = app_of(&["a", "b"]);
    apply_all(&mut app, &[Action::Delete, Action::Yes]);
    assert_eq!(tasks_of(&app), todo(&["b"]));
    assert_eq!(app.tasks().selected(), Some(0));
    apply_all(&mut app, &[Action::Delete, Action::Yes]);
    assert!(app.tasks().is_empty());
    assert_eq!(app.tasks().selected(), None);
    apply_all(&mut app, &[Action::Delete, Action::Yes]);
    assert!(app.tasks().is_empty());
    assert!(matches!(app.mode(), Mode::Normal));
}

#[test]
fn no_and_cancel_keep_the_task() {
    let mut app = app_of(&["a", "b"]);
    app.apply(Action::Delete);
    app.apply(Action::No);
    assert_eq!(tasks_of(&app), todo(&["a", "b"]));
    assert!(matches!(app.mode(), Mode::Normal));
    assert_eq!(app.task_to_delete(), None);
    app.apply(Action::Delete);
    app.apply(Action::Cancel);
    assert_eq!(tasks_of(&app), todo(&["a", "b"]));
    assert!(matches!(app.mode(), Mode::Normal));
    assert_eq!(app.tasks().selected(), Some(0));
}

#[test]
fn edit_loads_the_title_into_the_buffer() {
    let mut app = app_of(&["a", "buy milk"]);
    app.apply(Action::Next);
    app.apply(Action::Edit);
    match app.mode() {
        Mode::EditingTask { editing_index, original_title } => {
            assert_eq!(*editing_index, 1);
            assert_eq!(original_title, "buy milk");
        }
        other => panic!("unexpected mode {:?}", other),
    }
    assert_eq!(app.input(), "buy milk");
    assert_eq!(app.cursor_position(), 8);
    assert!(app.is_typing());
}

#[test]
fn edit_puts_the_cursor_after_the_last_character() {
    let mut app = app_of(&["née"]);
    app.apply(Action::Edit);
    assert_eq!(app.input(), "née");
    assert_eq!(app.cursor_position(), 3);
    app.apply(Action::Backspace);
    assert_eq!(app.input(), "né");
    type_in(&mut app, "!");
    app.apply(Action::Confirm);
    assert_eq!(tasks_of(&app), todo(&["né!"]));
}

#[test]
fn edit_without_a_selection_does_nothing() {
    let mut app = App::new();
    app.apply(Action::Edit);
    assert!(matches!(app.mode(), Mode::Normal));
    assert_eq!(app.input(), "");
}

#[test]
fn cancelling_an_edit_keeps_the_title() {
    let mut app = app_of(&["X", "other"]);
    app.apply(Action::IncreaseState);
    app.apply(Action::Edit);
    app.apply(Action::Backspace);
    type_in(&mut app, "changed");
    assert_eq!(app.input(), "changed");
    app.apply(Action::Cancel);
    assert_eq!(
        tasks_of(&app),
        vec![("X".to_string(), TaskState::InProgress), ("other".to_string(), TaskState::Todo)]
    );
    assert!(matches!(app.mode(), Mode::Normal));
    assert_eq!(app.input(), "");
    assert_eq!(app.cursor_position(), 0);
    assert_eq!(app.tasks().selected(), Some(0));
}

#[test]
fn confirming_an_edit_sets_the_title_to_the_buffer() {
    let mut app = app_of(&["X", "other"]);
    app.apply(Action::IncreaseState);
    app.apply(Action::Edit);
    type_in(&mut app, "YZ");
    app.apply(Action::Backspace);
    app.apply(Action::Confirm);
    assert_eq!(
        tasks_of(&app),
        vec![("XY".to_string(), TaskState::InProgress), ("other".to_string(), TaskState::Todo)]
    );
    assert!(matches!(app.mode(), Mode::Normal));
    assert_eq!(app.input(), "");
    assert_eq!(app.tasks().selected(), Some(0));
}

#[test]
fn confirming_an_edit_may_empty_the_title() {
    let mut app = app_of(&["X"]);
    app.apply(Action::Edit);
    app.apply(Action::Backspace);
    app.apply(Action::Confirm);
    assert_eq!(tasks_of(&app), todo(&[""]));
}

#[test]
fn unmatched_actions_change_nothing_while_typing() {
    for start in [Action::Add, Action::Edit] {
        for a in EVERY_ACTION {
            if matches!(a, Action::Confirm | Action::Cancel | Action::Insert(_) | Action::Backspace) {
                continue;
            }
            let mut app = app_of(&["a", "b"]);
            app.apply(start);
            type_in(&mut app, "q");
            let input = app.input().to_string();
            app.apply(a);
            assert!(app.is_typing());
            assert_eq!(app.input(), input);
            assert_eq!(tasks_of(&app), todo(&["a", "b"]));
            assert_eq!(app.tasks().selected(), Some(0));
            assert!(!app.should_quit());
        }
    }
}

#[test]
fn unmatched_actions_change_nothing_while_confirming() {
    for a in EVERY_ACTION {
        if matches!(a, Action::Yes | Action::No | Action::Cancel) {
            continue;
        }
        let mut app = app_of(&["a", "b"]);
        app.apply(Action::Delete);
        app.apply(a);
        assert!(matches!(app.mode(), Mode::ConfirmDelete { task_to_delete: 0 }));
        assert_eq!(tasks_of(&app), todo(&["a", "b"]));
        assert_eq!(app.tasks().selected(), Some(0));
        assert_eq!(app.input(), "");
        assert!(!app.should_quit());
    }
}

#[test]
fn unmatched_actions_change_nothing_while_browsing() {
    for a in [
        Action::Confirm,
        Action::Cancel,
        Action::Yes,
        Action::No,
        Action::Insert('x'),
        Action::Backspace,
    ] {
        let mut app = app_of(&["a", "b"]);
        app.apply(a);
        assert!(matches!(app.mode(), Mode::Normal));
        assert_eq!(tasks_of(&app), todo(&["a", "b"]));
        assert_eq!(app.tasks().selected(), Some(0));
        assert_eq!(app.input(), "");
        assert!(!app.should_quit());
    }
}

#[test]
fn methods_do_nothing_in_a_mode_they_do_not_belong_to() {
    let mut app = app_of(&["a", "b"]);
    app.submit_input();
    app.exit_editing_mode();
    app.delete_task();
    app.cancel_delete();
    app.submit_edited_task();
    app.cancel_editing_task();
    app.insert_char('x');
    app.backspace();
    assert!(matches!(app.mode(), Mode::Normal));
    assert_eq!(tasks_of(&app), todo(&["a", "b"]));
    assert_eq!(app.input(), "");

    app.enter_editing_mode();
    app.insert_char('x');
    app.enter_confirm_delete_mode();
    app.enter_editing_task_mode();
    app.delete_task();
    app.cancel_delete();
    app.submit_edited_task();
    app.cancel_editing_task();
    app.enter_editing_mode();
    assert!(matches!(app.mode(), Mode::Editing));
    assert_eq!(app.input(), "x");
    assert_eq!(tasks_of(&app), todo(&["a", "b"]));
}

#[test]
fn methods_carry_out_their_transition() {
    let mut app = app_of(&["a"]);
    app.enter_editing_mode();
    app.insert_char('b');
    app.insert_char('c');
    app.backspace();
    assert_eq!(app.input(), "b");
    app.submit_input();
    assert_eq!(tasks_of(&app), todo(&["a", "b"]));
    assert!(matches!(app.mode(), Mode::Normal));

    app.enter_editing_mode();
    app.insert_char('z');
    app.exit_editing_mode();
    assert!(matches!(app.mode(), Mode::Normal));
    assert_eq!(app.input(), "");

    app.enter_editing_task_mode();
    app.insert_char('!');
    app.submit_edited_task();
    assert_eq!(tasks_of(&app), todo(&["a!", "b"]));

    app.enter_editing_task_mode();
    app.insert_char('?');
    app.cancel_editing_task();
    assert_eq!(tasks_of(&app), todo(&["a!", "b"]));

    app.enter_confirm_delete_mode();
    app.cancel_delete();
    assert_eq!(tasks_of(&app), todo(&["a!", "b"]));
    app.enter_confirm_delete_mode();
    app.delete_task();
    assert_eq!(tasks_of(&app), todo(&["b"]));
    assert!(matches!(app.mode(), Mode::Normal));

    app.quit();
    assert!(app.should_quit());
}

#[test]
fn clear_input_empties_the_buffer_and_keeps_the_mode() {
    let mut app = app_of(&["a"]);
    app.enter_editing_task_mode();
    app.clear_input();
    assert_eq!(app.input(), "");
    assert_eq!(app.cursor_position(), 0);
    assert!(matches!(app.mode(), Mode::EditingTask { editing_index: 0, .. }));
    app.cancel_editing_task();
    assert_eq!(tasks_of(&app), todo(&["a"]));
}

#[test]
fn only_a_press_is_handled() {
    let mut app = app_of(&["a", "b"]);
    app.handle_event(KeyKind::Release, Key::Char('j'));
    app.handle_event(KeyKind::Repeat, Key::Char('j'));
    assert_eq!(app.tasks().selected(), Some(0));
    app.handle_event(KeyKind::Press, Key::Char('j'));
    assert_eq!(app.tasks().selected(), Some(1));
    app.handle_event(KeyKind::Release, Key::Char('q'));
    assert!(!app.should_quit());
    app.handle_event(KeyKind::Press, Key::Char('q'));
    assert!(app.should_quit());
}

#[test]
fn default_mode_is_normal() {
    assert!(matches!(Mode::default(), Mode::Normal));
}
