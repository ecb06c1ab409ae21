use todocrab::app::{App, Mode};
use todocrab::keys::Key;
use todocrab::task::{Task, TaskState};

fn snapshot(app: &App) -> Vec<(String, TaskState)> {
    app.tasks().items().iter().map(|t| (t.title.clone(), t.state)).collect()
}

fn type_text(app: &mut App, text: &str) {
    for c in text.chars() {
        app.handle_key(Key::Char(c));
    }
}

#[test]
fn add_appends_a_task_and_keeps_the_selection() {
    let mut app = App::restore(Some(vec![Task::new("buy milk")]));
    app.handle_key(Key::Char('a'));
    assert!(matches!(app.mode(), Mode::Editing));
    type_text(&mut app, "call bob");
    assert_eq!(app.input(), "call bob");
    assert_eq!(app.cursor_position(), 8);
    app.handle_key(Key::Enter);
    assert_eq!(
        snapshot(&app),
        vec![
            ("buy milk".to_string(), TaskState::Todo),
            ("call bob".to_string(), TaskState::Todo),
        ]
    );
    assert_eq!(app.tasks().selected(), Some(0));
    assert!(matches!(app.mode(), Mode::Normal));
    assert_eq!(app.input(), "");
    assert_eq!(app.cursor_position(), 0);
}

#[test]
fn deleting_the_only_task_empties_the_list() {
    let mut app = App::restore(Some(vec![Task::new("buy milk")]));
    app.handle_key(Key::Char('d'));
    assert!(matches!(app.mode(), Mode::ConfirmDelete { task_to_delete: 0 }));
    assert_eq!(app.task_to_delete(), Some(0));
    app.handle_key(Key::Char('y'));
    assert!(app.tasks().is_empty());
    assert_eq!(app.tasks().selected(), None);
    assert!(matches!(app.mode(), Mode::Normal));
    assert_eq!(app.task_to_delete(), None);
}
