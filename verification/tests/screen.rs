use todocrab::app::Mode;
use todocrab::list::StatefulList;
use todocrab::screen::{input_title, labels, layout, legend};
use todocrab::task::Task;

fn editing_task() -> Mode {
    Mode::EditingTask { editing_index: 0, original_title: "a".to_string() }
}

#[test]
fn labels_show_glyph_and_title_of_each_task() {
    let mut list = StatefulList::new(vec![Task::new("a"), Task::new("b"), Task::new("c")]);
    list.advance_state(1);
    list.regress_state(2);
    assert_eq!(labels(&list), vec!["[ ] a", "[>] b", "[x] c"]);
}

#[test]
fn labels_of_an_empty_list_are_empty() {
    let list: StatefulList<Task> = StatefulList::new(vec![]);
    assert!(labels(&list).is_empty());
}

#[test]
fn layout_has_a_typing_area_only_while_typing() {
    assert_eq!(layout(&Mode::Normal), vec![95, 5]);
    assert_eq!(layout(&Mode::ConfirmDelete { task_to_delete: 0 }), vec![95, 5]);
    assert_eq!(layout(&Mode::Editing), vec![85, 10, 5]);
    assert_eq!(layout(&editing_task()), vec![85, 10, 5]);
}

#[test]
fn input_title_names_what_is_typed() {
    assert_eq!(input_title(&Mode::Normal), None);
    assert_eq!(input_title(&Mode::ConfirmDelete { task_to_delete: 0 }), None);
    assert_eq!(input_title(&Mode::Editing), Some("New Task"));
    assert_eq!(input_title(&editing_task()), Some("Edit Task"));
}

#[test]
fn legend_names_the_keys_of_the_mode() {
    assert_eq!(
        legend(&Mode::Normal),
        "j/k: move, h/l: change state, J/K: move task, a: add, d: delete, e: edit, q: quit"
    );
    assert_eq!(legend(&Mode::Editing), "Enter: save, Esc: cancel");
    assert_eq!(legend(&Mode::ConfirmDelete { task_to_delete: 0 }), "y: confirm, n/Esc: cancel");
    assert_eq!(legend(&editing_task()), "Enter: save, Esc: cancel");
}
