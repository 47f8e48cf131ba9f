use todo_calendar::{
    init, seeded_model, update, view, view_todo_list, view_todo_modal, EntryId, EntryStatus, Model, Msg,
    Timestamp, TodoEntry,
};

fn entry(id: u128, name: &str, details: &str, children: Vec<EntryId>) -> TodoEntry {
    TodoEntry {
        id: EntryId { value: id },
        name: name.to_owned(),
        details: details.to_owned(),
        date: Timestamp { millis: 1_700_000_000_000, offset_seconds: 3600 },
        status: EntryStatus::InProgress,
        children,
        category: "work".to_owned(),
    }
}

fn sample_model(modal_active: bool) -> Model {
    Model {
        todos: vec![
            entry(7, "first", "one", vec![]),
            entry(9, "second", "two", vec![EntryId { value: 7 }]),
        ],
        modal_active,
    }
}

fn assert_same_entries(a: &[TodoEntry], b: &[TodoEntry]) {
    assert_eq!(a.len(), b.len());
    for (x, y) in a.iter().zip(b.iter()) {
        assert_eq!(x.id, y.id);
        assert_eq!(x.name, y.name);
        assert_eq!(x.details, y.details);
        assert_eq!(x.date, y.date);
        assert_eq!(x.status, y.status);
        assert_eq!(x.children, y.children);
        assert_eq!(x.category, y.category);
    }
}

#[test]
fn startup_state_has_two_todo_entries() {
    let m = init();
    assert!(m.modal_active);
    assert_eq!(m.todos.len(), 2);
    assert_ne!(m.todos[0].id, m.todos[1].id);
    for e in &m.todos {
        assert_eq!(e.status, EntryStatus::Todo);
        assert_eq!(e.category, "todo");
        assert!(e.children.is_empty());
        assert!(e.date.offset_seconds > -86_400 && e.date.offset_seconds < 86_400);
        assert!(e.date.millis > 0);
    }
    assert_eq!(m.todos[0].name, "make todo list");
    assert_eq!(m.todos[0].details, "details1");
    assert_eq!(m.todos[1].name, "make calendar");
    assert_eq!(m.todos[1].details, "details2");
}

#[test]
fn startup_ids_carry_the_creation_time() {
    let m = init();
    // The upper 48 bits of a ULID are its millisecond timestamp.
    let id_ms = (m.todos[0].id.value >> 80) as i64;
    let diff = (id_ms - m.todos[0].date.millis).abs();
    assert!(diff < 60_000);
}

#[test]
fn seeded_model_uses_given_ids_and_dates() {
    let d1 = Timestamp { millis: 10, offset_seconds: -3600 };
    let d2 = Timestamp { millis: 20, offset_seconds: 0 };
    let m = seeded_model(EntryId { value: 1 }, EntryId { value: 2 }, d1, d2);
    assert!(m.modal_active);
    assert_eq!(m.todos[0].id, EntryId { value: 1 });
    assert_eq!(m.todos[1].id, EntryId { value: 2 });
    assert_eq!(m.todos[0].date, d1);
    assert_eq!(m.todos[1].date, d2);
}

#[test]
fn toggle_twice_equals_toggle_once() {
    for b in [true, false] {
        for start in [true, false] {
            let mut m = sample_model(start);
            update(Msg::ToggleModal(b), &mut m);
            assert_eq!(m.modal_active, b);
            update(Msg::ToggleModal(b), &mut m);
            assert_eq!(m.modal_active, b);
        }
    }
}

#[test]
fn toggle_keeps_entries() {
    let mut m = sample_model(true);
    update(Msg::ToggleModal(false), &mut m);
    assert!(!m.modal_active);
    assert_same_entries(&m.todos, &sample_model(true).todos);
}

#[test]
fn create_todo_changes_nothing() {
    for start in [true, false] {
        let mut m = sample_model(start);
        update(Msg::CreateTodo, &mut m);
        assert_eq!(m.modal_active, start);
        assert_same_entries(&m.todos, &sample_model(start).todos);
    }
}

#[test]
fn empty_state_projection() {
    let m = Model { todos: vec![], modal_active: false };
    let p = view(&m);
    assert_eq!(p.list.len(), 0);
    assert!(!p.modal.visible);
    assert_eq!(p.modal.cancel_label, "Cancel");
    assert_eq!(p.modal.save_label, "Save");
}

#[test]
fn single_entry_projection() {
    let m = Model { todos: vec![entry(1, "X", "Y", vec![])], modal_active: true };
    let p = view(&m);
    assert_eq!(p.heading, "Home page");
    assert_eq!(p.list.len(), 1);
    assert_eq!(p.list[0].title, "X");
    assert_eq!(p.list[0].body, "Y");
    assert!(p.modal.visible);
}

#[test]
fn dangling_child_renders_as_childless() {
    let with_dangling = vec![entry(1, "X", "Y", vec![EntryId { value: 42 }])];
    let childless = vec![entry(1, "X", "Y", vec![])];
    let a = view_todo_list(&with_dangling);
    let b = view_todo_list(&childless);
    assert_eq!(a.len(), b.len());
    assert_eq!(a[0].title, b[0].title);
    assert_eq!(a[0].body, b[0].body);
}

#[test]
fn list_keeps_entry_order() {
    let p = view(&sample_model(false));
    assert_eq!(p.list.len(), 2);
    assert_eq!(p.list[0].title, "first");
    assert_eq!(p.list[0].body, "one");
    assert_eq!(p.list[1].title, "second");
    assert_eq!(p.list[1].body, "two");
}

#[test]
fn modal_cancel_hides_overlay() {
    let modal = view_todo_modal(true);
    assert!(modal.visible);
    assert_eq!(modal.title_placeholder, "Title");
    assert_eq!(modal.description_placeholder, "Description");
    assert_eq!(modal.close_label, "close");
    assert_eq!(modal.on_cancel, Msg::ToggleModal(false));
    let mut m = sample_model(true);
    update(modal.on_cancel, &mut m);
    assert!(!m.modal_active);
    assert!(!view_todo_modal(false).visible);
}
