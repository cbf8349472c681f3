use todo_gui::time::Timestamp;
use todo_gui::todo::{Filter, Message, Snapshot, Todo, TodoState};

fn text(s: &str) -> String {
    String::from(s)
}

fn todo(id: usize, title: &str) -> Todo {
    Todo {
        id,
        title: text(title),
        description: String::new(),
        completed: false,
        created_at: Timestamp { secs: id as i64, nanos: 0 },
    }
}

fn parts(todos: Vec<(usize, Todo)>, next_id: usize) -> Snapshot {
    Snapshot { todos, next_id, filter: Filter::All, search_query: String::new(), editing: None }
}

fn parts_of(state: &TodoState) -> Option<TodoState> {
    TodoState::restore(state.save())
}

fn describe(state: &TodoState) -> String {
    let mut all: Vec<Todo> = state.all_todos().into_iter().cloned().collect();
    all.sort_by_key(|todo| todo.id);
    format!(
        "{:?} {} {:?} {:?} {:?}",
        all,
        state.next_id(),
        state.filter(),
        state.search_query(),
        state.editing()
    )
}

#[test]
fn a_state_taken_apart_and_rebuilt_is_the_same() {
    let mut state = TodoState::default();
    state.add_todo(text("a"), Timestamp { secs: 5, nanos: 1 });
    state.add_todo(text("b"), Timestamp { secs: 5, nanos: 2 });
    state.add_todo(text("c"), Timestamp { secs: 9, nanos: 0 });
    state.update(Message::DeleteTodo(2));
    state.update(Message::ToggleTodo(3));
    state.update(Message::DescriptionChanged(1, text("details")));
    state.update(Message::FilterChanged(Filter::Active));
    state.update(Message::SearchQueryChanged(text("A")));
    state.update(Message::EditingTodo(3, text("c, edited")));
    let rebuilt = match parts_of(&state) {
        Some(rebuilt) => rebuilt,
        None => panic!("the parts of a state are valid"),
    };
    assert_eq!(describe(&rebuilt), describe(&state));
    let shown: Vec<usize> = rebuilt.filtered_todos().iter().map(|todo| todo.id).collect();
    assert_eq!(shown, vec![1]);
}

#[test]
fn an_empty_state_with_an_open_draft_survives_rebuilding() {
    let mut state = TodoState::default();
    state.update(Message::AddTodo);
    let rebuilt = match parts_of(&state) {
        Some(rebuilt) => rebuilt,
        None => panic!("the parts of a state are valid"),
    };
    assert_eq!(describe(&rebuilt), describe(&state));
    assert_eq!(rebuilt.editing(), Some((0, &String::new())));
    assert!(rebuilt.all_todos().is_empty());
}

#[test]
fn the_default_state_survives_rebuilding() {
    let state = TodoState::default();
    let rebuilt = match parts_of(&state) {
        Some(rebuilt) => rebuilt,
        None => panic!("the parts of a state are valid"),
    };
    assert_eq!(describe(&rebuilt), describe(&state));
}

#[test]
fn a_clone_is_the_same_state() {
    let mut state = TodoState::default();
    state.add_todo(text("a"), Timestamp { secs: 5, nanos: 1 });
    state.update(Message::EditingTodo(1, text("x")));
    let copy = state.clone();
    assert_eq!(describe(&copy), describe(&state));
    state.update(Message::DeleteTodo(1));
    assert_eq!(copy.all_todos().len(), 1);
}

#[test]
fn parts_with_a_misfiled_task_are_refused() {
    let entries = vec![(1, todo(1, "a")), (3, todo(2, "b"))];
    assert!(TodoState::restore(parts(entries, 4)).is_none());
}

#[test]
fn parts_with_a_repeated_id_are_refused() {
    let entries = vec![(1, todo(1, "a")), (2, todo(2, "b")), (1, todo(1, "c"))];
    assert!(TodoState::restore(parts(entries, 4)).is_none());
}

#[test]
fn parts_with_an_id_at_or_above_next_id_are_refused() {
    let entries = vec![(1, todo(1, "a")), (2, todo(2, "b"))];
    assert!(TodoState::restore(parts(entries, 2)).is_none());
    let entries = vec![(1, todo(1, "a")), (5, todo(5, "b"))];
    assert!(TodoState::restore(parts(entries, 3)).is_none());
    let entries = vec![(1, todo(1, "a")), (2, todo(2, "b"))];
    assert!(TodoState::restore(parts(entries, 3)).is_some());
}

#[test]
fn parts_with_the_id_zero_are_refused() {
    let entries = vec![(0, todo(0, "a"))];
    assert!(TodoState::restore(parts(entries, 4)).is_none());
}

#[test]
fn parts_with_next_id_zero_are_refused() {
    assert!(TodoState::restore(parts(Vec::new(), 0)).is_none());
    assert!(TodoState::restore(parts(Vec::new(), 1)).is_some());
}

#[test]
fn valid_parts_make_the_state_they_describe() {
    let entries = vec![(4, todo(4, "d")), (2, todo(2, "b"))];
    let state = TodoState::restore(Snapshot {
        todos: entries,
        next_id: 9,
        filter: Filter::Completed,
        search_query: text("q"),
        editing: Some((2, text("draft"))),
    });
    let mut state = match state {
        Some(state) => state,
        None => panic!("valid parts"),
    };
    assert_eq!(state.next_id(), 9);
    assert_eq!(*state.filter(), Filter::Completed);
    assert_eq!(state.search_query(), "q");
    assert_eq!(state.editing(), Some((2, &text("draft"))));
    let mut all: Vec<usize> = state.all_todos().iter().map(|todo| todo.id).collect();
    all.sort();
    assert_eq!(all, vec![2, 4]);
    state.add_todo(text("next"), Timestamp { secs: 0, nanos: 0 });
    assert_eq!(state.next_id(), 10);
    let mut all: Vec<usize> = state.all_todos().iter().map(|todo| todo.id).collect();
    all.sort();
    assert_eq!(all, vec![2, 4, 9]);
}

#[test]
fn save_takes_the_state_apart() {
    let mut state = TodoState::default();
    state.add_todo(text("a"), Timestamp { secs: 5, nanos: 1 });
    state.add_todo(text("b"), Timestamp { secs: 6, nanos: 2 });
    state.update(Message::ToggleTodo(2));
    state.update(Message::FilterChanged(Filter::Completed));
    state.update(Message::SearchQueryChanged(text("B")));
    state.update(Message::EditingTodo(1, text("a!")));
    let mut saved = state.save();
    saved.todos.sort_by_key(|entry| entry.0);
    assert_eq!(saved.todos.len(), 2);
    assert_eq!(saved.todos[0].0, 1);
    assert_eq!(saved.todos[0].1.id, 1);
    assert_eq!(saved.todos[0].1.title, "a");
    assert!(!saved.todos[0].1.completed);
    assert_eq!(saved.todos[0].1.created_at, Timestamp { secs: 5, nanos: 1 });
    assert_eq!(saved.todos[1].0, 2);
    assert_eq!(saved.todos[1].1.title, "b");
    assert!(saved.todos[1].1.completed);
    assert_eq!(saved.next_id, 3);
    assert_eq!(saved.filter, Filter::Completed);
    assert_eq!(saved.search_query, "B");
    assert_eq!(saved.editing, Some((1, text("a!"))));
}

#[test]
fn load_of_a_saved_state_gives_it_back() {
    let mut state = TodoState::default();
    state.add_todo(text("a"), Timestamp { secs: 5, nanos: 1 });
    state.add_todo(text("b"), Timestamp { secs: 6, nanos: 2 });
    state.update(Message::DeleteTodo(1));
    state.update(Message::AddTodo);
    state.update(Message::InputChanged(text("half typed")));
    match TodoState::load(Some(Ok(state.save()))) {
        Ok(loaded) => assert_eq!(describe(&loaded), describe(&state)),
        Err(error) => panic!("{}", error),
    }
    let empty = TodoState::default();
    match TodoState::load(Some(Ok(empty.save()))) {
        Ok(loaded) => assert_eq!(describe(&loaded), describe(&empty)),
        Err(error) => panic!("{}", error),
    }
}

#[test]
fn load_without_a_store_gives_the_default_state() {
    match TodoState::load(None) {
        Ok(loaded) => assert_eq!(describe(&loaded), describe(&TodoState::default())),
        Err(error) => panic!("{}", error),
    }
}

#[test]
fn load_hands_on_the_error_of_the_store() {
    match TodoState::load(Some(Err(text("Failed to read todo file: denied")))) {
        Ok(_) => panic!("an unreadable store gives no state"),
        Err(error) => assert_eq!(error, "Failed to read todo file: denied"),
    }
}

#[test]
fn load_refuses_parts_that_do_not_fit() {
    let entries = vec![(1, todo(1, "a")), (1, todo(1, "b"))];
    match TodoState::load(Some(Ok(parts(entries, 5)))) {
        Ok(_) => panic!("two tasks under one id give no state"),
        Err(error) => {
            assert_eq!(error, "Failed to parse todos: the tasks do not fit together")
        },
    }
}
