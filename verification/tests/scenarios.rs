use todo_gui::time::Timestamp;
use todo_gui::todo::{Filter, Message, Snapshot, Todo, TodoState};

fn at(secs: i64) -> Timestamp {
    Timestamp { secs, nanos: 0 }
}

fn text(s: &str) -> String {
    String::from(s)
}

/// A state with the tasks titled as given, created one second apart, the first
/// at second 100.
fn state_with(titles: &[&str]) -> TodoState {
    let mut state = TodoState::default();
    let mut secs: i64 = 100;
    for title in titles {
        state.add_todo(text(title), at(secs));
        secs += 1;
    }
    state
}

fn titles(todos: &[&Todo]) -> Vec<String> {
    todos.iter().map(|todo| todo.title.clone()).collect()
}

fn ids(todos: &[&Todo]) -> Vec<usize> {
    todos.iter().map(|todo| todo.id).collect()
}

fn sorted_ids(state: &TodoState) -> Vec<usize> {
    let mut all = ids(&state.all_todos());
    all.sort();
    all
}

fn task(state: &TodoState, id: usize) -> Todo {
    let all = state.all_todos();
    let found = all.iter().find(|todo| todo.id == id);
    match found {
        Some(todo) => (*todo).clone(),
        None => panic!("no task {}", id),
    }
}

/// Everything that can be seen of a state, in a form that can be compared.
fn snapshot(state: &TodoState) -> String {
    let mut all: Vec<Todo> = state.all_todos().into_iter().cloned().collect();
    all.sort_by_key(|todo| todo.id);
    format!(
        "{:?} next={} filter={:?} search={:?} editing={:?}",
        all,
        state.next_id(),
        state.filter(),
        state.search_query(),
        state.editing()
    )
}

#[test]
fn default_state_is_empty() {
    let state = TodoState::default();
    assert!(state.all_todos().is_empty());
    assert!(state.filtered_todos().is_empty());
    assert_eq!(state.next_id(), 1);
    assert_eq!(*state.filter(), Filter::All);
    assert_eq!(state.search_query(), "");
    assert_eq!(state.editing(), None);
}

#[test]
fn draft_then_commit_creates_first_task() {
    let mut state = TodoState::default();
    state.update(Message::AddTodo);
    assert_eq!(state.editing(), Some((0, &String::new())));
    state.update(Message::InputChanged(text("Buy milk")));
    assert_eq!(state.editing(), Some((0, &text("Buy milk"))));
    state.update(Message::AddTodo);
    let todos = state.all_todos();
    assert_eq!(todos.len(), 1);
    assert_eq!(todos[0].id, 1);
    assert_eq!(todos[0].title, "Buy milk");
    assert_eq!(todos[0].description, "");
    assert!(!todos[0].completed);
    assert_eq!(state.editing(), Some((0, &String::new())));
    assert_eq!(state.next_id(), 2);
}

#[test]
fn edit_then_finish_retitles_the_task() {
    let mut state = TodoState::default();
    state.update(Message::AddTodo);
    state.update(Message::InputChanged(text("Buy milk")));
    state.update(Message::AddTodo);
    state.update(Message::EditingTodo(1, text("Buy milk")));
    assert_eq!(state.editing(), Some((1, &text("Buy milk"))));
    state.update(Message::InputChanged(text("Buy oat milk")));
    state.update(Message::FinishEditing);
    assert_eq!(task(&state, 1).title, "Buy oat milk");
    assert_eq!(state.editing(), None);
    assert_eq!(state.next_id(), 2);
}

#[test]
fn deleting_the_task_being_edited_ends_the_edit() {
    let mut state = state_with(&["Buy milk"]);
    state.update(Message::EditingTodo(1, text("...")));
    state.update(Message::DeleteTodo(1));
    assert!(state.all_todos().is_empty());
    assert_eq!(state.editing(), None);
}

#[test]
fn deleting_another_task_keeps_the_edit() {
    let mut state = state_with(&["a", "b"]);
    state.update(Message::EditingTodo(1, text("a!")));
    state.update(Message::DeleteTodo(2));
    assert_eq!(sorted_ids(&state), vec![1]);
    assert_eq!(state.editing(), Some((1, &text("a!"))));
}

#[test]
fn delete_and_toggle_of_absent_ids_change_nothing() {
    let mut state = state_with(&["a", "b"]);
    state.update(Message::ToggleTodo(2));
    state.update(Message::SearchQueryChanged(text("x")));
    state.update(Message::EditingTodo(1, text("draft")));
    let before = snapshot(&state);
    for id in [0usize, 3, 4, 99, usize::MAX] {
        state.update(Message::DeleteTodo(id));
        state.update(Message::ToggleTodo(id));
        state.update(Message::ToggleTodo(id));
        state.update(Message::DeleteTodo(id));
    }
    assert_eq!(snapshot(&state), before);
}

#[test]
fn deleting_an_absent_id_that_is_the_edit_target_ends_the_edit_only() {
    let mut state = state_with(&["a"]);
    state.update(Message::AddTodo);
    state.update(Message::InputChanged(text("typing")));
    state.update(Message::DeleteTodo(0));
    assert_eq!(state.editing(), None);
    assert_eq!(sorted_ids(&state), vec![1]);
    assert_eq!(state.next_id(), 2);
}

#[test]
fn ids_grow_and_are_never_reused() {
    let mut state = TodoState::default();
    let mut seen: Vec<usize> = Vec::new();
    let mut last_next: usize = state.next_id();
    for round in 0..5 {
        state.update(Message::AddTodo);
        state.update(Message::InputChanged(format!("task {}", round)));
        state.update(Message::AddTodo);
        let newest = state.next_id() - 1;
        assert!(state.next_id() > last_next);
        assert!(!seen.contains(&newest));
        assert_eq!(task(&state, newest).title, format!("task {}", round));
        seen.push(newest);
        last_next = state.next_id();
        state.update(Message::DeleteTodo(newest));
        assert_eq!(state.next_id(), last_next);
    }
    assert_eq!(seen, vec![1, 2, 3, 4, 5]);
    assert_eq!(state.next_id(), 6);
    assert!(state.all_todos().is_empty());
}

#[test]
fn add_after_delete_takes_a_fresh_id() {
    let mut state = state_with(&["a", "b", "c"]);
    state.update(Message::DeleteTodo(2));
    state.update(Message::DeleteTodo(3));
    state.add_todo(text("d"), at(500));
    assert_eq!(sorted_ids(&state), vec![1, 4]);
    assert_eq!(state.next_id(), 5);
}

#[test]
fn blank_draft_creates_nothing_and_stays_open() {
    for blank in ["", " ", "   ", "\t", " \n\t ", "\u{a0}", "\u{2003}\u{3000}"] {
        let mut state = state_with(&["a"]);
        state.update(Message::AddTodo);
        state.update(Message::InputChanged(text(blank)));
        let before = snapshot(&state);
        assert!(!state.creates_task(&Message::AddTodo));
        state.update(Message::AddTodo);
        assert_eq!(snapshot(&state), before);
        assert_eq!(state.editing(), Some((0, &text(blank))));
        assert_eq!(state.all_todos().len(), 1);
        assert_eq!(state.next_id(), 2);
    }
}

#[test]
fn committed_title_is_trimmed() {
    let mut state = TodoState::default();
    state.update(Message::AddTodo);
    state.update(Message::InputChanged(text("  \tBuy  milk \n")));
    assert!(state.creates_task(&Message::AddTodo));
    state.update(Message::AddTodo);
    assert_eq!(task(&state, 1).title, "Buy  milk");
}

#[test]
fn add_while_editing_an_existing_task_does_nothing() {
    let mut state = state_with(&["a"]);
    state.update(Message::EditingTodo(1, text("new title")));
    let before = snapshot(&state);
    assert!(!state.creates_task(&Message::AddTodo));
    state.update(Message::AddTodo);
    assert_eq!(snapshot(&state), before);
}

#[test]
fn finishing_a_draft_changes_no_task() {
    for draft in ["", "  ", "something", " a "] {
        let mut state = state_with(&["a", "b"]);
        state.update(Message::AddTodo);
        state.update(Message::InputChanged(text(draft)));
        state.update(Message::FinishEditing);
        assert_eq!(state.editing(), None);
        assert_eq!(titles(&state.filtered_todos()), vec![text("b"), text("a")]);
        assert_eq!(state.next_id(), 3);
    }
}

#[test]
fn finishing_without_an_edit_changes_nothing() {
    let mut state = state_with(&["a"]);
    let before = snapshot(&state);
    state.update(Message::FinishEditing);
    assert_eq!(snapshot(&state), before);
}

#[test]
fn finishing_with_a_blank_title_keeps_the_old_one() {
    let mut state = state_with(&["a"]);
    state.update(Message::EditingTodo(1, text("a")));
    state.update(Message::InputChanged(text("   ")));
    state.update(Message::FinishEditing);
    assert_eq!(task(&state, 1).title, "a");
    assert_eq!(state.editing(), None);
}

#[test]
fn finishing_trims_the_new_title() {
    let mut state = state_with(&["a"]);
    state.update(Message::EditingTodo(1, text("a")));
    state.update(Message::InputChanged(text("  b c  ")));
    state.update(Message::FinishEditing);
    assert_eq!(task(&state, 1).title, "b c");
}

#[test]
fn finishing_an_edit_of_a_missing_task_changes_no_task() {
    let mut state = state_with(&["a"]);
    state.update(Message::EditingTodo(7, text("ghost")));
    state.update(Message::FinishEditing);
    assert_eq!(state.editing(), None);
    assert_eq!(sorted_ids(&state), vec![1]);
    assert_eq!(task(&state, 1).title, "a");
}

#[test]
fn cancel_discards_the_draft() {
    let mut state = state_with(&["a"]);
    state.update(Message::EditingTodo(1, text("changed")));
    state.update(Message::CancelEditing);
    assert_eq!(state.editing(), None);
    assert_eq!(task(&state, 1).title, "a");
    state.update(Message::CancelEditing);
    assert_eq!(state.editing(), None);
}

#[test]
fn input_without_an_edit_is_ignored() {
    let mut state = state_with(&["a"]);
    let before = snapshot(&state);
    state.update(Message::InputChanged(text("lost")));
    assert_eq!(snapshot(&state), before);
}

#[test]
fn input_keeps_the_target() {
    let mut state = state_with(&["a"]);
    state.update(Message::EditingTodo(1, text("a")));
    state.update(Message::InputChanged(text("ab")));
    assert_eq!(state.editing(), Some((1, &text("ab"))));
}

#[test]
fn begin_edit_overwrites_an_edit_in_progress() {
    let mut state = state_with(&["a", "b"]);
    state.update(Message::EditingTodo(1, text("one")));
    state.update(Message::EditingTodo(2, text("two")));
    assert_eq!(state.editing(), Some((2, &text("two"))));
}

#[test]
fn toggle_flips_completion() {
    let mut state = state_with(&["a", "b"]);
    state.update(Message::ToggleTodo(2));
    assert!(task(&state, 2).completed);
    assert!(!task(&state, 1).completed);
    state.update(Message::ToggleTodo(2));
    assert!(!task(&state, 2).completed);
    assert_eq!(task(&state, 2).title, "b");
    assert_eq!(task(&state, 2).created_at, at(101));
}

#[test]
fn description_is_overwritten_verbatim() {
    let mut state = state_with(&["a"]);
    state.update(Message::DescriptionChanged(1, text("  two litres ")));
    assert_eq!(task(&state, 1).description, "  two litres ");
    state.update(Message::DescriptionChanged(1, text("")));
    assert_eq!(task(&state, 1).description, "");
    let before = snapshot(&state);
    state.update(Message::DescriptionChanged(9, text("nobody")));
    assert_eq!(snapshot(&state), before);
}

#[test]
fn search_query_is_kept_verbatim() {
    let mut state = TodoState::default();
    state.update(Message::SearchQueryChanged(text("  Milk ")));
    assert_eq!(state.search_query(), "  Milk ");
}

#[test]
fn filter_is_replaced() {
    let mut state = TodoState::default();
    state.update(Message::FilterChanged(Filter::Completed));
    assert_eq!(*state.filter(), Filter::Completed);
    state.update(Message::FilterChanged(Filter::Active));
    assert_eq!(*state.filter(), Filter::Active);
    state.update(Message::FilterChanged(Filter::All));
    assert_eq!(*state.filter(), Filter::All);
}

#[test]
fn update_stamps_new_tasks_with_the_present() {
    let mut state = TodoState::default();
    state.update(Message::AddTodo);
    state.update(Message::InputChanged(text("now")));
    state.update(Message::AddTodo);
    // 2020-09-13 is long past
    assert!(task(&state, 1).created_at.secs > 1_600_000_000);
    assert!(task(&state, 1).created_at.nanos < 2_000_000_000);
}

#[test]
fn apply_stamps_new_tasks_with_the_given_instant() {
    let mut state = TodoState::default();
    state.apply(Message::AddTodo, at(1));
    state.apply(Message::InputChanged(text("x")), at(2));
    state.apply(Message::AddTodo, Timestamp { secs: 77, nanos: 5 });
    assert_eq!(task(&state, 1).created_at, Timestamp { secs: 77, nanos: 5 });
    state.apply(Message::ToggleTodo(1), at(1000));
    assert_eq!(task(&state, 1).created_at, Timestamp { secs: 77, nanos: 5 });
}

#[test]
fn set_title_and_add_todo_take_the_title_as_given() {
    let mut state = TodoState::default();
    state.add_todo(text("  spaced  "), at(1));
    assert_eq!(task(&state, 1).title, "  spaced  ");
    state.set_title(1, text(""));
    assert_eq!(task(&state, 1).title, "");
    state.set_title(5, text("nobody"));
    assert_eq!(sorted_ids(&state), vec![1]);
}

#[test]
fn a_full_id_space_cannot_take_another_task() {
    let state = TodoState::restore(Snapshot {
        todos: Vec::new(),
        next_id: usize::MAX,
        filter: Filter::All,
        search_query: String::new(),
        editing: Some((0, text("one more"))),
    });
    let state = match state {
        Some(state) => state,
        None => panic!("valid parts"),
    };
    assert!(state.creates_task(&Message::AddTodo));
    assert!(!state.can_handle(&Message::AddTodo));
    assert!(state.can_handle(&Message::FinishEditing));
    assert!(state.can_handle(&Message::DeleteTodo(1)));
    let roomy = state_with(&["a"]);
    assert!(roomy.can_handle(&Message::AddTodo));
}
