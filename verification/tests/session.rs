use dashboard::form::{AddingField, AddingState, FormDimensions};
use dashboard::keys::{KeyCode, KeyEvent, KeyEventKind};
use dashboard::priority::Priority;
use dashboard::session::{
    handle_keys_adding, handle_keys_editing, handle_keys_form, handle_keys_main, Action, Session,
};
use dashboard::state::{AppState, ErrorType, TasksState, TuiState};
use dashboard::store::Tasks;
use dashboard::task::Task;

fn task(name: &str, priority: Priority, description: &str) -> Task {
    Task::new(name.to_string(), priority, description.to_string())
}

fn three() -> Tasks {
    Tasks::new(vec![
        task("a", Priority::High, "first"),
        task("b", Priority::Low, "second"),
        task("c", Priority::Medium, "third"),
    ])
}

fn press(session: &mut Session, code: KeyCode) -> Action {
    assert!(session.is_consistent());
    session.handle_event(KeyEvent::press(code))
}

fn type_text(session: &mut Session, text: &str) {
    for c in text.chars() {
        assert_eq!(press(session, KeyCode::Char(c)), Action::Render);
    }
}

fn screen(session: &Session) -> TuiState {
    session.app_state.current_state
}

fn names(session: &Session) -> Vec<String> {
    session.tasks.tasks.iter().map(|t| t.task.clone()).collect()
}

#[test]
fn app_state_starts_on_the_main_screen() {
    let state = AppState::new();
    assert_eq!(state.current_state, TuiState::Tasks(TasksState::Main));
    assert!(state.error_state.is_none());
    assert!(!state.has_error());
}

#[test]
fn app_state_sets_and_clears_the_error() {
    let mut state = AppState::new();
    state.set_error("t".to_string(), "m".to_string(), ErrorType::Info);
    assert!(state.has_error());
    let info = state.error_state.clone().unwrap();
    assert_eq!(info.title, "t");
    assert_eq!(info.message, "m");
    assert_eq!(info.error_type, ErrorType::Info);
    state.set_error("t2".to_string(), "m2".to_string(), ErrorType::Error);
    assert_eq!(state.error_state.as_ref().unwrap().title, "t2");
    assert_eq!(state.error_state.as_ref().unwrap().error_type, ErrorType::Error);
    assert_eq!(state.current_state, TuiState::Tasks(TasksState::Main));
    state.clear_error();
    assert!(!state.has_error());
    assert!(state.error_state.is_none());
    state.clear_error();
    assert!(!state.has_error());
}

#[test]
fn exit_states_are_terminal() {
    assert!(TuiState::Exit.is_exit());
    assert!(TuiState::Tasks(TasksState::Exit).is_exit());
    assert!(!TuiState::Tasks(TasksState::Main).is_exit());
    assert!(!TuiState::Tasks(TasksState::Adding).is_exit());
    assert!(!TuiState::Tasks(TasksState::Editing).is_exit());
}

#[test]
fn dismissal_keys_are_enter_esc_and_space() {
    assert!(KeyEvent::press(KeyCode::Enter).is_dismissal());
    assert!(KeyEvent::press(KeyCode::Esc).is_dismissal());
    assert!(KeyEvent::press(KeyCode::Char(' ')).is_dismissal());
    assert!(!KeyEvent::press(KeyCode::Char('x')).is_dismissal());
    assert!(!KeyEvent::press(KeyCode::Tab).is_dismissal());
    assert!(!KeyEvent::press(KeyCode::Backspace).is_dismissal());
    assert!(!KeyEvent::press(KeyCode::Other).is_dismissal());
}

#[test]
fn new_session_is_on_the_main_screen() {
    let session = Session::new(three());
    assert_eq!(screen(&session), TuiState::Tasks(TasksState::Main));
    assert!(!session.app_state.has_error());
    assert!(!session.is_finished());
    assert!(session.is_consistent());
    assert_eq!(names(&session), ["a", "b", "c"]);
    assert_eq!(session.tasks.selection, None);
    assert_eq!(session.adding_state.input_task, "");
}

#[test]
fn adding_a_task_appends_it() {
    let mut session = Session::new(Tasks::new(Vec::new()));
    assert_eq!(press(&mut session, KeyCode::Char('A')), Action::Render);
    assert_eq!(screen(&session), TuiState::Tasks(TasksState::Adding));
    type_text(&mut session, "Ship release");
    assert_eq!(session.adding_state.input_task, "Ship release");
    assert_eq!(press(&mut session, KeyCode::Enter), Action::Render);
    assert_eq!(screen(&session), TuiState::Tasks(TasksState::Main));
    assert_eq!(session.tasks.tasks, vec![task("Ship release", Priority::Medium, "")]);
    assert_eq!(session.tasks.selection, None);
    assert_eq!(session.adding_state.input_task, "");
}

#[test]
fn adding_keeps_the_selection() {
    let mut session = Session::new(three());
    press(&mut session, KeyCode::Char('j'));
    press(&mut session, KeyCode::Char('j'));
    assert_eq!(session.tasks.selection, Some(1));
    press(&mut session, KeyCode::Char('A'));
    type_text(&mut session, "d");
    press(&mut session, KeyCode::Tab);
    type_text(&mut session, "h");
    press(&mut session, KeyCode::Tab);
    type_text(&mut session, "more");
    press(&mut session, KeyCode::Enter);
    assert_eq!(names(&session), ["a", "b", "c", "d"]);
    assert_eq!(session.tasks.tasks[3], task("d", Priority::High, "more"));
    assert_eq!(session.tasks.selection, Some(1));
}

#[test]
fn edit_without_selection_raises_a_warning() {
    let mut session = Session::new(Tasks::new(vec![task("a", Priority::High, "first")]));
    assert_eq!(press(&mut session, KeyCode::Char('E')), Action::Render);
    assert_eq!(screen(&session), TuiState::Tasks(TasksState::Main));
    let info = session.app_state.error_state.clone().unwrap();
    assert_eq!(info.error_type, ErrorType::Warning);
    assert_eq!(info.title, "Nothing selected");
    assert_eq!(info.message, "No task has been selected");
    assert_eq!(press(&mut session, KeyCode::Enter), Action::Render);
    assert!(!session.app_state.has_error());
    assert_eq!(screen(&session), TuiState::Tasks(TasksState::Main));
    assert_eq!(session.tasks.tasks, vec![task("a", Priority::High, "first")]);
    assert_eq!(session.tasks.selection, None);
}

#[test]
fn deleting_the_selected_task_keeps_the_index() {
    let mut session = Session::new(three());
    press(&mut session, KeyCode::Char('j'));
    press(&mut session, KeyCode::Char('j'));
    assert_eq!(session.tasks.selection, Some(1));
    assert_eq!(press(&mut session, KeyCode::Char('X')), Action::Render);
    assert_eq!(names(&session), ["a", "c"]);
    assert_eq!(session.tasks.selection, Some(1));
    press(&mut session, KeyCode::Char('X'));
    assert_eq!(names(&session), ["a"]);
    assert_eq!(session.tasks.selection, Some(0));
    press(&mut session, KeyCode::Char('X'));
    assert!(session.tasks.tasks.is_empty());
    assert_eq!(session.tasks.selection, None);
    press(&mut session, KeyCode::Char('X'));
    assert!(session.tasks.tasks.is_empty());
    assert_eq!(session.tasks.selection, None);
}

#[test]
fn deleting_without_selection_does_nothing() {
    let mut session = Session::new(three());
    press(&mut session, KeyCode::Char('X'));
    assert_eq!(names(&session), ["a", "b", "c"]);
    assert_eq!(session.tasks.selection, None);
}

#[test]
fn j_and_k_move_the_selection() {
    let mut session = Session::new(three());
    press(&mut session, KeyCode::Char('k'));
    assert_eq!(session.tasks.selection, Some(2));
    press(&mut session, KeyCode::Char('j'));
    assert_eq!(session.tasks.selection, Some(2));
    press(&mut session, KeyCode::Char('k'));
    press(&mut session, KeyCode::Char('k'));
    press(&mut session, KeyCode::Char('k'));
    assert_eq!(session.tasks.selection, Some(0));
    press(&mut session, KeyCode::Char('j'));
    assert_eq!(session.tasks.selection, Some(1));
    assert_eq!(screen(&session), TuiState::Tasks(TasksState::Main));
}

#[test]
fn other_keys_do_nothing_on_the_main_screen() {
    let mut session = Session::new(three());
    for code in [
        KeyCode::Char('a'),
        KeyCode::Char('e'),
        KeyCode::Char('x'),
        KeyCode::Char('J'),
        KeyCode::Enter,
        KeyCode::Tab,
        KeyCode::BackTab,
        KeyCode::Backspace,
        KeyCode::Up,
        KeyCode::Down,
        KeyCode::Other,
    ] {
        assert_eq!(press(&mut session, code), Action::Render);
        assert_eq!(screen(&session), TuiState::Tasks(TasksState::Main));
        assert!(!session.app_state.has_error());
        assert_eq!(names(&session), ["a", "b", "c"]);
        assert_eq!(session.tasks.selection, None);
    }
}

#[test]
fn esc_ends_the_session_and_asks_to_persist_once() {
    let mut session = Session::new(three());
    assert_eq!(press(&mut session, KeyCode::Esc), Action::Persist);
    assert!(session.is_finished());
    assert_eq!(screen(&session), TuiState::Tasks(TasksState::Exit));
    assert_eq!(press(&mut session, KeyCode::Esc), Action::Halt);
    assert_eq!(press(&mut session, KeyCode::Char('A')), Action::Halt);
    assert_eq!(screen(&session), TuiState::Tasks(TasksState::Exit));
    assert_eq!(names(&session), ["a", "b", "c"]);
}

#[test]
fn a_session_that_starts_ended_halts() {
    let mut session = Session::new(three());
    session.app_state.current_state = TuiState::Exit;
    assert!(session.is_finished());
    assert_eq!(press(&mut session, KeyCode::Char('X')), Action::Halt);
    assert_eq!(screen(&session), TuiState::Exit);
}

#[test]
fn only_presses_count() {
    let mut session = Session::new(three());
    for kind in [KeyEventKind::Release, KeyEventKind::Repeat] {
        let action = session.handle_event(KeyEvent::new(KeyCode::Esc, false, kind));
        assert_eq!(action, Action::Render);
        let action = session.handle_event(KeyEvent::new(KeyCode::Char('A'), false, kind));
        assert_eq!(action, Action::Render);
        assert_eq!(screen(&session), TuiState::Tasks(TasksState::Main));
    }
}

#[test]
fn overlay_takes_every_key() {
    let mut session = Session::new(three());
    press(&mut session, KeyCode::Char('E'));
    assert!(session.app_state.has_error());
    for code in [
        KeyCode::Char('A'),
        KeyCode::Char('j'),
        KeyCode::Char('X'),
        KeyCode::Tab,
        KeyCode::Backspace,
        KeyCode::Up,
        KeyCode::Other,
    ] {
        assert_eq!(press(&mut session, code), Action::Render);
        assert!(session.app_state.has_error());
        assert_eq!(screen(&session), TuiState::Tasks(TasksState::Main));
        assert_eq!(names(&session), ["a", "b", "c"]);
        assert_eq!(session.tasks.selection, None);
    }
    let release = KeyEvent::new(KeyCode::Enter, false, KeyEventKind::Release);
    session.handle_event(release);
    assert!(session.app_state.has_error());
}

#[test]
fn overlay_is_dismissed_by_enter_esc_and_space() {
    for code in [KeyCode::Enter, KeyCode::Esc, KeyCode::Char(' ')] {
        let mut session = Session::new(three());
        press(&mut session, KeyCode::Char('E'));
        assert!(session.app_state.has_error());
        assert_eq!(press(&mut session, code), Action::Render);
        assert!(!session.app_state.has_error());
        assert_eq!(screen(&session), TuiState::Tasks(TasksState::Main));
        assert!(!session.is_finished());
    }
}

#[test]
fn editing_replaces_the_selected_task() {
    let mut session = Session::new(three());
    press(&mut session, KeyCode::Char('j'));
    press(&mut session, KeyCode::Char('j'));
    press(&mut session, KeyCode::Char('E'));
    assert_eq!(screen(&session), TuiState::Tasks(TasksState::Editing));
    assert_eq!(session.adding_state.input_task, "b");
    assert_eq!(session.adding_state.selected_priority, Priority::Low);
    assert_eq!(session.adding_state.input_description, "second");
    assert_eq!(session.adding_state.current_field, AddingField::Task);
    press(&mut session, KeyCode::Backspace);
    type_text(&mut session, "B2");
    assert_eq!(screen(&session), TuiState::Tasks(TasksState::Editing));
    press(&mut session, KeyCode::Tab);
    press(&mut session, KeyCode::Up);
    press(&mut session, KeyCode::Enter);
    assert_eq!(screen(&session), TuiState::Tasks(TasksState::Main));
    assert_eq!(names(&session), ["a", "B2", "c"]);
    assert_eq!(session.tasks.tasks[1], task("B2", Priority::Medium, "second"));
    assert_eq!(session.tasks.selection, Some(1));
}

#[test]
fn editing_without_change_keeps_the_task() {
    let mut session = Session::new(three());
    press(&mut session, KeyCode::Char('j'));
    press(&mut session, KeyCode::Char('E'));
    press(&mut session, KeyCode::Enter);
    assert_eq!(session.tasks.tasks, three().tasks);
    assert_eq!(session.tasks.selection, Some(0));
}

#[test]
fn commit_of_a_blank_name_is_refused() {
    let mut session = Session::new(three());
    press(&mut session, KeyCode::Char('A'));
    assert_eq!(press(&mut session, KeyCode::Enter), Action::Render);
    assert_eq!(screen(&session), TuiState::Tasks(TasksState::Adding));
    type_text(&mut session, "   ");
    press(&mut session, KeyCode::Enter);
    assert_eq!(screen(&session), TuiState::Tasks(TasksState::Adding));
    assert!(!session.app_state.has_error());
    assert_eq!(names(&session), ["a", "b", "c"]);
    assert_eq!(session.adding_state.input_task, "   ");
}

#[test]
fn esc_cancels_the_form() {
    let mut session = Session::new(three());
    press(&mut session, KeyCode::Char('A'));
    type_text(&mut session, "draft");
    assert_eq!(press(&mut session, KeyCode::Esc), Action::Render);
    assert_eq!(screen(&session), TuiState::Tasks(TasksState::Main));
    assert_eq!(names(&session), ["a", "b", "c"]);
    assert_eq!(session.adding_state.input_task, "");
    press(&mut session, KeyCode::Char('j'));
    press(&mut session, KeyCode::Char('E'));
    type_text(&mut session, "zzz");
    press(&mut session, KeyCode::Esc);
    assert_eq!(screen(&session), TuiState::Tasks(TasksState::Main));
    assert_eq!(session.tasks.tasks, three().tasks);
}

#[test]
fn add_resets_the_form() {
    let mut session = Session::new(three());
    press(&mut session, KeyCode::Char('j'));
    press(&mut session, KeyCode::Char('E'));
    press(&mut session, KeyCode::Esc);
    press(&mut session, KeyCode::Char('A'));
    assert_eq!(session.adding_state.input_task, "");
    assert_eq!(session.adding_state.selected_priority, Priority::Medium);
    assert_eq!(session.adding_state.input_description, "");
    assert_eq!(session.adding_state.current_field, AddingField::Task);
}

#[test]
fn form_keys_reach_the_active_field() {
    let mut session = Session::new(three());
    press(&mut session, KeyCode::Char('A'));
    type_text(&mut session, "AEXjk");
    assert_eq!(session.adding_state.input_task, "AEXjk");
    session.handle_event(KeyEvent::new(KeyCode::Tab, true, KeyEventKind::Press));
    assert_eq!(session.adding_state.current_field, AddingField::Description);
    press(&mut session, KeyCode::BackTab);
    assert_eq!(session.adding_state.current_field, AddingField::Priority);
    press(&mut session, KeyCode::Backspace);
    assert_eq!(session.adding_state.selected_priority, Priority::Low);
    press(&mut session, KeyCode::Down);
    assert_eq!(session.adding_state.selected_priority, Priority::High);
    type_text(&mut session, "l");
    assert_eq!(session.adding_state.selected_priority, Priority::Low);
    press(&mut session, KeyCode::Other);
    assert_eq!(screen(&session), TuiState::Tasks(TasksState::Adding));
    assert_eq!(names(&session), ["a", "b", "c"]);
}

#[test]
fn typing_a_description_scrolls_it() {
    let mut session = Session::new(three());
    press(&mut session, KeyCode::Char('A'));
    session.adding_state.resize(7, 4);
    assert_eq!(
        session.adding_state.form_dimensions,
        FormDimensions { field_width: 5, field_height: 2 }
    );
    press(&mut session, KeyCode::Tab);
    press(&mut session, KeyCode::Tab);
    type_text(&mut session, "0123456789ab");
    assert_eq!(session.adding_state.input_description, "0123456789ab");
    assert_eq!(session.adding_state.description_scroll_offset, 1);
    press(&mut session, KeyCode::Up);
    assert_eq!(session.adding_state.description_scroll_offset, 0);
    press(&mut session, KeyCode::Down);
    assert_eq!(session.adding_state.description_scroll_offset, 1);
    press(&mut session, KeyCode::Down);
    assert_eq!(session.adding_state.description_scroll_offset, 1);
    for _ in 0..8 {
        press(&mut session, KeyCode::Backspace);
    }
    assert_eq!(session.adding_state.input_description, "0123");
    assert_eq!(session.adding_state.description_scroll_offset, 0);
}

#[test]
fn main_handler_opens_the_forms() {
    let mut app_state = AppState::new();
    let mut tasks = three();
    let mut form = AddingState::new();
    tasks.selection = Some(2);
    handle_keys_main(&mut app_state, KeyEvent::press(KeyCode::Char('E')), &mut tasks, &mut form);
    assert_eq!(app_state.current_state, TuiState::Tasks(TasksState::Editing));
    assert_eq!(form.to_task(), task("c", Priority::Medium, "third"));
    handle_keys_main(&mut app_state, KeyEvent::press(KeyCode::Char('A')), &mut tasks, &mut form);
    assert_eq!(app_state.current_state, TuiState::Tasks(TasksState::Adding));
    assert_eq!(form.input_task, "");
    handle_keys_main(&mut app_state, KeyEvent::press(KeyCode::Esc), &mut tasks, &mut form);
    assert_eq!(app_state.current_state, TuiState::Tasks(TasksState::Exit));
}

#[test]
fn form_handlers_commit_to_the_store() {
    let mut app_state = AppState::new();
    let mut tasks = three();
    let mut form = AddingState::new();
    form.input_task = "new".to_string();
    handle_keys_adding(&mut app_state, KeyEvent::press(KeyCode::Enter), &mut tasks, &mut form);
    assert_eq!(tasks.tasks.len(), 4);
    assert_eq!(tasks.tasks[3], task("new", Priority::Medium, ""));
    assert_eq!(app_state.current_state, TuiState::Tasks(TasksState::Main));
    form.input_task = "first".to_string();
    handle_keys_editing(&mut app_state, KeyEvent::press(KeyCode::Enter), &mut tasks, &mut form, 0);
    assert_eq!(tasks.tasks[0], task("first", Priority::Medium, ""));
    assert_eq!(tasks.tasks.len(), 4);
    form.input_task = "x".to_string();
    handle_keys_form(
        &mut app_state,
        KeyEvent::press(KeyCode::Char('y')),
        &mut tasks,
        &mut form,
        Some(1),
    );
    assert_eq!(form.input_task, "xy");
    assert_eq!(app_state.current_state, TuiState::Tasks(TasksState::Editing));
    handle_keys_form(
        &mut app_state,
        KeyEvent::press(KeyCode::Char('z')),
        &mut tasks,
        &mut form,
        None,
    );
    assert_eq!(form.input_task, "xyz");
    assert_eq!(app_state.current_state, TuiState::Tasks(TasksState::Adding));
}
