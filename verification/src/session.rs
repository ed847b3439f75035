//! The session controller: what each key press does on each screen.
//!
//! The program around the library draws the session, waits for a key, hands
//! it to [`Session::handle_event`] and does what the returned [`Action`] says,
//! until the session has ended.

use vstd::prelude::*;
use crate::form::{AddingState, FormView};
use crate::keys::{KeyCode, KeyEvent, KeyEventKind};
use crate::state::{AppState, AppStateView, ErrorType, TasksState, TuiState};
use crate::store::{Tasks, TasksView};

verus! {

/// The whole of a session: the screen and overlay, the task store and the
/// form.
#[derive(Debug)]
pub struct Session {
    pub app_state: AppState,
    pub tasks: Tasks,
    pub adding_state: AddingState,
}

/// What a [`Session`] holds, as mathematical values.
pub struct SessionView {
    pub app_state: AppStateView,
    pub tasks: TasksView,
    pub adding_state: FormView,
}

impl View for Session {
    type V = SessionView;

    open spec fn view(&self) -> SessionView {
        SessionView {
            app_state: self.app_state@,
            tasks: self.tasks@,
            adding_state: self.adding_state@,
        }
    }
}

/// What the program has to do after a key was handled.
#[derive(Debug, Clone, Copy, PartialEq, Eq, Structural)]
pub enum Action {
    /// Draw the session and wait for the next key.
    Render,
    /// The session has just ended: write the task store out, then stop.
    Persist,
    /// The session had ended before: there is nothing to do.
    Halt,
}

/// The title of the overlay that answers an edit without a selected task.
pub open spec fn nothing_selected_title() -> Seq<char> {
    "Nothing selected"@
}

/// The message of the overlay that answers an edit without a selected task.
pub open spec fn nothing_selected_message() -> Seq<char> {
    "No task has been selected"@
}

impl SessionView {
    /// While a task is edited, the store has a selected task: the one that the
    /// edit replaces.
    pub open spec fn wf(self) -> bool {
        self.app_state.current_state == TuiState::Tasks(TasksState::Editing)
            ==> self.tasks.cursor().is_some()
    }

    /// The same session on another screen.
    pub open spec fn on_screen(self, screen: TasksState) -> SessionView {
        SessionView { app_state: self.app_state.on_screen(TuiState::Tasks(screen)), ..self }
    }

    /// The session after `key` on the main screen.
    ///
    /// Esc ends the session. `A` opens the empty form. `E` opens the form
    /// filled in from the selected task, or puts up a warning where no task is
    /// selected. `X` removes the selected task. `j` and `k` move the selection
    /// down and up. No other key does anything.
    pub open spec fn handle_keys_main(self, key: KeyEvent) -> SessionView {
        match key.code {
            KeyCode::Esc => self.on_screen(TasksState::Exit),
            KeyCode::Char(c) => if c == 'A' {
                SessionView { adding_state: FormView::blank(), ..self }.on_screen(
                    TasksState::Adding,
                )
            } else if c == 'E' {
                match self.tasks.cursor() {
                    Some(index) => SessionView {
                        adding_state: FormView::editing(self.tasks.tasks[index as int]),
                        ..self
                    }.on_screen(TasksState::Editing),
                    None => SessionView {
                        app_state: self.app_state.with_error(
                            nothing_selected_title(),
                            nothing_selected_message(),
                            ErrorType::Warning,
                        ),
                        ..self
                    },
                }
            } else if c == 'X' {
                SessionView { tasks: self.tasks.remove_selected(), ..self }
            } else if c == 'k' {
                SessionView { tasks: self.tasks.select_previous(), ..self }
            } else if c == 'j' {
                SessionView { tasks: self.tasks.select_next(), ..self }
            } else {
                self
            },
            _ => self,
        }
    }

    /// The session after the form was committed: the task of the form stands
    /// at `index`, or at the end of the store where there is no index; the
    /// form is empty again and the main screen is up.
    pub open spec fn commit(self, index: Option<usize>) -> SessionView {
        SessionView {
            tasks: match index {
                Some(at) => self.tasks.replace(at, self.adding_state.to_task()),
                None => self.tasks.insert(self.adding_state.to_task()),
            },
            adding_state: FormView::blank(),
            ..self
        }.on_screen(TasksState::Main)
    }

    /// The screen of the form: the Edit screen where the form edits the task
    /// at an index, the Add screen where it adds one.
    pub open spec fn form_screen(index: Option<usize>) -> TasksState {
        if index.is_some() {
            TasksState::Editing
        } else {
            TasksState::Adding
        }
    }

    /// The session after `key` on the form, which edits the task at `index`
    /// or, without index, adds one.
    ///
    /// Esc empties the form and goes back to the main screen. Enter commits a
    /// valid form and does nothing to an invalid one. Characters, Backspace and
    /// the arrows Up and Down go to the active field, Tab and reverse tab move
    /// between fields, and the description follows the cursor after a key that
    /// may have changed it.
    pub open spec fn handle_keys_form(self, key: KeyEvent, index: Option<usize>) -> SessionView {
        match key.code {
            KeyCode::Esc => SessionView { adding_state: FormView::blank(), ..self }.on_screen(
                TasksState::Main,
            ),
            KeyCode::Enter => if self.adding_state.is_valid() {
                self.commit(index)
            } else {
                self.on_screen(SessionView::form_screen(index))
            },
            KeyCode::Char(c) => SessionView {
                adding_state: self.adding_state.handle_character_input(c).follow_cursor(),
                ..self
            }.on_screen(SessionView::form_screen(index)),
            KeyCode::Backspace => SessionView {
                adding_state: self.adding_state.handle_backspace().follow_cursor(),
                ..self
            }.on_screen(SessionView::form_screen(index)),
            KeyCode::Up | KeyCode::Down => SessionView {
                adding_state: self.adding_state.handle_arrows(
                    self.adding_state.form_dimensions,
                    key,
                ),
                ..self
            }.on_screen(SessionView::form_screen(index)),
            _ => SessionView {
                adding_state: self.adding_state.handle_field_navigation(key),
                ..self
            }.on_screen(SessionView::form_screen(index)),
        }
    }

    /// The session after `key`.
    ///
    /// A session that has ended stays as it is. Only key presses count. While
    /// an overlay is up, Enter, Esc and Space take it down and no other key
    /// does anything. Otherwise the key goes to the screen that is up.
    pub open spec fn handle_event(self, key: KeyEvent) -> SessionView {
        if self.app_state.current_state.is_terminal() || key.kind != KeyEventKind::Press {
            self
        } else if self.app_state.error_state.is_some() {
            if key.dismisses() {
                SessionView { app_state: self.app_state.without_error(), ..self }
            } else {
                self
            }
        } else {
            match self.app_state.current_state {
                TuiState::Tasks(TasksState::Main) => self.handle_keys_main(key),
                TuiState::Tasks(TasksState::Adding) => self.handle_keys_form(key, None),
                TuiState::Tasks(TasksState::Editing) => self.handle_keys_form(
                    key,
                    self.tasks.cursor(),
                ),
                _ => self,
            }
        }
    }

    /// What the program has to do after `key`.
    pub open spec fn action(self, key: KeyEvent) -> Action {
        if self.app_state.current_state.is_terminal() {
            Action::Halt
        } else if self.handle_event(key).app_state.current_state.is_terminal() {
            Action::Persist
        } else {
            Action::Render
        }
    }

    /// The session after the keys of `keys`, one after the other.
    pub open spec fn after_keys(self, keys: Seq<KeyEvent>) -> SessionView
        decreases keys.len(),
    {
        if keys.len() == 0 {
            self
        } else {
            self.after_keys(keys.drop_last()).handle_event(keys.last())
        }
    }

    /// How many of the keys of `keys` are answered with `Action::Persist`.
    pub open spec fn persist_count(self, keys: Seq<KeyEvent>) -> nat
        decreases keys.len(),
    {
        if keys.len() == 0 {
            0
        } else {
            let earlier = self.persist_count(keys.drop_last());
            if self.after_keys(keys.drop_last()).action(keys.last()) == Action::Persist {
                earlier + 1
            } else {
                earlier
            }
        }
    }

    /// Every key leaves a session in which an edit has its task.
    pub proof fn lemma_stays_well_formed(self, key: KeyEvent)
        requires
            self.wf(),
        ensures
            self.handle_event(key).wf(),
    {
    }

    /// While an overlay is up, a key changes nothing but the overlay, and only
    /// Enter, Esc and Space change that.
    pub proof fn lemma_overlay_locks(self, key: KeyEvent)
        requires
            self.app_state.error_state.is_some(),
        ensures
            self.handle_event(key).tasks == self.tasks,
            self.handle_event(key).adding_state == self.adding_state,
            self.handle_event(key).app_state.current_state == self.app_state.current_state,
            !key.dismisses() ==> self.handle_event(key) == self,
            self.action(key) != Action::Persist,
    {
    }

    /// The task store is persisted once: whatever keys come, the program is
    /// told to persist when the session ends, and neither before nor again.
    pub proof fn lemma_persists_once(self, keys: Seq<KeyEvent>)
        ensures
            self.persist_count(keys) == if !self.app_state.current_state.is_terminal()
                && self.after_keys(keys).app_state.current_state.is_terminal() {
                1nat
            } else {
                0nat
            },
            self.app_state.current_state.is_terminal() ==> self.after_keys(keys) == self,
        decreases keys.len(),
    {
        if keys.len() > 0 {
            self.lemma_persists_once(keys.drop_last());
        }
    }
}

/// Handles a key on the main screen.
///
/// Esc ends the session. `A` opens the empty form. `E` opens the form filled
/// in from the selected task, or puts up a warning where no task is selected.
/// `X` removes the selected task. `j` and `k` move the selection down and up.
/// No other key does anything.
pub fn handle_keys_main(
    app_state: &mut AppState,
    key: KeyEvent,
    tasks: &mut Tasks,
    adding_state: &mut AddingState,
)
    ensures
        (SessionView {
            app_state: final(app_state)@,
            tasks: final(tasks)@,
            adding_state: final(adding_state)@,
        }) == (SessionView {
            app_state: old(app_state)@,
            tasks: old(tasks)@,
            adding_state: old(adding_state)@,
        }).handle_keys_main(key),
{
    match key.code {
        KeyCode::Esc => {
            app_state.current_state = TuiState::Tasks(TasksState::Exit);
        },
        KeyCode::Char(c) => {
            if c == 'A' {
                *adding_state = AddingState::new();
                app_state.current_state = TuiState::Tasks(TasksState::Adding);
            } else if c == 'E' {
                match tasks.cursor() {
                    Some(index) => {
                        *adding_state = AddingState::editing(&tasks.tasks[index]);
                        app_state.current_state = TuiState::Tasks(TasksState::Editing);
                    },
                    None => {
                        app_state.set_error(
                            "Nothing selected".to_owned(),
                            "No task has been selected".to_owned(),
                            ErrorType::Warning,
                        );
                    },
                }
            } else if c == 'X' {
                tasks.remove_selected();
            } else if c == 'k' {
                tasks.select_previous();
            } else if c == 'j' {
                tasks.select_next();
            }
        },
        _ => {},
    }
}

/// Handles a key on the form, which edits the task at `index` or, without
/// index, adds one.
///
/// Esc empties the form and goes back to the main screen. Enter commits a
/// valid form: its task replaces the one at `index` or is appended, the form is
/// emptied and the main screen comes back; an invalid form stays as it is.
/// Every other key goes to the form, and the screen is the form's.
pub fn handle_keys_form(
    app_state: &mut AppState,
    key: KeyEvent,
    tasks: &mut Tasks,
    adding_state: &mut AddingState,
    index: Option<usize>,
)
    requires
        index matches Some(at) ==> at < old(tasks).tasks.len(),
    ensures
        (SessionView {
            app_state: final(app_state)@,
            tasks: final(tasks)@,
            adding_state: final(adding_state)@,
        }) == (SessionView {
            app_state: old(app_state)@,
            tasks: old(tasks)@,
            adding_state: old(adding_state)@,
        }).handle_keys_form(key, index),
{
    match key.code {
        KeyCode::Esc => {
            *adding_state = AddingState::new();
            app_state.current_state = TuiState::Tasks(TasksState::Main);
            return;
        },
        KeyCode::Enter => {
            if adding_state.is_valid() {
                let task = adding_state.to_task();
                match index {
                    Some(at) => {
                        let _ = tasks.replace(at, task);
                    },
                    None => tasks.insert(task),
                }
                *adding_state = AddingState::new();
                app_state.current_state = TuiState::Tasks(TasksState::Main);
                return;
            }
        },
        KeyCode::Char(c) => {
            adding_state.handle_character_input(c);
            adding_state.follow_cursor();
        },
        KeyCode::Backspace => {
            adding_state.handle_backspace();
            adding_state.follow_cursor();
        },
        KeyCode::Up | KeyCode::Down => {
            let dimensions = adding_state.form_dimensions;
            adding_state.handle_arrows(&dimensions, key);
        },
        _ => {
            let _ = adding_state.handle_field_navigation(key);
        },
    }
    app_state.current_state = match index {
        Some(_) => TuiState::Tasks(TasksState::Editing),
        None => TuiState::Tasks(TasksState::Adding),
    };
}

/// Handles a key on the Add screen.
pub fn handle_keys_adding(
    app_state: &mut AppState,
    key: KeyEvent,
    tasks: &mut Tasks,
    adding_state: &mut AddingState,
)
    ensures
        (SessionView {
            app_state: final(app_state)@,
            tasks: final(tasks)@,
            adding_state: final(adding_state)@,
        }) == (SessionView {
            app_state: old(app_state)@,
            tasks: old(tasks)@,
            adding_state: old(adding_state)@,
        }).handle_keys_form(key, None),
{
    handle_keys_form(app_state, key, tasks, adding_state, None)
}

/// Handles a key on the Edit screen, which edits the task at `index`.
pub fn handle_keys_editing(
    app_state: &mut AppState,
    key: KeyEvent,
    tasks: &mut Tasks,
    adding_state: &mut AddingState,
    index: usize,
)
    requires
        index < old(tasks).tasks.len(),
    ensures
        (SessionView {
            app_state: final(app_state)@,
            tasks: final(tasks)@,
            adding_state: final(adding_state)@,
        }) == (SessionView {
            app_state: old(app_state)@,
            tasks: old(tasks)@,
            adding_state: old(adding_state)@,
        }).handle_keys_form(key, Some(index)),
{
    handle_keys_form(app_state, key, tasks, adding_state, Some(index))
}

impl Session {
    /// A session on the main screen over the given store.
    pub fn new(tasks: Tasks) -> (session: Session)
        ensures
            session.tasks == tasks,
            session.app_state@ == (AppStateView {
                current_state: TuiState::Tasks(TasksState::Main),
                error_state: None,
            }),
            session.adding_state@ == FormView::blank(),
            session@.wf(),
    {
        Session { app_state: AppState::new(), tasks, adding_state: AddingState::new() }
    }

    /// Whether the session is one that `handle_event` takes: see
    /// [`SessionView::wf`].
    pub fn is_consistent(&self) -> (consistent: bool)
        ensures
            consistent == self@.wf(),
    {
        match self.app_state.current_state {
            TuiState::Tasks(TasksState::Editing) => self.tasks.cursor().is_some(),
            _ => true,
        }
    }

    /// Whether the session has ended.
    pub fn is_finished(&self) -> (finished: bool)
        ensures
            finished == self@.app_state.current_state.is_terminal(),
    {
        self.app_state.current_state.is_exit()
    }

    /// Handles one key event and says what the program has to do next.
    ///
    /// A session that has ended stays as it is. Only key presses count. While
    /// an overlay is up, Enter, Esc and Space take it down and no other key
    /// does anything. Otherwise the key goes to the screen that is up.
    pub fn handle_event(&mut self, key: KeyEvent) -> (action: Action)
        requires
            old(self)@.wf(),
        ensures
            final(self)@ == old(self)@.handle_event(key),
            final(self)@.wf(),
            action == old(self)@.action(key),
            old(self)@.app_state.current_state.is_terminal() ==> *final(self) == *old(self),
            old(self)@.app_state.error_state.is_some() ==> final(self)@.tasks == old(self)@.tasks,
            old(self)@.app_state.error_state.is_some() ==> final(self)@.adding_state == old(
                self,
            )@.adding_state,
            old(self)@.app_state.error_state.is_some() ==> final(self).app_state.current_state
                == old(self).app_state.current_state,
    {
        if self.app_state.current_state.is_exit() {
            return Action::Halt;
        }
        if key.kind != KeyEventKind::Press {
            return Action::Render;
        }
        if self.app_state.has_error() {
            if key.is_dismissal() {
                self.app_state.clear_error();
            }
            return Action::Render;
        }
        match self.app_state.current_state {
            TuiState::Tasks(TasksState::Main) => {
                handle_keys_main(&mut self.app_state, key, &mut self.tasks, &mut self.adding_state);
            },
            TuiState::Tasks(TasksState::Adding) => {
                handle_keys_adding(
                    &mut self.app_state,
                    key,
                    &mut self.tasks,
                    &mut self.adding_state,
                );
            },
            TuiState::Tasks(TasksState::Editing) => {
                match self.tasks.cursor() {
                    Some(index) => handle_keys_editing(
                        &mut self.app_state,
                        key,
                        &mut self.tasks,
                        &mut self.adding_state,
                        index,
                    ),
                    None => {},
                }
            },
            _ => {},
        }
        if self.app_state.current_state.is_exit() {
            Action::Persist
        } else {
            Action::Render
        }
    }
}

} // verus!
