//! The screen the session is on, and the error overlay.

use vstd::prelude::*;

verus! {

/// How serious the message of an error overlay is.
#[derive(Debug, Clone, Copy, PartialEq, Eq, Structural)]
pub enum ErrorType {
    Warning,
    Error,
    Info,
}

/// The screens of the task list. `Exit` ends the session.
#[derive(Debug, Clone, Copy, PartialEq, Eq, Structural)]
pub enum TasksState {
    Main,
    Adding,
    Editing,
    Exit,
}

/// Where the program is: in the task list, or done.
#[derive(Debug, Clone, Copy, PartialEq, Eq, Structural)]
pub enum TuiState {
    Tasks(TasksState),
    Exit,
}

impl TuiState {
    /// The session has ended: no key is acted on any more.
    pub open spec fn is_terminal(self) -> bool {
        self == TuiState::Exit || self == TuiState::Tasks(TasksState::Exit)
    }

    /// Whether the session has ended.
    pub fn is_exit(&self) -> (ended: bool)
        ensures
            ended == self.is_terminal(),
    {
        match self {
            TuiState::Exit => true,
            TuiState::Tasks(TasksState::Exit) => true,
            _ => false,
        }
    }
}

/// A message shown on top of the current screen until it is dismissed.
#[derive(Debug)]
pub struct ErrorInfo {
    pub title: String,
    pub message: String,
    pub error_type: ErrorType,
}

/// What an [`ErrorInfo`] holds, as mathematical values.
pub struct ErrorInfoView {
    pub title: Seq<char>,
    pub message: Seq<char>,
    pub error_type: ErrorType,
}

impl View for ErrorInfo {
    type V = ErrorInfoView;

    open spec fn view(&self) -> ErrorInfoView {
        ErrorInfoView { title: self.title@, message: self.message@, error_type: self.error_type }
    }
}

impl Clone for ErrorInfo {
    fn clone(&self) -> (copy: Self)
        ensures
            copy@ == self@,
    {
        ErrorInfo {
            title: self.title.clone(),
            message: self.message.clone(),
            error_type: self.error_type,
        }
    }
}

/// The screen and the error overlay, if one is up.
#[derive(Debug)]
pub struct AppState {
    pub current_state: TuiState,
    pub error_state: Option<ErrorInfo>,
}

/// What an [`AppState`] holds, as mathematical values.
pub struct AppStateView {
    pub current_state: TuiState,
    pub error_state: Option<ErrorInfoView>,
}

impl View for AppState {
    type V = AppStateView;

    open spec fn view(&self) -> AppStateView {
        AppStateView {
            current_state: self.current_state,
            error_state: match self.error_state {
                Some(info) => Some(info@),
                None => None,
            },
        }
    }
}

impl AppStateView {
    /// The same state with an overlay of the given title, message and
    /// severity.
    pub open spec fn with_error(
        self,
        title: Seq<char>,
        message: Seq<char>,
        error_type: ErrorType,
    ) -> AppStateView {
        AppStateView { error_state: Some(ErrorInfoView { title, message, error_type }), ..self }
    }

    /// The same state without overlay.
    pub open spec fn without_error(self) -> AppStateView {
        AppStateView { error_state: None, ..self }
    }

    /// The same overlay, if any, on another screen.
    pub open spec fn on_screen(self, screen: TuiState) -> AppStateView {
        AppStateView { current_state: screen, ..self }
    }
}

impl AppState {
    /// The state at the start of a session: the main screen, no overlay.
    pub fn new() -> (state: AppState)
        ensures
            state.current_state == TuiState::Tasks(TasksState::Main),
            state.error_state.is_none(),
            state@ == (AppStateView {
                current_state: TuiState::Tasks(TasksState::Main),
                error_state: None,
            }),
    {
        AppState { current_state: TuiState::Tasks(TasksState::Main), error_state: None }
    }

    /// Puts up an error overlay, in place of the one that was up, if any. The
    /// screen stays.
    pub fn set_error(&mut self, title: String, message: String, error_type: ErrorType)
        ensures
            final(self)@ == old(self)@.with_error(title@, message@, error_type),
            final(self).error_state == Some(ErrorInfo { title, message, error_type }),
            final(self).current_state == old(self).current_state,
    {
        self.error_state = Some(ErrorInfo { title, message, error_type });
    }

    /// Takes the error overlay down. The screen stays.
    pub fn clear_error(&mut self)
        ensures
            final(self)@ == old(self)@.without_error(),
            final(self).error_state.is_none(),
            final(self).current_state == old(self).current_state,
    {
        self.error_state = None;
    }

    /// Whether an error overlay is up.
    pub fn has_error(&self) -> (up: bool)
        ensures
            up == self.error_state.is_some(),
            up == self@.error_state.is_some(),
    {
        self.error_state.is_some()
    }
}

} // verus!
