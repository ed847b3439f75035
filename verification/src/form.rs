//! The form in which a task is added or edited.

use vstd::prelude::*;
use crate::keys::{KeyCode, KeyEvent};
use crate::priority::Priority;
use crate::scroll::{
    as_offset, cursor_can_show, cursor_line, lemma_cursor_in_view, lemma_scroll_within_bounds,
    lemma_scroll_idempotent, lemma_text_lines, max_scroll, scrolled_to_cursor, text_lines,
};
use crate::task::{Task, TaskView};
use crate::text::{byte_len, has_visible_char, is_blank, pop_char, push_char, text_len};

verus! {

/// The fields of the form, in the order in which Tab visits them.
#[derive(Debug, Clone, Copy, PartialEq, Eq, Structural)]
pub enum AddingField {
    Task,
    Priority,
    Description,
}

impl AddingField {
    /// The field that Tab moves to.
    pub open spec fn following(self) -> AddingField {
        match self {
            AddingField::Task => AddingField::Priority,
            AddingField::Priority => AddingField::Description,
            AddingField::Description => AddingField::Task,
        }
    }

    /// The field that Shift+Tab moves to.
    pub open spec fn preceding(self) -> AddingField {
        match self {
            AddingField::Task => AddingField::Description,
            AddingField::Priority => AddingField::Task,
            AddingField::Description => AddingField::Priority,
        }
    }

    /// Tab and Shift+Tab undo each other, and three of either come round.
    pub proof fn lemma_cycle(self)
        ensures
            self.following().preceding() == self,
            self.preceding().following() == self,
            self.following().following().following() == self,
            self.preceding().preceding().preceding() == self,
    {
    }
}

/// The size of the description field's text area, in columns and lines.
#[derive(Debug, Clone, Copy, PartialEq, Eq, Structural)]
pub struct FormDimensions {
    pub field_width: u16,
    pub field_height: u16,
}

impl FormDimensions {
    /// The dimensions before the form has been drawn: no width, no height.
    pub fn new() -> (dimensions: FormDimensions)
        ensures
            dimensions == (FormDimensions { field_width: 0, field_height: 0 }),
    {
        FormDimensions { field_width: 0, field_height: 0 }
    }

    /// The text area has width and height, so that a text in it scrolls.
    pub open spec fn has_area(self) -> bool {
        self.field_width > 0 && self.field_height > 0
    }

    /// The text area inside a bordered field that is `width` columns wide and
    /// `height` lines high: one column and one line less on every side.
    pub open spec fn inside(width: u16, height: u16) -> FormDimensions {
        FormDimensions {
            field_width: if width >= 2 {
                (width - 2) as u16
            } else {
                0
            },
            field_height: if height >= 2 {
                (height - 2) as u16
            } else {
                0
            },
        }
    }

    /// The text area inside a bordered field that is `width` columns wide and
    /// `height` lines high.
    pub fn calculate(width: u16, height: u16) -> (dimensions: FormDimensions)
        ensures
            dimensions == FormDimensions::inside(width, height),
    {
        FormDimensions {
            field_width: width.saturating_sub(2),
            field_height: height.saturating_sub(2),
        }
    }
}

/// What the form holds while a task is added or edited.
#[derive(Debug)]
pub struct AddingState {
    pub input_task: String,
    pub selected_priority: Priority,
    pub input_description: String,
    pub current_field: AddingField,
    /// The first line of the description that is in view.
    pub description_scroll_offset: u16,
    /// The description's text area as it was last drawn.
    pub form_dimensions: FormDimensions,
}

/// What an [`AddingState`] holds, as mathematical values.
pub struct FormView {
    pub input_task: Seq<char>,
    pub selected_priority: Priority,
    pub input_description: Seq<char>,
    pub current_field: AddingField,
    pub description_scroll_offset: u16,
    pub form_dimensions: FormDimensions,
}

impl View for AddingState {
    type V = FormView;

    open spec fn view(&self) -> FormView {
        FormView {
            input_task: self.input_task@,
            selected_priority: self.selected_priority,
            input_description: self.input_description@,
            current_field: self.current_field,
            description_scroll_offset: self.description_scroll_offset,
            form_dimensions: self.form_dimensions,
        }
    }
}

/// The priority that a letter typed into the priority field selects: `h`,
/// `m` and `l`, in either case, select `High`, `Medium` and `Low`.
pub open spec fn priority_for_letter(c: char) -> Option<Priority> {
    if c == 'h' || c == 'H' {
        Some(Priority::High)
    } else if c == 'm' || c == 'M' {
        Some(Priority::Medium)
    } else if c == 'l' || c == 'L' {
        Some(Priority::Low)
    } else {
        None
    }
}

impl FormView {
    /// The empty form: no name, `Medium`, no description, the name field
    /// active, nothing scrolled, not drawn yet.
    pub open spec fn blank() -> FormView {
        FormView {
            input_task: Seq::empty(),
            selected_priority: Priority::Medium,
            input_description: Seq::empty(),
            current_field: AddingField::Task,
            description_scroll_offset: 0,
            form_dimensions: FormDimensions { field_width: 0, field_height: 0 },
        }
    }

    /// The form filled in from `task`.
    pub open spec fn editing(task: TaskView) -> FormView {
        FormView {
            input_task: task.name,
            selected_priority: task.priority,
            input_description: task.description,
            ..FormView::blank()
        }
    }

    /// The length of the description in bytes.
    pub open spec fn description_len(self) -> int {
        byte_len(self.input_description) as int
    }

    /// How far down the description can be scrolled in a text area of the
    /// given size.
    pub open spec fn calculate_max_scroll(self, field_width: u16, field_height: u16) -> u16 {
        as_offset(max_scroll(self.description_len(), field_width as int, field_height as int))
    }

    /// The form after its description has followed the cursor in a text area
    /// of `dimensions`.
    pub open spec fn auto_scroll_to_cursor(self, dimensions: FormDimensions) -> FormView {
        FormView {
            description_scroll_offset: as_offset(
                scrolled_to_cursor(
                    self.description_len(),
                    dimensions.field_width as int,
                    dimensions.field_height as int,
                    self.description_scroll_offset as int,
                ),
            ),
            ..self
        }
    }

    /// The scroll offset is no larger than the largest that still shows text.
    pub open spec fn within_max_scroll(self, dimensions: FormDimensions) -> bool {
        self.description_scroll_offset <= max_scroll(
            self.description_len(),
            dimensions.field_width as int,
            dimensions.field_height as int,
        )
    }

    /// The line of the cursor is one of the lines in view.
    pub open spec fn cursor_in_view(self, dimensions: FormDimensions) -> bool {
        self.description_scroll_offset <= cursor_line(
            self.description_len(),
            dimensions.field_width as int,
        ) < self.description_scroll_offset + dimensions.field_height
    }

    /// Scrolling can bring the cursor into view: see
    /// [`cursor_can_show`](crate::scroll::cursor_can_show).
    pub open spec fn cursor_can_show(self, dimensions: FormDimensions) -> bool {
        cursor_can_show(
            self.description_len(),
            dimensions.field_width as int,
            dimensions.field_height as int,
        )
    }

    /// The form with its description scrolled up by `amount` lines, and not
    /// above its first line.
    pub open spec fn scroll_up(self, amount: u16) -> FormView {
        FormView {
            description_scroll_offset: if self.description_scroll_offset >= amount {
                (self.description_scroll_offset - amount) as u16
            } else {
                0
            },
            ..self
        }
    }

    /// The form with its description scrolled down by `amount` lines, and not
    /// below `calculate_max_scroll`.
    pub open spec fn scroll_down(self, amount: u16, field_width: u16, field_height: u16) -> FormView {
        FormView {
            description_scroll_offset: if self.description_scroll_offset + amount
                <= self.calculate_max_scroll(field_width, field_height) {
                (self.description_scroll_offset + amount) as u16
            } else {
                self.calculate_max_scroll(field_width, field_height)
            },
            ..self
        }
    }

    /// The form with the next field active.
    pub open spec fn cycle_field_forward(self) -> FormView {
        FormView { current_field: self.current_field.following(), ..self }
    }

    /// The form with the field before active.
    pub open spec fn cycle_field_backward(self) -> FormView {
        FormView { current_field: self.current_field.preceding(), ..self }
    }

    /// Whether `key` moves between fields: Tab and reverse tab do.
    pub open spec fn navigates(key: KeyEvent) -> bool {
        key.code == KeyCode::Tab || key.code == KeyCode::BackTab
    }

    /// The form after `key` as a key that moves between fields: Tab moves
    /// forward, Tab with Shift and reverse tab move backward.
    pub open spec fn handle_field_navigation(self, key: KeyEvent) -> FormView {
        if key.code == KeyCode::Tab && !key.shift {
            self.cycle_field_forward()
        } else if FormView::navigates(key) {
            self.cycle_field_backward()
        } else {
            self
        }
    }

    /// The form after `c` was typed into the active field.
    pub open spec fn handle_character_input(self, c: char) -> FormView {
        match self.current_field {
            AddingField::Task => FormView { input_task: self.input_task.push(c), ..self },
            AddingField::Priority => match priority_for_letter(c) {
                Some(priority) => FormView { selected_priority: priority, ..self },
                None => self,
            },
            AddingField::Description => FormView {
                input_description: self.input_description.push(c),
                ..self
            },
        }
    }

    /// The form after Backspace in the active field.
    pub open spec fn handle_backspace(self) -> FormView {
        match self.current_field {
            AddingField::Task => if self.input_task.len() > 0 {
                FormView { input_task: self.input_task.drop_last(), ..self }
            } else {
                self
            },
            AddingField::Priority => FormView {
                selected_priority: self.selected_priority.predecessor(),
                ..self
            },
            AddingField::Description => if self.input_description.len() > 0 {
                FormView { input_description: self.input_description.drop_last(), ..self }
            } else {
                self
            },
        }
    }

    /// The form after `key` as an arrow key in the active field, the
    /// description being shown in a text area of `dimensions`.
    pub open spec fn handle_arrows(self, dimensions: FormDimensions, key: KeyEvent) -> FormView {
        match self.current_field {
            AddingField::Task => self,
            AddingField::Priority => if key.code == KeyCode::Up {
                FormView { selected_priority: self.selected_priority.successor(), ..self }
            } else if key.code == KeyCode::Down {
                FormView { selected_priority: self.selected_priority.predecessor(), ..self }
            } else {
                self
            },
            AddingField::Description => if key.code == KeyCode::Up {
                self.scroll_up(1)
            } else if key.code == KeyCode::Down {
                self.scroll_down(1, dimensions.field_width, dimensions.field_height)
            } else {
                self
            },
        }
    }

    /// The form after its description field was drawn `width` columns wide
    /// and `height` lines high, borders included: it holds the size of the
    /// text area inside, and its description has followed the cursor.
    pub open spec fn resize(self, width: u16, height: u16) -> FormView {
        FormView {
            form_dimensions: FormDimensions::inside(width, height),
            ..self
        }.auto_scroll_to_cursor(FormDimensions::inside(width, height))
    }

    /// The form after a key that may have changed the description: where the
    /// description is the active field, it has followed the cursor.
    pub open spec fn follow_cursor(self) -> FormView {
        if self.current_field == AddingField::Description {
            self.auto_scroll_to_cursor(self.form_dimensions)
        } else {
            self
        }
    }

    /// Where the cursor stands in the active field, as columns and lines from
    /// the field's top left corner, border included: behind the name; at the
    /// start of the priority; behind the description's last byte as wrapped and
    /// scrolled, on the last line in view where that place is below it, and
    /// nowhere where the description's text area has no width.
    pub open spec fn cursor_offset(self) -> Option<(u16, u16)> {
        match self.current_field {
            AddingField::Task => Some((as_offset(byte_len(self.input_task) + 1), 1u16)),
            AddingField::Priority => Some((1u16, 1u16)),
            AddingField::Description => {
                let width = self.form_dimensions.field_width as int;
                let height = self.form_dimensions.field_height as int;
                if width == 0 {
                    None
                } else {
                    let line = cursor_line(self.description_len(), width);
                    let below_top = if line >= self.description_scroll_offset {
                        line - self.description_scroll_offset
                    } else {
                        0
                    };
                    Some(
                        (
                            as_offset(self.description_len() % width + 1),
                            if below_top < height {
                                as_offset(below_top + 1)
                            } else {
                                as_offset(height)
                            },
                        ),
                    )
                }
            },
        }
    }

    /// The task that the form describes.
    pub open spec fn to_task(self) -> TaskView {
        TaskView {
            name: self.input_task,
            priority: self.selected_priority,
            description: self.input_description,
        }
    }

    /// The name has a character that is not white space.
    pub open spec fn is_valid(self) -> bool {
        has_visible_char(self.input_task)
    }

    /// A form that was filled in from a task and not touched since gives that
    /// task back.
    pub proof fn lemma_edit_round_trip(task: TaskView)
        ensures
            FormView::editing(task).to_task() == task,
    {
    }

    /// After the description has followed the cursor in a text area with
    /// width and height, the scroll offset is no larger than the largest that
    /// still shows text, and the cursor's line is in view on every input on
    /// which scrolling can bring it there.
    pub proof fn lemma_auto_scroll_shows_cursor(self, dimensions: FormDimensions)
        requires
            dimensions.has_area(),
        ensures
            self.auto_scroll_to_cursor(dimensions).within_max_scroll(dimensions),
            self.cursor_can_show(dimensions) ==> self.auto_scroll_to_cursor(
                dimensions,
            ).cursor_in_view(dimensions),
    {
        let len = self.description_len();
        let width = dimensions.field_width as int;
        let height = dimensions.field_height as int;
        let offset = self.description_scroll_offset as int;
        lemma_scroll_within_bounds(len, width, height, offset);
        if self.cursor_can_show(dimensions) {
            lemma_cursor_in_view(len, width, height, offset);
        }
    }

    /// Following the cursor twice in the same text area is following it once.
    pub proof fn lemma_auto_scroll_idempotent(self, dimensions: FormDimensions)
        ensures
            self.auto_scroll_to_cursor(dimensions).auto_scroll_to_cursor(dimensions)
                == self.auto_scroll_to_cursor(dimensions),
    {
        lemma_scroll_idempotent(
            self.description_len(),
            dimensions.field_width as int,
            dimensions.field_height as int,
            self.description_scroll_offset as int,
        );
    }
}

/// The number of lines that a text of `len` bytes takes at `width` columns.
fn count_lines(len: usize, width: u16) -> (lines: usize)
    requires
        width > 0,
    ensures
        lines == text_lines(len as int, width as int),
{
    proof {
        lemma_text_lines(len as int, width as int);
    }
    if len == 0 {
        1
    } else if len % (width as usize) == 0 {
        len / (width as usize)
    } else {
        len / (width as usize) + 1
    }
}

/// A number of lines as a scroll offset: held to `u16::MAX`.
fn to_offset(lines: usize) -> (offset: u16)
    ensures
        offset == as_offset(lines as int),
{
    if lines >= u16::MAX as usize {
        u16::MAX
    } else {
        lines as u16
    }
}

impl Default for AddingState {
    fn default() -> (form: AddingState)
        ensures
            form@ == FormView::blank(),
    {
        AddingState::new()
    }
}

impl AddingState {
    /// The empty form of the Add screen.
    pub fn new() -> (form: AddingState)
        ensures
            form@ == FormView::blank(),
    {
        AddingState {
            input_task: String::new(),
            selected_priority: Priority::Medium,
            input_description: String::new(),
            current_field: AddingField::Task,
            description_scroll_offset: 0,
            form_dimensions: FormDimensions::new(),
        }
    }

    /// The form of the Edit screen, filled in from `task`.
    pub fn editing(task: &Task) -> (form: AddingState)
        ensures
            form@ == FormView::editing(task@),
            form@.to_task() == task@,
    {
        AddingState {
            input_task: task.task.clone(),
            selected_priority: task.priority,
            input_description: task.description.clone(),
            current_field: AddingField::Task,
            description_scroll_offset: 0,
            form_dimensions: FormDimensions::new(),
        }
    }

    /// How far down the description can be scrolled in a text area of the
    /// given size: the number of its lines that do not fit, held to
    /// `u16::MAX`; `0` where the area has no width or no height.
    pub fn calculate_max_scroll(&self, field_width: u16, field_height: u16) -> (max: u16)
        ensures
            max == self@.calculate_max_scroll(field_width, field_height),
            max == as_offset(
                max_scroll(
                    byte_len(self.input_description@) as int,
                    field_width as int,
                    field_height as int,
                ),
            ),
    {
        if field_width == 0 || field_height == 0 {
            return 0;
        }
        let lines = count_lines(text_len(&self.input_description), field_width);
        if lines > field_height as usize {
            to_offset(lines - field_height as usize)
        } else {
            0
        }
    }

    /// Scrolls the description so that the line of the cursor, which stands
    /// at its end, is in view, and no further down than `calculate_max_scroll`
    /// allows. Does nothing for a text area without width or height.
    pub fn auto_scroll_to_cursor(&mut self, form_dimensions: &FormDimensions)
        ensures
            final(self)@ == old(self)@.auto_scroll_to_cursor(*form_dimensions),
            form_dimensions.has_area() ==> final(self)@.within_max_scroll(
                *form_dimensions,
            ),
            form_dimensions.has_area() && old(self)@.cursor_can_show(*form_dimensions)
                ==> final(self)@.cursor_in_view(*form_dimensions),
    {
        let width = form_dimensions.field_width;
        let height = form_dimensions.field_height;
        if width == 0 || height == 0 {
            return;
        }
        let len = text_len(&self.input_description);
        let offset = self.description_scroll_offset;
        proof {
            lemma_text_lines(len as int, width as int);
            lemma_scroll_within_bounds(len as int, width as int, height as int, offset as int);
            if cursor_can_show(len as int, width as int, height as int) {
                lemma_cursor_in_view(len as int, width as int, height as int, offset as int);
            }
        }
        let line = len / (width as usize);
        let max = self.calculate_max_scroll(width, height);
        let in_view = if line >= offset as usize + height as usize {
            to_offset(line - (height as usize - 1))
        } else if line < offset as usize {
            line as u16
        } else {
            offset
        };
        self.description_scroll_offset = if in_view <= max {
            in_view
        } else {
            max
        };
    }

    /// Scrolls the description up by `amount` lines, and not above its first
    /// line.
    pub fn scroll_up(&mut self, amount: u16)
        ensures
            final(self)@ == old(self)@.scroll_up(amount),
    {
        self.description_scroll_offset = self.description_scroll_offset.saturating_sub(amount);
    }

    /// Scrolls the description down by `amount` lines, and not below what
    /// `calculate_max_scroll` allows for a text area of the given size.
    pub fn scroll_down(&mut self, amount: u16, field_width: u16, field_height: u16)
        ensures
            final(self)@ == old(self)@.scroll_down(amount, field_width, field_height),
            final(self).description_scroll_offset <= old(self)@.calculate_max_scroll(
                field_width,
                field_height,
            ),
    {
        let max = self.calculate_max_scroll(field_width, field_height);
        let wanted = self.description_scroll_offset as u32 + amount as u32;
        self.description_scroll_offset = if wanted <= max as u32 {
            wanted as u16
        } else {
            max
        };
    }

    /// Makes the next field the active one; after the description comes the
    /// name again.
    pub fn cycle_field_forward(&mut self)
        ensures
            final(self)@ == old(self)@.cycle_field_forward(),
    {
        self.current_field = match self.current_field {
            AddingField::Task => AddingField::Priority,
            AddingField::Priority => AddingField::Description,
            AddingField::Description => AddingField::Task,
        };
    }

    /// Makes the field before the active one; before the name comes the
    /// description.
    pub fn cycle_field_backward(&mut self)
        ensures
            final(self)@ == old(self)@.cycle_field_backward(),
    {
        self.current_field = match self.current_field {
            AddingField::Task => AddingField::Description,
            AddingField::Priority => AddingField::Task,
            AddingField::Description => AddingField::Priority,
        };
    }

    /// Moves between fields on Tab (forward; backward with Shift) and on
    /// reverse tab (backward). Says whether `key` was one of these; any other
    /// key changes nothing.
    pub fn handle_field_navigation(&mut self, key: KeyEvent) -> (handled: bool)
        ensures
            handled == FormView::navigates(key),
            final(self)@ == old(self)@.handle_field_navigation(key),
    {
        match key.code {
            KeyCode::Tab => {
                if key.shift {
                    self.cycle_field_backward();
                } else {
                    self.cycle_field_forward();
                }
                true
            },
            KeyCode::BackTab => {
                self.cycle_field_backward();
                true
            },
            _ => false,
        }
    }

    /// Takes a typed character: the name and the description get it appended;
    /// the priority field reads `h`, `m` and `l`, in either case, as `High`,
    /// `Medium` and `Low`, and nothing else.
    pub fn handle_character_input(&mut self, c: char)
        ensures
            final(self)@ == old(self)@.handle_character_input(c),
    {
        match self.current_field {
            AddingField::Task => push_char(&mut self.input_task, c),
            AddingField::Priority => {
                if c == 'h' || c == 'H' {
                    self.selected_priority = Priority::High;
                } else if c == 'm' || c == 'M' {
                    self.selected_priority = Priority::Medium;
                } else if c == 'l' || c == 'L' {
                    self.selected_priority = Priority::Low;
                }
            },
            AddingField::Description => push_char(&mut self.input_description, c),
        }
    }

    /// Takes a backspace: the name and the description lose their last
    /// character, if they have one; the priority field moves to the previous
    /// priority of the cycle.
    pub fn handle_backspace(&mut self)
        ensures
            final(self)@ == old(self)@.handle_backspace(),
    {
        match self.current_field {
            AddingField::Task => {
                let _ = pop_char(&mut self.input_task);
            },
            AddingField::Priority => {
                self.selected_priority.previous();
            },
            AddingField::Description => {
                let _ = pop_char(&mut self.input_description);
            },
        }
    }

    /// Takes an arrow key: in the priority field Up moves to the next priority
    /// and Down to the previous one; in the description Up and Down scroll by
    /// one line within a text area of `form_dimensions`. Other keys, and the
    /// name field, change nothing.
    pub fn handle_arrows(&mut self, form_dimensions: &FormDimensions, key: KeyEvent)
        ensures
            final(self)@ == old(self)@.handle_arrows(*form_dimensions, key),
    {
        match self.current_field {
            AddingField::Task => {},
            AddingField::Priority => {
                match key.code {
                    KeyCode::Up => self.selected_priority.next(),
                    KeyCode::Down => self.selected_priority.previous(),
                    _ => {},
                }
            },
            AddingField::Description => {
                match key.code {
                    KeyCode::Up => self.scroll_up(1),
                    KeyCode::Down => self.scroll_down(
                        1,
                        form_dimensions.field_width,
                        form_dimensions.field_height,
                    ),
                    _ => {},
                }
            },
        }
    }

    /// The task that the form describes. The form stays as it is.
    pub fn to_task(&self) -> (task: Task)
        ensures
            task@ == self@.to_task(),
    {
        Task {
            task: self.input_task.clone(),
            priority: self.selected_priority,
            description: self.input_description.clone(),
        }
    }

    /// Whether the form can be committed: the name, with the white space at
    /// its ends taken away, is not empty.
    pub fn is_valid(&self) -> (valid: bool)
        ensures
            valid == self@.is_valid(),
            valid == has_visible_char(self.input_task@),
    {
        !is_blank(&self.input_task)
    }

    /// Takes note that the description field was drawn `width` columns wide
    /// and `height` lines high, borders included, and scrolls the description
    /// so that the cursor is in view of the text area inside.
    pub fn resize(&mut self, width: u16, height: u16)
        ensures
            final(self)@ == old(self)@.resize(width, height),
            final(self).form_dimensions == FormDimensions::inside(width, height),
            final(self).form_dimensions.has_area() ==> final(self)@.within_max_scroll(
                final(self).form_dimensions,
            ),
            final(self).form_dimensions.has_area() && final(self)@.cursor_can_show(
                final(self).form_dimensions,
            ) ==> final(self)@.cursor_in_view(final(self).form_dimensions),
    {
        let dimensions = FormDimensions::calculate(width, height);
        self.form_dimensions = dimensions;
        self.auto_scroll_to_cursor(&dimensions);
    }

    /// Scrolls the description so that the cursor is in view, where the
    /// description is the active field.
    pub fn follow_cursor(&mut self)
        ensures
            final(self)@ == old(self)@.follow_cursor(),
    {
        match self.current_field {
            AddingField::Description => {
                let dimensions = self.form_dimensions;
                self.auto_scroll_to_cursor(&dimensions);
            },
            _ => {},
        }
    }

    /// Where to put the cursor in the active field, as columns and lines from
    /// the field's top left corner; `None` where the description is active and
    /// its text area has no width.
    pub fn cursor_offset(&self) -> (place: Option<(u16, u16)>)
        ensures
            place == self@.cursor_offset(),
    {
        match self.current_field {
            AddingField::Task => {
                let len = text_len(&self.input_task);
                let column = if len >= u16::MAX as usize {
                    u16::MAX
                } else {
                    (len + 1) as u16
                };
                Some((column, 1))
            },
            AddingField::Priority => Some((1, 1)),
            AddingField::Description => {
                let width = self.form_dimensions.field_width;
                let height = self.form_dimensions.field_height;
                if width == 0 {
                    return None;
                }
                let len = text_len(&self.input_description);
                proof {
                    lemma_text_lines(len as int, width as int);
                }
                let line = len / (width as usize);
                let column = (len % (width as usize)) as u32 + 1;
                let offset = self.description_scroll_offset as usize;
                let below_top = if line >= offset {
                    line - offset
                } else {
                    0
                };
                let row = if below_top < height as usize {
                    (below_top + 1) as u16
                } else {
                    height
                };
                Some((if column >= u16::MAX as u32 { u16::MAX } else { column as u16 }, row))
            },
        }
    }
}

} // verus!
