use vstd::prelude::*;
use crate::input::{Edit, Input, InputMode, InputView, submitted};
use crate::scroll::{ScrollState, max_scroll, scrolled_down, scrolled_up};

verus! {

/// Whether the text popup is shown.
pub struct App {
    pub show_popup: bool,
}

impl App {
    /// Starts with the popup hidden.
    pub fn new() -> (r: App)
        ensures
            !r.show_popup,
    {
        App { show_popup: false }
    }
}

/// The keys that the viewer tells apart.
#[derive(PartialEq, Eq, Structural, Clone, Copy, Debug)]
pub enum KeyCode {
    Char(char),
    Up,
    Down,
    Left,
    Right,
    Enter,
    Backspace,
    Other,
}

/// One input event: a key press (with whether Control was held) or a turn
/// of the mouse wheel.
#[derive(PartialEq, Eq, Structural, Clone, Copy, Debug)]
pub enum Event {
    Key { code: KeyCode, ctrl: bool },
    ScrollUp,
    ScrollDown,
    Other,
}

/// What the event loop does after an event.
#[derive(PartialEq, Eq, Structural, Clone, Copy, Debug)]
pub enum Action {
    Continue,
    Quit,
}

/// What a `Session` holds, as mathematical values.
pub ghost struct SessionView {
    pub show_popup: bool,
    pub input: InputView,
    pub scroll: nat,
}

/// The key that ends the session, in any mode.
pub open spec fn is_quit(event: Event) -> bool {
    event == (Event::Key { code: KeyCode::Char('q'), ctrl: false }) || event == (Event::Key {
        code: KeyCode::Char('q'),
        ctrl: true,
    })
}

/// The action taken on an event.
pub open spec fn action_of(event: Event) -> Action {
    if is_quit(event) {
        Action::Quit
    } else {
        Action::Continue
    }
}

/// The popup shown and the mode switched to editing, or both back.
pub open spec fn toggled(v: SessionView) -> SessionView {
    SessionView {
        show_popup: !v.show_popup,
        input: InputView {
            mode: if v.input.mode == InputMode::Normal {
                InputMode::Editing
            } else {
                InputMode::Normal
            },
            ..v.input
        },
        ..v
    }
}

/// An edit of the text field, applied only in editing mode.
pub open spec fn edited_in_mode(v: SessionView, e: Edit) -> SessionView {
    if v.input.mode == InputMode::Editing {
        SessionView { input: InputView { field: v.input.field.edited(e), ..v.input }, ..v }
    } else {
        v
    }
}

/// The state after one step up or down through the entries.
pub open spec fn scrolled(v: SessionView, down: bool, viewport_height: nat) -> SessionView {
    SessionView {
        scroll: if down {
            scrolled_down(v.scroll, v.input.messages.len(), viewport_height)
        } else {
            scrolled_up(v.scroll)
        },
        ..v
    }
}

/// The state after an event. The quit key changes nothing; scrolling, by
/// arrow key or mouse wheel alike, works in every mode; Control-f toggles the
/// popup; text keys edit only in editing mode.
pub open spec fn on_event(v: SessionView, event: Event, viewport_height: nat) -> SessionView {
    match event {
        Event::Key { code, ctrl } => match code {
            KeyCode::Char(c) => if c == 'q' {
                v
            } else if c == 'f' && ctrl {
                toggled(v)
            } else {
                edited_in_mode(v, Edit::Insert(c))
            },
            KeyCode::Up => scrolled(v, false, viewport_height),
            KeyCode::Down => scrolled(v, true, viewport_height),
            KeyCode::Left => edited_in_mode(v, Edit::Left),
            KeyCode::Right => edited_in_mode(v, Edit::Right),
            KeyCode::Backspace => edited_in_mode(v, Edit::Delete),
            KeyCode::Enter => if v.input.mode == InputMode::Editing {
                SessionView { input: submitted(v.input), ..v }
            } else {
                v
            },
            KeyCode::Other => v,
        },
        Event::ScrollUp => scrolled(v, false, viewport_height),
        Event::ScrollDown => scrolled(v, true, viewport_height),
        Event::Other => v,
    }
}

/// The state after a run of events, in order, against a fixed viewport.
pub open spec fn on_events(v: SessionView, events: Seq<Event>, viewport_height: nat) -> SessionView
    decreases events.len(),
{
    if events.len() == 0 {
        v
    } else {
        on_events(on_event(v, events[0], viewport_height), events.drop_first(), viewport_height)
    }
}

/// The stored offset lies in `[0, max(0, entries - viewport_height)]`.
pub open spec fn scroll_in_range(v: SessionView, viewport_height: nat) -> bool {
    v.scroll <= max_scroll(v.input.messages.len(), viewport_height)
}

/// One event keeps the stored offset in range: scrolling up lowers it,
/// scrolling down stops at the largest offset, and a submit only raises
/// that largest offset.
pub proof fn lemma_event_keeps_scroll_in_range(v: SessionView, event: Event, viewport_height: nat)
    requires
        scroll_in_range(v, viewport_height),
    ensures
        scroll_in_range(on_event(v, event, viewport_height), viewport_height),
{
}

/// From a state whose stored offset is in range (such as a new session's,
/// at zero), any run of events keeps it in
/// `[0, max(0, entries - viewport_height)]` for the entries at that point.
pub proof fn lemma_events_keep_scroll_in_range(
    v: SessionView,
    events: Seq<Event>,
    viewport_height: nat,
)
    requires
        scroll_in_range(v, viewport_height),
    ensures
        scroll_in_range(on_events(v, events, viewport_height), viewport_height),
    decreases events.len(),
{
    if events.len() > 0 {
        lemma_event_keeps_scroll_in_range(v, events[0], viewport_height);
        lemma_events_keep_scroll_in_range(
            on_event(v, events[0], viewport_height),
            events.drop_first(),
            viewport_height,
        );
    }
}

/// The viewer's whole state: popup visibility, the text input with its
/// entries, and the scroll offset.
pub struct Session {
    app: App,
    input: Input,
    scroll: ScrollState,
}

impl View for Session {
    type V = SessionView;

    closed spec fn view(&self) -> SessionView {
        SessionView {
            show_popup: self.app.show_popup,
            input: self.input@,
            scroll: self.scroll.vertical_scroll as nat,
        }
    }
}

impl Session {
    /// The cursor is valid, and the popup is shown exactly in editing mode.
    pub closed spec fn wf(&self) -> bool {
        &&& self.input.wf()
        &&& (self.app.show_popup <==> self.input@.mode == InputMode::Editing)
    }

    /// The popup is shown exactly in editing mode, in every reachable state.
    pub proof fn lemma_popup_iff_editing(&self)
        requires
            self.wf(),
        ensures
            self@.show_popup <==> self@.input.mode == InputMode::Editing,
            self@.input.field.valid(),
    {
    }

    /// Popup hidden, normal mode, empty field, no entries, at the top.
    pub fn new() -> (r: Session)
        ensures
            r.wf(),
            !r@.show_popup,
            r@.input.mode == InputMode::Normal,
            r@.input.field.text.len() == 0,
            r@.input.field.cursor == 0,
            r@.input.messages.len() == 0,
            r@.scroll == 0,
    {
        Session { app: App::new(), input: Input::new(), scroll: ScrollState::new() }
    }

    /// Whether the popup is shown.
    pub fn show_popup(&self) -> (r: bool)
        ensures
            r == self@.show_popup,
    {
        self.app.show_popup
    }

    /// The text input and its entries.
    pub fn input(&self) -> (r: &Input)
        ensures
            r@ == self@.input,
    {
        &self.input
    }

    /// The stored scroll offset.
    pub fn scroll(&self) -> (r: &ScrollState)
        ensures
            r.vertical_scroll == self@.scroll,
    {
        &self.scroll
    }

    /// Applies one event, with `viewport_height` the number of rows of the
    /// entry pane, which bounds scrolling down, and says whether to go on.
    pub fn handle_event(&mut self, event: Event, viewport_height: usize) -> (r: Action)
        requires
            old(self).wf(),
        ensures
            final(self).wf(),
            final(self)@ == on_event(old(self)@, event, viewport_height as nat),
            r == action_of(event),
    {
        let editing = self.input.mode() == InputMode::Editing;
        match event {
            Event::Key { code, ctrl } => match code {
                KeyCode::Char(c) => {
                    if c == 'q' {
                        return Action::Quit;
                    } else if c == 'f' && ctrl {
                        self.app.show_popup = !self.app.show_popup;
                        if editing {
                            self.input.set_mode(InputMode::Normal);
                        } else {
                            self.input.set_mode(InputMode::Editing);
                        }
                    } else if editing {
                        self.input.enter_char(c);
                    }
                },
                KeyCode::Up => self.scroll.scroll_up(),
                KeyCode::Down => self.scroll_down(viewport_height),
                KeyCode::Left => if editing {
                    self.input.move_cursor_left();
                },
                KeyCode::Right => if editing {
                    self.input.move_cursor_right();
                },
                KeyCode::Backspace => if editing {
                    self.input.delete_char();
                },
                KeyCode::Enter => if editing {
                    self.input.submit_message();
                },
                KeyCode::Other => {},
            },
            Event::ScrollUp => self.scroll.scroll_up(),
            Event::ScrollDown => self.scroll_down(viewport_height),
            Event::Other => {},
        }
        Action::Continue
    }

    fn scroll_down(&mut self, viewport_height: usize)
        requires
            old(self).wf(),
        ensures
            final(self).wf(),
            final(self)@ == scrolled(old(self)@, true, viewport_height as nat),
    {
        let count = self.input.messages().len();
        self.scroll.scroll_down(count, viewport_height);
    }
}

} // verus!
