use vstd::prelude::*;

verus! {

/// Whether keystrokes edit the popup's text field.
#[derive(PartialEq, Eq, Structural, Clone, Copy, Debug)]
pub enum InputMode {
    Normal,
    Editing,
}

/// One operation on the text field.
#[derive(PartialEq, Eq, Structural, Clone, Copy, Debug)]
pub enum Edit {
    Insert(char),
    Delete,
    Left,
    Right,
}

/// A text field and its cursor, as a character sequence and a character
/// index into it.
pub struct Field {
    pub text: Seq<char>,
    pub cursor: nat,
}

impl Field {
    /// The cursor is a valid insertion point.
    pub open spec fn valid(self) -> bool {
        self.cursor <= self.text.len()
    }

    /// The field after one edit. Moves are clamped to `[0, len]`; a delete
    /// at the start of the text does nothing.
    pub open spec fn edited(self, e: Edit) -> Field {
        match e {
            Edit::Insert(c) => Field { text: self.text.insert(self.cursor as int, c), cursor: self.cursor + 1 },
            Edit::Delete => if self.cursor == 0 {
                self
            } else {
                Field {
                    text: self.text.remove(self.cursor - 1),
                    cursor: (self.cursor - 1) as nat,
                }
            },
            Edit::Left => Field {
                text: self.text,
                cursor: if self.cursor > 0 { (self.cursor - 1) as nat } else { 0 },
            },
            Edit::Right => Field {
                text: self.text,
                cursor: if self.cursor < self.text.len() { self.cursor + 1 } else { self.text.len() },
            },
        }
    }

    /// The field after a run of edits, in order.
    pub open spec fn edited_by(self, edits: Seq<Edit>) -> Field
        decreases edits.len(),
    {
        if edits.len() == 0 {
            self
        } else {
            self.edited(edits[0]).edited_by(edits.drop_first())
        }
    }

    /// How many deletes in a run of edits remove a character, that is, are
    /// applied with the cursor away from the start.
    pub open spec fn removals(self, edits: Seq<Edit>) -> nat
        decreases edits.len(),
    {
        if edits.len() == 0 {
            0
        } else {
            let here: nat = if edits[0] == Edit::Delete && self.cursor > 0 { 1 } else { 0 };
            here + self.edited(edits[0]).removals(edits.drop_first())
        }
    }
}

/// How many inserts a run of edits holds.
pub open spec fn insert_count(edits: Seq<Edit>) -> nat
    decreases edits.len(),
{
    if edits.len() == 0 {
        0
    } else {
        let here: nat = if edits[0] is Insert { 1 } else { 0 };
        here + insert_count(edits.drop_first())
    }
}

/// What an `Input` holds, as mathematical values.
pub ghost struct InputView {
    pub field: Field,
    pub mode: InputMode,
    pub messages: Seq<Seq<char>>,
}

/// The popup's text field, its cursor, the input mode and the log of
/// submitted entries.
pub struct Input {
    input: Vec<char>,
    cursor_position: usize,
    input_mode: InputMode,
    messages: Vec<Vec<char>>,
}

impl View for Input {
    type V = InputView;

    closed spec fn view(&self) -> InputView {
        InputView {
            field: Field { text: self.input@, cursor: self.cursor_position as nat },
            mode: self.input_mode,
            messages: self.messages@.map_values(|m: Vec<char>| m@),
        }
    }
}

impl Input {
    /// The cursor never passes the end of the text.
    pub open spec fn wf(&self) -> bool {
        self@.field.valid()
    }

    /// An empty field with the cursor at its start, in normal mode, with no
    /// entries.
    pub fn new() -> (r: Input)
        ensures
            r.wf(),
            r@.field.text == Seq::<char>::empty(),
            r@.field.cursor == 0,
            r@.mode == InputMode::Normal,
            r@.messages == Seq::<Seq<char>>::empty(),
    {
        let r = Input {
            input: Vec::new(),
            cursor_position: 0,
            input_mode: InputMode::Normal,
            messages: Vec::new(),
        };
        assert(r@.messages =~= Seq::<Seq<char>>::empty());
        r
    }

    /// The characters of the text field.
    pub fn text(&self) -> (r: &Vec<char>)
        ensures
            r@ == self@.field.text,
    {
        &self.input
    }

    /// The cursor, as a character index into the text.
    pub fn cursor(&self) -> (r: usize)
        ensures
            r == self@.field.cursor,
    {
        self.cursor_position
    }

    /// The current input mode.
    pub fn mode(&self) -> (r: InputMode)
        ensures
            r == self@.mode,
    {
        self.input_mode
    }

    /// The submitted entries, oldest first.
    pub fn messages(&self) -> (r: &Vec<Vec<char>>)
        ensures
            r@.map_values(|m: Vec<char>| m@) == self@.messages,
    {
        &self.messages
    }

    /// Sets the input mode, leaving the field and the entries as they are.
    pub fn set_mode(&mut self, mode: InputMode)
        ensures
            final(self)@ == (InputView { mode, ..old(self)@ }),
    {
        self.input_mode = mode;
    }

    /// Clamps a cursor position to `[0, len]`.
    pub fn clamp_cursor(&self, new_cursor_pos: usize) -> (r: usize)
        ensures
            r == if new_cursor_pos <= self@.field.text.len() {
                new_cursor_pos as int
            } else {
                self@.field.text.len() as int
            },
    {
        if new_cursor_pos <= self.input.len() {
            new_cursor_pos
        } else {
            self.input.len()
        }
    }

    /// Moves the cursor one character left, stopping at the start.
    pub fn move_cursor_left(&mut self)
        requires
            old(self).wf(),
        ensures
            final(self).wf(),
            final(self)@ == (InputView { field: old(self)@.field.edited(Edit::Left), ..old(self)@ }),
    {
        let moved = self.cursor_position.saturating_sub(1);
        self.cursor_position = self.clamp_cursor(moved);
    }

    /// Moves the cursor one character right, stopping at the end.
    pub fn move_cursor_right(&mut self)
        requires
            old(self).wf(),
        ensures
            final(self).wf(),
            final(self)@ == (InputView { field: old(self)@.field.edited(Edit::Right), ..old(self)@ }),
    {
        if self.cursor_position < self.input.len() {
            self.cursor_position = self.clamp_cursor(self.cursor_position + 1);
        }
    }

    /// Inserts a character at the cursor and moves the cursor past it.
    pub fn enter_char(&mut self, new_char: char)
        requires
            old(self).wf(),
        ensures
            final(self).wf(),
            final(self)@ == (InputView {
                field: old(self)@.field.edited(Edit::Insert(new_char)),
                ..old(self)@
            }),
    {
        self.input.insert(self.cursor_position, new_char);
        self.move_cursor_right();
    }

    /// Removes the character before the cursor and moves the cursor onto its
    /// place; does nothing with the cursor at the start.
    pub fn delete_char(&mut self)
        requires
            old(self).wf(),
        ensures
            final(self).wf(),
            final(self)@ == (InputView { field: old(self)@.field.edited(Edit::Delete), ..old(self)@ }),
    {
        if self.cursor_position != 0 {
            let current_index = self.cursor_position;
            self.move_cursor_left();
            self.input.remove(current_index - 1);
        }
    }

    /// Puts the cursor at the start of the text.
    pub fn reset_cursor(&mut self)
        ensures
            final(self).wf(),
            final(self)@ == (InputView {
                field: Field { text: old(self)@.field.text, cursor: 0 },
                ..old(self)@
            }),
    {
        self.cursor_position = 0;
    }

    /// Appends the text to the entries, then empties the field and puts the
    /// cursor at its start.
    pub fn submit_message(&mut self)
        ensures
            final(self).wf(),
            final(self)@ == submitted(old(self)@),
    {
        let text = self.input.split_off(0);
        proof {
            assert(text@ =~= old(self).input@);
        }
        self.messages.push(text);
        self.reset_cursor();
        assert(self@.messages =~= old(self)@.messages.push(old(self)@.field.text));
        assert(self@.field.text =~= Seq::<char>::empty());
    }
}

/// The state after a submit: the text joins the entries, and the field is
/// empty with the cursor at its start.
pub open spec fn submitted(v: InputView) -> InputView {
    InputView {
        field: Field { text: Seq::empty(), cursor: 0 },
        mode: v.mode,
        messages: v.messages.push(v.field.text),
    }
}

/// From any valid cursor position `p` in `[0, len]`, a move left followed by
/// a move right comes back to `p` unless `p` is 0; at either end the move
/// towards that end leaves the cursor where it is.
pub proof fn lemma_left_then_right(f: Field)
    requires
        f.valid(),
    ensures
        f.cursor > 0 ==> f.edited(Edit::Left).edited(Edit::Right) == f,
        f.cursor == 0 ==> f.edited(Edit::Left) == f,
        f.cursor == f.text.len() ==> f.edited(Edit::Right) == f,
{
}

/// Each edit keeps the cursor a valid insertion point.
pub proof fn lemma_edit_keeps_valid(f: Field, e: Edit)
    requires
        f.valid(),
    ensures
        f.edited(e).valid(),
{
}

/// Over any run of edits, the final text length is the starting length plus
/// the number of inserts minus the number of deletes that removed a
/// character; a delete with the cursor at the start removes nothing.
pub proof fn lemma_length_counts_edits(f: Field, edits: Seq<Edit>)
    requires
        f.valid(),
    ensures
        f.edited_by(edits).valid(),
        f.edited_by(edits).text.len() + f.removals(edits) == f.text.len() + insert_count(edits),
        f.cursor == 0 ==> f.edited(Edit::Delete) == f,
    decreases edits.len(),
{
    if edits.len() > 0 {
        lemma_edit_keeps_valid(f, edits[0]);
        lemma_length_counts_edits(f.edited(edits[0]), edits.drop_first());
    }
}

/// A submit always leaves an empty field with the cursor at its start, so a
/// second submit resets the field to the same state as the first.
pub proof fn lemma_submit_resets(v: InputView)
    ensures
        submitted(v).field.text.len() == 0,
        submitted(v).field.cursor == 0,
        submitted(submitted(v)).field == submitted(v).field,
        submitted(v).messages.len() == v.messages.len() + 1,
        submitted(v).messages.last() == v.field.text,
{
}

} // verus!
