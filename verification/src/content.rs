//! The text buffer: its characters, its cursor, and the editing primitives
//! that mutate them.

use vstd::prelude::*;

verus! {

/// A single editing primitive applied to the buffer.
#[derive(Clone, Debug, PartialEq, Eq)]
pub enum EditAction {
    /// Insert the character at the cursor; a newline starts a new line.
    Insert(char),
    /// Remove the character before the cursor, if any.
    Backspace,
    /// Remove the character under the cursor, if any.
    Delete,
    /// Move the cursor one character towards the start of the buffer.
    MoveLeft,
    /// Move the cursor one character towards the end of the buffer.
    MoveRight,
    /// Adopt the buffer and cursor a richer editing engine computed — a
    /// selection-aware edit, a word motion, a click — together with that
    /// engine's judgment of whether its action mutated the text. The cursor
    /// is clamped to the new text.
    Replace { text: Vec<char>, cursor: usize, mutating: bool },
}

/// Mathematical model of an editing primitive.
pub enum EditActionView {
    Insert(char),
    Backspace,
    Delete,
    MoveLeft,
    MoveRight,
    Replace { text: Seq<char>, cursor: int, mutating: bool },
}

impl View for EditAction {
    type V = EditActionView;

    open spec fn view(&self) -> EditActionView {
        match self {
            EditAction::Insert(c) => EditActionView::Insert(*c),
            EditAction::Backspace => EditActionView::Backspace,
            EditAction::Delete => EditActionView::Delete,
            EditAction::MoveLeft => EditActionView::MoveLeft,
            EditAction::MoveRight => EditActionView::MoveRight,
            EditAction::Replace { text, cursor, mutating } => EditActionView::Replace {
                text: text@,
                cursor: *cursor as int,
                mutating: *mutating,
            },
        }
    }
}

impl EditActionView {
    /// Whether the action mutates the buffer, as opposed to only moving the
    /// cursor.
    pub open spec fn is_edit_spec(self) -> bool {
        match self {
            EditActionView::Insert(_) => true,
            EditActionView::Backspace => true,
            EditActionView::Delete => true,
            EditActionView::MoveLeft => false,
            EditActionView::MoveRight => false,
            EditActionView::Replace { text: _, cursor: _, mutating } => mutating,
        }
    }
}

impl EditAction {
    /// Returns whether the action mutates the buffer.
    pub fn is_edit(&self) -> (mutating: bool)
        ensures
            mutating == self@.is_edit_spec(),
    {
        match self {
            EditAction::Insert(_) => true,
            EditAction::Backspace => true,
            EditAction::Delete => true,
            EditAction::MoveLeft => false,
            EditAction::MoveRight => false,
            EditAction::Replace { text: _, cursor: _, mutating } => *mutating,
        }
    }
}

/// Mathematical model of the buffer: its characters and the cursor's offset
/// into them.
pub struct ContentView {
    pub text: Seq<char>,
    pub cursor: int,
}

impl ContentView {
    /// The cursor always sits between 0 and the buffer length, inclusive.
    pub open spec fn wf(self) -> bool {
        0 <= self.cursor <= self.text.len()
    }
}

/// What one editing primitive does to the buffer: insertions and removals
/// happen at the cursor, and an action at the buffer's edge that has nothing
/// to act on leaves the buffer unchanged.
pub open spec fn apply_edit(c: ContentView, a: EditActionView) -> ContentView {
    match a {
        EditActionView::Insert(ch) => ContentView {
            text: c.text.insert(c.cursor, ch),
            cursor: c.cursor + 1,
        },
        EditActionView::Backspace => if c.cursor > 0 {
            ContentView { text: c.text.remove(c.cursor - 1), cursor: c.cursor - 1 }
        } else {
            c
        },
        EditActionView::Delete => if c.cursor < c.text.len() {
            ContentView { text: c.text.remove(c.cursor), cursor: c.cursor }
        } else {
            c
        },
        EditActionView::MoveLeft => if c.cursor > 0 {
            ContentView { text: c.text, cursor: c.cursor - 1 }
        } else {
            c
        },
        EditActionView::MoveRight => if c.cursor < c.text.len() {
            ContentView { text: c.text, cursor: c.cursor + 1 }
        } else {
            c
        },
        EditActionView::Replace { text, cursor, mutating: _ } => ContentView {
            text: text,
            cursor: if cursor < 0 {
                0
            } else if cursor <= text.len() {
                cursor
            } else {
                text.len() as int
            },
        },
    }
}

/// Editing a well-formed buffer yields a well-formed buffer.
pub proof fn lemma_apply_edit_wf(c: ContentView, a: EditActionView)
    requires
        c.wf(),
    ensures
        apply_edit(c, a).wf(),
{
}

/// The number of newline characters in `text` before offset `pos`: the
/// zero-based line the offset sits on.
pub open spec fn line_of(text: Seq<char>, pos: int) -> int
    decreases pos,
{
    if pos <= 0 {
        0
    } else {
        line_of(text, pos - 1) + if text[pos - 1] == '\n' {
            1int
        } else {
            0int
        }
    }
}

/// The offset at which the line containing offset `pos` begins: right after
/// the last newline before `pos`, or the start of the buffer.
pub open spec fn line_start(text: Seq<char>, pos: int) -> int
    decreases pos,
{
    if pos <= 0 {
        0
    } else if text[pos - 1] == '\n' {
        pos
    } else {
        line_start(text, pos - 1)
    }
}

/// The zero-based column of offset `pos`: its distance from the start of its
/// line.
pub open spec fn column_of(text: Seq<char>, pos: int) -> int {
    pos - line_start(text, pos)
}

/// The start of a line never precedes the buffer nor follows the offset, and
/// the line number never exceeds the offset.
pub proof fn lemma_line_bounds(text: Seq<char>, pos: int)
    requires
        0 <= pos,
    ensures
        0 <= line_start(text, pos) <= pos,
        0 <= line_of(text, pos) <= pos,
    decreases pos,
{
    if pos > 0 {
        lemma_line_bounds(text, pos - 1);
    }
}

/// The text buffer of the one open document.
pub struct Content {
    pub text: Vec<char>,
    pub cursor: usize,
}

impl View for Content {
    type V = ContentView;

    open spec fn view(&self) -> ContentView {
        ContentView { text: self.text@, cursor: self.cursor as int }
    }
}

impl Content {
    /// The cursor offset stays within the buffer.
    pub open spec fn wf(&self) -> bool {
        self@.wf()
    }

    /// Returns an empty buffer with the cursor at its start.
    pub fn new() -> (c: Content)
        ensures
            c@ == (ContentView { text: Seq::<char>::empty(), cursor: 0 }),
            c.wf(),
    {
        Content { text: Vec::new(), cursor: 0 }
    }

    /// Returns a buffer holding the given text, with the cursor at its
    /// start.
    pub fn with_text(text: Vec<char>) -> (c: Content)
        ensures
            c@ == (ContentView { text: text@, cursor: 0 }),
            c.wf(),
    {
        Content { text, cursor: 0 }
    }

    /// Applies one editing primitive to the buffer.
    pub fn apply(&mut self, a: EditAction)
        requires
            old(self).wf(),
            a matches EditAction::Insert(_) ==> old(self)@.text.len() < usize::MAX,
        ensures
            final(self)@ == apply_edit(old(self)@, a@),
            final(self).wf(),
    {
        match a {
            EditAction::Replace { text, cursor, mutating: _ } => {
                self.text = text;
                if cursor <= self.text.len() {
                    self.cursor = cursor;
                } else {
                    self.cursor = self.text.len();
                }
            },
            EditAction::Insert(ch) => {
                self.text.insert(self.cursor, ch);
                self.cursor = self.cursor + 1;
            },
            EditAction::Backspace => {
                if self.cursor > 0 {
                    self.cursor = self.cursor - 1;
                    self.text.remove(self.cursor);
                }
            },
            EditAction::Delete => {
                if self.cursor < self.text.len() {
                    self.text.remove(self.cursor);
                }
            },
            EditAction::MoveLeft => {
                if self.cursor > 0 {
                    self.cursor = self.cursor - 1;
                }
            },
            EditAction::MoveRight => {
                if self.cursor < self.text.len() {
                    self.cursor = self.cursor + 1;
                }
            },
        }
    }

    /// Returns the cursor's zero-based line and column, counting lines by
    /// the newlines before the cursor.
    pub fn cursor_position(&self) -> (pos: (usize, usize))
        requires
            self.wf(),
        ensures
            pos.0 as int == line_of(self@.text, self@.cursor),
            pos.1 as int == column_of(self@.text, self@.cursor),
    {
        let mut line: usize = 0;
        let mut start: usize = 0;
        let mut i: usize = 0;
        while i < self.cursor
            invariant
                self.wf(),
                i <= self.cursor,
                line <= i,
                start <= i,
                line as int == line_of(self@.text, i as int),
                start as int == line_start(self@.text, i as int),
            decreases self.cursor - i,
        {
            if self.text[i] == '\n' {
                line = line + 1;
                start = i + 1;
            }
            i = i + 1;
        }
        proof {
            lemma_line_bounds(self@.text, self@.cursor);
        }
        (line, self.cursor - start)
    }
}

/// The offset reached from `i` after skipping past `k` line breaks, or the
/// buffer's end if there are fewer.
pub open spec fn skip_lines(text: Seq<char>, i: int, k: int) -> int
    decreases text.len() - i,
{
    if i < 0 || i >= text.len() || k <= 0 {
        i
    } else if text[i] == '\n' {
        skip_lines(text, i + 1, k - 1)
    } else {
        skip_lines(text, i + 1, k)
    }
}

/// The offset reached from `i` after advancing at most `k` characters,
/// stopping at a line break or the buffer's end.
pub open spec fn skip_columns(text: Seq<char>, i: int, k: int) -> int
    decreases text.len() - i,
{
    if i < 0 || i >= text.len() || k <= 0 || text[i] == '\n' {
        i
    } else {
        skip_columns(text, i + 1, k - 1)
    }
}

/// The buffer offset of the given line and column: a line past the last one
/// stops at the buffer's end, a column past the line's end stops at its
/// break. The inverse of the cursor's line and column, for positions the
/// buffer holds.
pub open spec fn offset_at_spec(text: Seq<char>, line: int, column: int) -> int {
    skip_columns(text, skip_lines(text, 0, line), column)
}

/// Returns the buffer offset of the given zero-based line and column.
pub fn offset_at(text: &Vec<char>, line: usize, column: usize) -> (offset: usize)
    ensures
        offset as int == offset_at_spec(text@, line as int, column as int),
        offset <= text@.len(),
{
    let n = text.len();
    let mut i: usize = 0;
    let mut lines_left: usize = line;
    while i < n && lines_left > 0
        invariant
            i <= n,
            n == text@.len(),
            skip_lines(text@, i as int, lines_left as int) == skip_lines(
                text@,
                0,
                line as int,
            ),
        decreases n - i,
    {
        if text[i] == '\n' {
            lines_left = lines_left - 1;
        }
        i = i + 1;
    }
    let mut columns_left: usize = column;
    while i < n && columns_left > 0 && text[i] != '\n'
        invariant
            i <= n,
            n == text@.len(),
            skip_columns(text@, i as int, columns_left as int) == offset_at_spec(
                text@,
                line as int,
                column as int,
            ),
        decreases n - i,
    {
        i = i + 1;
        columns_left = columns_left - 1;
    }
    i
}

/// Returns a copy of the given characters.
pub fn clone_chars(v: &Vec<char>) -> (r: Vec<char>)
    ensures
        r@ == v@,
{
    let mut r: Vec<char> = Vec::new();
    let mut i: usize = 0;
    while i < v.len()
        invariant
            i <= v@.len(),
            r@ == v@.take(i as int),
        decreases v@.len() - i,
    {
        r.push(v[i]);
        proof {
            assert(r@ =~= v@.take(i as int + 1));
        }
        i = i + 1;
    }
    proof {
        assert(r@ =~= v@);
    }
    r
}

} // verus!
