use vstd::prelude::*;

verus! {

/// Key code that submits the line.
pub const KEY_NEWLINE: i32 = 10;

/// Key code that erases the character left of the cursor.
pub const KEY_ERASE_BACKWARD: i32 = 127;

/// Key code that erases the character under the cursor.
pub const KEY_ERASE_FORWARD: i32 = 126;

/// Key code that starts a two-byte escape sequence.
pub const KEY_ESCAPE: i32 = 27;

/// First byte of an arrow-key escape tail.
pub const ESCAPE_BRACKET: i32 = 91;

/// Second byte of the cursor-right escape tail.
pub const ARROW_RIGHT: i32 = 67;

/// Second byte of the cursor-left escape tail.
pub const ARROW_LEFT: i32 = 68;

/// Lowest key code inserted as a character.
pub const FIRST_PRINTABLE: i32 = 32;

/// Highest key code inserted as a character.
pub const LAST_PRINTABLE: i32 = 125;

/// Columns taken by the prompt left of the line.
pub const PROMPT_WIDTH: usize = 2;

/// The cursor never moves past this offset: with the prompt before it,
/// the last column it reaches is `PROMPT_WIDTH + CURSOR_LIMIT`.
pub const CURSOR_LIMIT: usize = 62;

/// The line never grows longer than this.
pub const MAX_LENGTH: usize = 62;

/// Progress through an escape sequence.
#[derive(Clone, Copy, PartialEq, Eq, Structural, Debug)]
pub enum EscapeState {
    /// No escape sequence under way.
    Idle,
    /// The escape key came; the tail's first byte is awaited.
    Lead,
    /// The tail's first byte came; its second is awaited.
    Tail(i32),
}

/// What the editor is: its text, its cursor offset and its escape progress.
pub type EditorView = (Seq<char>, int, EscapeState);

pub open spec fn is_printable(code: i32) -> bool {
    FIRST_PRINTABLE <= code <= LAST_PRINTABLE
}

/// The character that a printable key code inserts.
pub open spec fn char_of(code: i32) -> char {
    (code as u8) as char
}

/// The editor after one key code.
pub open spec fn step(s: EditorView, code: i32) -> EditorView {
    let (text, cursor, escape) = s;
    match escape {
        EscapeState::Lead => (text, cursor, EscapeState::Tail(code)),
        EscapeState::Tail(first) => {
            if first == ESCAPE_BRACKET && code == ARROW_RIGHT && cursor < text.len() && cursor
                < CURSOR_LIMIT {
                (text, cursor + 1, EscapeState::Idle)
            } else if first == ESCAPE_BRACKET && code == ARROW_LEFT && cursor > 0 {
                (text, cursor - 1, EscapeState::Idle)
            } else {
                (text, cursor, EscapeState::Idle)
            }
        },
        EscapeState::Idle => {
            if code == KEY_NEWLINE {
                (Seq::empty(), 0, EscapeState::Idle)
            } else if code == KEY_ERASE_BACKWARD {
                if cursor > 0 {
                    (text.remove(cursor - 1), cursor - 1, EscapeState::Idle)
                } else {
                    s
                }
            } else if code == KEY_ERASE_FORWARD {
                if cursor < text.len() {
                    (text.remove(cursor), cursor, EscapeState::Idle)
                } else {
                    s
                }
            } else if code == KEY_ESCAPE {
                (text, cursor, EscapeState::Lead)
            } else if is_printable(code) {
                if cursor < CURSOR_LIMIT && text.len() < MAX_LENGTH {
                    (text.insert(cursor, char_of(code)), cursor + 1, EscapeState::Idle)
                } else {
                    s
                }
            } else {
                s
            }
        },
    }
}

/// The editor after a sequence of key codes, fed in order.
pub open spec fn steps(s: EditorView, codes: Seq<i32>) -> EditorView
    decreases codes.len(),
{
    if codes.len() == 0 {
        s
    } else {
        step(steps(s, codes.drop_last()), codes.last())
    }
}

/// The cursor lies within the text and within its limit, and the text
/// within its maximum length.
pub open spec fn editor_wf(s: EditorView) -> bool {
    &&& 0 <= s.1 <= s.0.len()
    &&& s.1 <= CURSOR_LIMIT
    &&& s.0.len() <= MAX_LENGTH
}

/// Whether a key code submits the line in the given escape state.
pub open spec fn submits(escape: EscapeState, code: i32) -> bool {
    escape == EscapeState::Idle && code == KEY_NEWLINE
}

/// One key code keeps the cursor within the text and its limit.
pub proof fn lemma_step_keeps_bounds(s: EditorView, code: i32)
    requires
        editor_wf(s),
    ensures
        editor_wf(step(s, code)),
{
}

/// After any sequence of key codes the cursor offset lies between zero and
/// both the text's length and the cursor limit.
pub proof fn lemma_steps_keep_bounds(s: EditorView, codes: Seq<i32>)
    requires
        editor_wf(s),
    ensures
        editor_wf(steps(s, codes)),
        0 <= steps(s, codes).1 <= steps(s, codes).0.len(),
        steps(s, codes).1 <= CURSOR_LIMIT,
    decreases codes.len(),
{
    if codes.len() > 0 {
        lemma_steps_keep_bounds(s, codes.drop_last());
        lemma_step_keeps_bounds(steps(s, codes.drop_last()), codes.last());
    }
}

/// Feeding two sequences is feeding the first, then the second.
pub proof fn lemma_steps_append(s: EditorView, a: Seq<i32>, b: Seq<i32>)
    ensures
        steps(s, a + b) == steps(steps(s, a), b),
    decreases b.len(),
{
    if b.len() == 0 {
        assert(a + b =~= a);
    } else {
        assert((a + b).drop_last() =~= a + b.drop_last());
        lemma_steps_append(s, a, b.drop_last());
    }
}

/// `n` erase-backward key codes.
pub open spec fn erasures(n: nat) -> Seq<i32> {
    Seq::new(n, |i: int| KEY_ERASE_BACKWARD)
}

/// The empty line, cursor at its start, no escape under way.
pub open spec fn empty_editor() -> EditorView {
    (Seq::empty(), 0, EscapeState::Idle)
}

proof fn lemma_inserts(codes: Seq<i32>)
    requires
        forall|i: int| 0 <= i < codes.len() ==> is_printable(#[trigger] codes[i]),
    ensures
        steps(empty_editor(), codes).2 == EscapeState::Idle,
        steps(empty_editor(), codes).1 == steps(empty_editor(), codes).0.len(),
        steps(empty_editor(), codes).1 <= codes.len(),
    decreases codes.len(),
{
    if codes.len() > 0 {
        let rest = codes.drop_last();
        assert forall|i: int| 0 <= i < rest.len() implies is_printable(#[trigger] rest[i]) by {
            assert(rest[i] == codes[i]);
        }
        lemma_inserts(rest);
        assert(is_printable(codes[codes.len() - 1]));
    }
}

proof fn lemma_erases(s: EditorView, n: nat)
    requires
        s.2 == EscapeState::Idle,
        s.1 == s.0.len(),
    ensures
        steps(s, erasures(n)).2 == EscapeState::Idle,
        steps(s, erasures(n)).1 == steps(s, erasures(n)).0.len(),
        steps(s, erasures(n)).1 == (if s.1 >= n { s.1 - n } else { 0 }),
    decreases n,
{
    if n > 0 {
        assert(erasures(n).drop_last() =~= erasures((n - 1) as nat));
        lemma_erases(s, (n - 1) as nat);
    }
}

/// Typing `n` printable characters into an empty line and then erasing
/// backward `n` times leaves the line empty with the cursor at its start.
pub proof fn lemma_type_then_erase(codes: Seq<i32>)
    requires
        forall|i: int| 0 <= i < codes.len() ==> is_printable(#[trigger] codes[i]),
    ensures
        steps(empty_editor(), codes + erasures(codes.len())) == empty_editor(),
{
    lemma_steps_append(empty_editor(), codes, erasures(codes.len()));
    lemma_inserts(codes);
    let mid = steps(empty_editor(), codes);
    lemma_erases(mid, codes.len());
    let last = steps(mid, erasures(codes.len()));
    assert(last.0 =~= Seq::<char>::empty());
}

/// The line being typed, with its cursor and escape progress.
pub struct LineEditor {
    text: Vec<char>,
    cursor: usize,
    escape: EscapeState,
}

impl View for LineEditor {
    type V = EditorView;

    closed spec fn view(&self) -> EditorView {
        (self.text@, self.cursor as int, self.escape)
    }
}

impl LineEditor {
    pub open spec fn wf(&self) -> bool {
        editor_wf(self@)
    }

    /// An empty line, cursor at its start.
    pub fn new() -> (r: LineEditor)
        ensures
            r@ == (Seq::<char>::empty(), 0int, EscapeState::Idle),
            r.wf(),
    {
        LineEditor { text: Vec::new(), cursor: 0, escape: EscapeState::Idle }
    }

    /// The text typed so far.
    pub fn text(&self) -> (r: &Vec<char>)
        ensures
            r@ == self@.0,
    {
        &self.text
    }

    /// The cursor's offset into the text.
    pub fn cursor(&self) -> (r: usize)
        ensures
            r == self@.1,
    {
        self.cursor
    }

    /// Empties the line and forgets any escape sequence under way.
    pub fn clear(&mut self)
        ensures
            final(self)@ == (Seq::<char>::empty(), 0int, EscapeState::Idle),
            final(self).wf(),
    {
        self.text = Vec::new();
        self.cursor = 0;
        self.escape = EscapeState::Idle;
    }

    /// Applies one key code. Returns the submitted line where the code
    /// submits it, `None` otherwise.
    pub fn feed(&mut self, code: i32) -> (r: Option<Vec<char>>)
        requires
            old(self).wf(),
        ensures
            final(self).wf(),
            final(self)@ == step(old(self)@, code),
            r is Some <==> submits(old(self)@.2, code),
            r is Some ==> r->Some_0@ == old(self)@.0,
    {
        match self.escape {
            EscapeState::Lead => {
                self.escape = EscapeState::Tail(code);
                None
            },
            EscapeState::Tail(first) => {
                if first == ESCAPE_BRACKET && code == ARROW_RIGHT && self.cursor < self.text.len()
                    && self.cursor < CURSOR_LIMIT {
                    self.cursor = self.cursor + 1;
                } else if first == ESCAPE_BRACKET && code == ARROW_LEFT && self.cursor > 0 {
                    self.cursor = self.cursor - 1;
                }
                self.escape = EscapeState::Idle;
                None
            },
            EscapeState::Idle => {
                if code == KEY_NEWLINE {
                    let mut line: Vec<char> = Vec::new();
                    std::mem::swap(&mut line, &mut self.text);
                    self.cursor = 0;
                    Some(line)
                } else if code == KEY_ERASE_BACKWARD {
                    if self.cursor > 0 {
                        self.text.remove(self.cursor - 1);
                        self.cursor = self.cursor - 1;
                    }
                    None
                } else if code == KEY_ERASE_FORWARD {
                    if self.cursor < self.text.len() {
                        self.text.remove(self.cursor);
                    }
                    None
                } else if code == KEY_ESCAPE {
                    self.escape = EscapeState::Lead;
                    None
                } else if FIRST_PRINTABLE <= code && code <= LAST_PRINTABLE {
                    if self.cursor < CURSOR_LIMIT && self.text.len() < MAX_LENGTH {
                        self.text.insert(self.cursor, (code as u8) as char);
                        self.cursor = self.cursor + 1;
                    }
                    None
                } else {
                    None
                }
            },
        }
    }
}

} // verus!
