//! The line editor: one prompt cycle after another, driven key by key.
//!
//! The editor reads no terminal and writes to none. It is handed each event
//! that was read, says what is to be shown, and says what comes next: another
//! key, a new prompt, a request to execute, or the end of the shell.

use crate::request::{request_from_line, submitted, Request, RequestView};
use crate::request::lemma_blank_line_has_no_request;
use crate::text::{ascii_uppercase, to_ascii_uppercase, whitespace};
use vstd::prelude::*;

verus! {

/// No modifier key is held.
pub const NO_MODIFIER: u8 = 0;

/// The shift key, and no other modifier, is held.
pub const SHIFT: u8 = 1;

/// The control key, and no other modifier, is held.
pub const CONTROL: u8 = 2;

/// The key of a key event, as far as the editor tells keys apart.
#[derive(Copy, Clone, Debug, PartialEq, Eq, Structural)]
pub enum KeyCode {
    Char(char),
    Backspace,
    Enter,
    Other,
}

/// What happened to the key.
#[derive(Copy, Clone, Debug, PartialEq, Eq, Structural)]
pub enum KeyEventKind {
    Press,
    Repeat,
    Release,
}

/// One key event: the key, the modifier keys held with it as a set of bits
/// (shift is 1, control is 2, each further modifier a higher bit), and what
/// happened to the key.
#[derive(Copy, Clone, Debug, PartialEq, Eq, Structural)]
pub struct KeyEvent {
    pub code: KeyCode,
    pub modifiers: u8,
    pub kind: KeyEventKind,
}

/// One event of the terminal.
#[derive(Copy, Clone, Debug, PartialEq, Eq, Structural)]
pub enum Event {
    Key(KeyEvent),
    /// Anything that is no key event: focus, mouse, paste, resize.
    Other,
}

/// What an event asks of the editor.
#[derive(Copy, Clone, Debug, PartialEq, Eq, Structural)]
pub enum Command {
    /// Append the character to the line.
    Insert(char),
    /// Remove the last character of the line.
    Erase,
    /// Submit the line.
    Submit,
    /// Clear the screen and abandon the line.
    ClearScreen,
    /// End the shell.
    EndOfInput,
    /// Reserved for interrupting a running operation: nothing happens.
    CancelSignal,
    /// Nothing.
    Ignore,
}

/// The command that an event stands for. Only key presses count. With
/// control, `c` is the cancel signal, `d` the end of input and `l` clears the
/// screen; a character alone is inserted as it is, with shift as its ASCII
/// upper-case form; backspace and enter alone erase and submit.
pub open spec fn command_of(event: Event) -> Command {
    match event {
        Event::Key(KeyEvent { code, modifiers, kind: KeyEventKind::Press }) => match code {
            KeyCode::Char(c) => if modifiers == CONTROL {
                if c == 'c' {
                    Command::CancelSignal
                } else if c == 'd' {
                    Command::EndOfInput
                } else if c == 'l' {
                    Command::ClearScreen
                } else {
                    Command::Ignore
                }
            } else if modifiers == NO_MODIFIER {
                Command::Insert(c)
            } else if modifiers == SHIFT {
                Command::Insert(ascii_uppercase(c))
            } else {
                Command::Ignore
            },
            KeyCode::Backspace => if modifiers == NO_MODIFIER {
                Command::Erase
            } else {
                Command::Ignore
            },
            KeyCode::Enter => if modifiers == NO_MODIFIER {
                Command::Submit
            } else {
                Command::Ignore
            },
            KeyCode::Other => Command::Ignore,
        },
        _ => Command::Ignore,
    }
}

/// Reads an event as a command.
pub fn command(event: &Event) -> (command: Command)
    ensures
        command == command_of(*event),
{
    match event {
        Event::Key(key) => {
            match key.kind {
                KeyEventKind::Press => {},
                _ => {
                    return Command::Ignore;
                },
            }
            match key.code {
                KeyCode::Char(c) => {
                    if key.modifiers == CONTROL {
                        if c == 'c' {
                            Command::CancelSignal
                        } else if c == 'd' {
                            Command::EndOfInput
                        } else if c == 'l' {
                            Command::ClearScreen
                        } else {
                            Command::Ignore
                        }
                    } else if key.modifiers == NO_MODIFIER {
                        Command::Insert(c)
                    } else if key.modifiers == SHIFT {
                        Command::Insert(to_ascii_uppercase(c))
                    } else {
                        Command::Ignore
                    }
                },
                KeyCode::Backspace => {
                    if key.modifiers == NO_MODIFIER {
                        Command::Erase
                    } else {
                        Command::Ignore
                    }
                },
                KeyCode::Enter => {
                    if key.modifiers == NO_MODIFIER {
                        Command::Submit
                    } else {
                        Command::Ignore
                    }
                },
                KeyCode::Other => Command::Ignore,
            }
        },
        Event::Other => Command::Ignore,
    }
}

/// Where a prompt cycle stands.
#[derive(Copy, Clone, Debug, PartialEq, Eq, Structural)]
pub enum Phase {
    /// No cycle has begun.
    Idle,
    /// The line is being edited; the terminal is in raw mode.
    Editing,
    /// The line was submitted.
    Submitted,
    /// The line was abandoned.
    Cancelled,
    /// The end of input was signalled: the shell ends.
    Interrupted,
}

/// What is to be shown after an event.
#[derive(Copy, Clone, Debug, PartialEq, Eq, Structural)]
pub enum Feedback {
    /// Nothing.
    Quiet,
    /// The line as it is now, in place of the line shown.
    Redraw,
    /// A line break, and the cursor in the first column.
    NewLine,
    /// An empty screen, and the cursor in the first column.
    ClearScreen,
}

/// The state of the editor: the phase of the cycle and the line.
pub ghost struct LineEditorView {
    pub phase: Phase,
    pub buffer: Seq<char>,
}

/// What a command does in a state: the state after it, and what is to be
/// shown. Outside of editing, a command does nothing.
pub open spec fn step(state: LineEditorView, command: Command) -> (LineEditorView, Feedback) {
    if state.phase != Phase::Editing {
        (state, Feedback::Quiet)
    } else {
        match command {
            Command::Insert(c) => (
                LineEditorView { phase: Phase::Editing, buffer: state.buffer.push(c) },
                Feedback::Redraw,
            ),
            Command::Erase => if state.buffer.len() > 0 {
                (
                    LineEditorView { phase: Phase::Editing, buffer: state.buffer.drop_last() },
                    Feedback::Redraw,
                )
            } else {
                (state, Feedback::Quiet)
            },
            Command::Submit => (
                LineEditorView { phase: Phase::Submitted, buffer: state.buffer },
                Feedback::NewLine,
            ),
            Command::ClearScreen => (
                LineEditorView { phase: Phase::Cancelled, buffer: Seq::empty() },
                Feedback::ClearScreen,
            ),
            Command::EndOfInput => (
                LineEditorView { phase: Phase::Interrupted, buffer: state.buffer },
                Feedback::Quiet,
            ),
            Command::CancelSignal | Command::Ignore => (state, Feedback::Quiet),
        }
    }
}

/// The state after a new cycle was asked for: editing an empty line, unless
/// the shell has ended.
pub open spec fn begun(state: LineEditorView) -> LineEditorView {
    if state.phase == Phase::Interrupted {
        state
    } else {
        LineEditorView { phase: Phase::Editing, buffer: Seq::empty() }
    }
}

/// What comes next for the shell.
#[derive(Debug)]
pub enum Next {
    /// The line is being edited: read the next event.
    Read,
    /// Nothing is to be executed: begin a new cycle.
    Restart,
    /// Execute the request, then begin a new cycle.
    Execute(Request),
    /// The shell ends.
    Exit,
}

/// What comes next, with the request by what it holds.
pub ghost enum NextView {
    Read,
    Restart,
    Execute(RequestView),
    Exit,
}

impl View for Next {
    type V = NextView;

    open spec fn view(&self) -> NextView {
        match self {
            Next::Read => NextView::Read,
            Next::Restart => NextView::Restart,
            Next::Execute(request) => NextView::Execute(request@),
            Next::Exit => NextView::Exit,
        }
    }
}

/// What comes next in a state. A submitted line is executed if it stands for
/// a request; a line that stands for none is dropped.
pub open spec fn next_of(state: LineEditorView) -> NextView {
    match state.phase {
        Phase::Editing => NextView::Read,
        Phase::Interrupted => NextView::Exit,
        Phase::Idle | Phase::Cancelled => NextView::Restart,
        Phase::Submitted => match submitted(state.buffer) {
            Some(request) => NextView::Execute(request),
            None => NextView::Restart,
        },
    }
}

/// The editor of the shell's input line.
#[derive(Debug)]
pub struct LineEditor {
    phase: Phase,
    buffer: String,
}

impl View for LineEditor {
    type V = LineEditorView;

    closed spec fn view(&self) -> LineEditorView {
        LineEditorView { phase: self.phase, buffer: self.buffer@ }
    }
}

impl LineEditor {
    /// An editor before its first cycle.
    pub fn new() -> (editor: Self)
        ensures
            editor@ == (LineEditorView { phase: Phase::Idle, buffer: Seq::empty() }),
    {
        LineEditor { phase: Phase::Idle, buffer: String::new() }
    }

    /// Begins a prompt cycle with an empty line. After the end of input no
    /// cycle begins. Says whether one began.
    pub fn begin(&mut self) -> (started: bool)
        ensures
            final(self)@ == begun(old(self)@),
            started == (old(self)@.phase != Phase::Interrupted),
    {
        match self.phase {
            Phase::Interrupted => false,
            _ => {
                self.phase = Phase::Editing;
                self.buffer = String::new();
                true
            },
        }
    }

    /// Takes one event of the terminal, and says what is to be shown.
    pub fn handle(&mut self, event: &Event) -> (feedback: Feedback)
        ensures
            (final(self)@, feedback) == step(old(self)@, command_of(*event)),
    {
        let command = command(event);
        match self.phase {
            Phase::Editing => {},
            _ => {
                return Feedback::Quiet;
            },
        }
        match command {
            Command::Insert(c) => {
                self.buffer.push(c);
                Feedback::Redraw
            },
            Command::Erase => {
                match self.buffer.pop() {
                    Some(_) => Feedback::Redraw,
                    None => Feedback::Quiet,
                }
            },
            Command::Submit => {
                self.phase = Phase::Submitted;
                Feedback::NewLine
            },
            Command::ClearScreen => {
                self.phase = Phase::Cancelled;
                self.buffer = String::new();
                Feedback::ClearScreen
            },
            Command::EndOfInput => {
                self.phase = Phase::Interrupted;
                Feedback::Quiet
            },
            Command::CancelSignal | Command::Ignore => Feedback::Quiet,
        }
    }

    /// The phase of the cycle.
    pub fn phase(&self) -> (phase: Phase)
        ensures
            phase == self@.phase,
    {
        self.phase
    }

    /// Whether the line is being edited. The terminal is to be in raw mode
    /// exactly while it is.
    pub fn is_editing(&self) -> (editing: bool)
        ensures
            editing == (self@.phase == Phase::Editing),
    {
        match self.phase {
            Phase::Editing => true,
            _ => false,
        }
    }

    /// The line as it stands.
    pub fn line(&self) -> (line: &str)
        ensures
            line@ == self@.buffer,
    {
        self.buffer.as_str()
    }

    /// What comes next for the shell.
    pub fn next(&self) -> (next: Next)
        ensures
            next@ == next_of(self@),
    {
        match self.phase {
            Phase::Editing => Next::Read,
            Phase::Interrupted => Next::Exit,
            Phase::Idle | Phase::Cancelled => Next::Restart,
            Phase::Submitted => match request_from_line(self.buffer.as_str()) {
                Some(request) => Next::Execute(request),
                None => Next::Restart,
            },
        }
    }
}

/// The state after a run of commands, one after the other.
pub open spec fn run(state: LineEditorView, commands: Seq<Command>) -> LineEditorView
    decreases commands.len(),
{
    if commands.len() == 0 {
        state
    } else {
        step(run(state, commands.drop_last()), commands.last()).0
    }
}

/// `commands` type `text`, character by character.
pub open spec fn types(commands: Seq<Command>, text: Seq<char>) -> bool {
    &&& commands.len() == text.len()
    &&& forall|i: int| 0 <= i < text.len() ==> #[trigger] commands[i] == Command::Insert(text[i])
}

/// The commands that erase `count` characters.
pub open spec fn erasing(count: nat) -> Seq<Command> {
    Seq::new(count, |i: int| Command::Erase)
}

/// Typing appends to the line, character by character.
pub proof fn lemma_typing_appends(state: LineEditorView, commands: Seq<Command>, text: Seq<char>)
    requires
        state.phase == Phase::Editing,
        types(commands, text),
    ensures
        run(state, commands) == (LineEditorView {
            phase: Phase::Editing,
            buffer: state.buffer + text,
        }),
    decreases text.len(),
{
    if text.len() == 0 {
        assert(state.buffer + text =~= state.buffer);
    } else {
        let shorter = text.drop_last();
        assert(types(commands.drop_last(), shorter));
        lemma_typing_appends(state, commands.drop_last(), shorter);
        assert(commands.last() == Command::Insert(text.last()));
        assert((state.buffer + shorter).push(text.last()) =~= state.buffer + text);
    }
}

/// Erasing removes the most recent characters, one for each backspace, and
/// stops at the empty line.
pub proof fn lemma_erasing_removes_last(state: LineEditorView, count: nat)
    requires
        state.phase == Phase::Editing,
    ensures
        run(state, erasing(count)) == (LineEditorView {
            phase: Phase::Editing,
            buffer: if count <= state.buffer.len() {
                state.buffer.take(state.buffer.len() - count)
            } else {
                Seq::empty()
            },
        }),
    decreases count,
{
    assert(erasing(count).len() == count);
    if count == 0 {
        assert(state.buffer.take(state.buffer.len() as int) =~= state.buffer);
    } else {
        assert(erasing(count).last() == Command::Erase);
        lemma_erasing_removes_last(state, (count - 1) as nat);
        assert(erasing(count).drop_last() =~= erasing((count - 1) as nat));
        if count <= state.buffer.len() {
            assert(state.buffer.take(state.buffer.len() - (count - 1)).drop_last()
                =~= state.buffer.take(state.buffer.len() - count));
        } else if count - 1 <= state.buffer.len() {
            assert(state.buffer.take(state.buffer.len() - (count - 1)) =~= Seq::<char>::empty());
        }
    }
}

/// A run of commands in two parts is the second part run after the first.
pub proof fn lemma_run_in_parts(state: LineEditorView, first: Seq<Command>, second: Seq<Command>)
    ensures
        run(state, first + second) == run(run(state, first), second),
    decreases second.len(),
{
    if second.len() == 0 {
        assert(first + second =~= first);
    } else {
        lemma_run_in_parts(state, first, second.drop_last());
        assert((first + second).drop_last() =~= first + second.drop_last());
    }
}

/// After the end of input nothing changes any more: no event is taken and no
/// cycle begins.
pub proof fn lemma_interrupted_is_final(state: LineEditorView, command: Command)
    requires
        state.phase == Phase::Interrupted,
    ensures
        step(state, command).0 == state,
        begun(state) == state,
        next_of(state) == NextView::Exit,
{
}

/// A submitted line of nothing but whitespace, the empty line among them, is
/// never executed: a new cycle begins.
pub proof fn lemma_blank_line_restarts(state: LineEditorView)
    requires
        state.phase == Phase::Submitted,
        forall|i: int| 0 <= i < state.buffer.len() ==> whitespace(#[trigger] state.buffer[i]),
    ensures
        next_of(state) == NextView::Restart,
{
    lemma_blank_line_has_no_request(state.buffer);
}

} // verus!
