//! The vocabulary shared by the machines and whoever drives them.
//!
//! A machine never touches the outside world. It hands its driver an
//! [`Action`] together with the lines to print first; the driver performs the
//! action and reports what happened as an [`Event`].

use vstd::prelude::*;
use vstd::string::*;

verus! {

/// The line printed after every status report.
pub const SEPARATOR: &'static str =
    "-------------------------------------------------------------------------------------------------";

/// A program and the arguments to start it with.
#[derive(Clone, Debug, PartialEq, Eq)]
pub struct Command {
    pub program: String,
    pub args: Vec<String>,
}

/// What a [`Command`] is, as plain text.
pub struct CommandView {
    pub program: Seq<char>,
    pub args: Seq<Seq<char>>,
}

impl View for Command {
    type V = CommandView;

    open spec fn view(&self) -> CommandView {
        CommandView { program: self.program@, args: texts(self.args@) }
    }
}

/// The text of each string in `items`.
pub open spec fn texts(items: Seq<String>) -> Seq<Seq<char>> {
    items.map_values(|item: String| item@)
}

/// Where a line is printed.
#[derive(Clone, Copy, Debug, PartialEq, Eq, Structural)]
pub enum Stream {
    Stdout,
    Stderr,
}

/// One line of user-visible output.
#[derive(Clone, Debug, PartialEq, Eq)]
pub struct Line {
    pub stream: Stream,
    pub text: String,
}

/// What a [`Line`] is, as plain text.
pub struct LineView {
    pub stream: Stream,
    pub text: Seq<char>,
}

impl View for Line {
    type V = LineView;

    open spec fn view(&self) -> LineView {
        LineView { stream: self.stream, text: self.text@ }
    }
}

/// A line on standard output.
pub open spec fn out_line(text: Seq<char>) -> LineView {
    LineView { stream: Stream::Stdout, text }
}

/// A line on standard error.
pub open spec fn err_line(text: Seq<char>) -> LineView {
    LineView { stream: Stream::Stderr, text }
}

/// The separator, which goes to standard output.
pub open spec fn separator_line() -> LineView {
    out_line(SEPARATOR@)
}

/// The view of each line in `lines`.
pub open spec fn line_views(lines: Seq<Line>) -> Seq<LineView> {
    lines.map_values(|line: Line| line@)
}

/// What a machine asks its driver to do next.
#[derive(Clone, Debug, PartialEq, Eq)]
pub enum Action {
    /// Run the command to completion on the caller's standard streams.
    Run(Command),
    /// Run the command to completion and keep what it wrote to standard output.
    Capture(Command),
    /// Create the file at `path`, write `bytes` to it and close it.
    Store { path: String, bytes: Vec<u8> },
    /// Find out whether anything exists at `path`.
    Probe { path: String },
    /// Nothing is left to do: the machine finished normally.
    Done,
    /// Leave the process with `code`.
    Exit { code: i32 },
    /// Give up with `message`: an unrecoverable error.
    Abort { message: String },
}

/// What an [`Action`] is, as plain values.
pub enum ActionView {
    Run(CommandView),
    Capture(CommandView),
    Store { path: Seq<char>, bytes: Seq<u8> },
    Probe { path: Seq<char> },
    Done,
    Exit { code: i32 },
    Abort { message: Seq<char> },
}

impl View for Action {
    type V = ActionView;

    open spec fn view(&self) -> ActionView {
        match self {
            Action::Run(command) => ActionView::Run(command@),
            Action::Capture(command) => ActionView::Capture(command@),
            Action::Store { path, bytes } => ActionView::Store { path: path@, bytes: bytes@ },
            Action::Probe { path } => ActionView::Probe { path: path@ },
            Action::Done => ActionView::Done,
            Action::Exit { code } => ActionView::Exit { code: *code },
            Action::Abort { message } => ActionView::Abort { message: message@ },
        }
    }
}

impl ActionView {
    /// Whether the action ends the run: no event answers it.
    pub open spec fn is_final(self) -> bool {
        self is Done || self is Exit || self is Abort
    }

    /// Whether the action starts a program.
    pub open spec fn starts_program(self) -> bool {
        self is Run || self is Capture
    }
}

/// What the driver reports after performing an [`Action`].
#[derive(Clone, Debug, PartialEq, Eq)]
pub enum Event {
    /// The program of a `Run` ran and exited, successfully or not.
    Exited { success: bool },
    /// The program of a `Capture` ran and exited; `stdout` is what it wrote.
    Captured { success: bool, stdout: Vec<u8> },
    /// The program of a `Run` or `Capture` could not be started.
    LaunchFailed,
    /// The file of a `Store` was written and closed.
    Stored,
    /// The file of a `Store` could not be created.
    CreateFailed,
    /// The file of a `Store` was created but could not be written.
    WriteFailed,
    /// The answer to a `Probe`.
    Probed { exists: bool },
}

/// What an [`Event`] is, as plain values.
pub enum EventView {
    Exited { success: bool },
    Captured { success: bool, stdout: Seq<u8> },
    LaunchFailed,
    Stored,
    CreateFailed,
    WriteFailed,
    Probed { exists: bool },
}

impl View for Event {
    type V = EventView;

    open spec fn view(&self) -> EventView {
        match self {
            Event::Exited { success } => EventView::Exited { success: *success },
            Event::Captured { success, stdout } => EventView::Captured {
                success: *success,
                stdout: stdout@,
            },
            Event::LaunchFailed => EventView::LaunchFailed,
            Event::Stored => EventView::Stored,
            Event::CreateFailed => EventView::CreateFailed,
            Event::WriteFailed => EventView::WriteFailed,
            Event::Probed { exists } => EventView::Probed { exists: *exists },
        }
    }
}

/// Whether `event` is a report that performing `action` can produce.
pub open spec fn answers(action: ActionView, event: EventView) -> bool {
    match action {
        ActionView::Run(_) => event is Exited || event is LaunchFailed,
        ActionView::Capture(_) => event is Captured || event is LaunchFailed,
        ActionView::Store { .. } => event is Stored || event is CreateFailed || event is WriteFailed,
        ActionView::Probe { .. } => event is Probed,
        ActionView::Done | ActionView::Exit { .. } | ActionView::Abort { .. } => false,
    }
}

/// One move of a machine: the lines to print, then the action to perform.
#[derive(Clone, Debug, PartialEq, Eq)]
pub struct Step {
    pub lines: Vec<Line>,
    pub action: Action,
}

/// What a [`Step`] is, as plain values.
pub struct StepView {
    pub lines: Seq<LineView>,
    pub action: ActionView,
}

impl View for Step {
    type V = StepView;

    open spec fn view(&self) -> StepView {
        StepView { lines: line_views(self.lines@), action: self.action@ }
    }
}

/// The view of an optional step.
pub open spec fn optional_step(step: Option<Step>) -> Option<StepView> {
    match step {
        Some(step) => Some(step@),
        None => None,
    }
}

/// The step that prints nothing and asks for `action`.
pub open spec fn quiet_step(action: ActionView) -> StepView {
    StepView { lines: Seq::empty(), action }
}

/// The final step that prints nothing and gives up with `message`.
pub open spec fn abort_step(message: Seq<char>) -> StepView {
    quiet_step(ActionView::Abort { message })
}

/// A line of `text` on standard output.
pub(crate) fn out(text: String) -> (line: Line)
    ensures
        line@ == out_line(text@),
{
    Line { stream: Stream::Stdout, text }
}

/// A line of `text` on standard error.
pub(crate) fn err(text: String) -> (line: Line)
    ensures
        line@ == err_line(text@),
{
    Line { stream: Stream::Stderr, text }
}

/// The separator line.
pub(crate) fn separator() -> (line: Line)
    ensures
        line@ == separator_line(),
{
    out(String::from_str(SEPARATOR))
}

/// A status report: `line`, then the separator.
pub(crate) fn report(line: Line) -> (lines: Vec<Line>)
    ensures
        line_views(lines@) == seq![line@, separator_line()],
{
    let mut lines: Vec<Line> = Vec::new();
    lines.push(line);
    lines.push(separator());
    assert(line_views(lines@) =~= seq![line@, separator_line()]);
    lines
}

/// No lines at all.
pub(crate) fn no_lines() -> (lines: Vec<Line>)
    ensures
        line_views(lines@) == Seq::<LineView>::empty(),
{
    let lines: Vec<Line> = Vec::new();
    assert(line_views(lines@) =~= Seq::empty());
    lines
}

/// The step that prints nothing and asks for `action`.
pub(crate) fn quiet(action: Action) -> (step: Step)
    ensures
        step@ == quiet_step(action@),
{
    Step { lines: no_lines(), action }
}

/// The final step that prints nothing and gives up with `message`.
pub(crate) fn abort(message: &str) -> (step: Step)
    ensures
        step@ == abort_step(message@),
{
    quiet(Action::Abort { message: String::from_str(message) })
}

/// The command that starts `program` with `args`.
pub(crate) fn command(program: &str, args: Vec<String>) -> (command: Command)
    ensures
        command@ == (CommandView { program: program@, args: texts(args@) }),
{
    Command { program: String::from_str(program), args }
}

} // verus!
