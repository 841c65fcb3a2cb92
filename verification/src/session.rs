//! The evaluation session engine.
//!
//! The engine owns the ordered buffer of accepted code lines and decides,
//! for each completed input, what happens next: control commands are
//! executed directly, and a code line is appended as a candidate, after
//! which the materialized program must be written out and built by the
//! surrounding binary. The observed build outcome is then fed back in:
//! success commits the candidate, any failure rolls the buffer back to its
//! last known-good state. The engine itself performs no input, file or
//! process work; it only says what to do and how the state changes.

use vstd::prelude::*;
use vstd::string::StringExecFns;
use crate::render::{join_lines, join_with, render, render_spec};

verus! {

/// A completed interaction with the line editor: a finished line of text,
/// or an interrupt/end-of-input signal.
pub enum Signal {
    Success(String),
    CtrlC,
    CtrlD,
}

/// Spec-level image of a `Signal`.
pub enum SignalV {
    Success(Seq<char>),
    CtrlC,
    CtrlD,
}

impl View for Signal {
    type V = SignalV;

    open spec fn view(&self) -> SignalV {
        match self {
            Signal::Success(line) => SignalV::Success(line@),
            Signal::CtrlC => SignalV::CtrlC,
            Signal::CtrlD => SignalV::CtrlD,
        }
    }
}

/// How one processed input ended: a recognized or unrecognized control
/// command (`Unknown`), a committed build (`Success`), a rolled-back build
/// (`Failure`), or the end of the session (`Exit`).
#[derive(Clone, Copy, Debug, PartialEq, Eq, Structural)]
pub enum ReplResult {
    Unknown,
    Success,
    Failure,
    Exit,
}

/// What the surrounding binary must do after one processed signal.
pub enum Action {
    /// End the session.
    Exit,
    /// Show `text` on the output stream.
    Print { text: String },
    /// Show `text` on the error stream.
    PrintError { text: String },
    /// Nothing to show; keep reading input.
    Silent,
    /// Write `source` to the entry file, run the build command, and report
    /// the outcome back through `Repl::process_build`.
    Build { source: String },
}

/// Spec-level image of an `Action`.
pub enum ActionV {
    Exit,
    Print(Seq<char>),
    PrintError(Seq<char>),
    Silent,
    Build(Seq<char>),
}

impl View for Action {
    type V = ActionV;

    open spec fn view(&self) -> ActionV {
        match self {
            Action::Exit => ActionV::Exit,
            Action::Print { text } => ActionV::Print(text@),
            Action::PrintError { text } => ActionV::PrintError(text@),
            Action::Silent => ActionV::Silent,
            Action::Build { source } => ActionV::Build(source@),
        }
    }
}

/// The outcome of one build/run attempt, as observed by the surrounding
/// binary: the program built and ran (its output captured), the build tool
/// ran but reported failure (its diagnostics captured), or the build tool
/// could not be launched at all.
pub enum BuildOutcome {
    Success { stdout: String },
    Failure { stderr: String },
    LaunchError { message: String },
}

/// What the engine reports after a build attempt: the session result, the
/// text to surface, and on which stream it belongs.
pub struct BuildReport {
    pub result: ReplResult,
    pub message: String,
    pub to_error_stream: bool,
}

/// A line is a control command when it begins with the reserved prefix.
pub open spec fn is_command(l: Seq<char>) -> bool {
    l.len() > 0 && l[0] == ':'
}

/// The control commands that end the session.
pub open spec fn is_quit_command(l: Seq<char>) -> bool {
    l == ":q"@ || l == ":quit"@ || l == ":exit"@
}

/// A code line that introduces a binding: its result cannot serve as the
/// block's trailing expression, so it must be terminated before committing.
pub open spec fn is_let_binding(l: Seq<char>) -> bool {
    l.len() >= 4 && l[0] == 'l' && l[1] == 'e' && l[2] == 't' && l[3] == ' '
}

/// The form in which a code line is committed to the buffer: a binding line
/// gains an explicit statement terminator, any other line is kept as is.
pub open spec fn normalized_line(l: Seq<char>) -> Seq<char> {
    if is_let_binding(l) {
        l.push(';')
    } else {
        l
    }
}

/// The diagnostic shown for an unrecognized control command.
pub open spec fn unknown_command_message(l: Seq<char>) -> Seq<char> {
    "Unknown command: "@ + l + ". Type :help to show the available commands"@
}

/// The help text listing the recognized control commands.
pub open spec fn help_message() -> Seq<char> {
    ":q, :quit, :exit - Exit the REPL\n:buffer - Print the current buffer\n:clear - Clear the current buffer\n:pop - Remove the last line from the buffer\n:h, :help - Print this help message"@
}

/// The executable the build command invokes: the value of the environment
/// override when one is set, else the well-known default name.
pub open spec fn tool_name(cargo_override: Option<String>) -> Seq<char> {
    match cargo_override {
        Some(c) => c@,
        None => "cargo"@,
    }
}

/// The argument vector of the build command: the tool, then the flags that
/// build and run the named entry quietly.
pub open spec fn build_argv(tool: Seq<char>, bin_name: Seq<char>) -> Seq<Seq<char>> {
    seq![tool, "run"@, "-q"@, "--bin"@, bin_name]
}

/// How a control command transforms the buffer, and what the session does
/// next.
pub open spec fn command_step(buf: Seq<Seq<char>>, l: Seq<char>) -> (Seq<Seq<char>>, ActionV) {
    if is_quit_command(l) {
        (buf, ActionV::Exit)
    } else if l == ":buffer"@ {
        (buf, ActionV::Print(join_with(buf, "\n"@)))
    } else if l == ":clear"@ {
        (Seq::empty(), ActionV::Silent)
    } else if l == ":pop"@ {
        (if buf.len() > 0 { buf.drop_last() } else { buf }, ActionV::Silent)
    } else if l == ":h"@ || l == ":help"@ {
        (buf, ActionV::Print(help_message()))
    } else {
        (buf, ActionV::PrintError(unknown_command_message(l)))
    }
}

/// How a code line transforms the buffer: the normalized candidate is
/// appended, and the whole buffer is materialized for a build attempt.
pub open spec fn code_step(buf: Seq<Seq<char>>, l: Seq<char>) -> (Seq<Seq<char>>, ActionV) {
    (buf.push(normalized_line(l)), ActionV::Build(render_spec(buf.push(normalized_line(l)))))
}

/// How one completed input transforms the buffer, and what the session does
/// next.
pub open spec fn signal_step(buf: Seq<Seq<char>>, sig: SignalV) -> (Seq<Seq<char>>, ActionV) {
    match sig {
        SignalV::Success(l) => if is_command(l) {
            command_step(buf, l)
        } else {
            code_step(buf, l)
        },
        SignalV::CtrlC => (buf, ActionV::Exit),
        SignalV::CtrlD => (buf, ActionV::Exit),
    }
}

/// How the observed build outcome transforms the buffer: success keeps the
/// candidate, any failure removes it, restoring the last known-good state.
pub open spec fn build_step(buf: Seq<Seq<char>>, success: bool) -> Seq<Seq<char>> {
    if success {
        buf
    } else if buf.len() > 0 {
        buf.drop_last()
    } else {
        buf
    }
}

/// Whether the line begins with the reserved command prefix.
fn starts_with_colon(line: &String) -> (r: bool)
    ensures
        r == is_command(line@),
{
    let s = line.as_str();
    let n = s.unicode_len();
    n >= 1 && s.get_char(0) == ':'
}

/// Whether the line begins with the binding keyword followed by a space.
fn starts_with_let(line: &String) -> (r: bool)
    ensures
        r == is_let_binding(line@),
{
    let s = line.as_str();
    let n = s.unicode_len();
    n >= 4 && s.get_char(0) == 'l' && s.get_char(1) == 'e' && s.get_char(2) == 't' && s.get_char(
        3,
    ) == ' '
}

/// Whether the line is exactly the given command word.
fn line_is(line: &String, word: &str) -> (r: bool)
    ensures
        r == (line@ == word@),
{
    let w = String::from_str(word);
    line.eq(&w)
}

/// The committed form of a code line: a binding line gains a statement
/// terminator so it never occupies the block's trailing position.
fn normalize_code_line(line: String) -> (r: String)
    ensures
        r@ == normalized_line(line@),
{
    if starts_with_let(&line) {
        let ghost l0 = line@;
        let r = line.concat(";");
        proof {
            reveal_strlit(";");
            assert(r@ =~= l0.push(';'));
        }
        r
    } else {
        line
    }
}

/// Constructs the build command line for the given entry name, honoring the
/// environment override for the tool when one was observed.
pub fn build_command(cargo_override: Option<String>, bin_name: &String) -> (r: Vec<String>)
    ensures
        r.deep_view() == build_argv(tool_name(cargo_override), bin_name@),
{
    let ghost tool_view = tool_name(cargo_override);
    let tool = match cargo_override {
        Some(c) => c,
        None => String::from_str("cargo"),
    };
    let mut r: Vec<String> = Vec::new();
    r.push(tool);
    r.push(String::from_str("run"));
    r.push(String::from_str("-q"));
    r.push(String::from_str("--bin"));
    r.push(bin_name.clone());
    proof {
        assert(r.deep_view() =~= build_argv(tool_view, bin_name@));
    }
    r
}

/// The live evaluation session: the target entry file, the ordered buffer
/// of accepted code lines, the directory the build runs in, and the build
/// command line.
pub struct Repl {
    pub bin_path: String,
    pub buffer: Vec<String>,
    pub dir: String,
    pub command: Vec<String>,
}

impl Repl {
    /// Creates a session with an empty buffer over the given workspace
    /// directory and entry file.
    pub fn new(dir: String, bin_name: &String, bin_path: String, cargo_override: Option<String>) -> (r:
        Repl)
        ensures
            r.bin_path == bin_path,
            r.dir == dir,
            r.buffer@ == Seq::<String>::empty(),
            r.command.deep_view() == build_argv(tool_name(cargo_override), bin_name@),
    {
        Repl { bin_path, buffer: Vec::new(), dir, command: build_command(cargo_override, bin_name) }
    }

    /// Processes one completed input: executes a control command directly,
    /// or appends a code line as the build candidate and hands back the
    /// materialized program to build. The buffer changes exactly as
    /// `signal_step` says.
    pub fn process_signal(&mut self, sig: Signal) -> (act: Action)
        ensures
            final(self).bin_path == old(self).bin_path,
            final(self).dir == old(self).dir,
            final(self).command == old(self).command,
            final(self).buffer.deep_view() == signal_step(
                old(self).buffer.deep_view(),
                sig@,
            ).0,
            act@ == signal_step(old(self).buffer.deep_view(), sig@).1,
    {
        match sig {
            Signal::CtrlC => Action::Exit,
            Signal::CtrlD => Action::Exit,
            Signal::Success(line) => {
                if starts_with_colon(&line) {
                    if line_is(&line, ":q") || line_is(&line, ":quit") || line_is(&line, ":exit") {
                        Action::Exit
                    } else if line_is(&line, ":buffer") {
                        Action::Print { text: join_lines(&self.buffer, "\n") }
                    } else if line_is(&line, ":clear") {
                        self.buffer.clear();
                        proof {
                            assert(self.buffer.deep_view() =~= Seq::<Seq<char>>::empty());
                        }
                        Action::Silent
                    } else if line_is(&line, ":pop") {
                        let ghost dv0 = self.buffer.deep_view();
                        if self.buffer.len() > 0 {
                            self.buffer.pop();
                            proof {
                                assert(self.buffer.deep_view() =~= dv0.drop_last());
                            }
                        }
                        Action::Silent
                    } else if line_is(&line, ":h") || line_is(&line, ":help") {
                        Action::Print {
                            text: String::from_str(
                                ":q, :quit, :exit - Exit the REPL\n:buffer - Print the current buffer\n:clear - Clear the current buffer\n:pop - Remove the last line from the buffer\n:h, :help - Print this help message",
                            ),
                        }
                    } else {
                        let mut text = String::from_str("Unknown command: ");
                        text.append(line.as_str());
                        text.append(". Type :help to show the available commands");
                        Action::PrintError { text }
                    }
                } else {
                    let ghost dv0 = self.buffer.deep_view();
                    let ghost l0 = line@;
                    let candidate = normalize_code_line(line);
                    self.buffer.push(candidate);
                    proof {
                        assert(self.buffer.deep_view() =~= dv0.push(normalized_line(l0)));
                    }
                    let source = render(&self.buffer);
                    Action::Build { source }
                }
            },
        }
    }

    /// Applies the observed outcome of the pending build attempt: success
    /// commits the candidate and surfaces the program's output; a build
    /// failure or a launch failure rolls the candidate back and surfaces
    /// the diagnostic on the error stream.
    pub fn process_build(&mut self, outcome: BuildOutcome) -> (rep: BuildReport)
        ensures
            final(self).bin_path == old(self).bin_path,
            final(self).dir == old(self).dir,
            final(self).command == old(self).command,
            final(self).buffer.deep_view() == build_step(
                old(self).buffer.deep_view(),
                outcome is Success,
            ),
            match outcome {
                BuildOutcome::Success { stdout } => rep.result == ReplResult::Success
                    && rep.message@ == stdout@ && !rep.to_error_stream,
                BuildOutcome::Failure { stderr } => rep.result == ReplResult::Failure
                    && rep.message@ == stderr@ && rep.to_error_stream,
                BuildOutcome::LaunchError { message } => rep.result == ReplResult::Failure
                    && rep.message@ == "Failed to build: "@ + message@ && rep.to_error_stream,
            },
    {
        match outcome {
            BuildOutcome::Success { stdout } => BuildReport {
                result: ReplResult::Success,
                message: stdout,
                to_error_stream: false,
            },
            BuildOutcome::Failure { stderr } => {
                self.rollback_candidate();
                BuildReport { result: ReplResult::Failure, message: stderr, to_error_stream: true }
            },
            BuildOutcome::LaunchError { message } => {
                self.rollback_candidate();
                let mut text = String::from_str("Failed to build: ");
                text.append(message.as_str());
                BuildReport { result: ReplResult::Failure, message: text, to_error_stream: true }
            },
        }
    }

    /// Removes the pending candidate line, restoring the last known-good
    /// buffer.
    fn rollback_candidate(&mut self)
        ensures
            final(self).bin_path == old(self).bin_path,
            final(self).dir == old(self).dir,
            final(self).command == old(self).command,
            final(self).buffer.deep_view() == build_step(old(self).buffer.deep_view(), false),
    {
        let ghost dv0 = self.buffer.deep_view();
        if self.buffer.len() > 0 {
            self.buffer.pop();
            proof {
                assert(self.buffer.deep_view() =~= dv0.drop_last());
            }
        }
    }
}

impl Action {
    /// The session result of an action that finishes without a build
    /// attempt: quitting reports `Exit`, every control command reports
    /// `Unknown`. The result of a `Build` action is pending until the
    /// outcome is applied.
    pub fn result(&self) -> (r: ReplResult)
        ensures
            r == (if self is Exit {
                ReplResult::Exit
            } else {
                ReplResult::Unknown
            }),
    {
        match self {
            Action::Exit => ReplResult::Exit,
            _ => ReplResult::Unknown,
        }
    }
}

} // verus!
