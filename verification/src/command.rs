//! Commands to run and the replies that come back.
//!
//! The library decides which command is run next and what its reply means. It
//! starts no process itself: a caller runs the [`Command`] and hands back the
//! [`Reply`].

use vstd::prelude::*;
use vstd::string::*;
use vstd::utf8::*;

use crate::text;

verus! {

/// A tool that the workflow drives.
#[derive(Clone, Copy, Debug, PartialEq, Eq, Structural)]
pub enum Program {
    /// The `git` command.
    Git,
    /// The GitHub command-line client.
    Gh,
}

/// The name under which a program is invoked.
pub open spec fn program_name(p: Program) -> Seq<char> {
    match p {
        Program::Git => "git"@,
        Program::Gh => "gh"@,
    }
}

impl Program {
    /// The name under which the program is invoked.
    pub fn name(self) -> (r: &'static str)
        ensures
            r@ == program_name(self),
    {
        match self {
            Program::Git => "git",
            Program::Gh => "gh",
        }
    }
}

/// One invocation of a program.
#[derive(Debug)]
pub struct Command {
    pub program: Program,
    pub args: Vec<String>,
    /// True when the program writes to the user's terminal itself; false when
    /// its output is captured.
    pub inherit: bool,
}

/// The model of a [`Command`].
#[verifier::ext_equal]
pub struct CommandView {
    pub program: Program,
    pub args: Seq<Seq<char>>,
    pub inherit: bool,
}

impl DeepView for Command {
    type V = CommandView;

    open spec fn deep_view(&self) -> CommandView {
        CommandView {
            program: self.program,
            args: self.args.deep_view(),
            inherit: self.inherit,
        }
    }
}

/// `git` with captured output.
pub open spec fn git(args: Seq<Seq<char>>) -> CommandView {
    CommandView { program: Program::Git, args, inherit: false }
}

/// `git` on the user's terminal.
pub open spec fn git_inherit(args: Seq<Seq<char>>) -> CommandView {
    CommandView { program: Program::Git, args, inherit: true }
}

/// `gh` with captured output.
pub open spec fn gh(args: Seq<Seq<char>>) -> CommandView {
    CommandView { program: Program::Gh, args, inherit: false }
}

/// The command as a user would type it, without quoting.
pub open spec fn command_line(c: CommandView) -> Seq<char> {
    program_name(c.program) + " "@ + text::joined(c.args, " "@)
}

/// What came back from running a [`Command`].
#[derive(Debug)]
pub enum Reply {
    /// The program could not be started; the text says why.
    NotRun(String),
    /// The program ended. `code` is `None` when a signal killed it. The
    /// outputs are empty when they were not captured.
    Exited { code: Option<i32>, stdout: Vec<u8>, stderr: Vec<u8> },
}

/// The model of a [`Reply`].
#[verifier::ext_equal]
pub enum ReplyView {
    NotRun(Seq<char>),
    Exited { code: Option<i32>, stdout: Seq<u8>, stderr: Seq<u8> },
}

impl DeepView for Reply {
    type V = ReplyView;

    open spec fn deep_view(&self) -> ReplyView {
        match self {
            Reply::NotRun(cause) => ReplyView::NotRun(cause@),
            Reply::Exited { code, stdout, stderr } => ReplyView::Exited {
                code: *code,
                stdout: stdout@,
                stderr: stderr@,
            },
        }
    }
}

/// The program ran and ended with exit code zero.
pub open spec fn succeeded(r: ReplyView) -> bool {
    r matches ReplyView::Exited { code: Some(0), .. }
}

/// Why a step of the workflow failed, worded for the user.
#[derive(Debug)]
pub struct Error {
    pub message: String,
}

impl DeepView for Error {
    type V = Seq<char>;

    open spec fn deep_view(&self) -> Seq<char> {
        self.message@
    }
}

/// The model of a result: the model of its value, or the error's text.
pub open spec fn seen<T: DeepView>(r: Result<T, Error>) -> Result<T::V, Seq<char>> {
    match r {
        Ok(t) => Ok(t.deep_view()),
        Err(e) => Err(e.message@),
    }
}

/// An error's text with the failed step named in front of it.
pub open spec fn in_context(context: Seq<char>, cause: Seq<char>) -> Seq<char> {
    context + ": "@ + cause
}

impl Error {
    /// An error with this text.
    pub fn new(message: &str) -> (r: Error)
        ensures
            r.message@ == message@,
    {
        Error { message: message.to_owned() }
    }

    /// Names the step that failed in front of the text.
    pub fn context(self, context: &str) -> (r: Error)
        ensures
            r.message@ == in_context(context@, self.message@),
    {
        let mut message = context.to_owned();
        message.append(": ");
        message.append(self.message.as_str());
        Error { message }
    }
}

/// The text that the bytes of an output hold, with a replacement character for
/// what is not UTF-8.
pub uninterp spec fn lossy_utf8(bytes: Seq<u8>) -> Seq<char>;

/// Reads bytes as text with `String::from_utf8_lossy`. Nothing is proved of
/// that function: its result is named [`lossy_utf8`], and bytes that are valid
/// UTF-8 are taken to be decoded unchanged. Which replacement characters stand
/// for invalid bytes is left unsaid.
#[verifier::external_body]
pub(crate) fn text_of_bytes(bytes: &Vec<u8>) -> (r: String)
    ensures
        r@ == lossy_utf8(bytes@),
        valid_utf8(bytes@) ==> r@ == decode_utf8(bytes@),
{
    String::from_utf8_lossy(bytes).into_owned()
}

/// The trimmed text of an output.
pub open spec fn output_text(bytes: Seq<u8>) -> Seq<char> {
    text::trimmed(lossy_utf8(bytes))
}

/// Reads an output as trimmed text.
pub fn read_output(bytes: &Vec<u8>) -> (r: String)
    ensures
        r@ == output_text(bytes@),
        valid_utf8(bytes@) ==> r@ == text::trimmed(decode_utf8(bytes@)),
{
    let decoded = text_of_bytes(bytes);
    text::trim(decoded.as_str()).to_owned()
}

/// The text for a program that could not be started.
pub open spec fn not_run_text(c: CommandView, cause: Seq<char>) -> Seq<char> {
    in_context("failed to invoke "@ + command_line(c), cause)
}

/// What a captured command returns: its trimmed output, or why it failed.
pub open spec fn captured(c: CommandView, r: ReplyView) -> Result<Seq<char>, Seq<char>> {
    match r {
        ReplyView::NotRun(cause) => Err(not_run_text(c, cause)),
        ReplyView::Exited { code: Some(0), stdout, .. } => Ok(output_text(stdout)),
        ReplyView::Exited { stderr, .. } => Err(
            command_line(c) + " failed: "@ + output_text(stderr),
        ),
    }
}

/// What a command on the user's terminal returns.
pub open spec fn inherited(c: CommandView, r: ReplyView) -> Result<(), Seq<char>> {
    match r {
        ReplyView::NotRun(cause) => Err(not_run_text(c, cause)),
        ReplyView::Exited { code: Some(0), .. } => Ok(()),
        ReplyView::Exited { .. } => Err(command_line(c) + " failed"@),
    }
}

/// Whether a command whose output does not matter succeeded.
pub open spec fn completed(c: CommandView, r: ReplyView) -> Result<(), Seq<char>> {
    if c.inherit {
        inherited(c, r)
    } else {
        match captured(c, r) {
            Ok(_) => Ok(()),
            Err(e) => Err(e),
        }
    }
}

/// A list of arguments.
pub fn words(parts: &[&str]) -> (r: Vec<String>)
    ensures
        r.deep_view() == parts@.map_values(|s: &str| s@),
{
    let mut r: Vec<String> = Vec::new();
    let mut i: usize = 0;
    while i < parts.len()
        invariant
            i <= parts.len(),
            r.len() == i,
            forall|j: int| 0 <= j < i ==> (#[trigger] r@[j])@ == parts@[j]@,
        decreases parts.len() - i,
    {
        r.push(parts[i].to_owned());
        i = i + 1;
    }
    assert(r.deep_view() == parts@.map_values(|s: &str| s@));
    r
}

/// Appends one argument.
pub fn append_arg(args: &mut Vec<String>, arg: &str)
    ensures
        final(args).deep_view() == old(args).deep_view().push(arg@),
{
    let ghost prior = args.deep_view();
    args.push(arg.to_owned());
    assert(args.deep_view() == prior.push(arg@));
}

impl Command {
    /// `git` with captured output.
    pub fn git(args: Vec<String>) -> (r: Command)
        ensures
            r.deep_view() == git(args.deep_view()),
    {
        Command { program: Program::Git, args, inherit: false }
    }

    /// `git` on the user's terminal.
    pub fn git_inherit(args: Vec<String>) -> (r: Command)
        ensures
            r.deep_view() == git_inherit(args.deep_view()),
    {
        Command { program: Program::Git, args, inherit: true }
    }

    /// `gh` with captured output.
    pub fn gh(args: Vec<String>) -> (r: Command)
        ensures
            r.deep_view() == gh(args.deep_view()),
    {
        Command { program: Program::Gh, args, inherit: false }
    }

    /// The command as a user would type it.
    pub fn line(&self) -> (r: String)
        ensures
            r@ == command_line(self.deep_view()),
    {
        let mut r = self.program.name().to_owned();
        r.append(" ");
        r.append(text::join(&self.args, " ").as_str());
        r
    }

    /// The error for a program that could not be started.
    pub fn not_run(&self, cause: &str) -> (r: Error)
        ensures
            r.message@ == not_run_text(self.deep_view(), cause@),
    {
        let mut context = "failed to invoke ".to_owned();
        context.append(self.line().as_str());
        Error::new(cause).context(context.as_str())
    }
}

impl Reply {
    /// Whether the program ran and ended with exit code zero.
    pub fn success(&self) -> (r: bool)
        ensures
            r == succeeded(self.deep_view()),
    {
        match self {
            Reply::Exited { code: Some(c), .. } => *c == 0,
            _ => false,
        }
    }
}

/// Interprets the reply to a captured command.
pub fn run_capture(command: &Command, reply: &Reply) -> (r: Result<String, Error>)
    ensures
        seen(r) == captured(command.deep_view(), reply.deep_view()),
{
    match reply {
        Reply::NotRun(cause) => Err(command.not_run(cause.as_str())),
        Reply::Exited { stdout, stderr, .. } => {
            if reply.success() {
                Ok(read_output(stdout))
            } else {
                let mut message = command.line();
                message.append(" failed: ");
                message.append(read_output(stderr).as_str());
                Err(Error { message })
            }
        },
    }
}

/// Interprets the reply to a command on the user's terminal.
pub fn run_inherit(command: &Command, reply: &Reply) -> (r: Result<(), Error>)
    ensures
        seen(r) == inherited(command.deep_view(), reply.deep_view()),
{
    match reply {
        Reply::NotRun(cause) => Err(command.not_run(cause.as_str())),
        Reply::Exited { .. } => {
            if reply.success() {
                Ok(())
            } else {
                let mut message = command.line();
                message.append(" failed");
                Err(Error { message })
            }
        },
    }
}

/// Interprets the reply to a command whose output does not matter.
pub fn complete(command: &Command, reply: &Reply) -> (r: Result<(), Error>)
    ensures
        seen(r) == completed(command.deep_view(), reply.deep_view()),
{
    if command.inherit {
        run_inherit(command, reply)
    } else {
        match run_capture(command, reply) {
            Ok(_) => Ok(()),
            Err(e) => Err(e),
        }
    }
}

} // verus!
