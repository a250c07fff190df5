//! The language servers that the extension starts for C# and Razor files,
//! and the steps by which a server's command comes about.
//!
//! Finding or installing a server alternates work outside this crate (a
//! lookup on the worktree's `PATH`, a run of a command) with decisions. The
//! decisions are made here: each step hands out notes for the editor (an
//! installation status, a message) and then either a request whose reply
//! comes back into the next step, or the final result.
pub mod csharp_ls;
pub mod roslyn_official;

use vstd::prelude::*;
use crate::text::string_views;

verus! {

/// What the editor shows of a server's installation.
#[derive(Clone, Copy, Debug, PartialEq, Eq, Structural)]
pub enum InstallStatus {
    /// Nothing to show.
    Idle,
    Downloading,
    CheckingForUpdate,
}

/// Something for the editor to show or to log before the next request.
#[derive(Debug)]
pub enum Note {
    Status(InstallStatus),
    Report(String),
}

/// A command to run: a program and its arguments, under the worktree's
/// environment where `worktree_env` says so.
#[derive(Debug)]
pub struct ToolRun {
    pub program: String,
    pub args: Vec<String>,
    pub worktree_env: bool,
}

/// A request for work outside this crate.
#[derive(Debug)]
pub enum Request {
    /// Where the binary `binary` is on the worktree's `PATH`.
    Locate { binary: String },
    /// Run a command and hand back its output.
    Run(ToolRun),
    /// The .NET root, resolved as `RoslynOfficial::resolve_dotnet_root`
    /// says, under the worktree's environment where `worktree_env` says so.
    DotnetRoot { worktree_env: bool },
}

/// What a command that ran gave back.
#[derive(Debug)]
pub struct RunOutput {
    pub status: Option<i32>,
    pub stdout: String,
    pub stderr: String,
}

/// The reply to a request.
#[derive(Debug)]
pub enum Reply {
    Located(Option<String>),
    /// The command's output, or the error that kept it from running.
    Ran(Result<RunOutput, String>),
    Root(Option<String>),
}

/// How to start a language server.
#[derive(Debug)]
pub struct ServerCommand {
    pub command: String,
    pub args: Vec<String>,
    pub env: Vec<(String, String)>,
}

/// What comes after the notes of a step.
#[derive(Debug)]
pub enum Next {
    Ask(Request),
    Finish(Result<ServerCommand, String>),
}

/// One step: notes to show, then what comes next.
#[derive(Debug)]
pub struct Step {
    pub notes: Vec<Note>,
    pub next: Next,
}

/// The notes are exactly the status changes `statuses`, in order.
pub open spec fn status_notes(notes: Seq<Note>, statuses: Seq<InstallStatus>) -> bool {
    &&& notes.len() == statuses.len()
    &&& forall|i: int| 0 <= i < notes.len() ==> #[trigger] notes[i] == Note::Status(statuses[i])
}

/// The step asks where `binary` is.
pub open spec fn asks_locate(next: Next, binary: Seq<char>) -> bool {
    next matches Next::Ask(Request::Locate { binary: b }) && b@ == binary
}

/// The step asks to run `program` with `args`.
pub open spec fn asks_run(next: Next, program: Seq<char>, args: Seq<Seq<char>>, worktree_env: bool) -> bool {
    next matches Next::Ask(Request::Run(t)) && t.program@ == program && string_views(t.args@) == args
        && t.worktree_env == worktree_env
}

/// The step ends with the command that starts `command` with `args` under `env`.
pub open spec fn finishes_with_command(
    next: Next,
    command: Seq<char>,
    args: Seq<Seq<char>>,
    env: Seq<(String, String)>,
) -> bool {
    next matches Next::Finish(Ok(c)) && c.command@ == command && string_views(c.args@) == args
        && c.env@ == env
}

/// The step ends with the error `msg`.
pub open spec fn finishes_with_error(next: Next, msg: Seq<char>) -> bool {
    next matches Next::Finish(Err(e)) && e@ == msg
}

/// A list of strings with the given views.
pub fn strings(a: &str, b: &str, c: &str, d: &str) -> (r: Vec<String>)
    ensures
        string_views(r@) == seq![a@, b@, c@, d@],
{
    let mut r: Vec<String> = Vec::new();
    r.push(crate::text::owned(a));
    r.push(crate::text::owned(b));
    r.push(crate::text::owned(c));
    r.push(crate::text::owned(d));
    assert(string_views(r@) =~= seq![a@, b@, c@, d@]);
    r
}

/// A list of strings with the given views.
pub fn strings7(a: &str, b: &str, c: &str, d: &str, e: &str, f: &str, g: &str) -> (r: Vec<String>)
    ensures
        string_views(r@) == seq![a@, b@, c@, d@, e@, f@, g@],
{
    let mut r: Vec<String> = Vec::new();
    r.push(crate::text::owned(a));
    r.push(crate::text::owned(b));
    r.push(crate::text::owned(c));
    r.push(crate::text::owned(d));
    r.push(crate::text::owned(e));
    r.push(crate::text::owned(f));
    r.push(crate::text::owned(g));
    assert(string_views(r@) =~= seq![a@, b@, c@, d@, e@, f@, g@]);
    r
}

/// A step with the status changes `statuses` as notes.
pub fn status_step(statuses: &Vec<InstallStatus>, next: Next) -> (r: Step)
    ensures
        status_notes(r.notes@, statuses@),
        r.next == next,
{
    let mut notes: Vec<Note> = Vec::new();
    let mut i: usize = 0;
    while i < statuses.len()
        invariant
            i <= statuses@.len(),
            notes@.len() == i,
            forall|j: int| 0 <= j < i ==> #[trigger] notes@[j] == Note::Status(statuses@[j]),
        decreases statuses@.len() - i,
    {
        notes.push(Note::Status(statuses[i]));
        i = i + 1;
    }
    Step { notes, next }
}

/// The language servers that the extension knows.
#[derive(Clone, Copy, Debug, PartialEq, Eq, Structural)]
pub enum ServerKind {
    RoslynOfficial,
    CsharpLs,
    HtmlInRazor,
}

/// The id under which the editor knows the HTML server for Razor files.
pub const HTML_LANGUAGE_SERVER_ID: &'static str = "html-in-razor";

/// The server that an id names.
pub open spec fn server_kind_of(id: Seq<char>) -> Option<ServerKind> {
    if id == "roslyn-official"@ {
        Some(ServerKind::RoslynOfficial)
    } else if id == "csharp-ls"@ {
        Some(ServerKind::CsharpLs)
    } else if id == HTML_LANGUAGE_SERVER_ID@ {
        Some(ServerKind::HtmlInRazor)
    } else {
        None
    }
}

/// The server that an id names, or the message for an unknown one.
pub fn server_kind(id: &str) -> (r: Result<ServerKind, String>)
    ensures
        match r {
            Ok(k) => server_kind_of(id@) == Some(k),
            Err(e) => server_kind_of(id@) is None && e@ == "unknown language server: "@ + id@,
        },
{
    if crate::text::str_eq(id, roslyn_official::RoslynOfficial::LANGUAGE_SERVER_ID) {
        Ok(ServerKind::RoslynOfficial)
    } else if crate::text::str_eq(id, csharp_ls::CsharpLs::LANGUAGE_SERVER_ID) {
        Ok(ServerKind::CsharpLs)
    } else if crate::text::str_eq(id, HTML_LANGUAGE_SERVER_ID) {
        Ok(ServerKind::HtmlInRazor)
    } else {
        Err(crate::text::join2("unknown language server: ", id))
    }
}

} // verus!
