//! csharp-ls, the lightweight C# language server.
use vstd::prelude::*;
use crate::settings::{
    csharp_ls_default_entries, csharp_ls_defaults, settings_map, user_map, with_user_settings,
    SettingValue, keys_unique,
};
use crate::text::{owned, string_views};
use crate::language_servers::{
    asks_locate, asks_run, finishes_with_command, finishes_with_error, status_notes,
    status_step, strings, InstallStatus, Next, Reply, Request, ServerCommand, Step, ToolRun,
};

verus! {

/// The csharp-ls language server.
pub struct CsharpLs;

impl CsharpLs {
    /// The id under which the editor knows this server.
    pub const LANGUAGE_SERVER_ID: &'static str = "csharp-ls";

    pub fn new() -> (r: Self)
        ensures
            r == CsharpLs,
    {
        CsharpLs
    }

    /// The workspace configuration for csharp-ls: one section, `csharp`,
    /// with analyzers and metadata URIs on unless the user's settings say
    /// otherwise. The user's settings count only where they are an object.
    pub fn configuration_options<V>(user_settings: Option<Vec<(String, V)>>) -> (r: (
        String,
        Vec<(String, SettingValue<V>)>,
    ))
        ensures
            r.0@ == "csharp"@,
            settings_map(r.1@) == csharp_ls_defaults::<V>().union_prefer_right(
                user_map(
                    match user_settings {
                        Some(u) => Some(u@),
                        None => None,
                    },
                ),
            ),
            keys_unique(r.1@),
    {
        let entries = with_user_settings(csharp_ls_default_entries(), user_settings);
        (owned("csharp"), entries)
    }
}

/// Where finding csharp-ls stands.
pub enum CsharpLsStage {
    /// Looking for csharp-ls on the worktree's `PATH`.
    Locating,
    /// Updating the csharp-ls found at `path`.
    Updating { path: String },
    /// Installing csharp-ls.
    Installing,
    /// Looking for csharp-ls again after installing it.
    Relocating,
    Finished,
}

/// The `dotnet` arguments that update or install csharp-ls as a global tool.
pub open spec fn dotnet_tool_args(verb: Seq<char>) -> Seq<Seq<char>> {
    seq!["tool"@, verb, "--global"@, "csharp-ls"@]
}

/// The step from `stage` on `reply` to `next`, with `step`.
pub open spec fn csharp_ls_step(stage: CsharpLsStage, reply: Reply, next: CsharpLsStage, step: Step) -> bool {
    match (stage, reply) {
        (CsharpLsStage::Locating, Reply::Located(found)) => match found {
            Some(p) => {
                &&& next matches CsharpLsStage::Updating { path } && path == p
                &&& status_notes(step.notes@, seq![InstallStatus::Downloading])
                &&& asks_run(step.next, "dotnet"@, dotnet_tool_args("update"@), false)
            },
            None => {
                &&& next is Installing
                &&& status_notes(step.notes@, seq![InstallStatus::Downloading])
                &&& asks_run(step.next, "dotnet"@, dotnet_tool_args("install"@), false)
            },
        },
        (CsharpLsStage::Updating { path }, Reply::Ran(_)) => {
            &&& next is Finished
            &&& status_notes(step.notes@, seq![InstallStatus::Idle])
            &&& finishes_with_command(step.next, path@, Seq::empty(), Seq::empty())
        },
        (CsharpLsStage::Installing, Reply::Ran(r)) => match r {
            Err(e) => {
                &&& next is Finished
                &&& step.notes@.len() == 0
                &&& finishes_with_error(step.next, e@)
            },
            Ok(_) => {
                &&& next is Relocating
                &&& status_notes(step.notes@, seq![InstallStatus::Idle])
                &&& asks_locate(step.next, "csharp-ls"@)
            },
        },
        (CsharpLsStage::Relocating, Reply::Located(found)) => {
            &&& next is Finished
            &&& step.notes@.len() == 0
            &&& match found {
                Some(p) => finishes_with_command(step.next, p@, Seq::empty(), Seq::empty()),
                None => finishes_with_error(
                    step.next,
                    "csharp-ls not found. Install manually: dotnet tool install --global csharp-ls"@,
                ),
            }
        },
        _ => false,
    }
}

/// The reply answers the request of the last step.
pub open spec fn csharp_ls_answers(stage: CsharpLsStage, reply: Reply) -> bool {
    match (stage, reply) {
        (CsharpLsStage::Locating, Reply::Located(_)) => true,
        (CsharpLsStage::Updating { .. }, Reply::Ran(_)) => true,
        (CsharpLsStage::Installing, Reply::Ran(_)) => true,
        (CsharpLsStage::Relocating, Reply::Located(_)) => true,
        _ => false,
    }
}

/// Finding csharp-ls: a copy on the worktree's `PATH` is updated (whether
/// the update works does not matter) and used; else csharp-ls is installed
/// as a global tool and looked for again.
pub struct CsharpLsSetup {
    pub stage: CsharpLsStage,
}

/// The command that starts csharp-ls at `path`, without arguments or
/// environment.
fn plain_command(path: String) -> (r: ServerCommand)
    ensures
        r.command == path,
        string_views(r.args@) == Seq::<Seq<char>>::empty(),
        r.env@ == Seq::<(String, String)>::empty(),
{
    let r = ServerCommand { command: path, args: Vec::new(), env: Vec::new() };
    assert(string_views(r.args@) =~= Seq::<Seq<char>>::empty());
    assert(r.env@ =~= Seq::<(String, String)>::empty());
    r
}

impl CsharpLs {
    /// Begins finding the command that starts csharp-ls; the steps that
    /// follow go through the setup that this hands back.
    pub fn language_server_command(&mut self) -> (r: (CsharpLsSetup, Step))
        ensures
            r.0.stage is Locating,
            r.1.notes@.len() == 0,
            asks_locate(r.1.next, "csharp-ls"@),
    {
        CsharpLsSetup::start()
    }
}

impl CsharpLsSetup {
    /// Begins by looking for csharp-ls.
    pub fn start() -> (r: (CsharpLsSetup, Step))
        ensures
            r.0.stage is Locating,
            r.1.notes@.len() == 0,
            asks_locate(r.1.next, "csharp-ls"@),
    {
        (
            CsharpLsSetup { stage: CsharpLsStage::Locating },
            Step {
                notes: Vec::new(),
                next: Next::Ask(Request::Locate { binary: owned("csharp-ls") }),
            },
        )
    }

    /// Whether `reply` answers the request of the last step.
    pub fn accepts(&self, reply: &Reply) -> (r: bool)
        ensures
            r == csharp_ls_answers(self.stage, *reply),
    {
        match (&self.stage, reply) {
            (CsharpLsStage::Locating, Reply::Located(_)) => true,
            (CsharpLsStage::Updating { .. }, Reply::Ran(_)) => true,
            (CsharpLsStage::Installing, Reply::Ran(_)) => true,
            (CsharpLsStage::Relocating, Reply::Located(_)) => true,
            _ => false,
        }
    }

    /// Takes in the reply to the last request and says what comes next.
    pub fn advance(&mut self, reply: Reply) -> (r: Step)
        requires
            csharp_ls_answers(old(self).stage, reply),
        ensures
            csharp_ls_step(old(self).stage, reply, final(self).stage, r),
    {
        let mut stage = CsharpLsStage::Finished;
        std::mem::swap(&mut stage, &mut self.stage);
        let mut downloading: Vec<InstallStatus> = Vec::new();
        downloading.push(InstallStatus::Downloading);
        let mut idle: Vec<InstallStatus> = Vec::new();
        idle.push(InstallStatus::Idle);
        assert(downloading@ =~= seq![InstallStatus::Downloading]);
        assert(idle@ =~= seq![InstallStatus::Idle]);
        match (stage, reply) {
            (CsharpLsStage::Locating, Reply::Located(found)) => match found {
                Some(p) => {
                    self.stage = CsharpLsStage::Updating { path: p };
                    let run = ToolRun {
                        program: owned("dotnet"),
                        args: strings("tool", "update", "--global", "csharp-ls"),
                        worktree_env: false,
                    };
                    status_step(&downloading, Next::Ask(Request::Run(run)))
                },
                None => {
                    self.stage = CsharpLsStage::Installing;
                    let run = ToolRun {
                        program: owned("dotnet"),
                        args: strings("tool", "install", "--global", "csharp-ls"),
                        worktree_env: false,
                    };
                    status_step(&downloading, Next::Ask(Request::Run(run)))
                },
            },
            (CsharpLsStage::Updating { path }, Reply::Ran(_)) => {
                status_step(&idle, Next::Finish(Ok(plain_command(path))))
            },
            (CsharpLsStage::Installing, Reply::Ran(r)) => match r {
                Err(e) => Step { notes: Vec::new(), next: Next::Finish(Err(e)) },
                Ok(_) => {
                    self.stage = CsharpLsStage::Relocating;
                    status_step(&idle, Next::Ask(Request::Locate { binary: owned("csharp-ls") }))
                },
            },
            (CsharpLsStage::Relocating, Reply::Located(found)) => match found {
                Some(p) => Step { notes: Vec::new(), next: Next::Finish(Ok(plain_command(p))) },
                None => Step {
                    notes: Vec::new(),
                    next: Next::Finish(
                        Err(
                            owned(
                                "csharp-ls not found. Install manually: dotnet tool install --global csharp-ls",
                            ),
                        ),
                    ),
                },
            },
            (_, _) => Step { notes: Vec::new(), next: Next::Finish(Err(String::new())) },
        }
    }
}

/// How many steps finding csharp-ls has left at most.
pub open spec fn csharp_ls_distance(stage: CsharpLsStage) -> int {
    match stage {
        CsharpLsStage::Locating => 3,
        CsharpLsStage::Updating { .. } => 1,
        CsharpLsStage::Installing => 2,
        CsharpLsStage::Relocating => 1,
        CsharpLsStage::Finished => 0,
    }
}

/// Finding csharp-ls ends: every step brings it closer to its end.
pub proof fn law_csharp_ls_setup_ends(stage: CsharpLsStage, reply: Reply, next: CsharpLsStage, step: Step)
    requires
        csharp_ls_step(stage, reply, next, step),
    ensures
        0 <= csharp_ls_distance(next) < csharp_ls_distance(stage),
{
}

/// A copy of csharp-ls that a lookup finds is the one that gets started:
/// found before an install, it is updated and then started as it is, with
/// no arguments and no environment; found after an install, it is started
/// at once. The run fails only where running `dotnet` failed or the lookup
/// after the install found nothing.
pub proof fn law_csharp_ls_found_copy_is_started(
    stage: CsharpLsStage,
    reply: Reply,
    next: CsharpLsStage,
    step: Step,
)
    requires
        csharp_ls_step(stage, reply, next, step),
    ensures
        reply matches Reply::Located(Some(p)) ==> match stage {
            CsharpLsStage::Relocating => step.next matches Next::Finish(Ok(c)) && c.command@
                == p@ && c.args@.len() == 0 && c.env@.len() == 0,
            _ => next matches CsharpLsStage::Updating { path } && path@ == p@,
        },
        stage matches CsharpLsStage::Updating { path } ==> step.next matches Next::Finish(Ok(c))
            && c.command@ == path@ && c.args@.len() == 0 && c.env@.len() == 0,
        step.next matches Next::Finish(Err(_)) ==> reply == Reply::Located(None) || reply matches Reply::Ran(
            Err(_),
        ),
{
    if let Next::Finish(Ok(c)) = step.next {
        assert(string_views(c.args@).len() == c.args@.len());
    }
}

} // verus!
