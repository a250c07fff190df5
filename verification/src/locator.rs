//! The debug locator for .NET projects: it turns a run or test task into a
//! debug scenario, and later finds the program that the scenario launches.
use vstd::prelude::*;
use crate::debug_config::ADAPTER_NAME;
use crate::text::{
    string_views,
    chars_of, contains_exec, contains_seq, debug_quoted, debug_string, find_first, find_from,
    find_from_exec, find_last_char, find_last_char_exec, join2, join3, lemma_find_from_bounds,
    lemma_find_last_char_bounds, lemma_find_from_first, lemma_last_char_of_join,
    lemma_last_index_is_last, owned, starts_with, starts_with_exec, str_eq, substring, trim,
    trim_string, ends_with,
};

verus! {

/// The name of the locator that turns .NET run and test tasks into debug
/// scenarios.
pub const PROJECT_RUNNER_LOCATOR_NAME: &'static str = "csharp-project-runner";

/// The value of the first variable named `key` in `env`.
pub open spec fn env_lookup(env: Seq<(String, String)>, key: Seq<char>) -> Option<Seq<char>>
    decreases env.len(),
{
    if env.len() == 0 {
        None
    } else if env[0].0@ == key {
        Some(env[0].1@)
    } else {
        env_lookup(env.drop_first(), key)
    }
}

/// The value of the first variable named `key` in `env`.
pub fn env_value(env: &Vec<(String, String)>, key: &str) -> (r: Option<String>)
    ensures
        match r {
            Some(v) => env_lookup(env@, key@) == Some(v@),
            None => env_lookup(env@, key@) is None,
        },
{
    let mut i: usize = 0;
    proof {
        assert(env@.skip(0) =~= env@);
    }
    while i < env.len()
        invariant
            i <= env@.len(),
            env_lookup(env@, key@) == env_lookup(env@.skip(i as int), key@),
        decreases env@.len() - i,
    {
        proof {
            assert(env@.skip(i as int)[0] == env@[i as int]);
            assert(env@.skip(i as int).drop_first() =~= env@.skip(i + 1));
        }
        if str_eq(env[i].0.as_str(), key) {
            return Some(owned(env[i].1.as_str()));
        }
        i = i + 1;
    }
    None
}

/// The tag that opens a project's target framework.
pub open spec fn framework_open() -> Seq<char> {
    "<TargetFramework>"@
}

/// The tag that closes a project's target framework.
pub open spec fn framework_close() -> Seq<char> {
    "</TargetFramework>"@
}

/// The text between the first `<TargetFramework>` of a project file and the
/// first `</TargetFramework>` after it.
pub open spec fn target_framework_of(content: Seq<char>) -> Option<Seq<char>> {
    match find_first(content, framework_open()) {
        None => None,
        Some(i) => {
            let start = i + framework_open().len();
            match find_from(content, framework_close(), start) {
                None => None,
                Some(e) => Some(content.subrange(start, e)),
            }
        },
    }
}

/// The target framework that a project file names, such as `net8.0`.
pub fn parse_target_framework(csproj_content: &str) -> (r: Option<String>)
    ensures
        match r {
            Some(t) => target_framework_of(csproj_content@) == Some(t@),
            None => target_framework_of(csproj_content@) is None,
        },
{
    let v = chars_of(csproj_content);
    let open_tag = chars_of("<TargetFramework>");
    let close_tag = chars_of("</TargetFramework>");
    let i = match find_from_exec(&v, &open_tag, 0) {
        None => return None,
        Some(i) => i,
    };
    proof {
        lemma_find_from_bounds(v@, open_tag@, 0);
        assert(find_from(v@, open_tag@, 0) == Some(i as int));
        assert(i + open_tag@.len() <= v@.len());
    }
    let n = v.len();
    assert(n == v@.len());
    let start = i + open_tag.len();
    let e = match find_from_exec(&v, &close_tag, start) {
        None => return None,
        Some(e) => e,
    };
    proof {
        lemma_find_from_bounds(v@, close_tag@, start as int);
    }
    Some(substring(csproj_content, start, e))
}

/// A task is a .NET run or test task: its command starts with `dotnet`, and
/// `run` or `test` is one of its arguments or stands in the command.
pub open spec fn is_dotnet_command(command: Seq<char>, args: Seq<String>) -> bool {
    &&& starts_with(command, "dotnet"@)
    &&& {
        ||| exists|i: int| 0 <= i < args.len() && (args[i]@ == "run"@ || args[i]@ == "test"@)
        ||| contains_seq(command, "run"@)
        ||| contains_seq(command, "test"@)
    }
}

/// Whether a task is a .NET run or test task.
pub fn is_dotnet_command_exec(command: &str, args: &Vec<String>) -> (r: bool)
    ensures
        r == is_dotnet_command(command@, args@),
{
    if !starts_with_exec(command, "dotnet") {
        return false;
    }
    let mut i: usize = 0;
    while i < args.len()
        invariant
            starts_with(command@, "dotnet"@),
            i <= args@.len(),
            forall|j: int| 0 <= j < i ==> !(args@[j]@ == "run"@ || args@[j]@ == "test"@),
        decreases args@.len() - i,
    {
        if str_eq(args[i].as_str(), "run") || str_eq(args[i].as_str(), "test") {
            assert(0 <= i < args@.len() && (args@[i as int]@ == "run"@ || args@[i as int]@
                == "test"@));
            return true;
        }
        i = i + 1;
    }
    contains_exec(command, "run") || contains_exec(command, "test")
}

/// A task: a shell command with its arguments, working directory and
/// environment, under a label. A debug scenario's build step is one too.
pub struct TaskTemplate {
    pub label: String,
    pub command: String,
    pub args: Vec<String>,
    pub cwd: Option<String>,
    pub env: Vec<(String, String)>,
}

/// A debug scenario whose build step a locator completes later.
pub struct LocatorScenario {
    pub adapter: String,
    pub label: String,
    /// The locator that the build step defers to.
    pub locator_name: String,
    pub build: TaskTemplate,
    /// The adapter's configuration, as JSON text.
    pub config: String,
}

/// Creating a scenario would cut the first character off an empty
/// `DOTNET_FILE`: a run or test task for netcoredbg under the project
/// runner whose `DOTNET_FILE` is set but empty.
pub open spec fn scenario_cuts_empty_file(
    locator_name: Seq<char>,
    command: Seq<char>,
    args: Seq<String>,
    env: Seq<(String, String)>,
    debug_adapter_name: Seq<char>,
) -> bool {
    &&& debug_adapter_name == ADAPTER_NAME@
    &&& locator_name == PROJECT_RUNNER_LOCATOR_NAME@
    &&& is_dotnet_command(command, args)
    &&& env_lookup(env, "DOTNET_FILE"@) == Some(Seq::<char>::empty())
}

/// Whether creating a scenario would cut the first character off an empty
/// `DOTNET_FILE`.
pub fn scenario_cuts_empty_file_exec(
    locator_name: &str,
    build_task: &TaskTemplate,
    debug_adapter_name: &str,
) -> (r: bool)
    ensures
        r == scenario_cuts_empty_file(
            locator_name@,
            build_task.command@,
            build_task.args@,
            build_task.env@,
            debug_adapter_name@,
        ),
{
    if !str_eq(debug_adapter_name, ADAPTER_NAME) || !str_eq(
        locator_name,
        PROJECT_RUNNER_LOCATOR_NAME,
    ) || !is_dotnet_command_exec(build_task.command.as_str(), &build_task.args) {
        return false;
    }
    match env_value(&build_task.env, "DOTNET_FILE") {
        None => false,
        Some(f) => {
            let n = chars_of(f.as_str()).len();
            proof {
                if n == 0 {
                    assert(f@ =~= Seq::<char>::empty());
                }
            }
            n == 0
        },
    }
}

/// The debug scenario for a task: only the project runner makes one, for
/// netcoredbg, for a .NET run or test task that sets `DOTNET_FILE`. The
/// task's variables are not resolved yet, so its build step only echoes
/// `DOTNET_FILE` (without its first character, which would let the shell
/// resolve it), and the scenario has no configuration: the locator builds
/// the project and finds the program when the session starts.
pub fn dap_locator_create_scenario(
    locator_name: String,
    build_task: TaskTemplate,
    resolved_label: String,
    debug_adapter_name: String,
) -> (r: Option<LocatorScenario>)
    requires
        !scenario_cuts_empty_file(
            locator_name@,
            build_task.command@,
            build_task.args@,
            build_task.env@,
            debug_adapter_name@,
        ),
    ensures
        ({
            let made = {
                &&& debug_adapter_name@ == ADAPTER_NAME@
                &&& locator_name@ == PROJECT_RUNNER_LOCATOR_NAME@
                &&& is_dotnet_command(build_task.command@, build_task.args@)
                &&& env_lookup(build_task.env@, "DOTNET_FILE"@) is Some
            };
            &&& made <==> r is Some
            &&& r matches Some(s) ==> {
                let file = env_lookup(build_task.env@, "DOTNET_FILE"@)->Some_0;
                &&& s.adapter == debug_adapter_name
                &&& s.label == resolved_label
                &&& s.locator_name == locator_name
                &&& s.config@ == "{}"@
                &&& s.build.label@ == "echo info"@
                &&& s.build.command@ == "echo"@
                &&& s.build.cwd == build_task.cwd
                &&& s.build.env == build_task.env
                &&& s.build.args@.len() == 2
                &&& s.build.args@[0]@ == "$ZED variables not resolved yet, deferring build step."@
                &&& s.build.args@[1]@ == "variable content: "@ + debug_quoted(file.drop_first())
            }
        }),
{
    if !str_eq(debug_adapter_name.as_str(), ADAPTER_NAME) {
        return None;
    }
    if !str_eq(locator_name.as_str(), PROJECT_RUNNER_LOCATOR_NAME) {
        return None;
    }
    if !is_dotnet_command_exec(build_task.command.as_str(), &build_task.args) {
        return None;
    }
    let file = env_value(&build_task.env, "DOTNET_FILE")?;
    let n = chars_of(file.as_str()).len();
    proof {
        if file@.len() == 0 {
            assert(file@ =~= Seq::<char>::empty());
        }
    }
    let rest = substring(file.as_str(), 1, n);
    proof {
        assert(rest@ =~= file@.drop_first());
    }
    let shown = debug_string(rest.as_str());
    let mut build_args: Vec<String> = Vec::new();
    build_args.push(owned("$ZED variables not resolved yet, deferring build step."));
    build_args.push(join2("variable content: ", shown.as_str()));
    let build = TaskTemplate {
        label: owned("echo info"),
        command: owned("echo"),
        args: build_args,
        cwd: build_task.cwd,
        env: build_task.env,
    };
    Some(
        LocatorScenario {
            adapter: debug_adapter_name,
            label: resolved_label,
            locator_name,
            build,
            config: owned("{}"),
        },
    )
}

/// The directory above `dir`, where the search for a project file goes
/// next: none at the root or for a path without a slash.
pub open spec fn search_parent(dir: Seq<char>) -> Option<Seq<char>> {
    match find_last_char(dir, '/') {
        None => None,
        Some(i) => if i == 0 {
            None
        } else {
            Some(dir.take(i))
        },
    }
}

/// The directory above `dir` in which to look for a project file next.
pub fn search_parent_exec(dir: &str) -> (r: Option<String>)
    ensures
        match r {
            Some(p) => search_parent(dir@) == Some(p@),
            None => search_parent(dir@) is None,
        },
{
    let v = chars_of(dir);
    match find_last_char_exec(&v, '/') {
        None => None,
        Some(i) => {
            if i == 0 {
                None
            } else {
                proof {
                    lemma_find_last_char_bounds(dir@, '/');
                }
                let p = substring(dir, 0, i);
                assert(p@ =~= dir@.take(i as int));
                Some(p)
            }
        },
    }
}

/// The project file that a search in one directory printed, if it found
/// one: the output without surrounding whitespace, unless that is empty.
pub open spec fn found_csproj(output: Seq<char>) -> Option<Seq<char>> {
    if trim(output).len() == 0 {
        None
    } else {
        Some(trim(output))
    }
}

/// The project file that a search in one directory printed, if any.
pub fn found_csproj_exec(output: &str) -> (r: Option<String>)
    ensures
        match r {
            Some(p) => found_csproj(output@) == Some(p@),
            None => found_csproj(output@) is None,
        },
{
    let t = trim_string(output);
    if chars_of(t.as_str()).len() == 0 {
        None
    } else {
        Some(t)
    }
}

/// The last `/`-separated part of a path.
pub open spec fn last_segment(p: Seq<char>) -> Seq<char> {
    match find_last_char(p, '/') {
        None => p,
        Some(i) => p.skip(i + 1),
    }
}

/// The program that building the project `csproj` yields in Debug
/// configuration, given the text of the file that names its target
/// framework: `<project dir>/bin/Debug/<framework>/<project name>.dll`.
pub open spec fn dll_path_of(csproj: Seq<char>, file_text: Seq<char>) -> Result<
    Seq<char>,
    Seq<char>,
> {
    let xml = trim(file_text);
    match target_framework_of(xml) {
        None => Err("Unable to parse target framework from xml content "@ + xml),
        Some(framework) => {
            let segment = last_segment(csproj);
            if !ends_with(segment, ".csproj"@) {
                Err("Path does not end with .csproj"@)
            } else {
                let name = segment.take(segment.len() - ".csproj"@.len());
                match find_last_char(csproj, '/') {
                    None => Err("Unable to find last slash in csproj path "@ + csproj),
                    Some(i) => if i == 0 {
                        Err("Unable to parse sdk output"@)
                    } else {
                        Ok(
                            csproj.take(i) + "/bin/Debug/"@ + framework + "/"@ + name
                                + ".dll"@,
                        )
                    },
                }
            }
        },
    }
}

/// The program that building the project `csproj` yields, given the text
/// of the file (the project or the build properties) that names its target
/// framework.
pub fn dll_path_for(csproj: &str, file_text: &str) -> (r: Result<String, String>)
    ensures
        match r {
            Ok(p) => dll_path_of(csproj@, file_text@) == Ok::<Seq<char>, Seq<char>>(p@),
            Err(e) => dll_path_of(csproj@, file_text@) == Err::<Seq<char>, Seq<char>>(e@),
        },
{
    let xml = trim_string(file_text);
    let framework = match parse_target_framework(xml.as_str()) {
        None => return Err(join2("Unable to parse target framework from xml content ", xml.as_str())),
        Some(f) => f,
    };
    let v = chars_of(csproj);
    let last = find_last_char_exec(&v, '/');
    proof {
        lemma_find_last_char_bounds(csproj@, '/');
    }
    let segment = match last {
        None => owned(csproj),
        Some(i) => substring(csproj, i + 1, v.len()),
    };
    proof {
        match last {
            None => {},
            Some(i) => {
                assert(segment@ =~= csproj@.skip(i + 1));
            },
        }
    }
    let sv = chars_of(segment.as_str());
    let suffix = chars_of(".csproj");
    if sv.len() < suffix.len() || !crate::text::occurs_at_exec(&sv, &suffix, sv.len() - suffix.len()) {
        proof {
            if sv@.len() >= suffix@.len() {
                assert(segment@.skip(segment@.len() - suffix@.len()) =~= segment@.subrange(
                    segment@.len() - suffix@.len(),
                    segment@.len() as int,
                ));
            }
        }
        return Err(owned("Path does not end with .csproj"));
    }
    proof {
        assert(segment@.skip(segment@.len() - suffix@.len()) =~= segment@.subrange(
            segment@.len() - suffix@.len(),
            segment@.len() as int,
        ));
    }
    let name = substring(segment.as_str(), 0, sv.len() - suffix.len());
    assert(name@ =~= segment@.take(segment@.len() - ".csproj"@.len()));
    match last {
        None => Err(join2("Unable to find last slash in csproj path ", csproj)),
        Some(i) => {
            if i == 0 {
                Err(owned("Unable to parse sdk output"))
            } else {
                let dir = substring(csproj, 0, i);
                assert(dir@ =~= csproj@.take(i as int));
                let mut p = join3(dir.as_str(), "/bin/Debug/", framework.as_str());
                p.append("/");
                p.append(name.as_str());
                p.append(".dll");
                Ok(p)
            }
        },
    }
}

/// What the run of `test -f <path>` on the program's path says: exit
/// status 0 means a regular file is at the path, any other status that
/// none is, and no status at all gives the message that says so.
pub open spec fn file_exists_of(path: Seq<char>, status: Option<i32>) -> Result<bool, Seq<char>> {
    match status {
        None => Err("File not found at "@ + path),
        Some(s) => Ok(s == 0),
    }
}

/// Whether the program file at `path` exists, given the exit status of
/// `test -f <path>`.
pub fn file_exists(path: &str, status: Option<i32>) -> (r: Result<bool, String>)
    ensures
        match r {
            Ok(b) => file_exists_of(path@, status) == Ok::<bool, Seq<char>>(b),
            Err(e) => file_exists_of(path@, status) == Err::<bool, Seq<char>>(e@),
        },
{
    match status {
        None => Err(join2("File not found at ", path)),
        Some(s) => Ok(s == 0),
    }
}

/// The build properties that may name the target framework when the
/// project does not: `Directory.Build.Props` in the worktree's root.
pub open spec fn build_props_of(env: Seq<(String, String)>) -> Result<Seq<char>, Seq<char>> {
    match env_lookup(env, "ZED_WORKTREE_ROOT"@) {
        None => Err("Unable to resolve worktree root from env var"@),
        Some(root) => Ok(root + "/Directory.Build.Props"@),
    }
}

/// The build properties of the worktree whose root the task's environment
/// names.
pub fn build_props_path(env: &Vec<(String, String)>) -> (r: Result<String, String>)
    ensures
        match r {
            Ok(p) => build_props_of(env@) == Ok::<Seq<char>, Seq<char>>(p@),
            Err(e) => build_props_of(env@) == Err::<Seq<char>, Seq<char>>(e@),
        },
{
    match env_value(env, "ZED_WORKTREE_ROOT") {
        None => Err(owned("Unable to resolve worktree root from env var")),
        Some(root) => Ok(join2(root.as_str(), "/Directory.Build.Props")),
    }
}

/// A program to launch under the debugger.
pub struct LaunchPlan {
    pub program: String,
    pub args: Vec<String>,
    pub cwd: Option<String>,
    pub envs: Vec<(String, String)>,
}

/// The test runner's arguments that a task's environment asks for: a test
/// class filter, then a test method filter.
pub open spec fn test_filter_args(env: Seq<(String, String)>) -> Seq<Seq<char>> {
    (match env_lookup(env, "CSHARP_TEST_CLASS"@) {
        Some(c) => seq!["-class"@, "*."@ + c],
        None => Seq::empty(),
    }) + (match env_lookup(env, "CSHARP_TEST_METHOD"@) {
        Some(m) => seq!["-method"@, "*."@ + m],
        None => Seq::empty(),
    })
}

/// The launch of the program at `dll_path`, in its own directory, under
/// the task's environment, with the test filters that it asks for.
pub fn launch_plan(dll_path: String, env: Vec<(String, String)>) -> (r: Result<LaunchPlan, String>)
    ensures
        match find_last_char(dll_path@, '/') {
            None => r matches Err(e) && e@ == "Failed to find last slash in dll path"@,
            Some(i) => r matches Ok(plan) && plan.program == dll_path && string_views(plan.args@)
                == test_filter_args(env@) && (plan.cwd matches Some(c) && c@ == dll_path@.take(i))
                && plan.envs == env,
        },
{
    let mut args: Vec<String> = Vec::new();
    let ghost mut expected: Seq<Seq<char>> = Seq::empty();
    match env_value(&env, "CSHARP_TEST_CLASS") {
        Some(c) => {
            args.push(owned("-class"));
            args.push(join2("*.", c.as_str()));
        },
        None => {},
    }
    match env_value(&env, "CSHARP_TEST_METHOD") {
        Some(m) => {
            args.push(owned("-method"));
            args.push(join2("*.", m.as_str()));
        },
        None => {},
    }
    assert(string_views(args@) =~= test_filter_args(env@));
    let v = chars_of(dll_path.as_str());
    match find_last_char_exec(&v, '/') {
        None => Err(owned("Failed to find last slash in dll path")),
        Some(i) => {
            proof {
                lemma_find_last_char_bounds(dll_path@, '/');
            }
            let cwd = substring(dll_path.as_str(), 0, i);
            assert(cwd@ =~= dll_path@.take(i as int));
            Ok(LaunchPlan { program: dll_path, args, cwd: Some(cwd), envs: env })
        },
    }
}

/// A copy of an environment.
pub fn copy_env(env: &Vec<(String, String)>) -> (r: Vec<(String, String)>)
    ensures
        r@ == env@,
{
    let mut r: Vec<(String, String)> = Vec::new();
    let mut i: usize = 0;
    while i < env.len()
        invariant
            i <= env@.len(),
            r@ == env@.take(i as int),
        decreases env@.len() - i,
    {
        let e = (env[i].0.clone(), env[i].1.clone());
        r.push(e);
        i = i + 1;
        assert(r@ =~= env@.take(i as int));
    }
    assert(env@.take(i as int) =~= env@);
    r
}

/// Where a run of the locator stands.
pub enum LocatorStage {
    /// Looking for the project file in `dir`.
    Searching { dir: String },
    /// Building the project `csproj`.
    Building { csproj: String },
    /// Reading the file that names the target framework of `csproj`: the
    /// project itself, or (on the `fallback`) the worktree's build
    /// properties.
    Reading { csproj: String, fallback: bool },
    /// Checking that the program file `dll` exists.
    Checking { csproj: String, dll: String, fallback: bool },
    Finished,
}

/// What the locator asks to be done next.
pub enum LocatorAction {
    /// Print the first project file in `dir` (`find <dir> -maxdepth 1 -name *.csproj -print -quit`).
    FindCsproj { dir: String },
    /// Build the project in Debug configuration (`dotnet build <csproj> --configuration Debug`).
    Build { csproj: String },
    /// Print the file at `path` (`cat <path>`).
    Read { path: String },
    /// Check that a regular file is at `path` (`test -f <path>`).
    Test { path: String },
    /// The run is over: the program to launch, or why there is none.
    Finish(Result<LaunchPlan, String>),
}

/// What came of the last action.
pub enum LocatorEvent {
    /// What the search printed, or none when it could not run.
    Searched(Option<String>),
    /// The build ran, or the error that kept it from running.
    Built(Result<(), String>),
    /// The text of the file, or the error that kept it from being read.
    Read(Result<String, String>),
    /// The exit status of the check, or the error that kept it from running.
    Tested(Result<Option<i32>, String>),
}

/// The message for a file path above which no project file was found.
pub open spec fn no_csproj_message(file_path: Seq<char>) -> Seq<char> {
    "Failed to locate csproj file from file path: "@ + file_path
}

/// The run ends with the error `msg`.
pub open spec fn ends_with_error(next: LocatorStage, action: LocatorAction, msg: Seq<char>) -> bool {
    &&& next is Finished
    &&& action matches LocatorAction::Finish(Err(e)) && e@ == msg
}

/// What follows when finding the program failed with `msg`: the first time
/// the worktree's build properties are read in place of the project, the
/// second time the run ends with `msg`.
pub open spec fn after_dll_failure(
    env: Seq<(String, String)>,
    csproj: Seq<char>,
    fallback: bool,
    msg: Seq<char>,
    next: LocatorStage,
    action: LocatorAction,
) -> bool {
    if fallback {
        ends_with_error(next, action, msg)
    } else {
        match build_props_of(env) {
            Err(m) => ends_with_error(next, action, m),
            Ok(props) => {
                &&& next matches LocatorStage::Reading { csproj: c, fallback: f } && c@ == csproj
                    && f
                &&& action matches LocatorAction::Read { path } && path@ == props
            },
        }
    }
}

/// The run ends with the launch of the program `dll`.
pub open spec fn ends_with_launch(
    env: Seq<(String, String)>,
    dll: Seq<char>,
    next: LocatorStage,
    action: LocatorAction,
) -> bool {
    match find_last_char(dll, '/') {
        None => ends_with_error(next, action, "Failed to find last slash in dll path"@),
        Some(i) => {
            &&& next is Finished
            &&& action matches LocatorAction::Finish(Ok(plan))
            &&& plan.program@ == dll
            &&& string_views(plan.args@) == test_filter_args(env)
            &&& plan.cwd matches Some(c) && c@ == dll.take(i)
            &&& plan.envs@ == env
        },
    }
}

/// The step from `stage` on `event` to `next`, asking for `action`.
pub open spec fn locator_step(
    file_path: Seq<char>,
    env: Seq<(String, String)>,
    stage: LocatorStage,
    event: LocatorEvent,
    next: LocatorStage,
    action: LocatorAction,
) -> bool {
    match (stage, event) {
        (LocatorStage::Searching { dir }, LocatorEvent::Searched(out)) => match out {
            None => ends_with_error(next, action, no_csproj_message(file_path)),
            Some(o) => match found_csproj(o@) {
                Some(c) => {
                    &&& next matches LocatorStage::Building { csproj } && csproj@ == c
                    &&& action matches LocatorAction::Build { csproj } && csproj@ == c
                },
                None => match search_parent(dir@) {
                    Some(p) => {
                        &&& next matches LocatorStage::Searching { dir: d } && d@ == p
                        &&& action matches LocatorAction::FindCsproj { dir: d } && d@ == p
                    },
                    None => ends_with_error(next, action, no_csproj_message(file_path)),
                },
            },
        },
        (LocatorStage::Building { csproj }, LocatorEvent::Built(r)) => match r {
            Err(e) => ends_with_error(next, action, e@),
            Ok(_) => {
                &&& next matches LocatorStage::Reading { csproj: c, fallback: f } && c@ == csproj@
                    && !f
                &&& action matches LocatorAction::Read { path } && path@ == csproj@
            },
        },
        (LocatorStage::Reading { csproj, fallback }, LocatorEvent::Read(r)) => match r {
            Err(e) => after_dll_failure(env, csproj@, fallback, e@, next, action),
            Ok(text) => match dll_path_of(csproj@, text@) {
                Err(m) => after_dll_failure(env, csproj@, fallback, m, next, action),
                Ok(dll) => {
                    &&& next matches LocatorStage::Checking { csproj: c, dll: d, fallback: f } && c@
                        == csproj@ && d@ == dll && f == fallback
                    &&& action matches LocatorAction::Test { path } && path@ == dll
                },
            },
        },
        (LocatorStage::Checking { csproj, dll, fallback }, LocatorEvent::Tested(r)) => match r {
            Err(e) => after_dll_failure(env, csproj@, fallback, e@, next, action),
            Ok(status) => match file_exists_of(dll@, status) {
                Err(m) => after_dll_failure(env, csproj@, fallback, m, next, action),
                Ok(exists) => if exists {
                    ends_with_launch(env, dll@, next, action)
                } else {
                    after_dll_failure(env, csproj@, fallback, "Unable to find dll"@, next, action)
                },
            },
        },
        _ => false,
    }
}

/// The event is the answer to the action that the run asked for last.
pub open spec fn answers(stage: LocatorStage, event: LocatorEvent) -> bool {
    match (stage, event) {
        (LocatorStage::Searching { .. }, LocatorEvent::Searched(_)) => true,
        (LocatorStage::Building { .. }, LocatorEvent::Built(_)) => true,
        (LocatorStage::Reading { .. }, LocatorEvent::Read(_)) => true,
        (LocatorStage::Checking { .. }, LocatorEvent::Tested(_)) => true,
        _ => false,
    }
}

/// A run of the locator: it finds the project above the task's file,
/// builds it, and finds the program the build yields.
pub struct LocatorRun {
    pub file_path: String,
    pub env: Vec<(String, String)>,
    pub stage: LocatorStage,
}

impl LocatorRun {
    /// Starts a run for the locator `locator_name` on a task whose
    /// variables are resolved now: only the project
    /// runner locates, and it needs `DOTNET_FILE`, the file the task is for.
    pub fn start(locator_name: &str, build_task: TaskTemplate) -> (r: (LocatorRun, LocatorAction))
        ensures
            locator_name@ != PROJECT_RUNNER_LOCATOR_NAME@ ==> ends_with_error(
                r.0.stage,
                r.1,
                "Unknown locator: "@ + locator_name@,
            ),
            locator_name@ == PROJECT_RUNNER_LOCATOR_NAME@ ==> match env_lookup(build_task.env@, "DOTNET_FILE"@) {
                None => ends_with_error(
                    r.0.stage,
                    r.1,
                    "Failed to get file path from env var. Make sure your run task defines a env variable called DOTNET_FILE with the value '$ZED_FILE'"@,
                ),
                Some(f) => {
                    &&& r.0.file_path@ == f
                    &&& r.0.env == build_task.env
                    &&& r.0.stage matches LocatorStage::Searching { dir } && dir@ == f
                    &&& r.1 matches LocatorAction::FindCsproj { dir } && dir@ == f
                },
            },
    {
        let env = build_task.env;
        if !str_eq(locator_name, PROJECT_RUNNER_LOCATOR_NAME) {
            let run = LocatorRun { file_path: String::new(), env, stage: LocatorStage::Finished };
            return (run, LocatorAction::Finish(Err(join2("Unknown locator: ", locator_name))));
        }
        match env_value(&env, "DOTNET_FILE") {
            None => {
                let run = LocatorRun { file_path: String::new(), env, stage: LocatorStage::Finished };
                (
                    run,
                    LocatorAction::Finish(
                        Err(
                            owned(
                                "Failed to get file path from env var. Make sure your run task defines a env variable called DOTNET_FILE with the value '$ZED_FILE'",
                            ),
                        ),
                    ),
                )
            },
            Some(f) => {
                let dir = f.clone();
                let action = LocatorAction::FindCsproj { dir: f.clone() };
                (LocatorRun { file_path: f, env, stage: LocatorStage::Searching { dir } }, action)
            },
        }
    }

    /// Ends the run with the error `msg`.
    fn fail(&mut self, msg: String) -> (a: LocatorAction)
        ensures
            ends_with_error(final(self).stage, a, msg@),
            final(self).file_path == old(self).file_path,
            final(self).env == old(self).env,
    {
        self.stage = LocatorStage::Finished;
        LocatorAction::Finish(Err(msg))
    }

    /// What follows when finding the program failed with `msg`.
    fn dll_failed(&mut self, csproj: String, fallback: bool, msg: String) -> (a: LocatorAction)
        ensures
            after_dll_failure(old(self).env@, csproj@, fallback, msg@, final(self).stage, a),
            final(self).file_path == old(self).file_path,
            final(self).env == old(self).env,
    {
        if fallback {
            return self.fail(msg);
        }
        match build_props_path(&self.env) {
            Err(m) => self.fail(m),
            Ok(props) => {
                self.stage = LocatorStage::Reading { csproj, fallback: true };
                LocatorAction::Read { path: props }
            },
        }
    }

    /// Whether `event` answers the action that the run asked for last.
    pub fn accepts(&self, event: &LocatorEvent) -> (r: bool)
        ensures
            r == answers(self.stage, *event),
    {
        match (&self.stage, event) {
            (LocatorStage::Searching { .. }, LocatorEvent::Searched(_)) => true,
            (LocatorStage::Building { .. }, LocatorEvent::Built(_)) => true,
            (LocatorStage::Reading { .. }, LocatorEvent::Read(_)) => true,
            (LocatorStage::Checking { .. }, LocatorEvent::Tested(_)) => true,
            _ => false,
        }
    }

    /// Takes in what came of the last action and says what to do next.
    pub fn advance(&mut self, event: LocatorEvent) -> (a: LocatorAction)
        requires
            answers(old(self).stage, event),
        ensures
            locator_step(
                old(self).file_path@,
                old(self).env@,
                old(self).stage,
                event,
                final(self).stage,
                a,
            ),
            final(self).file_path == old(self).file_path,
            final(self).env == old(self).env,
    {
        let mut stage = LocatorStage::Finished;
        std::mem::swap(&mut stage, &mut self.stage);
        match (stage, event) {
            (LocatorStage::Searching { dir }, LocatorEvent::Searched(out)) => match out {
                None => {
                    let m = join2("Failed to locate csproj file from file path: ", self.file_path.as_str());
                    self.fail(m)
                },
                Some(o) => match found_csproj_exec(o.as_str()) {
                    Some(c) => {
                        let b = c.clone();
                        self.stage = LocatorStage::Building { csproj: c };
                        LocatorAction::Build { csproj: b }
                    },
                    None => match search_parent_exec(dir.as_str()) {
                        Some(p) => {
                            let d = p.clone();
                            self.stage = LocatorStage::Searching { dir: p };
                            LocatorAction::FindCsproj { dir: d }
                        },
                        None => {
                            let m = join2(
                                "Failed to locate csproj file from file path: ",
                                self.file_path.as_str(),
                            );
                            self.fail(m)
                        },
                    },
                },
            },
            (LocatorStage::Building { csproj }, LocatorEvent::Built(r)) => match r {
                Err(e) => self.fail(e),
                Ok(_) => {
                    let path = csproj.clone();
                    self.stage = LocatorStage::Reading { csproj, fallback: false };
                    LocatorAction::Read { path }
                },
            },
            (LocatorStage::Reading { csproj, fallback }, LocatorEvent::Read(r)) => match r {
                Err(e) => self.dll_failed(csproj, fallback, e),
                Ok(text) => match dll_path_for(csproj.as_str(), text.as_str()) {
                    Err(m) => self.dll_failed(csproj, fallback, m),
                    Ok(dll) => {
                        let path = dll.clone();
                        self.stage = LocatorStage::Checking { csproj, dll, fallback };
                        LocatorAction::Test { path }
                    },
                },
            },
            (LocatorStage::Checking { csproj, dll, fallback }, LocatorEvent::Tested(r)) => match r {
                Err(e) => self.dll_failed(csproj, fallback, e),
                Ok(status) => match file_exists(dll.as_str(), status) {
                    Err(m) => self.dll_failed(csproj, fallback, m),
                    Ok(exists) => {
                        if exists {
                            let env = copy_env(&self.env);
                            let plan = launch_plan(dll, env);
                            self.stage = LocatorStage::Finished;
                            LocatorAction::Finish(plan)
                        } else {
                            self.dll_failed(csproj, fallback, owned("Unable to find dll"))
                        }
                    },
                },
            },
            (_, _) => LocatorAction::Finish(Err(String::new())),
        }
    }
}

/// The search for a project file only ever moves up: the next directory is
/// a shorter, non-empty beginning of the current one.
pub proof fn law_search_moves_up(dir: Seq<char>)
    ensures
        search_parent(dir) matches Some(p) ==> 0 < p.len() < dir.len() && dir.take(p.len() as int)
            == p,
{
    lemma_find_last_char_bounds(dir, '/');
}

/// A project file that names its target framework plainly is read back as
/// that framework: text before the tag and the framework itself hold no `<`.
pub proof fn law_framework_read_back(pre: Seq<char>, framework: Seq<char>, post: Seq<char>)
    requires
        forall|i: int| 0 <= i < pre.len() ==> pre[i] != '<',
        forall|i: int| 0 <= i < framework.len() ==> framework[i] != '<',
    ensures
        target_framework_of(pre + framework_open() + framework + framework_close() + post)
            == Some(framework),
{
    reveal_strlit("<TargetFramework>");
    reveal_strlit("</TargetFramework>");
    let o = framework_open();
    let c = framework_close();
    let s = pre + o + framework + c + post;
    let start: int = pre.len() + o.len() as int;
    assert(s.subrange(pre.len() as int, start) =~= o);
    assert forall|p: int| 0 <= p < pre.len() implies s[p] != o[0] by {
        assert(s[p] == pre[p]);
    }
    lemma_find_from_first(s, o, 0, pre.len() as int);
    let e: int = start + framework.len() as int;
    assert(s.subrange(e, e + c.len()) =~= c);
    assert forall|p: int| start <= p < e implies s[p] != c[0] by {
        assert(s[p] == framework[p - start]);
    }
    lemma_find_from_first(s, c, start, e);
    assert(s.subrange(start, e) =~= framework);
}

/// The program that a project yields lies in the project's output
/// directory, `<project dir>/bin/Debug/<framework>`, and that is the
/// directory it is launched in.
pub proof fn law_program_runs_in_output_directory(csproj: Seq<char>, file_text: Seq<char>)
    ensures
        dll_path_of(csproj, file_text) matches Ok(dll) ==> {
            &&& find_last_char(dll, '/') matches Some(i)
            &&& dll.take(i) == csproj.take(find_last_char(csproj, '/')->Some_0) + "/bin/Debug/"@
                + target_framework_of(trim(file_text))->Some_0
        },
{
    if let Ok(dll) = dll_path_of(csproj, file_text) {
        reveal_strlit("/");
        reveal_strlit(".dll");
        reveal_strlit(".csproj");
        let j = find_last_char(csproj, '/')->Some_0;
        let framework = target_framework_of(trim(file_text))->Some_0;
        let segment = last_segment(csproj);
        let name = segment.take(segment.len() - ".csproj"@.len());
        let dir = csproj.take(j) + "/bin/Debug/"@ + framework;
        lemma_find_last_char_bounds(csproj, '/');
        lemma_last_index_is_last(csproj, '/', csproj.len() as int);
        let tail = name + ".dll"@;
        assert forall|p: int| 0 <= p < tail.len() implies tail[p] != '/' by {
            if p < name.len() {
                assert(name[p] == csproj[j + 1 + p]);
            } else {
                assert(tail[p] == ".dll"@[p - name.len()]);
            }
        }
        assert(dll =~= dir + seq!['/'] + tail);
        lemma_last_char_of_join(dir, '/', tail);
        assert(dll.take(dir.len() as int) =~= dir);
    }
}

/// How far a run of the locator is from its end: each search is one
/// directory higher, and the build, the reading and the check come once,
/// or twice with the build properties.
pub open spec fn locator_distance(stage: LocatorStage) -> int {
    match stage {
        LocatorStage::Searching { dir } => 6 + dir@.len() as int,
        LocatorStage::Building { .. } => 5,
        LocatorStage::Reading { fallback, .. } => if fallback {
            2
        } else {
            4
        },
        LocatorStage::Checking { fallback, .. } => if fallback {
            1
        } else {
            3
        },
        LocatorStage::Finished => 0,
    }
}

/// A run of the locator ends: every step brings it closer to its end.
pub proof fn law_locator_run_ends(
    file_path: Seq<char>,
    env: Seq<(String, String)>,
    stage: LocatorStage,
    event: LocatorEvent,
    next: LocatorStage,
    action: LocatorAction,
)
    requires
        locator_step(file_path, env, stage, event, next, action),
    ensures
        0 <= locator_distance(next) < locator_distance(stage),
{
    if let LocatorStage::Searching { dir } = stage {
        law_search_moves_up(dir@);
    }
}

/// A check that reports the program there (exit status 0) ends the run
/// with the launch of that very program, in the directory that holds it,
/// under the task's environment, whether the framework came from the
/// project or from the build properties; and a launch follows nothing but
/// such a check.
pub proof fn law_checked_program_is_launched(
    file_path: Seq<char>,
    env: Seq<(String, String)>,
    stage: LocatorStage,
    event: LocatorEvent,
    next: LocatorStage,
    action: LocatorAction,
)
    requires
        locator_step(file_path, env, stage, event, next, action),
    ensures
        stage matches LocatorStage::Checking { dll, .. } ==> event == LocatorEvent::Tested(
            Ok(Some(0i32)),
        ) && dll@.contains('/') ==> {
            &&& next is Finished
            &&& action matches LocatorAction::Finish(Ok(plan))
            &&& plan.program@ == dll@
            &&& plan.envs@ == env
            &&& plan.cwd matches Some(c) && dll@.len() > c@.len() && dll@.take(c@.len() as int)
                == c@ && dll@[c@.len() as int] == '/'
        },
        action matches LocatorAction::Finish(Ok(plan)) ==> {
            &&& stage matches LocatorStage::Checking { dll, .. } && plan.program@ == dll@
            &&& event == LocatorEvent::Tested(Ok(Some(0i32)))
        },
{
    if let LocatorStage::Checking { dll, .. } = stage {
        lemma_find_last_char_bounds(dll@, '/');
        lemma_last_index_is_last(dll@, '/', dll@.len() as int);
        if event == LocatorEvent::Tested(Ok(Some(0i32))) && dll@.contains('/') {
            let j = choose|j: int| 0 <= j < dll@.len() && dll@[j] == '/';
            assert(dll@[j] == '/');
        }
    }
}

} // verus!
