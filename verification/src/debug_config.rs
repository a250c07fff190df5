//! The netcoredbg debug configuration and the decisions that the debug
//! adapter protocol hooks make on it.
use vstd::prelude::*;
use crate::settings::{keys_unique, merge_settings, settings_map};
use crate::text::{decimal, decimal_string, join2, join3, owned, str_eq};

verus! {

/// The name under which the debug adapter is registered.
pub const ADAPTER_NAME: &'static str = "netcoredbg";

/// A process id that is either an integer or a string holding a number.
#[derive(Clone, Debug, PartialEq, Eq)]
pub enum ProcessId {
    Int(i32),
    String(String),
}

/// The configuration that netcoredbg takes, field by field as it appears
/// in a debug task's JSON (in camelCase there).
#[derive(Debug)]
pub struct NetCoreDbgDebugConfig {
    pub request: String,
    pub program: Option<String>,
    pub args: Option<Vec<String>>,
    pub cwd: Option<String>,
    /// The environment, as name and value pairs. The configurations that
    /// this crate makes hold each name once, with the last value given for
    /// it.
    pub env: Vec<(String, String)>,
    pub stop_at_entry: Option<bool>,
    pub process_id: Option<ProcessId>,
    pub just_my_code: Option<bool>,
    pub enable_step_filtering: Option<bool>,
}

/// What a debug session asks of the adapter.
#[derive(Clone, Copy, Debug, PartialEq, Eq, Structural)]
pub enum RequestKind {
    Launch,
    Attach,
}

/// The kind that a `request` value names, if it names one.
pub open spec fn request_kind_of(request: Seq<char>) -> Option<RequestKind> {
    if request == "launch"@ {
        Some(RequestKind::Launch)
    } else if request == "attach"@ {
        Some(RequestKind::Attach)
    } else {
        None
    }
}

/// The message for a `request` value that names no kind.
pub open spec fn invalid_request_message(request: Seq<char>) -> Seq<char> {
    "Invalid 'request' value: '"@ + request + "'. Expected 'launch' or 'attach'"@
}

/// The result of reading a `request` value.
pub open spec fn request_result(request: Seq<char>) -> Result<RequestKind, Seq<char>> {
    match request_kind_of(request) {
        Some(k) => Ok(k),
        None => Err(invalid_request_message(request)),
    }
}

/// A `Result` whose error is a string, taken by its view.
pub open spec fn result_view<T>(r: Result<T, String>) -> Result<T, Seq<char>> {
    match r {
        Ok(t) => Ok(t),
        Err(e) => Err(e@),
    }
}

/// Reads the `request` value of a configuration.
pub fn request_kind(request: &str) -> (r: Result<RequestKind, String>)
    ensures
        result_view(r) == request_result(request@),
{
    if str_eq(request, "launch") {
        Ok(RequestKind::Launch)
    } else if str_eq(request, "attach") {
        Ok(RequestKind::Attach)
    } else {
        Err(join3("Invalid 'request' value: '", request, "'. Expected 'launch' or 'attach'"))
    }
}

/// The kind of request that a debug configuration makes, given the name of
/// the adapter it is meant for and its `request` field, a string or absent.
pub fn dap_request_kind(adapter_name: &str, request: Option<&str>) -> (r: Result<
    RequestKind,
    String,
>)
    ensures
        adapter_name@ != ADAPTER_NAME@ ==> result_view(r) == Err::<RequestKind, Seq<char>>(
            "Unknown adapter: "@ + adapter_name@,
        ),
        adapter_name@ == ADAPTER_NAME@ ==> result_view(r) == match request {
            None => Err::<RequestKind, Seq<char>>(
                "Debug configuration missing required 'request' field. Must be 'launch' or 'attach'"@,
            ),
            Some(q) => request_result(q@),
        },
{
    if !str_eq(adapter_name, ADAPTER_NAME) {
        return Err(join2("Unknown adapter: ", adapter_name));
    }
    match request {
        None => Err(
            owned("Debug configuration missing required 'request' field. Must be 'launch' or 'attach'"),
        ),
        Some(q) => request_kind(q),
    }
}

/// The first step of starting the adapter binary: the adapter's name is
/// checked, then the parsed configuration (or the parser's message) and its
/// `request` field.
pub fn dap_binary_request(adapter_name: &str, parsed: &Result<NetCoreDbgDebugConfig, String>) -> (r:
    Result<RequestKind, String>)
    ensures
        adapter_name@ != ADAPTER_NAME@ ==> result_view(r) == Err::<RequestKind, Seq<char>>(
            "Cannot create binary for adapter: "@ + adapter_name@,
        ),
        adapter_name@ == ADAPTER_NAME@ ==> result_view(r) == match parsed {
            Err(e) => Err::<RequestKind, Seq<char>>(
                "Failed to parse debug configuration: "@ + e@
                    + ". Expected NetCoreDbg configuration format."@,
            ),
            Ok(c) => request_result(c.request@),
        },
{
    if !str_eq(adapter_name, ADAPTER_NAME) {
        return Err(join2("Cannot create binary for adapter: ", adapter_name));
    }
    match parsed {
        Err(e) => Err(
            join3(
                "Failed to parse debug configuration: ",
                e.as_str(),
                ". Expected NetCoreDbg configuration format.",
            ),
        ),
        Ok(c) => request_kind(c.request.as_str()),
    }
}

/// The environment `envs` with each name once, holding the last value
/// given for it.
fn unique_names(envs: Vec<(String, String)>) -> (r: Vec<(String, String)>)
    ensures
        settings_map(r@) == settings_map(envs@),
        keys_unique(r@),
{
    proof {
        assert(Seq::<(String, String)>::empty() + envs@ =~= envs@);
    }
    merge_settings(Vec::new(), envs)
}

/// How the adapter binary is started.
pub struct DapBinary {
    pub command: Option<String>,
    pub arguments: Vec<String>,
    /// The environment, each name once.
    pub envs: Vec<(String, String)>,
    pub cwd: Option<String>,
    /// The configuration, as the debug task wrote it.
    pub configuration: String,
    pub request: RequestKind,
}

/// The adapter binary at `binary_path`, started for `config`: netcoredbg
/// speaks the VS Code protocol, takes the configuration's environment (each
/// name once, with the last value given for it), and runs in its working
/// directory or else in the worktree's root.
pub fn dap_binary(
    config: NetCoreDbgDebugConfig,
    configuration: String,
    request: RequestKind,
    binary_path: String,
    worktree_root: String,
) -> (r: DapBinary)
    ensures
        r.command == Some(binary_path),
        r.arguments@.len() == 1,
        r.arguments@[0]@ == "--interpreter=vscode"@,
        settings_map(r.envs@) == settings_map(config.env@),
        keys_unique(r.envs@),
        r.cwd == Some(
            match config.cwd {
                Some(c) => c,
                None => worktree_root,
            },
        ),
        r.configuration == configuration,
        r.request == request,
{
    let mut arguments: Vec<String> = Vec::new();
    arguments.push(owned("--interpreter=vscode"));
    let envs = unique_names(config.env);
    let cwd = match config.cwd {
        Some(c) => c,
        None => worktree_root,
    };
    DapBinary {
        command: Some(binary_path),
        arguments,
        envs,
        cwd: Some(cwd),
        configuration,
        request,
    }
}

/// `c` launches `program` with `args` in `cwd`, under the environment
/// `envs` (each name once, with the last value given for it): no argument
/// list is written when there are none.
pub open spec fn launches(
    c: NetCoreDbgDebugConfig,
    program: String,
    args: Vec<String>,
    cwd: Option<String>,
    envs: Vec<(String, String)>,
    stop_on_entry: Option<bool>,
) -> bool {
    &&& c.request@ == "launch"@
    &&& c.program == Some(program)
    &&& c.args == (if args@.len() == 0 {
        None
    } else {
        Some(args)
    })
    &&& c.cwd == cwd
    &&& settings_map(c.env@) == settings_map(envs@)
    &&& keys_unique(c.env@)
    &&& c.stop_at_entry == stop_on_entry
    &&& c.process_id is None
    &&& c.just_my_code is None
    &&& c.enable_step_filtering is None
}

/// `r` is what asking to attach to `process_id` gives: the process must be
/// given and must fit in an `i32`.
pub open spec fn attaches(
    process_id: Option<u32>,
    stop_on_entry: Option<bool>,
    r: Result<NetCoreDbgDebugConfig, String>,
) -> bool {
    match (process_id, r) {
        (None, Err(e)) => e@
            == "Attach mode requires a process ID. Please select a process from the attach modal."@,
        (Some(p), Err(e)) => p > i32::MAX && e@ == "Process ID "@ + decimal(p as nat)
            + " is too large to fit in i32"@,
        (Some(p), Ok(c)) => {
            &&& p <= i32::MAX
            &&& c.request@ == "attach"@
            &&& c.program is None
            &&& c.args is None
            &&& c.cwd is None
            &&& c.env@.len() == 0
            &&& c.stop_at_entry == stop_on_entry
            &&& c.process_id == Some(ProcessId::Int(p as i32))
            &&& c.just_my_code is None
            &&& c.enable_step_filtering is None
        },
        (None, Ok(_)) => false,
    }
}

/// The configuration that launches `program` with `args` in `cwd`, under
/// the environment `envs`.
pub fn launch_config(
    program: String,
    args: Vec<String>,
    cwd: Option<String>,
    envs: Vec<(String, String)>,
    stop_on_entry: Option<bool>,
) -> (r: NetCoreDbgDebugConfig)
    ensures
        launches(r, program, args, cwd, envs, stop_on_entry),
{
    let args = if args.len() == 0 {
        None
    } else {
        Some(args)
    };
    NetCoreDbgDebugConfig {
        request: owned("launch"),
        program: Some(program),
        args,
        cwd,
        env: unique_names(envs),
        stop_at_entry: stop_on_entry,
        process_id: None,
        just_my_code: None,
        enable_step_filtering: None,
    }
}

/// The configuration that attaches to the process `process_id`.
pub fn attach_config(process_id: Option<u32>, stop_on_entry: Option<bool>) -> (r: Result<
    NetCoreDbgDebugConfig,
    String,
>)
    ensures
        attaches(process_id, stop_on_entry, r),
{
    let p = match process_id {
        None => {
            return Err(
                owned(
                    "Attach mode requires a process ID. Please select a process from the attach modal.",
                ),
            );
        },
        Some(p) => p,
    };
    if p > 0x7fff_ffffu32 {
        let digits = decimal_string(p as u64);
        return Err(join3("Process ID ", digits.as_str(), " is too large to fit in i32"));
    }
    Ok(
        NetCoreDbgDebugConfig {
            request: owned("attach"),
            program: None,
            args: None,
            cwd: None,
            env: Vec::new(),
            stop_at_entry: stop_on_entry,
            process_id: Some(ProcessId::Int(p as i32)),
            just_my_code: None,
            enable_step_filtering: None,
        },
    )
}

/// What the editor asks to debug.
pub enum DebugRequest {
    Launch {
        program: String,
        cwd: Option<String>,
        args: Vec<String>,
        envs: Vec<(String, String)>,
    },
    Attach { process_id: Option<u32> },
}

/// A debug session as the editor's new-session dialog describes it, for
/// any adapter.
pub struct DebugConfig {
    pub label: String,
    pub adapter: String,
    pub request: DebugRequest,
    pub stop_on_entry: Option<bool>,
}

/// A debug scenario with the adapter's configuration, before the
/// configuration is written as JSON.
pub struct AdapterScenario {
    pub label: String,
    pub adapter: String,
    pub config: NetCoreDbgDebugConfig,
}

/// The scenario for a debug session: the label and the adapter as given,
/// and the netcoredbg configuration that launches or attaches as asked.
pub fn dap_config_to_scenario(config: DebugConfig) -> (r: Result<AdapterScenario, String>)
    ensures
        match config.request {
            DebugRequest::Launch { program, cwd, args, envs } => r matches Ok(s) && s.label
                == config.label && s.adapter == config.adapter && launches(
                s.config,
                program,
                args,
                cwd,
                envs,
                config.stop_on_entry,
            ),
            DebugRequest::Attach { process_id } => match r {
                Ok(s) => s.label == config.label && s.adapter == config.adapter && attaches(
                    process_id,
                    config.stop_on_entry,
                    Ok(s.config),
                ),
                Err(e) => attaches(process_id, config.stop_on_entry, Err(e)),
            },
        },
{
    let adapter_config = match config.request {
        DebugRequest::Launch { program, cwd, args, envs } => launch_config(
            program,
            args,
            cwd,
            envs,
            config.stop_on_entry,
        ),
        DebugRequest::Attach { process_id } => {
            match attach_config(process_id, config.stop_on_entry) {
                Ok(c) => c,
                Err(e) => return Err(e),
            }
        },
    };
    Ok(AdapterScenario { label: config.label, adapter: config.adapter, config: adapter_config })
}

/// A configuration made for a launch or an attach is read back, by its
/// `request` field, as that kind of request.
pub proof fn law_made_configs_read_back()
    ensures
        request_result("launch"@) == Ok::<RequestKind, Seq<char>>(RequestKind::Launch),
        request_result("attach"@) == Ok::<RequestKind, Seq<char>>(RequestKind::Attach),
{
    reveal_strlit("launch");
    reveal_strlit("attach");
    assert("attach"@ != "launch"@) by {
        assert("attach"@[0] != "launch"@[0]);
    }
}

/// A launch configuration carries the request unchanged: the program, the
/// working directory and whether to stop at entry as given, and every
/// argument in its order, with no list at all when there are none.
pub proof fn law_launch_carries_the_request(
    c: NetCoreDbgDebugConfig,
    program: String,
    args: Vec<String>,
    cwd: Option<String>,
    envs: Vec<(String, String)>,
    stop_on_entry: Option<bool>,
)
    requires
        launches(c, program, args, cwd, envs, stop_on_entry),
    ensures
        c.program == Some(program),
        c.cwd == cwd,
        c.stop_at_entry == stop_on_entry,
        c.args is None <==> args@.len() == 0,
        c.args matches Some(a) ==> a@.len() == args@.len() && forall|i: int|
            0 <= i < args@.len() ==> #[trigger] a@[i] == args@[i],
{
}

} // verus!
