use zed_csharp::debug_config::{
    attach_config, dap_binary, dap_binary_request, dap_config_to_scenario, dap_request_kind,
    launch_config, request_kind, DebugConfig, DebugRequest, NetCoreDbgDebugConfig, ProcessId,
    RequestKind,
};
use zed_csharp::text::decimal_string;

fn s(x: &str) -> String {
    x.to_string()
}

fn config(request: &str, cwd: Option<&str>) -> NetCoreDbgDebugConfig {
    NetCoreDbgDebugConfig {
        request: s(request),
        program: Some(s("/p/App.dll")),
        args: None,
        cwd: cwd.map(s),
        env: vec![(s("A"), s("1"))],
        stop_at_entry: None,
        process_id: None,
        just_my_code: None,
        enable_step_filtering: None,
    }
}

#[test]
fn request_kinds() {
    assert_eq!(request_kind("launch"), Ok(RequestKind::Launch));
    assert_eq!(request_kind("attach"), Ok(RequestKind::Attach));
    assert_eq!(
        request_kind("Launch"),
        Err(s("Invalid 'request' value: 'Launch'. Expected 'launch' or 'attach'"))
    );
}

#[test]
fn dap_request_kind_checks_adapter_then_request() {
    assert_eq!(dap_request_kind("netcoredbg", Some("attach")), Ok(RequestKind::Attach));
    assert_eq!(dap_request_kind("lldb", Some("attach")), Err(s("Unknown adapter: lldb")));
    assert_eq!(
        dap_request_kind("netcoredbg", None),
        Err(s("Debug configuration missing required 'request' field. Must be 'launch' or 'attach'"))
    );
    assert_eq!(
        dap_request_kind("netcoredbg", Some("run")),
        Err(s("Invalid 'request' value: 'run'. Expected 'launch' or 'attach'"))
    );
}

#[test]
fn dap_binary_request_errors() {
    assert_eq!(
        dap_binary_request("gdb", &Ok(config("launch", None))),
        Err(s("Cannot create binary for adapter: gdb"))
    );
    assert_eq!(
        dap_binary_request("netcoredbg", &Err(s("missing field `request`"))),
        Err(s("Failed to parse debug configuration: missing field `request`. Expected NetCoreDbg configuration format."))
    );
    assert_eq!(dap_binary_request("netcoredbg", &Ok(config("launch", None))), Ok(RequestKind::Launch));
    assert_eq!(
        dap_binary_request("netcoredbg", &Ok(config("debug", None))),
        Err(s("Invalid 'request' value: 'debug'. Expected 'launch' or 'attach'"))
    );
}

#[test]
fn dap_binary_uses_config_cwd_or_worktree() {
    let b = dap_binary(config("launch", Some("/cwd")), s("{}"), RequestKind::Launch, s("/bin/netcoredbg"), s("/root"));
    assert_eq!(b.command, Some(s("/bin/netcoredbg")));
    assert_eq!(b.arguments, vec![s("--interpreter=vscode")]);
    assert_eq!(b.envs, vec![(s("A"), s("1"))]);
    assert_eq!(b.cwd, Some(s("/cwd")));
    assert_eq!(b.configuration, "{}");
    assert_eq!(b.request, RequestKind::Launch);
    let b = dap_binary(config("attach", None), s("{\"request\":\"attach\"}"), RequestKind::Attach, s("/bin/n"), s("/root"));
    assert_eq!(b.cwd, Some(s("/root")));
    assert_eq!(b.request, RequestKind::Attach);
}

#[test]
fn launch_config_fields() {
    let c = launch_config(s("/p/App.dll"), vec![], Some(s("/p")), vec![(s("K"), s("V"))], Some(true));
    assert_eq!(c.request, "launch");
    assert_eq!(c.program, Some(s("/p/App.dll")));
    assert_eq!(c.args, None);
    assert_eq!(c.cwd, Some(s("/p")));
    assert_eq!(c.env, vec![(s("K"), s("V"))]);
    assert_eq!(c.stop_at_entry, Some(true));
    assert!(c.process_id.is_none());
    let c = launch_config(s("a"), vec![s("--x")], None, vec![], None);
    assert_eq!(c.args, Some(vec![s("--x")]));
    assert_eq!(c.cwd, None);
}

#[test]
fn attach_config_needs_small_pid() {
    let c = attach_config(Some(4242), Some(false)).unwrap();
    assert_eq!(c.request, "attach");
    assert!(matches!(c.process_id, Some(ProcessId::Int(4242))));
    assert_eq!(c.stop_at_entry, Some(false));
    assert_eq!(c.program, None);
    assert!(c.env.is_empty());
    assert!(matches!(attach_config(Some(2147483647), None).unwrap().process_id, Some(ProcessId::Int(2147483647))));
    assert_eq!(
        attach_config(Some(2147483648), None).err(),
        Some(s("Process ID 2147483648 is too large to fit in i32"))
    );
    assert_eq!(
        attach_config(None, None).err(),
        Some(s("Attach mode requires a process ID. Please select a process from the attach modal."))
    );
}

#[test]
fn decimal_digits() {
    assert_eq!(decimal_string(0), "0");
    assert_eq!(decimal_string(7), "7");
    assert_eq!(decimal_string(10), "10");
    assert_eq!(decimal_string(4294967295), "4294967295");
    assert_eq!(decimal_string(u64::MAX), u64::MAX.to_string());
}

#[test]
fn made_configs_are_read_back() {
    let launch = launch_config(s("a.dll"), vec![], None, vec![], None);
    assert_eq!(request_kind(&launch.request), Ok(RequestKind::Launch));
    let attach = attach_config(Some(1), None).unwrap();
    assert_eq!(request_kind(&attach.request), Ok(RequestKind::Attach));
}

#[test]
fn scenario_from_debug_config() {
    let launch = DebugConfig {
        label: s("Debug App"),
        adapter: s("netcoredbg"),
        request: DebugRequest::Launch {
            program: s("/p/App.dll"),
            cwd: Some(s("/p")),
            args: vec![s("--verbose")],
            envs: vec![(s("X"), s("1"))],
        },
        stop_on_entry: Some(true),
    };
    let scenario = dap_config_to_scenario(launch).unwrap();
    assert_eq!(scenario.label, "Debug App");
    assert_eq!(scenario.adapter, "netcoredbg");
    assert_eq!(scenario.config.request, "launch");
    assert_eq!(scenario.config.program, Some(s("/p/App.dll")));
    assert_eq!(scenario.config.args, Some(vec![s("--verbose")]));
    assert_eq!(scenario.config.cwd, Some(s("/p")));
    assert_eq!(scenario.config.env, vec![(s("X"), s("1"))]);
    assert_eq!(scenario.config.stop_at_entry, Some(true));
    let attach = DebugConfig {
        label: s("Attach"),
        adapter: s("netcoredbg"),
        request: DebugRequest::Attach { process_id: Some(77) },
        stop_on_entry: None,
    };
    let scenario = dap_config_to_scenario(attach).unwrap();
    assert_eq!(scenario.config.request, "attach");
    assert!(matches!(scenario.config.process_id, Some(ProcessId::Int(77))));
    let missing = DebugConfig {
        label: s("Attach"),
        adapter: s("netcoredbg"),
        request: DebugRequest::Attach { process_id: None },
        stop_on_entry: None,
    };
    assert_eq!(
        dap_config_to_scenario(missing).err(),
        Some(s("Attach mode requires a process ID. Please select a process from the attach modal."))
    );
}

#[test]
fn launch_env_keeps_last_value_of_each_name() {
    let c = launch_config(
        s("/p/App.dll"),
        vec![],
        None,
        vec![(s("A"), s("1")), (s("B"), s("2")), (s("A"), s("3"))],
        None,
    );
    let mut env = c.env.clone();
    env.sort();
    assert_eq!(env, vec![(s("A"), s("3")), (s("B"), s("2"))]);
}

#[test]
fn dap_binary_env_holds_each_name_once() {
    let mut c = config("launch", None);
    c.env = vec![(s("X"), s("a")), (s("X"), s("b"))];
    let b = dap_binary(c, s("{}"), RequestKind::Launch, s("/bin/netcoredbg"), s("/root"));
    assert_eq!(b.envs, vec![(s("X"), s("b"))]);
}

#[test]
fn process_ids_compare_and_clone() {
    let p = ProcessId::String(s("1234"));
    assert_eq!(p.clone(), p);
    assert_ne!(ProcessId::Int(1), ProcessId::Int(2));
    assert_ne!(ProcessId::Int(1), ProcessId::String(s("1")));
}
