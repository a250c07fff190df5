use zed_csharp::locator::{
    build_props_path, dap_locator_create_scenario, dll_path_for, env_value, file_exists,
    found_csproj_exec, is_dotnet_command_exec, launch_plan, parse_target_framework,
    scenario_cuts_empty_file_exec, search_parent_exec, LocatorAction, LocatorEvent, LocatorRun,
    TaskTemplate,
};

fn s(x: &str) -> String {
    x.to_string()
}

fn env(pairs: &[(&str, &str)]) -> Vec<(String, String)> {
    pairs.iter().map(|(k, v)| (s(k), s(v))).collect()
}

fn task(command: &str, args: Vec<String>, cwd: Option<&str>, env: Vec<(String, String)>) -> TaskTemplate {
    TaskTemplate { label: s("task"), command: s(command), args, cwd: cwd.map(s), env }
}

#[test]
fn target_framework_is_read_from_project() {
    let project = "<Project Sdk=\"Microsoft.NET.Sdk\">\n  <PropertyGroup>\n    <TargetFramework>net8.0</TargetFramework>\n  </PropertyGroup>\n</Project>";
    assert_eq!(parse_target_framework(project), Some(s("net8.0")));
}

#[test]
fn target_framework_missing_tags() {
    assert_eq!(parse_target_framework("<TargetFrameworks>net8.0;net9.0</TargetFrameworks>"), None);
    assert_eq!(parse_target_framework("<TargetFramework>net8.0"), None);
    assert_eq!(parse_target_framework(""), None);
    assert_eq!(parse_target_framework("<TargetFramework></TargetFramework>"), Some(s("")));
}

#[test]
fn target_framework_takes_first_tag() {
    let text = "<TargetFramework>net6.0</TargetFramework><TargetFramework>net7.0</TargetFramework>";
    assert_eq!(parse_target_framework(text), Some(s("net6.0")));
}

#[test]
fn env_value_takes_first_match() {
    let e = env(&[("A", "1"), ("B", "2"), ("A", "3")]);
    assert_eq!(env_value(&e, "A"), Some(s("1")));
    assert_eq!(env_value(&e, "B"), Some(s("2")));
    assert_eq!(env_value(&e, "C"), None);
    assert_eq!(env_value(&Vec::new(), "A"), None);
}

#[test]
fn dotnet_commands_are_recognised() {
    assert!(is_dotnet_command_exec("dotnet", &vec![s("run")]));
    assert!(is_dotnet_command_exec("dotnet", &vec![s("--project"), s("x"), s("test")]));
    assert!(is_dotnet_command_exec("dotnet run", &vec![]));
    assert!(is_dotnet_command_exec("dotnet test --filter X", &vec![]));
    assert!(!is_dotnet_command_exec("dotnet", &vec![s("build")]));
    assert!(!is_dotnet_command_exec("cargo", &vec![s("run")]));
    assert!(!is_dotnet_command_exec("dotnet", &vec![s("running")]));
}

#[test]
fn scenario_for_dotnet_run_task() {
    let e = env(&[("DOTNET_FILE", "$ZED_FILE")]);
    let scenario = dap_locator_create_scenario(
        s("csharp-project-runner"),
        task("dotnet", vec![s("run")], Some("/work"), e.clone()),
        s("Run App"),
        s("netcoredbg"),
    )
    .expect("a scenario");
    assert_eq!(scenario.adapter, "netcoredbg");
    assert_eq!(scenario.label, "Run App");
    assert_eq!(scenario.locator_name, "csharp-project-runner");
    assert_eq!(scenario.config, "{}");
    assert_eq!(scenario.build.label, "echo info");
    assert_eq!(scenario.build.command, "echo");
    assert_eq!(scenario.build.cwd, Some(s("/work")));
    assert_eq!(scenario.build.env, e);
    assert_eq!(
        scenario.build.args,
        vec![
            s("$ZED variables not resolved yet, deferring build step."),
            s("variable content: \"ZED_FILE\""),
        ]
    );
}

#[test]
fn scenario_escapes_the_variable() {
    let e = env(&[("DOTNET_FILE", "x\"a\\b")]);
    let scenario = dap_locator_create_scenario(
        s("csharp-project-runner"),
        task("dotnet test", vec![], None, e),
        s("Test"),
        s("netcoredbg"),
    )
    .expect("a scenario");
    assert_eq!(scenario.build.args[1], "variable content: \"\\\"a\\\\b\"");
}

#[test]
fn no_scenario_for_other_tasks() {
    let e = env(&[("DOTNET_FILE", "$ZED_FILE")]);
    let make = |locator: &str, command: &str, args: Vec<String>, env: Vec<(String, String)>, adapter: &str| {
        dap_locator_create_scenario(s(locator), task(command, args, None, env), s("label"), s(adapter))
    };
    assert!(make("csharp-project-runner", "dotnet", vec![s("run")], e.clone(), "codelldb").is_none());
    assert!(make("other-locator", "dotnet", vec![s("run")], e.clone(), "netcoredbg").is_none());
    assert!(make("csharp-project-runner", "dotnet", vec![s("build")], e.clone(), "netcoredbg").is_none());
    assert!(make("csharp-project-runner", "dotnet", vec![s("run")], vec![], "netcoredbg").is_none());
}

#[test]
fn empty_file_variable_is_flagged() {
    let e = env(&[("DOTNET_FILE", "")]);
    assert!(scenario_cuts_empty_file_exec("csharp-project-runner", &task("dotnet", vec![s("run")], None, e.clone()), "netcoredbg"));
    assert!(!scenario_cuts_empty_file_exec("csharp-project-runner", &task("dotnet", vec![s("build")], None, e.clone()), "netcoredbg"));
    assert!(!scenario_cuts_empty_file_exec("csharp-project-runner", &task("dotnet", vec![s("run")], None, env(&[("DOTNET_FILE", "x")])), "netcoredbg"));
    assert!(!scenario_cuts_empty_file_exec("csharp-project-runner", &task("dotnet run", vec![], None, e.clone()), "lldb"));
}

#[test]
fn search_moves_to_parent_directory() {
    assert_eq!(search_parent_exec("/home/me/App/Program.cs"), Some(s("/home/me/App")));
    assert_eq!(search_parent_exec("/home"), None);
    assert_eq!(search_parent_exec("relative"), None);
    assert_eq!(search_parent_exec("a/b"), Some(s("a")));
}

#[test]
fn found_project_is_trimmed_output() {
    assert_eq!(found_csproj_exec("/src/App/App.csproj\n"), Some(s("/src/App/App.csproj")));
    assert_eq!(found_csproj_exec("  \n\t"), None);
    assert_eq!(found_csproj_exec(""), None);
}

#[test]
fn dll_path_from_project() {
    let text = "  <Project><PropertyGroup><TargetFramework>net8.0</TargetFramework></PropertyGroup></Project>\n";
    assert_eq!(dll_path_for("/src/App/App.csproj", text), Ok(s("/src/App/bin/Debug/net8.0/App.dll")));
}

#[test]
fn dll_path_errors() {
    let text = "<TargetFramework>net8.0</TargetFramework>";
    assert_eq!(
        dll_path_for("/src/App/App.csproj", " <Project/> "),
        Err(s("Unable to parse target framework from xml content <Project/>"))
    );
    assert_eq!(dll_path_for("/src/App/App.fsproj", text), Err(s("Path does not end with .csproj")));
    assert_eq!(
        dll_path_for("App.csproj", text),
        Err(s("Unable to find last slash in csproj path App.csproj"))
    );
    assert_eq!(dll_path_for("/App.csproj", text), Err(s("Unable to parse sdk output")));
}

#[test]
fn file_exists_reads_status() {
    assert_eq!(file_exists("/a", Some(0)), Ok(true));
    assert_eq!(file_exists("/a", Some(1)), Ok(false));
    assert_eq!(file_exists("/a", None), Err(s("File not found at /a")));
}

#[test]
fn build_props_in_worktree_root() {
    assert_eq!(
        build_props_path(&env(&[("ZED_WORKTREE_ROOT", "/work")])),
        Ok(s("/work/Directory.Build.Props"))
    );
    assert_eq!(build_props_path(&vec![]), Err(s("Unable to resolve worktree root from env var")));
}

#[test]
fn launch_plan_with_test_filters() {
    let e = env(&[("CSHARP_TEST_METHOD", "Adds"), ("CSHARP_TEST_CLASS", "MathTests")]);
    let plan = launch_plan(s("/src/T/bin/Debug/net8.0/T.dll"), e.clone()).unwrap();
    assert_eq!(plan.program, "/src/T/bin/Debug/net8.0/T.dll");
    assert_eq!(plan.args, vec![s("-class"), s("*.MathTests"), s("-method"), s("*.Adds")]);
    assert_eq!(plan.cwd, Some(s("/src/T/bin/Debug/net8.0")));
    assert_eq!(plan.envs, e);
}

#[test]
fn launch_plan_needs_a_slash() {
    assert_eq!(launch_plan(s("T.dll"), vec![]).err(), Some(s("Failed to find last slash in dll path")));
    assert_eq!(launch_plan(s("/T.dll"), vec![]).unwrap().cwd, Some(s("")));
}

fn start(locator: &str, e: Vec<(String, String)>) -> (LocatorRun, LocatorAction) {
    LocatorRun::start(locator, task("dotnet", vec![], None, e))
}

fn expect_find(action: &LocatorAction) -> String {
    match action {
        LocatorAction::FindCsproj { dir } => dir.clone(),
        _ => panic!("expected a search"),
    }
}

#[test]
fn locator_run_finds_project_and_program() {
    let e = env(&[("DOTNET_FILE", "/src/App/Sub/Program.cs"), ("CSHARP_TEST_CLASS", "C")]);
    let (mut run, action) = start("csharp-project-runner", e.clone());
    assert_eq!(expect_find(&action), "/src/App/Sub/Program.cs");
    let action = run.advance(LocatorEvent::Searched(Some(s(""))));
    assert_eq!(expect_find(&action), "/src/App/Sub");
    let action = run.advance(LocatorEvent::Searched(Some(s("\n"))));
    assert_eq!(expect_find(&action), "/src/App");
    let action = run.advance(LocatorEvent::Searched(Some(s("/src/App/App.csproj\n"))));
    match action {
        LocatorAction::Build { csproj } => assert_eq!(csproj, "/src/App/App.csproj"),
        _ => panic!("expected a build"),
    }
    let action = run.advance(LocatorEvent::Built(Ok(())));
    match action {
        LocatorAction::Read { path } => assert_eq!(path, "/src/App/App.csproj"),
        _ => panic!("expected a read"),
    }
    let action = run.advance(LocatorEvent::Read(Ok(s("<TargetFramework>net9.0</TargetFramework>"))));
    match action {
        LocatorAction::Test { path } => assert_eq!(path, "/src/App/bin/Debug/net9.0/App.dll"),
        _ => panic!("expected a check"),
    }
    let action = run.advance(LocatorEvent::Tested(Ok(Some(0))));
    match action {
        LocatorAction::Finish(Ok(plan)) => {
            assert_eq!(plan.program, "/src/App/bin/Debug/net9.0/App.dll");
            assert_eq!(plan.args, vec![s("-class"), s("*.C")]);
            assert_eq!(plan.cwd, Some(s("/src/App/bin/Debug/net9.0")));
            assert_eq!(plan.envs, e);
        }
        _ => panic!("expected a launch"),
    }
}

#[test]
fn locator_run_falls_back_to_build_props() {
    let e = env(&[("DOTNET_FILE", "/w/App/Program.cs"), ("ZED_WORKTREE_ROOT", "/w")]);
    let (mut run, _) = start("csharp-project-runner", e);
    run.advance(LocatorEvent::Searched(Some(s("/w/App/App.csproj"))));
    run.advance(LocatorEvent::Built(Ok(())));
    let action = run.advance(LocatorEvent::Read(Ok(s("<Project Sdk=\"x\"/>"))));
    match action {
        LocatorAction::Read { path } => assert_eq!(path, "/w/Directory.Build.Props"),
        _ => panic!("expected the build properties"),
    }
    let action = run.advance(LocatorEvent::Read(Ok(s("<TargetFramework>net8.0</TargetFramework>"))));
    match action {
        LocatorAction::Test { path } => assert_eq!(path, "/w/App/bin/Debug/net8.0/App.dll"),
        _ => panic!("expected a check"),
    }
    let action = run.advance(LocatorEvent::Tested(Ok(Some(1))));
    match action {
        LocatorAction::Finish(Err(e)) => assert_eq!(e, "Unable to find dll"),
        _ => panic!("expected the error of the second attempt"),
    }
}

#[test]
fn locator_run_errors() {
    let (_, action) = start("other", vec![]);
    match action {
        LocatorAction::Finish(Err(e)) => assert_eq!(e, "Unknown locator: other"),
        _ => panic!("expected an error"),
    }
    let (_, action) = start("csharp-project-runner", vec![]);
    match action {
        LocatorAction::Finish(Err(e)) => assert_eq!(
            e,
            "Failed to get file path from env var. Make sure your run task defines a env variable called DOTNET_FILE with the value '$ZED_FILE'"
        ),
        _ => panic!("expected an error"),
    }
    let (mut run, _) = start("csharp-project-runner", env(&[("DOTNET_FILE", "/a/b.cs")]));
    match run.advance(LocatorEvent::Searched(Some(s("")))) {
        LocatorAction::FindCsproj { dir } => assert_eq!(dir, "/a"),
        _ => panic!("expected a search"),
    }
    match run.advance(LocatorEvent::Searched(Some(s("")))) {
        LocatorAction::Finish(Err(e)) => assert_eq!(e, "Failed to locate csproj file from file path: /a/b.cs"),
        _ => panic!("expected an error"),
    }
    let (mut run, _) = start("csharp-project-runner", env(&[("DOTNET_FILE", "/a/b.cs")]));
    match run.advance(LocatorEvent::Searched(None)) {
        LocatorAction::Finish(Err(e)) => assert_eq!(e, "Failed to locate csproj file from file path: /a/b.cs"),
        _ => panic!("expected an error"),
    }
    let (mut run, _) = start("csharp-project-runner", env(&[("DOTNET_FILE", "/a/b.cs")]));
    run.advance(LocatorEvent::Searched(Some(s("/a/A.csproj"))));
    match run.advance(LocatorEvent::Built(Err(s("no dotnet")))) {
        LocatorAction::Finish(Err(e)) => assert_eq!(e, "no dotnet"),
        _ => panic!("expected an error"),
    }
    let (mut run, _) = start("csharp-project-runner", env(&[("DOTNET_FILE", "/a/b.cs")]));
    run.advance(LocatorEvent::Searched(Some(s("/a/A.csproj"))));
    run.advance(LocatorEvent::Built(Ok(())));
    match run.advance(LocatorEvent::Read(Err(s("cat failed")))) {
        LocatorAction::Finish(Err(e)) => assert_eq!(e, "Unable to resolve worktree root from env var"),
        _ => panic!("expected an error"),
    }
}

#[test]
fn locator_run_accepts_only_answers() {
    let (mut run, _) = start("csharp-project-runner", env(&[("DOTNET_FILE", "/a/b.cs")]));
    assert!(run.accepts(&LocatorEvent::Searched(None)));
    assert!(!run.accepts(&LocatorEvent::Built(Ok(()))));
    assert!(!run.accepts(&LocatorEvent::Tested(Ok(Some(0)))));
    run.advance(LocatorEvent::Searched(Some(s("/a/A.csproj"))));
    assert!(run.accepts(&LocatorEvent::Built(Err(s("no dotnet")))));
    assert!(!run.accepts(&LocatorEvent::Read(Ok(s("")))));
    let (finished, _) = start("other", vec![]);
    assert!(!finished.accepts(&LocatorEvent::Searched(None)));
}
