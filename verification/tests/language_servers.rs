use zed_csharp::language_servers::csharp_ls::{CsharpLs, CsharpLsSetup};
use zed_csharp::language_servers::roslyn_official::{
    DotnetRootCache, DotnetRootLookup, RoslynOfficial, RoslynSettings, RoslynSetup,
};
use zed_csharp::language_servers::{
    server_kind, InstallStatus, Next, Note, Reply, Request,
    RunOutput, ServerKind, Step,
};

fn s(x: &str) -> String {
    x.to_string()
}

fn statuses(step: &Step) -> Vec<InstallStatus> {
    step.notes
        .iter()
        .filter_map(|n| match n {
            Note::Status(st) => Some(*st),
            _ => None,
        })
        .collect()
}

fn reports(step: &Step) -> Vec<String> {
    step.notes
        .iter()
        .filter_map(|n| match n {
            Note::Report(m) => Some(m.clone()),
            _ => None,
        })
        .collect()
}

fn ran(status: i32, stdout: &str, stderr: &str) -> Reply {
    Reply::Ran(Ok(RunOutput { status: Some(status), stdout: s(stdout), stderr: s(stderr) }))
}

fn run_of(step: &Step) -> (String, Vec<String>, bool) {
    match &step.next {
        Next::Ask(Request::Run(t)) => (t.program.clone(), t.args.clone(), t.worktree_env),
        other => panic!("expected a run, got {:?}", other),
    }
}

const FEED: &str = "https://pkgs.dev.azure.com/azure-public/vside/_packaging/vs-impl/nuget/v3/index.json";

#[test]
fn constructors() {
    let _ = CsharpLs::new();
    let _ = RoslynOfficial::new();
    assert_eq!(CsharpLs::LANGUAGE_SERVER_ID, "csharp-ls");
    assert_eq!(RoslynOfficial::LANGUAGE_SERVER_ID, "roslyn-official");
}

#[test]
fn razor_paths_in_sdk() {
    assert_eq!(
        RoslynOfficial::find_razor_compiler_dll("/usr/share/dotnet/sdk/8.0.100"),
        "/usr/share/dotnet/sdk/8.0.100/Sdks/Microsoft.NET.Sdk.Razor/source-generators/Microsoft.CodeAnalysis.Razor.Compiler.dll"
    );
    assert_eq!(
        RoslynOfficial::find_razor_design_time_targets("/sdk"),
        "/sdk/Sdks/Microsoft.NET.Sdk.Razor/targets/Microsoft.NET.Sdk.Razor.DesignTime.targets"
    );
}

#[test]
fn short_sdk_versions() {
    assert_eq!(RoslynOfficial::short_sdk_version("8.0.100"), "net8.0");
    assert_eq!(RoslynOfficial::short_sdk_version("10.0.100-preview.1"), "net10.0");
    assert_eq!(RoslynOfficial::short_sdk_version("9.0"), "net9.0");
    assert_eq!(RoslynOfficial::short_sdk_version("9"), "net9");
    assert_eq!(RoslynOfficial::short_sdk_version(""), "net");
}

#[test]
fn razor_arguments() {
    assert_eq!(
        RoslynOfficial::razor_args("/r", "/sdk/8.0.100", "8.0.100"),
        vec![
            s("--extension"),
            s("/r/artifacts/bin/Microsoft.VisualStudioCode.RazorExtension/Release/net8.0/Microsoft.VisualStudioCode.RazorExtension.dll"),
            s("--razorSourceGenerator"),
            s("/sdk/8.0.100/Sdks/Microsoft.NET.Sdk.Razor/source-generators/Microsoft.CodeAnalysis.Razor.Compiler.dll"),
            s("--razorDesignTimePath"),
            s("/sdk/8.0.100/Sdks/Microsoft.NET.Sdk.Razor/targets/Microsoft.NET.Sdk.Razor.DesignTime.targets"),
        ]
    );
    assert_eq!(
        RoslynOfficial::razor_extension_project("/r"),
        "/r/src/Razor/src/Microsoft.VisualStudioCode.RazorExtension/Microsoft.VisualStudioCode.RazorExtension.csproj"
    );
}

#[test]
fn server_args_and_env() {
    assert_eq!(RoslynOfficial::server_args(None), vec![s("--stdio"), s("--autoLoadProjects")]);
    assert_eq!(
        RoslynOfficial::server_args(Some(vec![s("--extension"), s("x")])),
        vec![s("--stdio"), s("--autoLoadProjects"), s("--extension"), s("x")]
    );
    assert_eq!(RoslynOfficial::server_env(Some(s("/usr/share/dotnet"))), vec![(s("DOTNET_ROOT"), s("/usr/share/dotnet"))]);
    assert!(RoslynOfficial::server_env(None).is_empty());
    assert!(RoslynOfficial::use_worktree_dotnet_env(Some(true)));
    assert!(!RoslynOfficial::use_worktree_dotnet_env(Some(false)));
    assert!(!RoslynOfficial::use_worktree_dotnet_env(None));
}

#[test]
fn dotnet_root_from_info() {
    let info = ".NET SDK:\n Version:           8.0.100\n\nRuntime Environment:\n OS Name:     ubuntu\n Base Path:   /usr/share/dotnet/sdk/8.0.100/\r\n\nHost:\n";
    assert_eq!(RoslynOfficial::find_dotnet_root(Some(0), info), Some(s("/usr/share/dotnet")));
    assert_eq!(RoslynOfficial::find_dotnet_root(Some(1), info), None);
    assert_eq!(RoslynOfficial::find_dotnet_root(None, info), None);
    assert_eq!(RoslynOfficial::find_dotnet_root(Some(0), "no base path here\n"), None);
    assert_eq!(RoslynOfficial::find_dotnet_root(Some(0), "Base Path: /\n"), None);
}

#[test]
fn dotnet_base_path_is_trimmed() {
    let info = " Base Path:   /usr/lib/dotnet/sdk/9.0.100/  \n Base Path: /other\n";
    assert_eq!(RoslynOfficial::dotnet_base_path(Some(0), info), Some(s("/usr/lib/dotnet/sdk/9.0.100/")));
    assert_eq!(RoslynOfficial::dotnet_base_path(Some(2), info), None);
    assert_eq!(RoslynOfficial::dotnet_base_path(Some(0), "Base path: /x\n"), None);
}

#[test]
fn roslyn_setup_accepts_readable_replies() {
    let settings = RoslynSettings { razor_source_repository_root: Some(s("/razor")), use_worktree_dotnet_env: None };
    let (mut setup, _) = RoslynSetup::start(Some(settings));
    assert!(!setup.accepts(&ran(0, "8.0.100 ] [", "")));
    assert!(setup.accepts(&ran(1, "8.0.100 ] [", "")));
    assert!(!setup.accepts(&Reply::Located(None)));
    setup.advance(ran(0, "8.0.100 [/sdk]", ""));
    assert!(!setup.accepts(&Reply::Ran(Ok(RunOutput { status: None, stdout: s(""), stderr: s("") }))));
    assert!(setup.accepts(&ran(0, "", "")));
}

#[test]
fn sdk_listing() {
    let out = "7.0.400 [/usr/share/dotnet/sdk]\n8.0.100 [/usr/share/dotnet/sdk]\n";
    assert!(RoslynOfficial::sdk_listing_is_readable(out));
    assert_eq!(
        RoslynOfficial::installed_sdks(out),
        vec![(s("7.0.400"), s("/usr/share/dotnet/sdk")), (s("8.0.100"), s("/usr/share/dotnet/sdk"))]
    );
    assert_eq!(
        RoslynOfficial::find_dotnet_sdk_path(Some(0), out, ""),
        Ok((s("/usr/share/dotnet/sdk/8.0.100"), s("8.0.100")))
    );
    assert_eq!(
        RoslynOfficial::installed_sdks("garbage\n   \n9.0.100 [/opt/dotnet/sdk]"),
        vec![(s("9.0.100"), s("/opt/dotnet/sdk"))]
    );
}

#[test]
fn sdk_listing_errors() {
    assert_eq!(
        RoslynOfficial::find_dotnet_sdk_path(Some(1), "out", "err"),
        Err(s("Unable to list installed dotnet SDKs.\nstdout: out\nstderr: err"))
    );
    assert_eq!(
        RoslynOfficial::find_dotnet_sdk_path(Some(0), "nothing\n", ""),
        Err(s("Unable to parse installed dotnet SDKs from output: nothing\n"))
    );
    assert!(!RoslynOfficial::sdk_listing_is_readable("8.0.100 ] x ["));
    assert!(!RoslynOfficial::sdk_listing_is_readable("] ["));
    assert!(RoslynOfficial::sdk_listing_is_readable("[ ]\n\n"));
}

#[test]
fn root_cache_keeps_first_root() {
    let mut cache = DotnetRootCache::new();
    assert!(matches!(RoslynOfficial::cached_dotnet_root(&cache), DotnetRootLookup::ProbeAndRemember));
    assert!(matches!(RoslynOfficial::resolve_dotnet_root(true, &cache), DotnetRootLookup::Probe));
    assert_eq!(cache.remember(None), None);
    assert!(matches!(RoslynOfficial::cached_dotnet_root(&cache), DotnetRootLookup::ProbeAndRemember));
    assert_eq!(cache.remember(Some(s("/a"))), Some(s("/a")));
    assert_eq!(cache.remember(Some(s("/b"))), Some(s("/b")));
    match RoslynOfficial::resolve_dotnet_root(false, &cache) {
        DotnetRootLookup::Known(r) => assert_eq!(r, "/a"),
        other => panic!("expected the first root, got {:?}", other),
    }
}

#[test]
fn server_kinds() {
    assert_eq!(server_kind("roslyn-official"), Ok(ServerKind::RoslynOfficial));
    assert_eq!(server_kind("csharp-ls"), Ok(ServerKind::CsharpLs));
    assert_eq!(server_kind("html-in-razor"), Ok(ServerKind::HtmlInRazor));
    assert_eq!(server_kind("omnisharp"), Err(s("unknown language server: omnisharp")));
}

#[test]
fn csharp_ls_found_is_updated() {
    let (mut setup, step) = CsharpLsSetup::start();
    assert!(matches!(&step.next, Next::Ask(Request::Locate { binary }) if binary == "csharp-ls"));
    let step = setup.advance(Reply::Located(Some(s("/bin/csharp-ls"))));
    assert_eq!(statuses(&step), vec![InstallStatus::Downloading]);
    assert_eq!(run_of(&step), (s("dotnet"), vec![s("tool"), s("update"), s("--global"), s("csharp-ls")], false));
    let step = setup.advance(Reply::Ran(Err(s("offline"))));
    assert_eq!(statuses(&step), vec![InstallStatus::Idle]);
    match step.next {
        Next::Finish(Ok(c)) => {
            assert_eq!(c.command, "/bin/csharp-ls");
            assert!(c.args.is_empty());
            assert!(c.env.is_empty());
        }
        _ => panic!("expected the command"),
    }
}

#[test]
fn csharp_ls_missing_is_installed() {
    let (mut setup, _) = CsharpLsSetup::start();
    let step = setup.advance(Reply::Located(None));
    assert_eq!(run_of(&step).1, vec![s("tool"), s("install"), s("--global"), s("csharp-ls")]);
    let step = setup.advance(ran(0, "", ""));
    assert_eq!(statuses(&step), vec![InstallStatus::Idle]);
    let step = setup.advance(Reply::Located(None));
    match step.next {
        Next::Finish(Err(e)) => assert_eq!(e, "csharp-ls not found. Install manually: dotnet tool install --global csharp-ls"),
        _ => panic!("expected an error"),
    }
    let (mut setup, _) = CsharpLsSetup::start();
    setup.advance(Reply::Located(None));
    let step = setup.advance(Reply::Ran(Err(s("no dotnet"))));
    assert!(step.notes.is_empty());
    assert!(matches!(step.next, Next::Finish(Err(ref e)) if e == "no dotnet"));
}

#[test]
fn entry_points_start_the_setups() {
    let (_, step) = CsharpLs::new().language_server_command();
    assert!(matches!(&step.next, Next::Ask(Request::Locate { binary }) if binary == "csharp-ls"));
    let (setup, step) = RoslynOfficial::new().language_server_cmd(Some(RoslynSettings {
        razor_source_repository_root: None,
        use_worktree_dotnet_env: Some(false),
    }));
    assert!(!setup.worktree_env);
    assert!(matches!(step.next, Next::Ask(Request::DotnetRoot { worktree_env: false })));
}

#[test]
fn roslyn_without_settings() {
    let (_, step) = RoslynSetup::start(None);
    assert!(matches!(step.next, Next::Finish(Err(ref e)) if e == "Unable to load settings"));
}

#[test]
fn roslyn_without_razor() {
    let settings = RoslynSettings { razor_source_repository_root: None, use_worktree_dotnet_env: Some(true) };
    let (mut setup, step) = RoslynSetup::start(Some(settings));
    assert!(matches!(step.next, Next::Ask(Request::DotnetRoot { worktree_env: true })));
    let step = setup.advance(Reply::Root(Some(s("/usr/share/dotnet"))));
    assert!(matches!(&step.next, Next::Ask(Request::Locate { binary }) if binary == "roslyn-language-server"));
    let step = setup.advance(Reply::Located(Some(s("/bin/roslyn"))));
    assert_eq!(statuses(&step), vec![InstallStatus::CheckingForUpdate]);
    let (program, args, env) = run_of(&step);
    assert_eq!(program, "dotnet");
    assert_eq!(args, vec![s("tool"), s("update"), s("roslyn-language-server"), s("--global"), s("--prerelease"), s("--source"), s(FEED)]);
    assert!(env);
    let step = setup.advance(ran(1, "o", "e"));
    assert_eq!(reports(&step), vec![s("Unable to update roslyn-language-server: Unable to update roslyn-language-server.\nstdout: o\nstderr: e")]);
    assert_eq!(statuses(&step), vec![InstallStatus::Idle]);
    match step.next {
        Next::Finish(Ok(c)) => {
            assert_eq!(c.command, "/bin/roslyn");
            assert_eq!(c.args, vec![s("--stdio"), s("--autoLoadProjects")]);
            assert_eq!(c.env, vec![(s("DOTNET_ROOT"), s("/usr/share/dotnet"))]);
        }
        _ => panic!("expected the command"),
    }
}

#[test]
fn roslyn_installs_when_missing() {
    let settings = RoslynSettings { razor_source_repository_root: None, use_worktree_dotnet_env: None };
    let (mut setup, _) = RoslynSetup::start(Some(settings));
    setup.advance(Reply::Root(None));
    let step = setup.advance(Reply::Located(None));
    assert_eq!(statuses(&step), vec![InstallStatus::Downloading]);
    assert_eq!(run_of(&step).1, vec![s("tool"), s("install"), s("--global"), s("roslyn-language-server"), s("--prerelease"), s("--source"), s(FEED)]);
    let step = setup.advance(ran(0, "", ""));
    assert!(matches!(&step.next, Next::Ask(Request::Locate { .. })));
    let step = setup.advance(Reply::Located(None));
    match step.next {
        Next::Finish(Err(e)) => assert_eq!(e, "roslyn-language-server not found or unable to install. Please try installing it manually using: 'dotnet tool install --global roslyn-language-server --prerelease'"),
        _ => panic!("expected an error"),
    }
    let (mut setup, _) = RoslynSetup::start(Some(RoslynSettings { razor_source_repository_root: None, use_worktree_dotnet_env: None }));
    setup.advance(Reply::Root(None));
    setup.advance(Reply::Located(None));
    let step = setup.advance(ran(3, "out", "err"));
    assert!(matches!(step.next, Next::Finish(Err(ref e)) if e == "Unable to install roslyn-language-server.\nstdout: out\nstderr: err"));
}

#[test]
fn roslyn_with_razor_clone_and_build() {
    let settings = RoslynSettings { razor_source_repository_root: Some(s("/razor")), use_worktree_dotnet_env: None };
    let (mut setup, step) = RoslynSetup::start(Some(settings));
    assert_eq!(run_of(&step), (s("dotnet"), vec![s("--list-sdks")], false));
    let step = setup.advance(ran(0, "8.0.100 [/sdk]\n", ""));
    assert_eq!(run_of(&step), (s("test"), vec![s("-d"), s("/razor")], false));
    let step = setup.advance(ran(1, "", ""));
    assert_eq!(statuses(&step), vec![InstallStatus::Downloading]);
    assert_eq!(run_of(&step), (s("git"), vec![s("clone"), s("https://github.com/dotnet/razor"), s("/razor")], false));
    let step = setup.advance(ran(0, "", ""));
    assert_eq!(statuses(&step), vec![InstallStatus::Idle]);
    assert_eq!(
        run_of(&step),
        (
            s("dotnet"),
            vec![
                s("build"),
                s("/razor/src/Razor/src/Microsoft.VisualStudioCode.RazorExtension/Microsoft.VisualStudioCode.RazorExtension.csproj"),
                s("--configuration"),
                s("Release"),
            ],
            false
        )
    );
    let step = setup.advance(ran(0, "", ""));
    assert!(matches!(step.next, Next::Ask(Request::DotnetRoot { worktree_env: false })));
    setup.advance(Reply::Root(None));
    setup.advance(Reply::Located(None));
    setup.advance(ran(0, "", ""));
    let step = setup.advance(Reply::Located(Some(s("/bin/roslyn"))));
    match step.next {
        Next::Finish(Ok(c)) => {
            assert_eq!(c.args.len(), 8);
            assert_eq!(c.args[2], "--extension");
            assert_eq!(c.args[3], "/razor/artifacts/bin/Microsoft.VisualStudioCode.RazorExtension/Release/net8.0/Microsoft.VisualStudioCode.RazorExtension.dll");
            assert_eq!(c.args[5], "/sdk/8.0.100/Sdks/Microsoft.NET.Sdk.Razor/source-generators/Microsoft.CodeAnalysis.Razor.Compiler.dll");
            assert!(c.env.is_empty());
        }
        _ => panic!("expected the command"),
    }
}

#[test]
fn roslyn_razor_update_path() {
    let settings = RoslynSettings { razor_source_repository_root: Some(s("/razor")), use_worktree_dotnet_env: Some(true) };
    let (mut setup, step) = RoslynSetup::start(Some(settings));
    assert!(run_of(&step).2);
    setup.advance(ran(0, "8.0.100 [/sdk]\n", ""));
    let step = setup.advance(ran(0, "", ""));
    assert_eq!(statuses(&step), vec![InstallStatus::CheckingForUpdate]);
    assert_eq!(run_of(&step), (s("git"), vec![s("-C"), s("/razor"), s("reset"), s("--hard")], false));
    let step = setup.advance(ran(0, "", ""));
    assert_eq!(run_of(&step), (s("git"), vec![s("-C"), s("/razor"), s("pull")], false));
    let step = setup.advance(ran(1, "", ""));
    assert_eq!(statuses(&step), vec![InstallStatus::Idle]);
    assert_eq!(reports(&step), vec![s("Unable to pull latest changes in razor repository. Offline?")]);
    assert!(run_of(&step).2);
    let step = setup.advance(ran(2, "build out", "build err"));
    assert!(matches!(step.next, Next::Finish(Err(ref e)) if e == "Unable to build razor extension.\nstdout: build out\nstderr: build err"));
}

#[test]
fn roslyn_razor_errors() {
    let razor = || RoslynSettings { razor_source_repository_root: Some(s("/razor")), use_worktree_dotnet_env: None };
    let (mut setup, _) = RoslynSetup::start(Some(razor()));
    let step = setup.advance(ran(1, "o", "e"));
    assert!(matches!(step.next, Next::Finish(Err(ref e)) if e == "Unable to list installed dotnet SDKs.\nstdout: o\nstderr: e"));
    let (mut setup, _) = RoslynSetup::start(Some(razor()));
    setup.advance(ran(0, "8.0.100 [/sdk]", ""));
    setup.advance(ran(0, "", ""));
    let step = setup.advance(ran(128, "", ""));
    assert!(matches!(step.next, Next::Finish(Err(ref e)) if e == "Unable to reset razor git repository. Git installed?"));
    let (mut setup, _) = RoslynSetup::start(Some(razor()));
    setup.advance(ran(0, "8.0.100 [/sdk]", ""));
    setup.advance(ran(1, "", ""));
    let step = setup.advance(ran(128, "", ""));
    assert_eq!(statuses(&step), vec![InstallStatus::Idle]);
    assert!(matches!(step.next, Next::Finish(Err(ref e)) if e == "Unable to clone razor git repository. For this initial setup step, an internet connection is required."));
}

#[test]
fn csharp_ls_setup_accepts_only_answers() {
    let (mut setup, _) = CsharpLsSetup::start();
    assert!(setup.accepts(&Reply::Located(None)));
    assert!(!setup.accepts(&ran(0, "", "")));
    setup.advance(Reply::Located(None));
    assert!(setup.accepts(&ran(1, "", "")));
    assert!(!setup.accepts(&Reply::Located(Some(s("/bin/csharp-ls")))));
}

#[test]
fn sdk_path_joins_as_std_does() {
    for (listing, base, version) in [
        ("9.0.100 [/usr/share/dotnet/sdk]", "/usr/share/dotnet/sdk", "9.0.100"),
        ("9.0.100 [/opt/sdk/]", "/opt/sdk/", "9.0.100"),
        ("9.0.100 []", "", "9.0.100"),
        ("/abs [/opt/sdk]", "/opt/sdk", "/abs"),
    ] {
        let joined = std::path::Path::new(base).join(version).to_string_lossy().to_string();
        assert_eq!(
            RoslynOfficial::find_dotnet_sdk_path(Some(0), listing, ""),
            Ok((joined, s(version)))
        );
    }
    assert_eq!(
        RoslynOfficial::find_dotnet_sdk_path(Some(0), "9.0.100 [/opt/sdk/]", ""),
        Ok((s("/opt/sdk/9.0.100"), s("9.0.100")))
    );
}
