//! The official Roslyn language server, with Razor support.
use vstd::prelude::*;
use crate::language_servers::{
    asks_locate, asks_run, finishes_with_command, finishes_with_error, status_notes,
    status_step, strings, strings7, InstallStatus, Next, Note, Reply, Request, RunOutput,
    ServerCommand, Step, ToolRun,
};
use crate::paths::{path_join, path_join_of, path_parent, path_parent_of};
use crate::settings::{
    keys_unique, roslyn_default_entries, roslyn_defaults, settings_map, user_map,
    with_user_settings, SettingValue,
};
use crate::text::{
    string_views,
    chars_of, find_last_char, find_last_char_exec, first_word, first_word_exec, join2, join3,
    leading_space_exec, lemma_leading_space_bound, lines, lines_of, next_index_of,
    next_index_of_exec, occurs_at_exec, owned, starts_with, substring, trim,
    trim_start, trim_string,
};

verus! {

/// The value of a `Base Path:` line of `dotnet --info`, as it stands after
/// the label (untrimmed); none for any other line.
pub open spec fn base_path_value(line: Seq<char>) -> Option<Seq<char>> {
    let t = trim_start(line);
    if starts_with(t, "Base Path:"@) {
        Some(t.skip("Base Path:"@.len() as int))
    } else {
        None
    }
}

/// The value of the first `Base Path:` line among `ls`.
pub open spec fn first_base_path(ls: Seq<Seq<char>>) -> Option<Seq<char>>
    decreases ls.len(),
{
    if ls.len() == 0 {
        None
    } else {
        match base_path_value(ls[0]) {
            Some(v) => Some(v),
            None => first_base_path(ls.drop_first()),
        }
    }
}

/// The .NET root that `dotnet --info` reports: two levels above the SDK's
/// base path. None when the command failed or reported no base path.
pub open spec fn dotnet_root_of(status: Option<i32>, stdout: Seq<char>) -> Option<Seq<char>> {
    if status != Some(0i32) {
        None
    } else {
        match first_base_path(lines(stdout)) {
            None => None,
            Some(v) => match path_parent_of(trim(v)) {
                None => None,
                Some(p) => path_parent_of(p),
            },
        }
    }
}

/// The SDK that a line of `dotnet --list-sdks` names, as its version (the
/// first word) and its base path (between the first `[` and the last `]`).
pub open spec fn sdk_entry(line: Seq<char>) -> Option<(Seq<char>, Seq<char>)> {
    match first_word(line) {
        None => None,
        Some(version) => match next_index_of(line, '[', 0) {
            None => None,
            Some(a) => match find_last_char(line, ']') {
                None => None,
                Some(b) => Some((version, line.subrange(a + 1, b))),
            },
        },
    }
}

/// The line names a version and holds `[` and `]`, but its last `]` stands
/// before its first `[`: the base path between them cannot be cut out.
pub open spec fn sdk_line_is_malformed(line: Seq<char>) -> bool {
    &&& first_word(line) is Some
    &&& next_index_of(line, '[', 0) matches Some(a)
    &&& find_last_char(line, ']') matches Some(b)
    &&& b < a + 1
}

/// The SDKs that the lines `ls` name, in order.
pub open spec fn sdk_entries(ls: Seq<Seq<char>>) -> Seq<(Seq<char>, Seq<char>)>
    decreases ls.len(),
{
    if ls.len() == 0 {
        Seq::empty()
    } else {
        let before = sdk_entries(ls.drop_last());
        match sdk_entry(ls.last()) {
            Some(e) => before.push(e),
            None => before,
        }
    }
}

/// Every line of a `dotnet --list-sdks` output can be read.
pub open spec fn sdk_listing_readable(stdout: Seq<char>) -> bool {
    forall|i: int| 0 <= i < lines(stdout).len() ==> !sdk_line_is_malformed(#[trigger] lines(stdout)[i])
}

/// The SDK that `dotnet --list-sdks` lists last, as its path and version;
/// or the message that says why there is none.
pub open spec fn sdk_path_of(status: Option<i32>, stdout: Seq<char>, stderr: Seq<char>) -> Result<
    (Seq<char>, Seq<char>),
    Seq<char>,
> {
    if status != Some(0i32) {
        Err(
            "Unable to list installed dotnet SDKs.\nstdout: "@ + stdout + "\nstderr: "@ + stderr,
        )
    } else {
        let sdks = sdk_entries(lines(stdout));
        if sdks.len() == 0 {
            Err("Unable to parse installed dotnet SDKs from output: "@ + stdout)
        } else {
            let (version, base) = sdks.last();
            Ok((path_join_of(base, version), version))
        }
    }
}

/// The short name of an SDK's target framework: `net` and the first two
/// dot-separated parts of its version.
pub open spec fn short_sdk_version(version: Seq<char>) -> Seq<char> {
    "net"@ + match next_index_of(version, '.', 0) {
        None => version,
        Some(i) => match next_index_of(version, '.', i + 1) {
            None => version,
            Some(j) => version.take(j),
        },
    }
}

/// The Razor extension that a build of the repository at `razor_root` yields.
pub open spec fn razor_extension_dll(razor_root: Seq<char>, sdk_version: Seq<char>) -> Seq<char> {
    razor_root + "/artifacts/bin/Microsoft.VisualStudioCode.RazorExtension/Release/"@
        + short_sdk_version(sdk_version) + "/Microsoft.VisualStudioCode.RazorExtension.dll"@
}

/// The arguments that give the server Razor support.
pub open spec fn razor_args_of(
    razor_root: Seq<char>,
    sdk_path: Seq<char>,
    sdk_version: Seq<char>,
) -> Seq<Seq<char>> {
    seq![
        "--extension"@,
        razor_extension_dll(razor_root, sdk_version),
        "--razorSourceGenerator"@,
        sdk_path
            + "/Sdks/Microsoft.NET.Sdk.Razor/source-generators/Microsoft.CodeAnalysis.Razor.Compiler.dll"@,
        "--razorDesignTimePath"@,
        sdk_path + "/Sdks/Microsoft.NET.Sdk.Razor/targets/Microsoft.NET.Sdk.Razor.DesignTime.targets"@,
    ]
}

/// What finding the .NET root takes.
#[derive(Debug)]
pub enum DotnetRootLookup {
    /// The root is known already.
    Known(String),
    /// Ask `dotnet --info` and remember what it reports for later lookups.
    ProbeAndRemember,
    /// Ask `dotnet --info` under the worktree's environment; the answer
    /// holds for that worktree only and is not remembered.
    Probe,
}

/// The .NET root once it is known: the first root that a probe finds is
/// kept, and no later probe replaces it.
pub struct DotnetRootCache {
    root: Option<String>,
}

/// What the cache holds after a probe that found `probed`.
pub open spec fn cache_after(cached: Option<Seq<char>>, probed: Option<Seq<char>>) -> Option<
    Seq<char>,
> {
    match cached {
        Some(r) => Some(r),
        None => probed,
    }
}

/// A string option, taken by its view.
pub open spec fn opt_view(o: Option<String>) -> Option<Seq<char>> {
    match o {
        Some(s) => Some(s@),
        None => None,
    }
}

impl View for DotnetRootCache {
    type V = Option<Seq<char>>;

    closed spec fn view(&self) -> Option<Seq<char>> {
        opt_view(self.root)
    }
}

impl DotnetRootCache {
    /// A cache that knows no root yet.
    pub fn new() -> (r: Self)
        ensures
            r@ is None,
    {
        DotnetRootCache { root: None }
    }

    /// Records what a probe found, unless a root is known already, and
    /// hands the probe's answer back.
    pub fn remember(&mut self, probed: Option<String>) -> (r: Option<String>)
        ensures
            final(self)@ == cache_after(old(self)@, opt_view(probed)),
            r == probed,
    {
        match (&self.root, &probed) {
            (None, Some(p)) => {
                self.root = Some(p.clone());
            },
            _ => {},
        }
        probed
    }
}

/// Once the cache knows a root, no probe replaces it; until then, what a
/// probe finds is what it knows.
pub proof fn law_dotnet_root_is_kept(cached: Option<Seq<char>>, probed: Option<Seq<char>>)
    ensures
        cached is Some ==> cache_after(cached, probed) == cached,
        cached is None ==> cache_after(cached, probed) == probed,
        cache_after(cache_after(cached, probed), probed) == cache_after(cached, probed),
{
}

/// The Roslyn language server.
pub struct RoslynOfficial {}

impl RoslynOfficial {
    /// The id under which the editor knows this server.
    pub const LANGUAGE_SERVER_ID: &'static str = "roslyn-official";

    pub fn new() -> (r: Self)
        ensures
            r == (RoslynOfficial {}),
    {
        RoslynOfficial {}
    }

    /// The value of the `Base Path:` line, if `line` is one.
    fn base_path_line(line: &str) -> (r: Option<String>)
        ensures
            match r {
                Some(v) => base_path_value(line@) == Some(v@),
                None => base_path_value(line@) is None,
            },
    {
        let v = chars_of(line);
        let a = leading_space_exec(&v);
        let label = chars_of("Base Path:");
        let t = substring(line, a, v.len());
        proof {
            lemma_leading_space_bound(line@);
            assert(t@ =~= trim_start(line@));
        }
        if occurs_at_exec(&v, &label, a) {
            proof {
                assert(t@.take(label@.len() as int) =~= line@.subrange(
                    a as int,
                    a + label@.len(),
                ));
            }
            let r = substring(line, a + label.len(), v.len());
            proof {
                assert(r@ =~= t@.skip(label@.len() as int));
            }
            Some(r)
        } else {
            proof {
                if label@.len() <= t@.len() {
                    assert(t@.take(label@.len() as int) =~= line@.subrange(
                        a as int,
                        a + label@.len(),
                    ));
                }
            }
            None
        }
    }

    /// The SDK's base path that a run of `dotnet --info` reports, given its
    /// exit status and its output: the value of the first `Base Path:` line,
    /// without surrounding whitespace.
    pub fn dotnet_base_path(status: Option<i32>, stdout: &str) -> (r: Option<String>)
        ensures
            match r {
                Some(p) => status == Some(0i32) && (first_base_path(lines(stdout@)) matches Some(v)
                    && p@ == trim(v)),
                None => status != Some(0i32) || first_base_path(lines(stdout@)) is None,
            },
    {
        if status != Some(0i32) {
            return None;
        }
        let ls = lines_of(stdout);
        let mut i: usize = 0;
        proof {
            assert(string_views(ls@).skip(0) =~= string_views(ls@));
        }
        while i < ls.len()
            invariant
                i <= ls@.len(),
                string_views(ls@) == lines(stdout@),
                status == Some(0i32),
                first_base_path(lines(stdout@)) == first_base_path(string_views(ls@).skip(i as int)),
            decreases ls@.len() - i,
        {
            proof {
                assert(string_views(ls@).skip(i as int)[0] == ls@[i as int]@);
                assert(string_views(ls@).skip(i as int).drop_first() =~= string_views(ls@).skip(i + 1));
            }
            match Self::base_path_line(ls[i].as_str()) {
                Some(v) => {
                    return Some(trim_string(v.as_str()));
                },
                None => {},
            }
            i = i + 1;
        }
        proof {
            assert(string_views(ls@).skip(i as int).len() == 0);
        }
        None
    }

    /// The .NET root that a run of `dotnet --info` reports, given its exit
    /// status and its output: the directory two levels above the SDK's base
    /// path.
    pub fn find_dotnet_root(status: Option<i32>, stdout: &str) -> (r: Option<String>)
        ensures
            match r {
                Some(root) => dotnet_root_of(status, stdout@) == Some(root@),
                None => dotnet_root_of(status, stdout@) is None,
            },
    {
        let base_path = match Self::dotnet_base_path(status, stdout) {
            None => return None,
            Some(p) => p,
        };
        let sdk_dir = match path_parent(base_path.as_str()) {
            None => return None,
            Some(p) => p,
        };
        path_parent(sdk_dir.as_str())
    }

    /// The SDK that a line of `dotnet --list-sdks` names.
    fn sdk_line(line: &str) -> (r: Option<(String, String)>)
        requires
            !sdk_line_is_malformed(line@),
        ensures
            match r {
                Some(e) => sdk_entry(line@) == Some((e.0@, e.1@)),
                None => sdk_entry(line@) is None,
            },
    {
        let version = match first_word_exec(line) {
            None => return None,
            Some(w) => w,
        };
        let v = chars_of(line);
        let a = match next_index_of_exec(&v, '[', 0) {
            None => return None,
            Some(a) => a,
        };
        let b = match find_last_char_exec(&v, ']') {
            None => return None,
            Some(b) => b,
        };
        proof {
            crate::text::lemma_next_index_of_bounds(line@, '[', 0);
            crate::text::lemma_find_last_char_bounds(line@, ']');
        }
        Some((version, substring(line, a + 1, b)))
    }

    /// Whether every line of a `dotnet --list-sdks` output can be read.
    pub fn sdk_listing_is_readable(stdout: &str) -> (r: bool)
        ensures
            r == sdk_listing_readable(stdout@),
    {
        let ls = lines_of(stdout);
        let mut i: usize = 0;
        while i < ls.len()
            invariant
                i <= ls@.len(),
                string_views(ls@) == lines(stdout@),
                forall|j: int| 0 <= j < i ==> !sdk_line_is_malformed(#[trigger] lines(stdout@)[j]),
            decreases ls@.len() - i,
        {
            assert(lines(stdout@)[i as int] == ls@[i as int]@);
            if Self::sdk_line_is_malformed_exec(ls[i].as_str()) {
                return false;
            }
            i = i + 1;
        }
        true
    }

    fn sdk_line_is_malformed_exec(line: &str) -> (r: bool)
        ensures
            r == sdk_line_is_malformed(line@),
    {
        if first_word_exec(line).is_none() {
            return false;
        }
        let v = chars_of(line);
        let a = match next_index_of_exec(&v, '[', 0) {
            None => return false,
            Some(a) => a,
        };
        let b = match find_last_char_exec(&v, ']') {
            None => return false,
            Some(b) => b,
        };
        b <= a
    }

    /// The SDKs that a readable `dotnet --list-sdks` output lists, in order,
    /// as version and base path.
    pub fn installed_sdks(stdout: &str) -> (r: Vec<(String, String)>)
        requires
            sdk_listing_readable(stdout@),
        ensures
            r@.map_values(|e: (String, String)| (e.0@, e.1@)) == sdk_entries(lines(stdout@)),
    {
        let ls = lines_of(stdout);
        let mut out: Vec<(String, String)> = Vec::new();
        let mut i: usize = 0;
        while i < ls.len()
            invariant
                i <= ls@.len(),
                string_views(ls@) == lines(stdout@),
                sdk_listing_readable(stdout@),
                out@.map_values(|e: (String, String)| (e.0@, e.1@)) == sdk_entries(
                    string_views(ls@).take(i as int),
                ),
            decreases ls@.len() - i,
        {
            let ghost before = out@.map_values(|e: (String, String)| (e.0@, e.1@));
            assert(lines(stdout@)[i as int] == ls@[i as int]@);
            assert(string_views(ls@).take(i + 1).drop_last() =~= string_views(ls@).take(i as int));
            assert(string_views(ls@).take(i + 1).last() == ls@[i as int]@);
            match Self::sdk_line(ls[i].as_str()) {
                Some(e) => {
                    out.push(e);
                    assert(out@.map_values(|e: (String, String)| (e.0@, e.1@)) =~= before.push(
                        (e.0@, e.1@),
                    ));
                },
                None => {},
            }
            i = i + 1;
        }
        assert(string_views(ls@).take(i as int) =~= string_views(ls@));
        out
    }

    /// The SDK that a run of `dotnet --list-sdks` lists last, as its path
    /// and its version, given the run's exit status and output.
    pub fn find_dotnet_sdk_path(status: Option<i32>, stdout: &str, stderr: &str) -> (r: Result<
        (String, String),
        String,
    >)
        requires
            status == Some(0i32) ==> sdk_listing_readable(stdout@),
        ensures
            match r {
                Ok(p) => sdk_path_of(status, stdout@, stderr@) == Ok::<
                    (Seq<char>, Seq<char>),
                    Seq<char>,
                >((p.0@, p.1@)),
                Err(e) => sdk_path_of(status, stdout@, stderr@) == Err::<
                    (Seq<char>, Seq<char>),
                    Seq<char>,
                >(e@),
            },
    {
        if status != Some(0i32) {
            let mut m = join2("Unable to list installed dotnet SDKs.\nstdout: ", stdout);
            m.append("\nstderr: ");
            m.append(stderr);
            return Err(m);
        }
        let sdks = Self::installed_sdks(stdout);
        if sdks.len() == 0 {
            return Err(join2("Unable to parse installed dotnet SDKs from output: ", stdout));
        }
        let last = &sdks[sdks.len() - 1];
        proof {
            let vs = sdks@.map_values(|e: (String, String)| (e.0@, e.1@));
            assert(vs.last() == (last.0@, last.1@));
        }
        let sdk_path = path_join(last.1.as_str(), last.0.as_str());
        Ok((sdk_path, owned(last.0.as_str())))
    }

    /// The short name of the target framework of the SDK `version`: `net`
    /// and the first two dot-separated parts of the version.
    pub fn short_sdk_version(version: &str) -> (r: String)
        ensures
            r@ == short_sdk_version(version@),
    {
        let v = chars_of(version);
        let end = match next_index_of_exec(&v, '.', 0) {
            None => v.len(),
            Some(i) => {
                proof {
                    crate::text::lemma_next_index_of_bounds(version@, '.', 0);
                }
                assert(i < v.len());
                match next_index_of_exec(&v, '.', i + 1) {
                    None => v.len(),
                    Some(j) => {
                        proof {
                            crate::text::lemma_next_index_of_bounds(version@, '.', i + 1);
                        }
                        j
                    },
                }
            },
        };
        let part = substring(version, 0, end);
        proof {
            assert(version@.subrange(0, version@.len() as int) =~= version@);
            assert(version@.subrange(0, end as int) =~= version@.take(end as int));
        }
        join2("net", part.as_str())
    }

    /// The project that builds the Razor extension in the repository at
    /// `razor_root`.
    pub fn razor_extension_project(razor_root: &str) -> (r: String)
        ensures
            r@ == razor_root@
                + "/src/Razor/src/Microsoft.VisualStudioCode.RazorExtension/Microsoft.VisualStudioCode.RazorExtension.csproj"@,
    {
        join2(
            razor_root,
            "/src/Razor/src/Microsoft.VisualStudioCode.RazorExtension/Microsoft.VisualStudioCode.RazorExtension.csproj",
        )
    }

    /// The arguments that give the server Razor support, once the extension
    /// is built in the repository at `razor_root` with the SDK at `sdk_path`
    /// of version `sdk_version`.
    pub fn razor_args(razor_root: &str, sdk_path: &str, sdk_version: &str) -> (r: Vec<String>)
        ensures
            string_views(r@) == razor_args_of(razor_root@, sdk_path@, sdk_version@),
    {
        let short = Self::short_sdk_version(sdk_version);
        let mut extension = join3(
            razor_root,
            "/artifacts/bin/Microsoft.VisualStudioCode.RazorExtension/Release/",
            short.as_str(),
        );
        extension.append("/Microsoft.VisualStudioCode.RazorExtension.dll");
        let mut args: Vec<String> = Vec::new();
        args.push(owned("--extension"));
        args.push(extension);
        args.push(owned("--razorSourceGenerator"));
        args.push(Self::find_razor_compiler_dll(sdk_path));
        args.push(owned("--razorDesignTimePath"));
        args.push(Self::find_razor_design_time_targets(sdk_path));
        assert(string_views(args@) =~= razor_args_of(razor_root@, sdk_path@, sdk_version@));
        args
    }

    /// The arguments the server starts with: it speaks over standard input
    /// and output and loads the projects itself; Razor support adds its own.
    pub fn server_args(razor_args: Option<Vec<String>>) -> (r: Vec<String>)
        ensures
            string_views(r@) == seq!["--stdio"@, "--autoLoadProjects"@] + match razor_args {
                Some(a) => string_views(a@),
                None => Seq::empty(),
            },
    {
        let mut args: Vec<String> = Vec::new();
        args.push(owned("--stdio"));
        args.push(owned("--autoLoadProjects"));
        match razor_args {
            Some(extra) => {
                let ghost head = args@;
                let ghost tail = extra@;
                let mut extra = extra;
                args.append(&mut extra);
                assert(string_views(args@) =~= string_views(head) + string_views(tail));
            },
            None => {},
        }
        args
    }

    /// How the .NET root is found: under the worktree's environment it is
    /// probed afresh each time, else the remembered root serves.
    pub fn resolve_dotnet_root(uses_worktree_env: bool, cache: &DotnetRootCache) -> (r:
        DotnetRootLookup)
        ensures
            uses_worktree_env ==> r is Probe,
            !uses_worktree_env ==> match cache@ {
                Some(root) => r matches DotnetRootLookup::Known(k) && k@ == root,
                None => r is ProbeAndRemember,
            },
    {
        if uses_worktree_env {
            DotnetRootLookup::Probe
        } else {
            Self::cached_dotnet_root(cache)
        }
    }

    /// The remembered .NET root, or a probe whose answer is to be remembered.
    pub fn cached_dotnet_root(cache: &DotnetRootCache) -> (r: DotnetRootLookup)
        ensures
            match cache@ {
                Some(root) => r matches DotnetRootLookup::Known(k) && k@ == root,
                None => r is ProbeAndRemember,
            },
    {
        match &cache.root {
            Some(root) => DotnetRootLookup::Known(root.clone()),
            None => DotnetRootLookup::ProbeAndRemember,
        }
    }

    /// The environment the server runs in: `DOTNET_ROOT` set to the root
    /// found, so that it finds the right runtime; nothing when none was found.
    pub fn server_env(root: Option<String>) -> (r: Vec<(String, String)>)
        ensures
            match root {
                Some(x) => r@.len() == 1 && r@[0].0@ == "DOTNET_ROOT"@ && r@[0].1 == x,
                None => r@.len() == 0,
            },
    {
        let mut env: Vec<(String, String)> = Vec::new();
        match root {
            Some(x) => env.push((owned("DOTNET_ROOT"), x)),
            None => {},
        }
        env
    }

    /// The Razor compiler that the SDK at `sdk_path` ships.
    pub fn find_razor_compiler_dll(sdk_path: &str) -> (r: String)
        ensures
            r@ == sdk_path@
                + "/Sdks/Microsoft.NET.Sdk.Razor/source-generators/Microsoft.CodeAnalysis.Razor.Compiler.dll"@,
    {
        join2(
            sdk_path,
            "/Sdks/Microsoft.NET.Sdk.Razor/source-generators/Microsoft.CodeAnalysis.Razor.Compiler.dll",
        )
    }

    /// The Razor design time targets that the SDK at `sdk_path` ships.
    pub fn find_razor_design_time_targets(sdk_path: &str) -> (r: String)
        ensures
            r@ == sdk_path@
                + "/Sdks/Microsoft.NET.Sdk.Razor/targets/Microsoft.NET.Sdk.Razor.DesignTime.targets"@,
    {
        join2(
            sdk_path,
            "/Sdks/Microsoft.NET.Sdk.Razor/targets/Microsoft.NET.Sdk.Razor.DesignTime.targets",
        )
    }

    /// Whether the server runs under the worktree's shell environment: only
    /// where the user's settings hold `use_worktree_dotnet_env` as a boolean
    /// (given here), and then as that boolean says.
    pub fn use_worktree_dotnet_env(setting: Option<bool>) -> (r: bool)
        ensures
            r == (setting == Some(true)),
    {
        match setting {
            Some(b) => b,
            None => false,
        }
    }

    /// The user's settings for the Roslyn server, over its defaults; the
    /// user's settings count only where they are an object.
    pub fn transform_settings_for_roslyn<V>(settings: Option<Vec<(String, V)>>) -> (r: Vec<
        (String, SettingValue<V>),
    >)
        ensures
            settings_map(r@) == roslyn_defaults::<V>().union_prefer_right(
                user_map(
                    match settings {
                        Some(u) => Some(u@),
                        None => None,
                    },
                ),
            ),
            keys_unique(r@),
    {
        with_user_settings(roslyn_default_entries(), settings)
    }

    /// The workspace configuration for the Roslyn server: none without user
    /// settings, else the user's settings over the defaults.
    pub fn configuration_options<V>(settings: Option<Option<Vec<(String, V)>>>) -> (r: Option<
        Vec<(String, SettingValue<V>)>,
    >)
        ensures
            settings is None ==> r is None,
            settings matches Some(s) ==> r matches Some(entries) && settings_map(entries@)
                == roslyn_defaults::<V>().union_prefer_right(
                user_map(
                    match s {
                        Some(u) => Some(u@),
                        None => None,
                    },
                ),
            ) && keys_unique(entries@),
    {
        match settings {
            None => None,
            Some(s) => Some(Self::transform_settings_for_roslyn(s)),
        }
    }
}

/// What the user's settings for the Roslyn server say, as far as starting
/// it goes.
pub struct RoslynSettings {
    /// Where the Razor repository is kept (`razor_source_repository_root`);
    /// without it there is no Razor support.
    pub razor_source_repository_root: Option<String>,
    /// `use_worktree_dotnet_env`, where it is a boolean.
    pub use_worktree_dotnet_env: Option<bool>,
}

/// The Razor repository and the SDK that builds it.
pub struct RazorSource {
    pub root: String,
    pub sdk_path: String,
    pub sdk_version: String,
}

/// The arguments and environment that the server will start with.
pub struct ServerLaunch {
    pub args: Vec<String>,
    pub env: Vec<(String, String)>,
}

/// Where finding the Roslyn server stands.
pub enum RoslynStage {
    /// Listing the installed SDKs, for Razor support from `root`.
    ListingSdks { root: String },
    /// Checking whether the Razor repository is there already.
    CheckingRepo { razor: RazorSource },
    /// Resetting the Razor repository.
    Resetting { razor: RazorSource },
    /// Pulling the latest changes into the Razor repository.
    Pulling { razor: RazorSource },
    /// Cloning the Razor repository.
    Cloning { razor: RazorSource },
    /// Building the Razor extension.
    BuildingRazor { razor: RazorSource },
    /// Finding the .NET root, with the server's arguments settled.
    ResolvingRoot { args: Vec<String> },
    /// Looking for the server on the worktree's `PATH`.
    Locating { launch: ServerLaunch },
    /// Updating the server found at `path`.
    Updating { path: String, launch: ServerLaunch },
    /// Installing the server.
    Installing { launch: ServerLaunch },
    /// Looking for the server again after installing it.
    Relocating { launch: ServerLaunch },
    Finished,
}

/// The package feed that the server is installed from.
pub open spec fn server_feed() -> Seq<char> {
    "https://pkgs.dev.azure.com/azure-public/vside/_packaging/vs-impl/nuget/v3/index.json"@
}

/// The `dotnet` arguments that update the server.
pub open spec fn server_update_args() -> Seq<Seq<char>> {
    seq![
        "tool"@,
        "update"@,
        "roslyn-language-server"@,
        "--global"@,
        "--prerelease"@,
        "--source"@,
        server_feed(),
    ]
}

/// The `dotnet` arguments that install the server.
pub open spec fn server_install_args() -> Seq<Seq<char>> {
    seq![
        "tool"@,
        "install"@,
        "--global"@,
        "roslyn-language-server"@,
        "--prerelease"@,
        "--source"@,
        server_feed(),
    ]
}

/// The message for a `dotnet tool` run on the server (`verb` being
/// `update` or `install`) that failed.
pub open spec fn tool_failure(verb: Seq<char>, out: RunOutput) -> Seq<char> {
    "Unable to "@ + verb + " roslyn-language-server.\nstdout: "@ + out.stdout@ + "\nstderr: "@
        + out.stderr@
}

/// The project that builds the Razor extension in the repository at `root`.
pub open spec fn razor_project_of(root: Seq<char>) -> Seq<char> {
    root + "/src/Razor/src/Microsoft.VisualStudioCode.RazorExtension/Microsoft.VisualStudioCode.RazorExtension.csproj"@
}

/// The `dotnet` arguments that build the Razor extension.
pub open spec fn razor_build_args(root: Seq<char>) -> Seq<Seq<char>> {
    seq!["build"@, razor_project_of(root), "--configuration"@, "Release"@]
}

/// A run exited with status 0.
pub open spec fn succeeded(out: RunOutput) -> bool {
    out.status == Some(0i32)
}

/// The Razor source has the repository at `root`, the SDK at `path` and of
/// `version`.
pub open spec fn razor_is(razor: RazorSource, root: Seq<char>, path: Seq<char>, version: Seq<char>) -> bool {
    razor.root@ == root && razor.sdk_path@ == path && razor.sdk_version@ == version
}

/// The step asks for the .NET root.
pub open spec fn asks_root(next: Next, worktree_env: bool) -> bool {
    next matches Next::Ask(Request::DotnetRoot { worktree_env: w }) && w == worktree_env
}

/// The step ends the run with the server at `path` and `launch`.
pub open spec fn finishes_with_launch(next: Next, path: Seq<char>, launch: ServerLaunch) -> bool {
    finishes_with_command(next, path, string_views(launch.args@), launch.env@)
}

/// The step ends the run with the error `msg`, without notes.
pub open spec fn fails_with(next_stage: RoslynStage, step: Step, msg: Seq<char>) -> bool {
    &&& next_stage is Finished
    &&& step.notes@.len() == 0
    &&& finishes_with_error(step.next, msg)
}

/// The step from `stage` on `reply` to `next`, with `step`, for a run that
/// uses the worktree's environment where `env` says so.
pub open spec fn roslyn_step(env: bool, stage: RoslynStage, reply: Reply, next: RoslynStage, step: Step) -> bool {
    match (stage, reply) {
        (RoslynStage::ListingSdks { root }, Reply::Ran(r)) => match r {
            Err(e) => fails_with(next, step, e@),
            Ok(out) => match sdk_path_of(out.status, out.stdout@, out.stderr@) {
                Err(m) => fails_with(next, step, m),
                Ok((path, version)) => {
                    &&& next matches RoslynStage::CheckingRepo { razor } && razor_is(
                        razor,
                        root@,
                        path,
                        version,
                    )
                    &&& step.notes@.len() == 0
                    &&& asks_run(step.next, "test"@, seq!["-d"@, root@], false)
                },
            },
        },
        (RoslynStage::CheckingRepo { razor }, Reply::Ran(r)) => match r {
            Err(e) => fails_with(next, step, e@),
            Ok(out) => if succeeded(out) {
                &&& next matches RoslynStage::Resetting { razor: z } && z == razor
                &&& status_notes(step.notes@, seq![InstallStatus::CheckingForUpdate])
                &&& asks_run(step.next, "git"@, seq!["-C"@, razor.root@, "reset"@, "--hard"@], false)
            } else {
                &&& next matches RoslynStage::Cloning { razor: z } && z == razor
                &&& status_notes(step.notes@, seq![InstallStatus::Downloading])
                &&& asks_run(
                    step.next,
                    "git"@,
                    seq!["clone"@, "https://github.com/dotnet/razor"@, razor.root@],
                    false,
                )
            },
        },
        (RoslynStage::Resetting { razor }, Reply::Ran(r)) => match r {
            Err(e) => fails_with(next, step, e@),
            Ok(out) => if succeeded(out) {
                &&& next matches RoslynStage::Pulling { razor: z } && z == razor
                &&& step.notes@.len() == 0
                &&& asks_run(step.next, "git"@, seq!["-C"@, razor.root@, "pull"@], false)
            } else {
                fails_with(next, step, "Unable to reset razor git repository. Git installed?"@)
            },
        },
        (RoslynStage::Pulling { razor }, Reply::Ran(r)) => match r {
            Err(e) => fails_with(next, step, e@),
            Ok(out) => {
                &&& next matches RoslynStage::BuildingRazor { razor: z } && z == razor
                &&& if succeeded(out) {
                    status_notes(step.notes@, seq![InstallStatus::Idle])
                } else {
                    &&& step.notes@.len() == 2
                    &&& step.notes@[0] == Note::Status(InstallStatus::Idle)
                    &&& step.notes@[1] matches Note::Report(m)
                        && m@ == "Unable to pull latest changes in razor repository. Offline?"@
                }
                &&& asks_run(step.next, "dotnet"@, razor_build_args(razor.root@), env)
            },
        },
        (RoslynStage::Cloning { razor }, Reply::Ran(r)) => match r {
            Err(e) => fails_with(next, step, e@),
            Ok(out) => {
                &&& status_notes(step.notes@, seq![InstallStatus::Idle])
                &&& if succeeded(out) {
                    &&& next matches RoslynStage::BuildingRazor { razor: z } && z == razor
                    &&& asks_run(step.next, "dotnet"@, razor_build_args(razor.root@), env)
                } else {
                    &&& next is Finished
                    &&& finishes_with_error(
                        step.next,
                        "Unable to clone razor git repository. For this initial setup step, an internet connection is required."@,
                    )
                }
            },
        },
        (RoslynStage::BuildingRazor { razor }, Reply::Ran(r)) => match r {
            Err(e) => fails_with(next, step, e@),
            Ok(out) => if succeeded(out) {
                &&& next matches RoslynStage::ResolvingRoot { args } && string_views(args@) == seq![
                    "--stdio"@,
                    "--autoLoadProjects"@,
                ] + razor_args_of(razor.root@, razor.sdk_path@, razor.sdk_version@)
                &&& step.notes@.len() == 0
                &&& asks_root(step.next, env)
            } else {
                fails_with(
                    next,
                    step,
                    "Unable to build razor extension.\nstdout: "@ + out.stdout@ + "\nstderr: "@
                        + out.stderr@,
                )
            },
        },
        (RoslynStage::ResolvingRoot { args }, Reply::Root(root)) => {
            &&& next matches RoslynStage::Locating { launch } && launch.args == args && match root {
                Some(x) => launch.env@.len() == 1 && launch.env@[0].0@ == "DOTNET_ROOT"@
                    && launch.env@[0].1 == x,
                None => launch.env@.len() == 0,
            }
            &&& step.notes@.len() == 0
            &&& asks_locate(step.next, "roslyn-language-server"@)
        },
        (RoslynStage::Locating { launch }, Reply::Located(found)) => match found {
            Some(p) => {
                &&& next matches RoslynStage::Updating { path, launch: l } && path == p && l == launch
                &&& status_notes(step.notes@, seq![InstallStatus::CheckingForUpdate])
                &&& asks_run(step.next, "dotnet"@, server_update_args(), env)
            },
            None => {
                &&& next matches RoslynStage::Installing { launch: l } && l == launch
                &&& status_notes(step.notes@, seq![InstallStatus::Downloading])
                &&& asks_run(step.next, "dotnet"@, server_install_args(), env)
            },
        },
        (RoslynStage::Updating { path, launch }, Reply::Ran(r)) => {
            &&& next is Finished
            &&& finishes_with_launch(step.next, path@, launch)
            &&& match r {
                Ok(out) => if succeeded(out) {
                    status_notes(step.notes@, seq![InstallStatus::Idle])
                } else {
                    &&& step.notes@.len() == 2
                    &&& step.notes@[0] matches Note::Report(m) && m@
                        == "Unable to update roslyn-language-server: "@ + tool_failure("update"@, out)
                    &&& step.notes@[1] == Note::Status(InstallStatus::Idle)
                },
                Err(e) => {
                    &&& step.notes@.len() == 2
                    &&& step.notes@[0] matches Note::Report(m) && m@
                        == "Unable to update roslyn-language-server: "@ + e@
                    &&& step.notes@[1] == Note::Status(InstallStatus::Idle)
                },
            }
        },
        (RoslynStage::Installing { launch }, Reply::Ran(r)) => match r {
            Err(e) => fails_with(next, step, e@),
            Ok(out) => if succeeded(out) {
                &&& next matches RoslynStage::Relocating { launch: l } && l == launch
                &&& step.notes@.len() == 0
                &&& asks_locate(step.next, "roslyn-language-server"@)
            } else {
                fails_with(next, step, tool_failure("install"@, out))
            },
        },
        (RoslynStage::Relocating { launch }, Reply::Located(found)) => {
            &&& next is Finished
            &&& match found {
                Some(p) => {
                    &&& status_notes(step.notes@, seq![InstallStatus::Idle])
                    &&& finishes_with_launch(step.next, p@, launch)
                },
                None => {
                    &&& step.notes@.len() == 0
                    &&& finishes_with_error(
                        step.next,
                        "roslyn-language-server not found or unable to install. Please try installing it manually using: 'dotnet tool install --global roslyn-language-server --prerelease'"@,
                    )
                },
            }
        },
        _ => false,
    }
}

/// The reply answers the request of the last step, and it is one that the
/// run can read: a directory check reports an exit status, and a successful
/// SDK listing can be read line by line.
pub open spec fn roslyn_answers(stage: RoslynStage, reply: Reply) -> bool {
    match (stage, reply) {
        (RoslynStage::ListingSdks { .. }, Reply::Ran(r)) => r matches Ok(out) ==> (succeeded(out)
            ==> sdk_listing_readable(out.stdout@)),
        (RoslynStage::CheckingRepo { .. }, Reply::Ran(r)) => r matches Ok(out) ==> out.status is Some,
        (RoslynStage::Resetting { .. }, Reply::Ran(_)) => true,
        (RoslynStage::Pulling { .. }, Reply::Ran(_)) => true,
        (RoslynStage::Cloning { .. }, Reply::Ran(_)) => true,
        (RoslynStage::BuildingRazor { .. }, Reply::Ran(_)) => true,
        (RoslynStage::ResolvingRoot { .. }, Reply::Root(_)) => true,
        (RoslynStage::Locating { .. }, Reply::Located(_)) => true,
        (RoslynStage::Updating { .. }, Reply::Ran(_)) => true,
        (RoslynStage::Installing { .. }, Reply::Ran(_)) => true,
        (RoslynStage::Relocating { .. }, Reply::Located(_)) => true,
        _ => false,
    }
}

/// Finding the Roslyn server: Razor support is set up first where the
/// settings ask for it (the repository is cloned or brought up to date and
/// the extension built), then the .NET root is found, then the server on
/// the worktree's `PATH` is updated, or else installed.
pub struct RoslynSetup {
    /// Whether `dotnet` runs under the worktree's environment.
    pub worktree_env: bool,
    pub stage: RoslynStage,
}

/// The step that runs `program` with `args`, under the worktree's
/// environment where `worktree_env` says so.
fn run(program: &str, args: Vec<String>, worktree_env: bool) -> (r: Next)
    ensures
        r matches Next::Ask(Request::Run(t)) && t.program@ == program@ && t.args == args
            && t.worktree_env == worktree_env,
{
    Next::Ask(Request::Run(ToolRun { program: owned(program), args, worktree_env }))
}

fn strings2(a: &str, b: &str) -> (r: Vec<String>)
    ensures
        string_views(r@) == seq![a@, b@],
{
    let mut r: Vec<String> = Vec::new();
    r.push(owned(a));
    r.push(owned(b));
    assert(string_views(r@) =~= seq![a@, b@]);
    r
}

fn strings3(a: &str, b: &str, c: &str) -> (r: Vec<String>)
    ensures
        string_views(r@) == seq![a@, b@, c@],
{
    let mut r: Vec<String> = Vec::new();
    r.push(owned(a));
    r.push(owned(b));
    r.push(owned(c));
    assert(string_views(r@) =~= seq![a@, b@, c@]);
    r
}

fn one_status(s: InstallStatus) -> (r: Vec<InstallStatus>)
    ensures
        r@ == seq![s],
{
    let mut r: Vec<InstallStatus> = Vec::new();
    r.push(s);
    assert(r@ =~= seq![s]);
    r
}

/// The message for a failed `dotnet tool` run on the server.
fn tool_failure_message(verb: &str, out: &RunOutput) -> (r: String)
    ensures
        r@ == tool_failure(verb@, *out),
{
    let mut m = join3("Unable to ", verb, " roslyn-language-server.\nstdout: ");
    m.append(out.stdout.as_str());
    m.append("\nstderr: ");
    m.append(out.stderr.as_str());
    m
}

/// The step that builds the Razor extension.
fn build_razor(razor: &RazorSource, worktree_env: bool) -> (r: Next)
    ensures
        asks_run(r, "dotnet"@, razor_build_args(razor.root@), worktree_env),
{
    let mut args: Vec<String> = Vec::new();
    args.push(owned("build"));
    args.push(RoslynOfficial::razor_extension_project(razor.root.as_str()));
    args.push(owned("--configuration"));
    args.push(owned("Release"));
    assert(string_views(args@) =~= razor_build_args(razor.root@));
    run("dotnet", args, worktree_env)
}

impl RoslynOfficial {
    /// Begins finding the command that starts the Roslyn server, with the
    /// user's settings or none when they could not be loaded; the steps that
    /// follow go through the setup that this hands back.
    pub fn language_server_cmd(&mut self, settings: Option<RoslynSettings>) -> (r: (RoslynSetup, Step))
        ensures
            match settings {
                None => {
                    &&& r.0.stage is Finished
                    &&& r.1.notes@.len() == 0
                    &&& finishes_with_error(r.1.next, "Unable to load settings"@)
                },
                Some(s) => {
                    &&& r.0.worktree_env == (s.use_worktree_dotnet_env == Some(true))
                    &&& r.1.notes@.len() == 0
                    &&& match s.razor_source_repository_root {
                        Some(root) => {
                            &&& r.0.stage matches RoslynStage::ListingSdks { root: x } && x == root
                            &&& asks_run(r.1.next, "dotnet"@, seq!["--list-sdks"@], r.0.worktree_env)
                        },
                        None => {
                            &&& r.0.stage matches RoslynStage::ResolvingRoot { args } && string_views(
                                args@,
                            ) == seq!["--stdio"@, "--autoLoadProjects"@]
                            &&& asks_root(r.1.next, r.0.worktree_env)
                        },
                    }
                },
            },
    {
        RoslynSetup::start(settings)
    }
}

impl RoslynSetup {
    /// Begins with the settings, or with none when they could not be loaded.
    pub fn start(settings: Option<RoslynSettings>) -> (r: (RoslynSetup, Step))
        ensures
            match settings {
                None => {
                    &&& r.0.stage is Finished
                    &&& r.1.notes@.len() == 0
                    &&& finishes_with_error(r.1.next, "Unable to load settings"@)
                },
                Some(s) => {
                    &&& r.0.worktree_env == (s.use_worktree_dotnet_env == Some(true))
                    &&& r.1.notes@.len() == 0
                    &&& match s.razor_source_repository_root {
                        Some(root) => {
                            &&& r.0.stage matches RoslynStage::ListingSdks { root: x } && x == root
                            &&& asks_run(r.1.next, "dotnet"@, seq!["--list-sdks"@], r.0.worktree_env)
                        },
                        None => {
                            &&& r.0.stage matches RoslynStage::ResolvingRoot { args } && string_views(
                                args@,
                            ) == seq!["--stdio"@, "--autoLoadProjects"@]
                            &&& asks_root(r.1.next, r.0.worktree_env)
                        },
                    }
                },
            },
    {
        match settings {
            None => (
                RoslynSetup { worktree_env: false, stage: RoslynStage::Finished },
                Step { notes: Vec::new(), next: Next::Finish(Err(owned("Unable to load settings"))) },
            ),
            Some(s) => {
                let env = RoslynOfficial::use_worktree_dotnet_env(s.use_worktree_dotnet_env);
                match s.razor_source_repository_root {
                    Some(root) => {
                        let mut args: Vec<String> = Vec::new();
                        args.push(owned("--list-sdks"));
                        assert(string_views(args@) =~= seq!["--list-sdks"@]);
                        (
                            RoslynSetup { worktree_env: env, stage: RoslynStage::ListingSdks { root } },
                            Step { notes: Vec::new(), next: run("dotnet", args, env) },
                        )
                    },
                    None => {
                        let args = RoslynOfficial::server_args(None);
                        assert(string_views(args@) =~= seq!["--stdio"@, "--autoLoadProjects"@]);
                        (
                            RoslynSetup { worktree_env: env, stage: RoslynStage::ResolvingRoot { args } },
                            Step {
                                notes: Vec::new(),
                                next: Next::Ask(Request::DotnetRoot { worktree_env: env }),
                            },
                        )
                    },
                }
            },
        }
    }

    /// Whether `reply` answers the last request in a form the run can read.
    pub fn accepts(&self, reply: &Reply) -> (r: bool)
        ensures
            r == roslyn_answers(self.stage, *reply),
    {
        match (&self.stage, reply) {
            (RoslynStage::ListingSdks { .. }, Reply::Ran(r)) => match r {
                Ok(out) => out.status != Some(0i32) || RoslynOfficial::sdk_listing_is_readable(
                    out.stdout.as_str(),
                ),
                Err(_) => true,
            },
            (RoslynStage::CheckingRepo { .. }, Reply::Ran(r)) => match r {
                Ok(out) => out.status.is_some(),
                Err(_) => true,
            },
            (RoslynStage::Resetting { .. }, Reply::Ran(_)) => true,
            (RoslynStage::Pulling { .. }, Reply::Ran(_)) => true,
            (RoslynStage::Cloning { .. }, Reply::Ran(_)) => true,
            (RoslynStage::BuildingRazor { .. }, Reply::Ran(_)) => true,
            (RoslynStage::ResolvingRoot { .. }, Reply::Root(_)) => true,
            (RoslynStage::Locating { .. }, Reply::Located(_)) => true,
            (RoslynStage::Updating { .. }, Reply::Ran(_)) => true,
            (RoslynStage::Installing { .. }, Reply::Ran(_)) => true,
            (RoslynStage::Relocating { .. }, Reply::Located(_)) => true,
            _ => false,
        }
    }

    /// Ends the run with the error `msg`.
    fn fail(&mut self, msg: String) -> (r: Step)
        ensures
            fails_with(final(self).stage, r, msg@),
            final(self).worktree_env == old(self).worktree_env,
    {
        self.stage = RoslynStage::Finished;
        Step { notes: Vec::new(), next: Next::Finish(Err(msg)) }
    }

    /// Takes in the reply to the last request and says what comes next.
    pub fn advance(&mut self, reply: Reply) -> (r: Step)
        requires
            roslyn_answers(old(self).stage, reply),
        ensures
            roslyn_step(old(self).worktree_env, old(self).stage, reply, final(self).stage, r),
            final(self).worktree_env == old(self).worktree_env,
    {
        let env = self.worktree_env;
        let mut stage = RoslynStage::Finished;
        std::mem::swap(&mut stage, &mut self.stage);
        match (stage, reply) {
            (RoslynStage::ListingSdks { root }, Reply::Ran(r)) => match r {
                Err(e) => self.fail(e),
                Ok(out) => match RoslynOfficial::find_dotnet_sdk_path(
                    out.status,
                    out.stdout.as_str(),
                    out.stderr.as_str(),
                ) {
                    Err(m) => self.fail(m),
                    Ok((sdk_path, sdk_version)) => {
                        let check = strings2("-d", root.as_str());
                        self.stage = RoslynStage::CheckingRepo {
                            razor: RazorSource { root, sdk_path, sdk_version },
                        };
                        Step { notes: Vec::new(), next: run("test", check, false) }
                    },
                },
            },
            (RoslynStage::CheckingRepo { razor }, Reply::Ran(r)) => match r {
                Err(e) => self.fail(e),
                Ok(out) => {
                    if out.status == Some(0i32) {
                        let mut args = strings("-C", razor.root.as_str(), "reset", "--hard");
                        self.stage = RoslynStage::Resetting { razor };
                        status_step(
                            &one_status(InstallStatus::CheckingForUpdate),
                            run("git", args, false),
                        )
                    } else {
                        let args = strings3(
                            "clone",
                            "https://github.com/dotnet/razor",
                            razor.root.as_str(),
                        );
                        self.stage = RoslynStage::Cloning { razor };
                        status_step(&one_status(InstallStatus::Downloading), run("git", args, false))
                    }
                },
            },
            (RoslynStage::Resetting { razor }, Reply::Ran(r)) => match r {
                Err(e) => self.fail(e),
                Ok(out) => {
                    if out.status == Some(0i32) {
                        let args = strings3("-C", razor.root.as_str(), "pull");
                        self.stage = RoslynStage::Pulling { razor };
                        Step { notes: Vec::new(), next: run("git", args, false) }
                    } else {
                        self.fail(owned("Unable to reset razor git repository. Git installed?"))
                    }
                },
            },
            (RoslynStage::Pulling { razor }, Reply::Ran(r)) => match r {
                Err(e) => self.fail(e),
                Ok(out) => {
                    let next = build_razor(&razor, env);
                    self.stage = RoslynStage::BuildingRazor { razor };
                    if out.status == Some(0i32) {
                        status_step(&one_status(InstallStatus::Idle), next)
                    } else {
                        let mut notes: Vec<Note> = Vec::new();
                        notes.push(Note::Status(InstallStatus::Idle));
                        notes.push(
                            Note::Report(
                                owned("Unable to pull latest changes in razor repository. Offline?"),
                            ),
                        );
                        Step { notes, next }
                    }
                },
            },
            (RoslynStage::Cloning { razor }, Reply::Ran(r)) => match r {
                Err(e) => self.fail(e),
                Ok(out) => {
                    if out.status == Some(0i32) {
                        let next = build_razor(&razor, env);
                        self.stage = RoslynStage::BuildingRazor { razor };
                        status_step(&one_status(InstallStatus::Idle), next)
                    } else {
                        status_step(
                            &one_status(InstallStatus::Idle),
                            Next::Finish(
                                Err(
                                    owned(
                                        "Unable to clone razor git repository. For this initial setup step, an internet connection is required.",
                                    ),
                                ),
                            ),
                        )
                    }
                },
            },
            (RoslynStage::BuildingRazor { razor }, Reply::Ran(r)) => match r {
                Err(e) => self.fail(e),
                Ok(out) => {
                    if out.status == Some(0i32) {
                        let extra = RoslynOfficial::razor_args(
                            razor.root.as_str(),
                            razor.sdk_path.as_str(),
                            razor.sdk_version.as_str(),
                        );
                        let args = RoslynOfficial::server_args(Some(extra));
                        self.stage = RoslynStage::ResolvingRoot { args };
                        Step {
                            notes: Vec::new(),
                            next: Next::Ask(Request::DotnetRoot { worktree_env: env }),
                        }
                    } else {
                        let mut m = join2(
                            "Unable to build razor extension.\nstdout: ",
                            out.stdout.as_str(),
                        );
                        m.append("\nstderr: ");
                        m.append(out.stderr.as_str());
                        self.fail(m)
                    }
                },
            },
            (RoslynStage::ResolvingRoot { args }, Reply::Root(root)) => {
                let env_vars = RoslynOfficial::server_env(root);
                self.stage = RoslynStage::Locating { launch: ServerLaunch { args, env: env_vars } };
                Step {
                    notes: Vec::new(),
                    next: Next::Ask(Request::Locate { binary: owned("roslyn-language-server") }),
                }
            },
            (RoslynStage::Locating { launch }, Reply::Located(found)) => match found {
                Some(p) => {
                    self.stage = RoslynStage::Updating { path: p, launch };
                    let args = strings7(
                        "tool",
                        "update",
                        "roslyn-language-server",
                        "--global",
                        "--prerelease",
                        "--source",
                        "https://pkgs.dev.azure.com/azure-public/vside/_packaging/vs-impl/nuget/v3/index.json",
                    );
                    status_step(&one_status(InstallStatus::CheckingForUpdate), run("dotnet", args, env))
                },
                None => {
                    self.stage = RoslynStage::Installing { launch };
                    let args = strings7(
                        "tool",
                        "install",
                        "--global",
                        "roslyn-language-server",
                        "--prerelease",
                        "--source",
                        "https://pkgs.dev.azure.com/azure-public/vside/_packaging/vs-impl/nuget/v3/index.json",
                    );
                    status_step(&one_status(InstallStatus::Downloading), run("dotnet", args, env))
                },
            },
            (RoslynStage::Updating { path, launch }, Reply::Ran(r)) => {
                let failure = match r {
                    Err(e) => Some(e),
                    Ok(out) => if out.status == Some(0i32) {
                        None
                    } else {
                        Some(tool_failure_message("update", &out))
                    },
                };
                let command = ServerCommand { command: path, args: launch.args, env: launch.env };
                match failure {
                    None => status_step(&one_status(InstallStatus::Idle), Next::Finish(Ok(command))),
                    Some(f) => {
                        let mut notes: Vec<Note> = Vec::new();
                        notes.push(
                            Note::Report(join2("Unable to update roslyn-language-server: ", f.as_str())),
                        );
                        notes.push(Note::Status(InstallStatus::Idle));
                        Step { notes, next: Next::Finish(Ok(command)) }
                    },
                }
            },
            (RoslynStage::Installing { launch }, Reply::Ran(r)) => match r {
                Err(e) => self.fail(e),
                Ok(out) => {
                    if out.status == Some(0i32) {
                        self.stage = RoslynStage::Relocating { launch };
                        Step {
                            notes: Vec::new(),
                            next: Next::Ask(Request::Locate { binary: owned("roslyn-language-server") }),
                        }
                    } else {
                        let m = tool_failure_message("install", &out);
                        self.fail(m)
                    }
                },
            },
            (RoslynStage::Relocating { launch }, Reply::Located(found)) => match found {
                Some(p) => {
                    let command = ServerCommand { command: p, args: launch.args, env: launch.env };
                    status_step(&one_status(InstallStatus::Idle), Next::Finish(Ok(command)))
                },
                None => self.fail(
                    owned(
                        "roslyn-language-server not found or unable to install. Please try installing it manually using: 'dotnet tool install --global roslyn-language-server --prerelease'",
                    ),
                ),
            },
            (_, _) => self.fail(String::new()),
        }
    }
}

/// How many steps finding the Roslyn server has left at most.
pub open spec fn roslyn_distance(stage: RoslynStage) -> int {
    match stage {
        RoslynStage::ListingSdks { .. } => 10,
        RoslynStage::CheckingRepo { .. } => 9,
        RoslynStage::Resetting { .. } => 8,
        RoslynStage::Pulling { .. } => 7,
        RoslynStage::Cloning { .. } => 7,
        RoslynStage::BuildingRazor { .. } => 6,
        RoslynStage::ResolvingRoot { .. } => 5,
        RoslynStage::Locating { .. } => 4,
        RoslynStage::Updating { .. } => 1,
        RoslynStage::Installing { .. } => 3,
        RoslynStage::Relocating { .. } => 2,
        RoslynStage::Finished => 0,
    }
}

/// Finding the Roslyn server ends: every step brings it closer to its end.
pub proof fn law_roslyn_setup_ends(
    worktree_env: bool,
    stage: RoslynStage,
    reply: Reply,
    next: RoslynStage,
    step: Step,
)
    requires
        roslyn_step(worktree_env, stage, reply, next, step),
    ensures
        0 <= roslyn_distance(next) < roslyn_distance(stage),
{
}

/// The step asks to build, in Release configuration, the Razor extension of
/// the repository at `root`, under the worktree's environment where `env`
/// says so.
pub open spec fn asks_razor_build(next: Next, root: Seq<char>, env: bool) -> bool {
    next matches Next::Ask(Request::Run(t)) && t.program@ == "dotnet"@ && t.worktree_env == env
        && t.args@.len() == 4 && t.args@[0]@ == "build"@ && t.args@[1]@ == root
        + "/src/Razor/src/Microsoft.VisualStudioCode.RazorExtension/Microsoft.VisualStudioCode.RazorExtension.csproj"@
        && t.args@[2]@ == "--configuration"@ && t.args@[3]@ == "Release"@
}

/// The Razor extension is always built from the repository as it now
/// stands before the server is looked for: after a pull that ran (whether
/// or not it brought changes) and after a clone that succeeded, the next
/// step builds the extension of that same repository; and the .NET root is
/// asked for only once that build has succeeded.
pub proof fn law_razor_is_built_before_the_server(
    env: bool,
    stage: RoslynStage,
    reply: Reply,
    next: RoslynStage,
    step: Step,
)
    requires
        roslyn_step(env, stage, reply, next, step),
    ensures
        stage matches RoslynStage::Pulling { razor } ==> reply matches Reply::Ran(Ok(_)) ==> {
            &&& next matches RoslynStage::BuildingRazor { razor: z } && z == razor
            &&& asks_razor_build(step.next, razor.root@, env)
        },
        stage matches RoslynStage::Cloning { razor } ==> (reply matches Reply::Ran(Ok(out))
            && out.status == Some(0i32)) ==> {
            &&& next matches RoslynStage::BuildingRazor { razor: z } && z == razor
            &&& asks_razor_build(step.next, razor.root@, env)
        },
        next is ResolvingRoot ==> stage is BuildingRazor,
        next is ResolvingRoot ==> (reply matches Reply::Ran(Ok(out)) && out.status == Some(0i32)),
{
    if let Next::Ask(Request::Run(t)) = step.next {
        assert(string_views(t.args@).len() == t.args@.len());
        assert forall|i: int| 0 <= i < t.args@.len() implies #[trigger] string_views(t.args@)[i]
            == t.args@[i]@ by {}
    }
}

} // verus!
