# zed_csharp

C# and Razor support for the Zed editor: language servers (the official
Roslyn server with Razor support, or csharp-ls) and debugging with netcoredbg.

The library in `src/` holds the extension's decisions, each with a contract
that Verus proves:

- `debug_config`: the netcoredbg configuration, the request kinds, and how
  the adapter binary is started.
- `locator`: turning `dotnet run`/`dotnet test` tasks into debug scenarios,
  and the run that finds the project file above a source file, builds it and
  finds the program to launch (`LocatorRun`).
- `language_servers`: the steps that find, update or install csharp-ls and
  the Roslyn server (with the Razor repository, SDK and .NET root), as
  machines that ask for outside work and take its replies.
- `settings`: default settings that the user's settings override.
- `text`, `paths`: character-level text functions, and the two
  `std::path` functions that the library relies on.

`app/` is the extension itself: the editor's hooks, which run the commands
and lookups that the library asks for and convert between the editor's
types and the library's.
