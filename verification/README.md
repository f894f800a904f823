# run-code

`run-code` runs a Python, TypeScript, JavaScript, Rust, Go or C# snippet with
a selected toolchain version and temporary dependencies, in an isolated
project when packages are needed.

The decisions of the program live in the library under `src/`, written in
Verus and verified:

- `cli`: reading `TOOLCHAIN[@VERSION]` (aliases and default versions) and the
  combinations of options that are refused before anything runs.
- `runner`: choosing the backend, and for each language the plan of steps
  (setup commands, files to write, the final command) that running a snippet
  takes; package specifications are converted or refused there (`uv add`
  specs, `cargo add` features, `#:package` directives).
- `plan`: the steps, and `advance`, which decides after each performed step
  whether the run goes on, fails, or finished with an exit code.
- `process`: judging what a started process came to, showing a command as a
  POSIX shell would read it, and the environment a process receives.
- `execution`: the working directory and environment file of the final
  process.
- `text`, `util`: character-level helpers and installation hints.

`app/` is the program around it: command-line parsing with clap, reading the
snippet, temporary directories and files, and performing the planned steps.
