# mcvm

The core of the MCVM Minecraft launcher as a library whose behaviour is stated in
`requires` / `ensures` contracts and proved with Verus.

## Layout

- `src/` is the verified library.
  - `lex`, `parse`, `conditions`, `instruction`, `require`, `vars`, `routine`: the package
    script language: lexing, parsing into blocks and routines, values and variables.
  - `script_eval`, `evaluator`, `call_graph`: evaluating a script's install routine against
    an evaluator that answers conditions and takes the outputs, following the blocks it
    runs to a depth of nesting, and deciding whether those blocks can recurse forever.
  - `pkg`, `repo`: package metadata and properties, their validation, and repository URLs.
  - `resolve`, `order`: dependency resolution as a state machine, and the order in which
    package relations are taken.
  - `lock`, `modpack`, `storage`: the instance lockfile and the addons it records, modpack
    manifests and overrides.
  - `launch_args`, `launch_process`, `instance`, `java`, `options`, `assets`, `version`,
    `update`, `persistent`, `user`, `select`, `config`: launch arguments and commands, instance
    configuration, Java installations, options.txt text, assets, update bookkeeping and
    users.
  - `client_options`: the keys of options.txt for a game version, from client options held
    as plain values (fractions as their text) and from where the version stands against
    the versions at which the file changed, which the caller works out.
  - `text`, `paths`, `strmap`, `shared`: strings, paths, a string-keyed map and shared
    enumerations.
- `tests/` runs the library on concrete inputs.
- `app/` holds what is input and output: JSON lockfiles and declarative packages with
  serde, spawning the game process, and the asynchronous loop that drives resolution
  with a package evaluator.
