# kide

The core of Kide, a desktop IDE for Kubernetes clusters, as a library
verified with Verus.

- `src/` holds the logic that the application's commands and background
  tasks rely on, each function with a contract that Verus proves: the
  resource catalog and registry, watch keys and watch bookkeeping, the
  shared watch cache and its idle cleanup, log streams, shell sessions and
  the checks on shell input, input sanitizing, configuration presets,
  environment overrides and validation, the configuration file (a small
  TOML form that loads back what was saved), the login shell's
  environment, bulk cleanup, the texts of the errors, and the decisions and
  messages of the commands, including the patch that updates a resource
  from YAML.
- `tests/` runs the library on concrete values.
- `app/` is the Tauri application around the library: it talks to the
  cluster through `kube`, runs the background tasks, and hands the library
  plain values. It needs `tauri` and `tauri-plugin-shell` to build.

## Notes on behaviour

- The shell validator refuses input that contains one of its fifteen
  injection patterns (`;`, `&&`, `||`, `|`, `>`, `>>`, `<`, `&`, `$(`, a
  backtick, `${`, `rm -rf`, `mkfs`, `dd if=` and the fork bomb), first as
  typed and then again once control characters are dropped, so a control
  character cannot hide a pattern. It also refuses the phrase "harmful
  command"; the word "harmful" alone, as in `rm harmful.txt`, passes.
- Configuration files are TOML documents of comments, blank lines and
  `key = value` entries with bare keys and decimal values; a saved
  configuration loads back unchanged.
