# figment_clap_together

Configuration for a terminal application, layered from clap defaults,
`config.toml`, `MYAPP_`-prefixed environment variables and explicit
command-line flags (later layers win).

- `src/` is the verified library (Verus): the rules a resolved configuration
  must satisfy (`Cli::validate`, `Cli::into_validated`), the error types and
  their messages, and `strip_defaults`, which keeps only the command-line
  values that did not come from a clap default.
- `app/` is the program: it parses argv with clap, merges the layers with
  figment, applies the explicit flags, and hands the result to the library.
- `tests/` exercises the library.
