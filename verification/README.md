# env_structure

Loads structured configuration from environment variables. Each field of a
configuration type is read from a variable (its name in uppercase), parsed,
optionally validated, and replaced by a default when missing or invalid;
every problem is reported as an issue of one of three severities (error,
warning, information) instead of stopping at the first one.

The crate is verified with Verus.

- `src/` is the verified library:
  - `env.rs`: a snapshot of the environment and what reading a variable gives;
  - `from_env.rs`, `ints.rs`, `nonzero.rs`: the values a variable can hold
    (`bool`, `String`, every integer type, non-zero integers, raw values, enum
    discriminants), their parsing and their display, with secret values
    redacted from reports;
  - `issue.rs`: issues and the text that reports them;
  - `context.rs`: `ParseCtx`, which parses variables and collects issues;
  - `lib.rs`: `load_and_trace`, which loads a type and lists the lines to
    trace, and `finish_load`, which traces a filled context and decides the
    outcome;
  - `derive/`: the rules of the `EnvStructure` derive over syntax it never looks
    into: which `env` arguments a field or variant may carry, which call loads
    each field, and when a declaration is refused;
  - `laws.rs`: properties that span several functions.
- `app/` reads the process environment, traces with `tracing`, and holds the
  derive's reading of Rust syntax (`syn`) and writing of code (`quote`).
- `tests/` runs the library on concrete values.
