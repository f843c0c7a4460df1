# masterror

Framework-agnostic application errors for backend services, with their
behaviour stated as Verus contracts and proved.

An error has a stable kind (`AppErrorKind`, mapped to an HTTP status), a
public machine-readable code (`AppCode`), an optional message that may be
marked for redaction, structured metadata whose fields carry their own
redaction policy, transport hints (retry advice, authentication challenge),
diagnostics, a cause chain and an optional backtrace. Errors render in three
layouts (production JSON, staging JSON with causes, a local multi-line
report), chosen from the deployment environment.

## Layout

- `src/` — the verified library.
  - `kind.rs`, `code.rs` — taxonomy, HTTP statuses and public codes.
  - `error.rs`, `constructors.rs` — the error value and its builders.
  - `metadata.rs`, `field.rs`, `redaction_policy.rs`, `redaction.rs`,
    `format.rs` — metadata fields, default redaction and value masking.
  - `context.rs` — contexts that conversions fill before building an error.
  - `display.rs`, `diagnostics.rs`, `style.rs` — the three layouts, the
    display-mode cache and the diagnostics report.
  - `backtrace.rs` — the cached decision whether to capture backtraces.
  - `convert/` — errors built from failures of databases, HTTP clients,
    configuration, JSON, validation, gRPC metadata and more, each described
    by a plain value of this crate.
  - `inline_vec.rs` — a small vector that stores up to four items inline.
- `tests/` — tests of the library on concrete values.
- `app/` — process-wide glue: environment lookups, global caches, standard
  formatting traits and serde support.

Verify with `verus` on `src/lib.rs`; laws of the library stand as public
proof functions whose names begin with `law_`.
