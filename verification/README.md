# eap — environment parser

Typed configuration values read from a backend of named text values, verified
with Verus.

- `src/environment/`: the `Environment` trait (`get`, `get_or`, `try_get`,
  `try_get_or` over the raw text a backend holds for a key), the
  `FromEnvStr` trait for the value types (`String`, `bool`, `char` and
  the integers `u8`, `u16`, `u32`, `u64`, `u128`, `usize`, `i8`, `i16`,
  `i32`, `i64`, `i128`, `isize`), and the backends: `Local` and `DotEnv` (read by the upper-case
  form of the key), `AwsEnvironment` and `AwsSecret` (a JSON object, read by
  exact key, each value as its compact JSON text). Values are held in
  `table::Table`, which keeps each name once.
- `src/config.rs`: the `Config` trait that a configuration struct implements.
- `src/attributes.rs`: how the `Config` derive reads a struct's fields and
  their `#[var(default = ..)]` attributes, and what each field becomes.
- `app/`: what touches the world: loading `Local` from the process and
  `DotEnv` from a `.env` file, fetching from AWS SSM and Secrets Manager, the
  error types' messages, and the derive's token handling with `syn`.

Each contract is stated over the text the backend holds; `cargo test` runs
the examples under `tests/`.
