# celix_bundle

The rules by which `cargo celix` turns a Cargo package into an Apache Celix
bundle, verified with Verus:

- `src/text.rs`: character-level rewriting (package names to identifiers,
  trimming, splitting at a separator).
- `src/cargo_toml.rs`: reading string settings out of `Cargo.toml` with the
  `toml` crate.
- `src/bundle.rs`: library and archive names, the bundle manifest, the
  framework configuration, the deployment layout under `deploy/`, and the
  plan that packs and deploys the bundle.
- `src/locate.rs`: the `Cargo.toml` path, the scratch directory and the
  Celix installation directory, read from tool output and settings.
- `src/celix.rs`: constants of the Celix C interface.
- `src/laws.rs`: properties that relate these functions.

`app/main.rs` is the command itself: it runs Cargo, `mktemp`, `jar` and the
file operations, and hands plain values to the library.
