//! The command-line interface: what a run of the generator is given.

use vstd::prelude::*;

verus! {

/// Extra `--help` text with examples.
pub const EXAMPLES: &'static str = "Examples:
  # Write generated code. Select artifacts in the configuration file:
  oapi-codegen --config-file oapi-codegen.yaml --output-file src/api.rs api.yaml

  # You can also set output with the `output:` configuration key:
  oapi-codegen --config-file oapi-codegen.yaml api.yaml

You must provide a configuration file.
The configuration file must enable at least one artifact.
You must set output with --output-file or the `output:` configuration key:
  # oapi-codegen.yaml
  output: src/api.rs
  generate:
    models: true
    std-http-server: true
    client: true";

/// Generate Rust code from an OpenAPI 3 specification.
#[derive(Debug, Clone)]
pub struct Cli {
    /// Path to the OpenAPI 3 specification (YAML or JSON).
    pub spec_file: String,
    /// Path to an `oapi-codegen` YAML configuration file (required).
    pub config_file: String,
    /// Output file path (overrides configuration `output:`).
    /// Required unless the configuration sets `output:`.
    pub output_file: Option<String>,
    /// After the write, run `cargo add` for each required crate.
    ///
    /// If set, this runs with no prompt. If stdin is interactive and the flag
    /// is not set, the program asks first. If stdin is not interactive and the
    /// flag is not set, it prints only the list.
    pub install_deps: bool,
}

/// Whether a configuration asks for at least one artifact: a run must
/// generate something.
pub fn enables_artifact(generate: &crate::config::Generate) -> (r: bool)
    ensures
        r == (generate.models || generate.std_http_server || generate.client || generate.embedded_spec
            || generate.server_urls),
{
    generate.models || generate.std_http_server || generate.client || generate.embedded_spec || generate.server_urls
}

/// Where a run writes: `--output-file` when given, which overrides the
/// configuration's `output:`; `None` when neither names a destination.
pub fn output_destination(output_file: Option<String>, configured: Option<String>) -> (r: Option<String>)
    ensures
        r == (match output_file {
            Some(path) => Some(path),
            None => configured,
        }),
{
    match output_file {
        Some(path) => Some(path),
        None => configured,
    }
}

} // verus!
