//! Generator configuration, compatible with `oapi-codegen`'s YAML
//! configuration files, and the warnings for keys it does not know.

use vstd::prelude::*;

use crate::diagnostic::Warning;
use crate::diagnostic::pointer;
use crate::diagnostic::pointer_text;
use crate::text::same_text;
use crate::yaml::Yaml;

verus! {

/// A generator configuration, mirroring the keys used by `oapi-codegen`.
///
/// Loading reports warnings for unknown keys and ignores them for compatibility.
#[derive(Debug, Clone)]
pub struct Config {
    /// Target module/package name (informational for the Rust generator).
    pub package: Option<String>,
    /// Output file path for generated code, when configured.
    pub output: Option<String>,
    /// Which artifacts to generate.
    pub generate: Generate,
    /// Output tuning options.
    pub output_options: OutputOptions,
    /// Mapping of referenced spec files to external modules, in key order.
    pub import_mapping: Vec<(String, String)>,
}

/// The set of artifacts a configuration requests.
#[derive(Debug, Clone, Copy, PartialEq, Eq)]
pub struct Generate {
    /// Generate data models (structs/enums) from component schemas.
    pub models: bool,
    /// Generate an axum server interface from the spec's paths.
    pub std_http_server: bool,
    /// Generate a blocking `reqwest` client from the spec's paths.
    pub client: bool,
    /// Embed the spec into the generated code (not yet implemented).
    pub embedded_spec: bool,
    /// Emit constants and builder functions for the spec's `servers` URLs.
    pub server_urls: bool,
}

impl Default for Generate {
    fn default() -> (r: Self)
        ensures
            !r.models && !r.std_http_server && !r.client && !r.embedded_spec && !r.server_urls,
    {
        Generate { models: false, std_http_server: false, client: false, embedded_spec: false, server_urls: false }
    }
}

/// Output tuning options.
#[derive(Debug, Clone)]
pub struct OutputOptions {
    /// Keep schemas that are not referenced (no pruning).
    pub skip_prune: bool,
    /// Only generate operations tagged with one of these tags (empty = all).
    pub include_tags: Vec<String>,
    /// Skip operations tagged with any of these tags.
    pub exclude_tags: Vec<String>,
    /// Only generate operations whose `operationId` is one of these (empty = all).
    pub include_operation_ids: Vec<String>,
    /// Skip operations whose `operationId` is one of these.
    pub exclude_operation_ids: Vec<String>,
    /// Remove these component schemas from the spec before lowering.
    pub exclude_schemas: Vec<String>,
    /// Suffix appended to a per-operation response enum's name (default `Response`).
    pub response_type_suffix: Option<String>,
    /// Suffix added to the second of two schema names that collapse onto one
    /// Rust identifier. Unset by default, which makes such a collision an error.
    pub type_name_suffix: Option<String>,
}

impl Default for OutputOptions {
    fn default() -> (r: Self)
        ensures
            !r.skip_prune,
            r.include_tags@.len() == 0,
            r.exclude_tags@.len() == 0,
            r.include_operation_ids@.len() == 0,
            r.exclude_operation_ids@.len() == 0,
            r.exclude_schemas@.len() == 0,
            r.response_type_suffix is None,
            r.type_name_suffix is None,
    {
        OutputOptions {
            skip_prune: false,
            include_tags: Vec::new(),
            exclude_tags: Vec::new(),
            include_operation_ids: Vec::new(),
            exclude_operation_ids: Vec::new(),
            exclude_schemas: Vec::new(),
            response_type_suffix: None,
            type_name_suffix: None,
        }
    }
}

impl Default for Config {
    fn default() -> (r: Self)
        ensures
            r.package is None,
            r.output is None,
            !r.generate.models && !r.generate.std_http_server && !r.generate.client,
            !r.generate.embedded_spec && !r.generate.server_urls,
            !r.output_options.skip_prune,
            r.output_options.response_type_suffix is None,
            r.output_options.type_name_suffix is None,
            r.import_mapping@.len() == 0,
    {
        Config {
            package: None,
            output: None,
            generate: Generate::default(),
            output_options: OutputOptions::default(),
            import_mapping: Vec::new(),
        }
    }
}

/// Config key of the output-options section, as written in a configuration file.
pub const OUTPUT_OPTIONS_KEY: &'static str = "output-options";

/// Config key of the response-type suffix, as written in a configuration file.
pub const RESPONSE_TYPE_SUFFIX_KEY: &'static str = "response-type-suffix";

/// Seed for a response enum's name suffix when the response-type suffix is
/// unset: Pascal casing turns it into the `Response` that ends every default
/// `<Op>Response` enum.
pub const DEFAULT_RESPONSE_SUFFIX: &'static str = "response";

/// Config key of the type-name suffix, as written in a configuration file.
pub const TYPE_NAME_SUFFIX_KEY: &'static str = "type-name-suffix";

/// Where in the configuration a value sits, which decides the keys it may hold.
#[derive(Debug, Clone, Copy, PartialEq, Eq, Structural)]
pub enum Section {
    /// The whole file.
    Root,
    /// The `generate:` block.
    Generate,
    /// The `output-options:` block.
    OutputOptions,
    /// A value whose keys, if any, are the user's own (a scalar, a list, or the
    /// `import-mapping:` map).
    Free,
}

/// The section a known key of `section` opens, or `None` for a key the
/// section does not know.
pub open spec fn section_key(section: Section, key: Seq<char>) -> Option<Section> {
    match section {
        Section::Root => if key == "generate"@ {
            Some(Section::Generate)
        } else if key == OUTPUT_OPTIONS_KEY@ {
            Some(Section::OutputOptions)
        } else if key == "package"@ || key == "output"@ || key == "import-mapping"@ {
            Some(Section::Free)
        } else {
            None
        },
        Section::Generate => if key == "models"@ || key == "std-http-server"@ || key == "client"@ || key
            == "embedded-spec"@ || key == "server-urls"@ {
            Some(Section::Free)
        } else {
            None
        },
        Section::OutputOptions => if key == "skip-prune"@ || key == "include-tags"@ || key == "exclude-tags"@ || key
            == "include-operation-ids"@ || key == "exclude-operation-ids"@ || key == "exclude-schemas"@ || key
            == RESPONSE_TYPE_SUFFIX_KEY@ || key == TYPE_NAME_SUFFIX_KEY@ {
            Some(Section::Free)
        } else {
            None
        },
        Section::Free => None,
    }
}

/// The message of every unknown-key warning.
pub open spec fn unknown_key_message() -> Seq<char> {
    "unknown configuration key is ignored"@
}

/// A warning as its pointer and message.
pub open spec fn warning_texts(ws: Seq<Warning>) -> Seq<(Seq<char>, Seq<char>)> {
    ws.map_values(|w: Warning| (w.path@, w.message@))
}

/// The unknown keys under `value`, which sits at `parent` in `section`, in
/// document order: each string key the section does not know gets a warning,
/// and each known key is checked against the section it opens. A key is known
/// only as a plain string; a tagged key reads as unknown.
pub open spec fn unknown_keys(value: Yaml, section: Section, parent: Seq<char>) -> Seq<(Seq<char>, Seq<char>)>
    decreases value,
{
    match value {
        Yaml::Tagged(_, inner) => unknown_keys(*inner, section, parent),
        Yaml::Mapping(entries) => if section == Section::Free {
            Seq::empty()
        } else {
            entries_unknown(entries@, section, parent)
        },
        _ => Seq::empty(),
    }
}

/// The unknown keys among a mapping's entries, entry by entry.
pub open spec fn entries_unknown(es: Seq<(Yaml, Yaml)>, section: Section, parent: Seq<char>) -> Seq<
    (Seq<char>, Seq<char>),
>
    decreases es,
{
    if es.len() == 0 {
        Seq::empty()
    } else {
        let key = es[es.len() - 1].0;
        let value = es[es.len() - 1].1;
        entries_unknown(es.subrange(0, es.len() - 1), section, parent) + match crate::yaml::untag(key) {
            Yaml::String(name) => {
                let path = pointer_text(parent, name@);
                match key {
                    Yaml::String(_) => match section_key(section, name@) {
                        Some(child) => unknown_keys(value, child, path),
                        None => seq![(path, unknown_key_message())],
                    },
                    _ => seq![(path, unknown_key_message())],
                }
            },
            _ => Seq::empty(),
        }
    }
}

/// The section a plain-string key of `section` opens.
fn key_section(section: Section, key: &str) -> (r: Option<Section>)
    ensures
        r == section_key(section, key@),
{
    match section {
        Section::Root => {
            if same_text(key, "generate") {
                Some(Section::Generate)
            } else if same_text(key, OUTPUT_OPTIONS_KEY) {
                Some(Section::OutputOptions)
            } else if same_text(key, "package") || same_text(key, "output") || same_text(key, "import-mapping") {
                Some(Section::Free)
            } else {
                None
            }
        },
        Section::Generate => {
            if same_text(key, "models") || same_text(key, "std-http-server") || same_text(key, "client")
                || same_text(key, "embedded-spec") || same_text(key, "server-urls") {
                Some(Section::Free)
            } else {
                None
            }
        },
        Section::OutputOptions => {
            if same_text(key, "skip-prune") || same_text(key, "include-tags") || same_text(key, "exclude-tags")
                || same_text(key, "include-operation-ids") || same_text(key, "exclude-operation-ids")
                || same_text(key, "exclude-schemas") || same_text(key, RESPONSE_TYPE_SUFFIX_KEY) || same_text(
                key,
                TYPE_NAME_SUFFIX_KEY,
            ) {
                Some(Section::Free)
            } else {
                None
            }
        },
        Section::Free => None,
    }
}

/// Append a warning for every key under `value` its section does not know.
pub fn collect_unknown_keys(value: &Yaml, section: Section, parent: &str, warnings: &mut Vec<Warning>)
    ensures
        warning_texts(final(warnings)@) == warning_texts(old(warnings)@) + unknown_keys(*value, section, parent@),
    decreases value,
{
    match value {
        Yaml::Tagged(_, inner) => collect_unknown_keys(inner, section, parent, warnings),
        Yaml::Mapping(entries) => {
            if section == Section::Free {
                assert(warning_texts(warnings@) =~= warning_texts(old(warnings)@) + Seq::<(Seq<char>, Seq<char>)>::empty());
                return;
            }
            let mut k: usize = 0;
            while k < entries.len()
                invariant
                    k <= entries@.len(),
                    section != Section::Free,
                    *value == Yaml::Mapping(*entries),
                    warning_texts(warnings@) == warning_texts(old(warnings)@) + entries_unknown(
                        entries@.subrange(0, k as int),
                        section,
                        parent@,
                    ),
                decreases entries@.len() - k,
            {
                let ghost before = warning_texts(warnings@);
                let key = &entries[k].0;
                let child = &entries[k].1;
                proof {
                    assert(entries@.subrange(0, k + 1).subrange(0, k as int) =~= entries@.subrange(0, k as int));
                    assert(entries@.subrange(0, k + 1)[k as int] == entries@[k as int]);
                }
                match key.as_str() {
                    Some(name) => {
                        let path = pointer(parent, name);
                        let known = match key {
                            Yaml::String(_) => key_section(section, name),
                            _ => None,
                        };
                        match known {
                            Some(next) => {
                                proof {
                                    assert(decreases_to!(*value => entries@[k as int].1)) by {
                                        assert(decreases_to!(*value => value->Mapping_0));
                                        assert(decreases_to!(*entries => entries@));
                                        assert(decreases_to!(entries@ => entries@[k as int]));
                                        assert(decreases_to!(entries@[k as int] => entries@[k as int].1));
                                    }
                                }
                                collect_unknown_keys(child, next, path.as_str(), warnings);
                            },
                            None => {
                                warnings.push(Warning::new(path.as_str(), "unknown configuration key is ignored"));
                                assert(warning_texts(warnings@) =~= before + seq![(path@, unknown_key_message())]);
                            },
                        }
                    },
                    None => {},
                }
                assert(warning_texts(warnings@) =~= warning_texts(old(warnings)@) + entries_unknown(
                    entries@.subrange(0, k + 1),
                    section,
                    parent@,
                ));
                k = k + 1;
            }
            assert(entries@.subrange(0, entries@.len() as int) =~= entries@);
        },
        _ => {
            assert(warning_texts(warnings@) =~= warning_texts(old(warnings)@) + Seq::<(Seq<char>, Seq<char>)>::empty());
        },
    }
}

/// The warnings for a configuration document: one per key the configuration
/// does not know, at its JSON pointer.
pub fn configuration_warnings(value: &Yaml) -> (warnings: Vec<Warning>)
    ensures
        warning_texts(warnings@) == unknown_keys(*value, Section::Root, Seq::empty()),
{
    let mut warnings: Vec<Warning> = Vec::new();
    proof {
        reveal_strlit("");
        assert(""@ =~= Seq::<char>::empty());
    }
    collect_unknown_keys(value, Section::Root, "", &mut warnings);
    assert(warning_texts(warnings@) =~= unknown_keys(*value, Section::Root, Seq::empty()));
    warnings
}

} // verus!

verus! {

/// The unknown-key warnings for a configuration file's text, or the parser's
/// message when the text is not YAML.
pub fn configuration_text_warnings(text: &str) -> (r: Result<Vec<Warning>, String>)
    ensures
        match crate::yaml::yaml_parse(text@) {
            Ok(value) => r matches Ok(ws) && warning_texts(ws@) == unknown_keys(value, Section::Root, Seq::empty()),
            Err(message) => r matches Err(e) && e@ == message,
        },
{
    match crate::yaml::parse_yaml(text) {
        Ok(value) => Ok(configuration_warnings(&value)),
        Err(message) => Err(message),
    }
}

} // verus!
