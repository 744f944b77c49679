use oapi_codegen::cli::enables_artifact;
use oapi_codegen::cli::output_destination;
use oapi_codegen::config::configuration_text_warnings;
use oapi_codegen::config::Generate;
use oapi_codegen::config::Config;
use oapi_codegen::config::DEFAULT_RESPONSE_SUFFIX;
use oapi_codegen::config::OUTPUT_OPTIONS_KEY;
use oapi_codegen::config::RESPONSE_TYPE_SUFFIX_KEY;
use oapi_codegen::config::TYPE_NAME_SUFFIX_KEY;
use oapi_codegen::diagnostic::Warning;
use oapi_codegen::naming::to_ident;
use oapi_codegen::naming::Case;

fn warnings(yaml: &str) -> Vec<Warning> {
    return configuration_text_warnings(yaml).expect("the text is YAML");
}

#[test]
fn unknown_configuration_keys_warn() {
    for (yaml, paths) in [
        ("packge: demo", vec!["/packge"]),
        ("generate: {modles: true}", vec!["/generate/modles"]),
        ("output-options: {skip-prun: true}", vec!["/output-options/skip-prun"]),
        ("a~/b: secret", vec!["/a~0~1b"]),
        ("generate: {'~1/': true}", vec!["/generate/~01~1"]),
        (
            "packge: demo\ngenerate: {modles: true}\noutput-options: {skip-prun: true}",
            vec!["/packge", "/generate/modles", "/output-options/skip-prun"],
        ),
    ] {
        let expected: Vec<Warning> = paths
            .into_iter()
            .map(|path| return Warning::new(path, "unknown configuration key is ignored"))
            .collect();
        assert_eq!(warnings(yaml), expected, "{yaml}");
    }
}

#[test]
fn known_configuration_keys_do_not_warn() {
    for yaml in [
        "{}",
        "package: demo\noutput: generated.rs",
        "generate: {models: true, std-http-server: true, client: true, embedded-spec: false, server-urls: true}",
        "import-mapping: {'./other.yaml': other, 'a~/b': module}",
        "output-options: {include-tags: [pets], response-type-suffix: Resp, type-name-suffix: Alt}",
    ] {
        assert!(warnings(yaml).is_empty(), "{yaml}");
    }
}

#[test]
fn invalid_configuration_values_remain_deserialization_errors() {
    for yaml in ["null", "generate: null", "output-options: null", "import-mapping: null"] {
        assert!(warnings(yaml).is_empty(), "{yaml}");
    }
    for yaml in [
        "false",
        "[]",
        "generate: wrong",
        "generate: {models: wrong}",
        "output-options: []",
        "output-options: {include-tags: false}",
        "import-mapping: {other: []}",
    ] {
        assert!(warnings(yaml).is_empty(), "{yaml}");
    }
    assert_eq!(
        warnings("generate: {modles: true, models: wrong}"),
        vec![Warning::new("/generate/modles", "unknown configuration key is ignored")]
    );
}

#[test]
fn default_response_suffix_pascalizes_to_response() {
    assert_eq!(to_ident(DEFAULT_RESPONSE_SUFFIX, Case::Pascal).logical(), "Response");
}

#[test]
fn config_section_keys_are_known_keys() {
    let yaml = format!("{OUTPUT_OPTIONS_KEY}:\n  {RESPONSE_TYPE_SUFFIX_KEY}: Resp\n  {TYPE_NAME_SUFFIX_KEY}: Alt\n");
    assert!(warnings(&yaml).is_empty());
}

#[test]
fn a_default_config_requests_nothing_and_sets_no_suffix() {
    let config = Config::default();
    assert!(config.package.is_none());
    assert!(config.output.is_none());
    assert!(!config.generate.models && !config.generate.client && !config.generate.std_http_server);
    assert_eq!(config.output_options.type_name_suffix, None);
    assert_eq!(config.output_options.response_type_suffix, None);
    assert!(config.import_mapping.is_empty());
}

#[test]
fn text_that_is_not_yaml_reports_the_parser_message() {
    let result = configuration_text_warnings("generate: [unclosed");
    assert!(result.is_err());
    assert!(!result.unwrap_err().is_empty());
}

#[test]
fn a_tagged_key_reads_as_unknown() {
    assert_eq!(
        warnings("{!custom package: demo}"),
        vec![Warning::new("/package", "unknown configuration key is ignored")]
    );
}

#[test]
fn a_run_needs_an_artifact_and_the_flag_overrides_the_configured_output() {
    let mut generate = Generate::default();
    assert!(!enables_artifact(&generate));
    generate.server_urls = true;
    assert!(enables_artifact(&generate));
    assert_eq!(output_destination(Some("cli.rs".to_owned()), Some("config.rs".to_owned())), Some("cli.rs".to_owned()));
    assert_eq!(output_destination(None, Some("config.rs".to_owned())), Some("config.rs".to_owned()));
    assert_eq!(output_destination(None, None), None);
}
