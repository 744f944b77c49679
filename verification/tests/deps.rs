use oapi_codegen::deps::plain;
use oapi_codegen::deps::required_dependencies;
use oapi_codegen::deps::Dependency;

#[test]
fn toml_renders_short_and_table_forms() {
    assert_eq!(plain("http", "1").toml(), "http = \"1\"");
    assert_eq!(
        Dependency { name: "serde", version: "1", default_features: true, features: vec!["derive"] }.toml(),
        "serde = { version = \"1\", features = [\"derive\"] }"
    );
    assert_eq!(
        Dependency { name: "reqwest", version: "0.13", default_features: false, features: vec!["blocking", "json"] }
            .toml(),
        "reqwest = { version = \"0.13\", default-features = false, features = [\"blocking\", \"json\"] }"
    );
}

#[test]
fn cargo_add_renders_flags() {
    assert_eq!(plain("http", "1").cargo_add(), "cargo add http@1");
    assert_eq!(
        Dependency { name: "reqwest", version: "0.13", default_features: false, features: vec!["blocking", "json"] }
            .cargo_add(),
        "cargo add reqwest@0.13 --no-default-features --features blocking,json"
    );
}

#[test]
fn cargo_add_args_split_for_process_execution() {
    assert_eq!(plain("http", "1").cargo_add_args(), vec!["add", "http@1"]);
    assert_eq!(
        Dependency { name: "reqwest", version: "0.13", default_features: false, features: vec!["blocking", "json"] }
            .cargo_add_args(),
        vec!["add", "reqwest@0.13", "--no-default-features", "--features", "blocking,json"]
    );
}

#[test]
fn detects_server_stack_from_generated_paths() {
    let code = "axum::Json axum::extract::Multipart axum_extra::extract::Query http::StatusCode serde::Serialize serde_json::Value";
    let deps = required_dependencies(code);
    let names: Vec<&str> = deps.iter().map(|dep| return dep.name).collect();
    assert_eq!(names, vec!["serde", "serde_json", "http", "axum", "axum-extra"]);
    let axum = deps.iter().find(|dep| return dep.name == "axum").expect("axum present");
    assert_eq!(axum.features, vec!["multipart"]);
    let extra = deps.iter().find(|dep| return dep.name == "axum-extra").expect("axum-extra present");
    assert_eq!(extra.features, vec!["query"]);
}

#[test]
fn detects_client_stack_from_generated_paths() {
    let code = "reqwest::blocking::Client request.json(&body) percent_encoding::utf8 serde::Deserialize";
    let deps = required_dependencies(code);
    let reqwest = deps.iter().find(|dep| return dep.name == "reqwest").expect("reqwest present");
    assert!(!reqwest.default_features);
    assert_eq!(reqwest.features, vec!["blocking", "json"]);
    assert!(deps.iter().any(|dep| return dep.name == "percent-encoding"));
}

#[test]
fn axum_marker_does_not_match_axum_extra() {
    let deps = required_dependencies("axum_extra::extract::CookieJar");
    assert!(
        !deps.iter().any(|dep| return dep.name == "axum"),
        "`axum_extra::` must not be mistaken for the `axum` crate",
    );
    let extra = deps.iter().find(|dep| return dep.name == "axum-extra").expect("axum-extra present");
    assert_eq!(extra.features, vec!["cookie"]);
}

#[test]
fn no_dependencies_for_dependency_free_output() {
    assert!(required_dependencies("pub const SERVER_URL: &str = \"https://x\";").is_empty());
}

#[test]
fn a_plain_dependency_uses_default_features_and_no_feature_list() {
    let dep = plain("uuid", "1");
    assert_eq!(dep.name, "uuid");
    assert_eq!(dep.version, "1");
    assert!(dep.default_features);
    assert!(dep.features.is_empty());
}

#[test]
fn default_features_off_without_features_renders_the_flag_alone() {
    let dep = Dependency { name: "chrono", version: "0.4", default_features: false, features: vec![] };
    assert_eq!(dep.toml(), "chrono = { version = \"0.4\", default-features = false }");
    assert_eq!(dep.cargo_add(), "cargo add chrono@0.4 --no-default-features");
    assert_eq!(dep.cargo_add_args(), vec!["add", "chrono@0.4", "--no-default-features"]);
}
