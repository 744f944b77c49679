use oapi_codegen::drift_for;
use oapi_codegen::error::Error;
use oapi_codegen::error::IoErrorKind;
use oapi_codegen::error::IoFailure;
use oapi_codegen::Drift;

fn failure(kind: IoErrorKind) -> IoFailure {
    return IoFailure { kind, message: "the operating system's message".to_owned() };
}

#[test]
fn check_output_reports_an_absent_file_as_drift() {
    let drift = drift_for("out.rs", Err(failure(IoErrorKind::NotFound)), "pub struct Widget;\n")
        .expect("check an absent file");
    assert_eq!(drift, Drift::Absent);
}

#[test]
fn check_output_reports_equal_content_as_no_drift() {
    let code = "pub struct Widget;\n";
    let drift = drift_for("out.rs", Ok(code.as_bytes().to_vec()), code).expect("check an equal file");
    assert_eq!(drift, Drift::UpToDate);
}

#[test]
fn check_output_reports_different_content_as_drift() {
    let drift = drift_for("out.rs", Ok(b"pub struct Widget;\n".to_vec()), "pub struct Gadget;\n")
        .expect("check a stale file");
    assert_eq!(drift, Drift::Differs);
}

#[test]
fn check_output_compares_exactly() {
    let drift = drift_for("out.rs", Ok(b"pub struct Widget;".to_vec()), "pub struct Widget;\n")
        .expect("check a file with no trailing newline");
    assert_eq!(drift, Drift::Differs);
}

#[test]
fn check_output_reports_content_that_is_not_utf8_as_drift() {
    let drift = drift_for("out.rs", Ok(vec![0xFF_u8, 0xFE_u8]), "pub struct Widget;\n")
        .expect("check a file that is not UTF-8");
    assert_eq!(drift, Drift::Differs);
}

#[test]
fn check_output_fails_on_a_path_it_cannot_read() {
    let error = drift_for("out.rs", Err(failure(IoErrorKind::Other)), "pub struct Widget;\n")
        .expect_err("a directory is not readable as a file");
    assert!(matches!(error, Error::ReadOutput { .. }), "expected `ReadOutput`, got {error:?}");
}

#[test]
fn a_read_failure_names_the_path_and_keeps_its_cause() {
    match drift_for("gen/out.rs", Err(failure(IoErrorKind::PermissionDenied)), "") {
        Err(Error::ReadOutput { path, source }) => {
            assert_eq!(path, "gen/out.rs");
            assert_eq!(source.kind, IoErrorKind::PermissionDenied);
        },
        other => panic!("expected ReadOutput, got {other:?}"),
    }
}

#[test]
fn an_empty_file_matches_empty_code_only() {
    assert_eq!(drift_for("out.rs", Ok(Vec::new()), "").expect("equal"), Drift::UpToDate);
    assert_eq!(drift_for("out.rs", Ok(Vec::new()), "x").expect("differs"), Drift::Differs);
}
