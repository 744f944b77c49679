use oapi_codegen::error::Error;
use oapi_codegen::error::IoErrorKind;
use oapi_codegen::error::IoFailure;

#[test]
fn read_and_parse_failures_carry_their_cause() {
    let read = Error::ReadSpec {
        path: "spec.yaml".to_owned(),
        source: IoFailure { kind: IoErrorKind::NotFound, message: "No such file or directory".to_owned() },
    };
    assert_eq!(read.source().as_deref(), Some("No such file or directory"));
    let parse = Error::ParseConfig { path: "c.yaml".to_owned(), source: "expected a mapping".to_owned() };
    assert_eq!(parse.source().as_deref(), Some("expected a mapping"));
}

#[test]
fn problems_themselves_carry_no_cause() {
    assert!(Error::Unimplemented("embedded-spec".to_owned()).source().is_none());
    let validation = Error::Validation { problems: vec![Error::Unimplemented("x".to_owned())] };
    assert!(validation.source().is_none());
    assert!(Error::UnresolvedRef("#/components/schemas/Nope".to_owned()).source().is_none());
}
