use oapi_codegen::diagnostic::pointer;
use oapi_codegen::diagnostic::Warning;

#[test]
fn pointer_escapes_literal_keys() {
    for (parent, key, expected) in [
        ("", "generate", "/generate"),
        ("/generate", "modles", "/generate/modles"),
        ("", "a~/b", "/a~0~1b"),
        ("/a~0~1b", "~1/", "/a~0~1b/~01~1"),
        ("", "", "/"),
    ] {
        assert_eq!(pointer(parent, key), expected);
    }
}

#[test]
fn a_warning_keeps_its_path_and_message() {
    let w = Warning::new("/info/x-thing", "an extension is ignored");
    assert_eq!(w.path, "/info/x-thing");
    assert_eq!(w.message, "an extension is ignored");
}
