use content_errors::operation_result::{Cause, IoError, OperationResult, ParseError, PathError, Skip};

#[test]
fn parse_error_displays_template() {
    let e = ParseError::new("/posts/2021-01-01-foo", "missing title field");
    assert_eq!(
        e.display(),
        "Error at /posts/2021-01-01-foo. missing title field. Skipping."
    );
}

#[test]
fn parse_error_wrapped_displays_labelled_template() {
    let e = ParseError::new("/posts/2021-01-01-foo", "missing title field");
    let w = OperationResult::from(e);
    assert_eq!(
        w.display(),
        "Parse error: Error at /posts/2021-01-01-foo. missing title field. Skipping."
    );
}

#[test]
fn skip_displays_template() {
    let e = Skip::new("/posts/draft-post", "marked as draft");
    assert_eq!(e.display(), "Skipping /posts/draft-post. marked as draft");
}

#[test]
fn skip_wrapped_displays_labelled_template() {
    let e = Skip::new("/posts/draft-post", "marked as draft");
    let w = OperationResult::from(e);
    assert_eq!(
        w.display(),
        "Skipped: Skipping /posts/draft-post. marked as draft"
    );
}

#[test]
fn path_error_displays_template() {
    let e = PathError::new("/posts/???", "could not derive slug");
    assert_eq!(e.display(), "Skipping /posts/???. could not derive slug");
}

#[test]
fn path_error_wrapped_displays_historical_label() {
    let e = PathError::new("/posts/???", "could not derive slug");
    let w = OperationResult::from(e);
    assert_eq!(
        w.display(),
        "Path manipulaiton error: Skipping /posts/???. could not derive slug"
    );
}

#[test]
fn io_error_displays_native_message() {
    let e = IoError::new("permission denied");
    assert_eq!(e.display(), "permission denied");
}

#[test]
fn io_error_wrapped_displays_labelled_message() {
    let e = IoError::new("permission denied");
    let w = OperationResult::from(e);
    assert_eq!(w.display(), "IO error: permission denied");
}

#[test]
fn empty_directory_and_reason_substitute_verbatim() {
    assert_eq!(ParseError::new("", "").display(), "Error at . . Skipping.");
    assert_eq!(Skip::new("", "").display(), "Skipping . ");
    assert_eq!(PathError::new("", "").display(), "Skipping . ");
    assert_eq!(IoError::new("").display(), "");
}

#[test]
fn descriptions_return_reason_verbatim() {
    assert_eq!(
        ParseError::new("/d", "bad frontmatter").description(),
        "bad frontmatter"
    );
    assert_eq!(Skip::new("/d", "draft").description(), "draft");
    assert_eq!(PathError::new("/d", "no stem").description(), "no stem");
}

#[test]
fn skip_source_is_empty() {
    let e = Skip::new("/posts/draft-post", "marked as draft");
    assert!(e.source().is_none());
    let w = OperationResult::from(Skip::new("/posts/draft-post", "marked as draft"));
    assert!(w.source().is_none());
}

#[test]
fn path_error_source_is_empty() {
    let e = PathError::new("/posts/???", "could not derive slug");
    assert!(e.source().is_none());
    let w = OperationResult::from(PathError::new("/posts/???", "could not derive slug"));
    assert!(w.source().is_none());
}

#[test]
fn io_wrapper_source_is_empty_without_native_chain() {
    let w = OperationResult::from(IoError::new("permission denied"));
    assert!(w.source().is_none());
}

#[test]
fn io_wrapper_source_follows_native_chain() {
    let native_cause = Cause::new("disk offline");
    let w = OperationResult::from(IoError::with_source("read failed", native_cause));
    let got = w.source().expect("the native error chains a cause");
    assert_eq!(got.message, "disk offline");
}

#[test]
fn parse_error_without_cause_has_empty_source() {
    let e = ParseError::new("/posts/a", "bad frontmatter");
    assert!(e.source().is_none());
    let w = OperationResult::from(ParseError::new("/posts/a", "bad frontmatter"));
    assert!(w.source().is_none());
}

#[test]
fn parse_error_source_skips_immediate_cause() {
    let e = ParseError::with_cause("/posts/a", "bad frontmatter", Cause::new("eof"));
    assert!(e.source().is_none());

    let chained = Cause::chained("decode failed", Cause::new("eof"));
    let e = ParseError::with_cause("/posts/a", "bad frontmatter", chained);
    let got = e.source().expect("the cause chains one level further");
    assert_eq!(got.message, "eof");
}

#[test]
fn cause_source_is_next_link() {
    let terminal = Cause::new("eof");
    assert!(terminal.source().is_none());
    let chained = Cause::chained("decode failed", Cause::new("eof"));
    assert_eq!(chained.source().expect("chained").message, "eof");
}

#[test]
fn io_conversion_round_trips() {
    let w = OperationResult::from(IoError::new("permission denied"));
    match w {
        OperationResult::Io(back) => {
            assert_eq!(back.message, "permission denied");
            assert!(back.source.is_none());
        }
        _ => panic!("an I/O failure must convert to the Io tag"),
    }
}

#[test]
fn parse_conversion_round_trips() {
    let w = OperationResult::from(ParseError::new("/posts/a", "missing title field"));
    match w {
        OperationResult::Parse(back) => {
            assert_eq!(back.directory, "/posts/a");
            assert_eq!(back.info, "missing title field");
            assert!(back.error.is_none());
        }
        _ => panic!("a parse failure must convert to the Parse tag"),
    }
}

#[test]
fn skip_conversion_round_trips() {
    let original = Skip::new("/posts/draft-post", "marked as draft");
    let w = OperationResult::from(Skip::new("/posts/draft-post", "marked as draft"));
    match w {
        OperationResult::Skip(back) => assert_eq!(back, original),
        _ => panic!("a skip decision must convert to the Skip tag"),
    }
}

#[test]
fn path_conversion_round_trips() {
    let original = PathError::new("/posts/???", "could not derive slug");
    let w = OperationResult::from(PathError::new("/posts/???", "could not derive slug"));
    match w {
        OperationResult::Path(back) => assert_eq!(back, original),
        _ => panic!("a path failure must convert to the Path tag"),
    }
}

#[test]
fn skip_equality_follows_fields() {
    let a = Skip::new("/posts/draft-post", "marked as draft");
    let b = Skip::new("/posts/draft-post", "marked as draft");
    let c = Skip::new("/posts/draft-post", "unsupported format");
    assert_eq!(a, b);
    assert_ne!(a, c);
}

#[test]
fn path_error_equality_follows_fields() {
    let a = PathError::new("/posts/x", "no stem");
    let b = PathError::new("/posts/x", "no stem");
    let c = PathError::new("/posts/y", "no stem");
    assert_eq!(a, b);
    assert_ne!(a, c);
}
