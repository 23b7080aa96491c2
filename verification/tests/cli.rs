use crabplay::cli::Args;
use crabplay::error::AppError;

#[test]
fn validate_accepts_known_formats() {
    let args = Args {
        dir: ".".to_string(),
        format: "json".to_string(),
        list: false,
    };
    assert!(args.validate().is_ok());
}

#[test]
fn validate_rejects_unknown_format() {
    let args = Args {
        dir: ".".to_string(),
        format: "xml".to_string(),
        list: false,
    };
    assert!(args.validate().is_err());
}

#[test]
fn check_reports_each_error() {
    let args = Args {
        dir: "/nonexistent/path/xyz".to_string(),
        format: "xml".to_string(),
        list: true,
    };
    match args.validate() {
        Err(AppError::Other(m)) => assert_eq!(m, "directory not found: '/nonexistent/path/xyz'"),
        _ => panic!("expected a missing directory"),
    }
    match args.check(true) {
        Err(AppError::Other(m)) => {
            assert_eq!(m, "unsupported format: 'xml' (expected 'text' or 'json')")
        }
        _ => panic!("expected an unsupported format"),
    }
    let text = Args {
        dir: ".".to_string(),
        format: "text".to_string(),
        list: false,
    };
    assert!(text.check(true).is_ok());
}
