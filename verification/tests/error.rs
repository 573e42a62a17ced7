use queryer::error::{ErrorKind, QueryError};
use queryer::expression::Rejection;
use queryer::loader::Format;

#[test]
fn each_failure_has_its_kind() {
    assert_eq!(QueryError::Syntax("x".to_string()).kind(), ErrorKind::Syntax);
    assert_eq!(QueryError::StatementCount(0).kind(), ErrorKind::Syntax);
    assert_eq!(QueryError::Unsupported(Rejection::Join).kind(), ErrorKind::UnsupportedQuery);
    assert_eq!(
        QueryError::Retrieval { source: "s".to_string(), reason: "r".to_string() }.kind(),
        ErrorKind::Retrieval
    );
    assert_eq!(QueryError::UnknownFormat.kind(), ErrorKind::Format);
    assert_eq!(
        QueryError::Malformed { format: Format::Csv, reason: "r".to_string() }.kind(),
        ErrorKind::Format
    );
    assert_eq!(QueryError::Execution("x".to_string()).kind(), ErrorKind::Execution);
    assert_ne!(ErrorKind::Retrieval, ErrorKind::Format);
}
