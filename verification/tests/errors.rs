use core_providers::errors::{InstallError, InstallResultExt};

#[test]
fn ctx_names_the_failed_operation() {
    let failed: Result<u8, String> = Err("permission denied".to_string());
    match failed.ctx("extract zip") {
        Err(InstallError::IoFailure { operation, cause }) => {
            assert_eq!(operation, "extract zip");
            assert_eq!(cause, "permission denied");
        }
        _ => panic!("a failure must become an IoFailure"),
    }
}

#[test]
fn ctx_hands_a_success_on() {
    let fine: Result<u8, String> = Ok(7);
    assert!(matches!(fine.ctx("extract zip"), Ok(7)));
}

#[test]
fn io_failure_reads_as_operation_and_cause() {
    let error = InstallError::io("link mod directory", "file exists");
    assert_eq!(error.message(), "link mod directory failed: file exists");
}

#[test]
fn every_error_has_a_message() {
    assert_eq!(InstallError::MissingTarget.message(), "required game files are missing");
    assert_eq!(InstallError::MalformedArchive.message(), "archive gives the mod no name");
}

#[test]
fn clone_keeps_the_error() {
    let error = InstallError::io("inspect zip", "not a zip");
    assert_eq!(error.clone().message(), error.message());
    assert!(matches!(InstallError::MissingTarget.clone(), InstallError::MissingTarget));
    assert!(matches!(InstallError::MalformedArchive.clone(), InstallError::MalformedArchive));
}
