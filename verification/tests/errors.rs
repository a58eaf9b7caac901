use desktop_shortcut::outcome::{conclude, WriteOutcome};
use desktop_shortcut::GenerationError;

#[test]
fn message_of_missing_executable() {
    assert_eq!(
        GenerationError::ExecutableNotFound("/does/not/exist".to_string()).message(),
        "Executable /does/not/exist doesn't exists"
    );
}

#[test]
fn message_of_missing_icon() {
    assert_eq!(
        GenerationError::IconNotFound("/no/icon.png".to_string()).message(),
        "Icon /no/icon.png doesn't exists"
    );
}

#[test]
fn message_of_empty_name() {
    assert_eq!(GenerationError::NameEmpty.message(), "Name is empty");
}

#[test]
fn message_of_denied_permission_hints_at_privilege() {
    assert_eq!(
        GenerationError::PermissionDenied("/usr/share/applications/A.desktop".to_string()).message(),
        "/usr/share/applications/A.desktop couldn't be created due to missing privilidge -> try running with 'sudo'"
    );
}

#[test]
fn message_of_failed_write_shows_the_cause() {
    assert_eq!(
        GenerationError::WriteFailed("/tmp/A.desktop".to_string(), "No space left on device".to_string())
            .message(),
        "Failed to write to /tmp/A.desktop: No space left on device"
    );
}

#[test]
fn messages_of_empty_texts() {
    assert_eq!(
        GenerationError::ExecutableNotFound(String::new()).message(),
        "Executable  doesn't exists"
    );
    assert_eq!(
        GenerationError::WriteFailed(String::new(), String::new()).message(),
        "Failed to write to : "
    );
}

#[test]
fn written_descriptor_is_success() {
    assert_eq!(conclude("/tmp/test/MyApp.desktop", WriteOutcome::Written), Ok(()));
}

#[test]
fn denied_creation_is_permission_denied() {
    assert_eq!(
        conclude("/usr/share/applications/MyApp.desktop", WriteOutcome::CreateDenied),
        Err(GenerationError::PermissionDenied("/usr/share/applications/MyApp.desktop".to_string()))
    );
}

#[test]
fn other_failed_creation_is_write_failed() {
    assert_eq!(
        conclude("/no/such/dir/MyApp.desktop", WriteOutcome::CreateFailed("No such file or directory".to_string())),
        Err(GenerationError::WriteFailed(
            "/no/such/dir/MyApp.desktop".to_string(),
            "No such file or directory".to_string()
        ))
    );
}

#[test]
fn failed_write_after_creation_is_write_failed() {
    assert_eq!(
        conclude("/tmp/MyApp.desktop", WriteOutcome::WriteFailed("No space left on device".to_string())),
        Err(GenerationError::WriteFailed(
            "/tmp/MyApp.desktop".to_string(),
            "No space left on device".to_string()
        ))
    );
}
