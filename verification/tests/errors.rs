use ghostgit::errors::{describe_lock_error, is_transient_lock_error, network_failure_text, ErrClass, ErrCode, GitError};
use ghostgit::retry::{is_sharing_violation, RetryLoop, LOCK_RETRY_ATTEMPTS};

fn class_of(c: git2::ErrorClass) -> ErrClass {
    match c {
        git2::ErrorClass::None => ErrClass::Unclassified,
        git2::ErrorClass::Os => ErrClass::Os,
        git2::ErrorClass::Reference => ErrClass::Reference,
        git2::ErrorClass::Net => ErrClass::Net,
        other => panic!("class {other:?} is not used here"),
    }
}

fn code_of(c: git2::ErrorCode) -> ErrCode {
    match c {
        git2::ErrorCode::GenericError => ErrCode::GenericError,
        git2::ErrorCode::NotFound => ErrCode::NotFound,
        git2::ErrorCode::Locked => ErrCode::Locked,
        other => panic!("code {other:?} is not used here"),
    }
}

/// A git2 error as the library holds it.
fn from_git2(e: &git2::Error) -> GitError {
    GitError {
        class: class_of(e.class()),
        code: code_of(e.code()),
        class_name: format!("{:?}", e.class()),
        message: e.message().to_string(),
        text: e.to_string(),
    }
}

fn lock_error(message: &str) -> GitError {
    from_git2(&git2::Error::new(git2::ErrorCode::GenericError, git2::ErrorClass::Os, message))
}

fn not_found(message: &str) -> GitError {
    from_git2(&git2::Error::new(git2::ErrorCode::NotFound, git2::ErrorClass::Reference, message))
}

#[test]
fn error_text_is_git2_display() {
    let e = git2::Error::new(git2::ErrorCode::NotFound, git2::ErrorClass::Reference, "not found");
    assert_eq!(from_git2(&e).text(), "not found; class=Reference (4); code=NotFound (-3)");
    let plain = git2::Error::from_str("plain failure");
    assert_eq!(from_git2(&plain).text(), plain.to_string());
}

#[test]
fn lock_errors_are_recognised() {
    assert!(is_transient_lock_error(&lock_error("sharing violation")));
    assert!(!is_transient_lock_error(&not_found("not found")));
    let other_os = from_git2(&git2::Error::new(git2::ErrorCode::Locked, git2::ErrorClass::Os, "x"));
    assert!(!is_transient_lock_error(&other_os));
}

#[test]
fn describe_lock_error_is_friendly_for_locks_only() {
    assert_eq!(
        describe_lock_error("a.txt", &lock_error("sharing violation")),
        "'a.txt' is locked by another program — close it and try again"
    );
    assert_eq!(
        describe_lock_error("a.txt", &not_found("not found")),
        "not found; class=Reference (4); code=NotFound (-3)"
    );
}

#[test]
fn network_failure_names_class_and_message() {
    assert_eq!(network_failure_text("Push", &not_found("gone")), "Push failed (Reference): gone");
    let net = from_git2(&git2::Error::new(git2::ErrorCode::GenericError, git2::ErrorClass::Net, "timed out"));
    assert_eq!(network_failure_text("Fetch", &net), "Fetch failed (Net): timed out");
    let unc = from_git2(&git2::Error::from_str("x"));
    assert_eq!(network_failure_text("Clone", &unc), "Clone failed (None): x");
}

/// Runs a retry loop over `outcomes` (Ok, or Err with a git error) and
/// counts the tries, as the caller's loop does.
fn run(outcomes: &mut dyn FnMut(u32) -> Result<(), GitError>) -> (Result<(), GitError>, u32) {
    let mut lp = RetryLoop::new();
    let mut calls = 0;
    loop {
        calls += 1;
        match outcomes(calls) {
            Ok(()) => return (Ok(()), calls),
            Err(e) => {
                if !lp.failed_with(&e) {
                    return (Err(e), calls);
                }
            }
        }
    }
}

#[test]
fn retry_on_lock_recovers_from_transient_failure() {
    let (result, calls) = run(&mut |calls| {
        if calls < 3 {
            Err(lock_error("sharing violation"))
        } else {
            Ok(())
        }
    });
    assert!(result.is_ok());
    assert_eq!(calls, 3);
}

#[test]
fn retry_on_lock_gives_up_on_non_lock_errors() {
    let (result, calls) = run(&mut |_| Err(not_found("not found")));
    assert!(result.is_err());
    assert_eq!(calls, 1, "non-lock errors must not be retried");
}

#[test]
fn retry_gives_up_after_the_last_try() {
    let (result, calls) = run(&mut |calls| Err(lock_error(&format!("sharing violation, try {calls}"))));
    assert_eq!(calls, LOCK_RETRY_ATTEMPTS);
    assert_eq!(result.unwrap_err().message, "sharing violation, try 5");
}

#[test]
fn sharing_violation_is_os_error_32() {
    assert!(is_sharing_violation(Some(32)));
    assert!(!is_sharing_violation(Some(5)));
    assert!(!is_sharing_violation(None));
}

#[test]
fn retry_stops_at_first_success_or_other_error() {
    let (result, calls) = run(&mut |calls| if calls < 4 { Err(lock_error("sharing violation")) } else { Err(not_found("gone")) });
    assert!(result.is_err());
    assert_eq!(result.unwrap_err().message, "gone");
    assert_eq!(calls, 4);
    let (result, calls) = run(&mut |calls| if calls < 5 { Err(lock_error("sharing violation")) } else { Ok(()) });
    assert!(result.is_ok());
    assert_eq!(calls, 5);
}
