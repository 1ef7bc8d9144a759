use input_hook::session::{Session, SessionError};

#[test]
fn second_stop_does_not_error() {
    let mut s = Session::started(1u32);
    let mut calls = 0;
    assert_eq!(s.stop(|_| { calls += 1; Err("native failure".to_string()) }),
        Err(SessionError::StopFailed("native failure".to_string())));
    assert!(!s.is_running());
    assert_eq!(s.stop(|_| { calls += 1; Err("never".to_string()) }), Ok(()));
    assert_eq!(calls, 1);
}

#[test]
fn stop_on_a_new_session_is_a_success() {
    let mut s: Session<u32> = Session::new();
    assert_eq!(s.stop(|_| Err("never".to_string())), Ok(()));
    assert_eq!(s.stop(|_| Err("never".to_string())), Ok(()));
}

#[test]
fn second_start_is_refused() {
    let mut s: Session<u32> = Session::new();
    let mut launches = 0;
    assert_eq!(s.start(|| { launches += 1; Ok(10) }), Ok(()));
    assert_eq!(s.start(|| { launches += 1; Ok(11) }), Err(SessionError::AlreadyRunning));
    assert_eq!(launches, 1);
    assert!(s.is_running());
    let mut stopped = Vec::new();
    assert_eq!(s.stop(|h| { stopped.push(h); Ok(()) }), Ok(()));
    assert_eq!(stopped, vec![10]);
}

#[test]
fn failed_start_leaves_the_session_stopped() {
    let mut s: Session<u32> = Session::new();
    assert_eq!(
        s.start(|| Err("no display".to_string())),
        Err(SessionError::StartFailed("no display".to_string()))
    );
    assert!(!s.is_running());
    assert_eq!(s.start(|| Ok(3)), Ok(()));
    assert!(s.is_running());
}

#[test]
fn error_messages() {
    assert_eq!(SessionError::AlreadyRunning.message(), "Hook is already running");
    assert_eq!(
        SessionError::StartFailed("x".to_string()).message(),
        "Failed to start hook: x"
    );
    assert_eq!(
        SessionError::ListenFailed("y z".to_string()).message(),
        "Failed to start listener: y z"
    );
    assert_eq!(
        SessionError::StopFailed("hook is not running".to_string()).message(),
        "Failed to stop hook: hook is not running"
    );
}
