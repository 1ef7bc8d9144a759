//! The capture session's lifecycle: at most one native capture handle per
//! session, a refused second start, and an idempotent stop. The native
//! calls that install and remove the hook are handed in as closures.

use vstd::prelude::*;

verus! {

/// Failures that `start` and `stop` report to the caller.
#[derive(Clone, Debug, PartialEq, Eq)]
pub enum SessionError {
    /// A start while a capture handle is held.
    AlreadyRunning,
    /// The native layer refused to install the hook of a session.
    StartFailed(String),
    /// The native layer refused to install the hook of a generic listener.
    ListenFailed(String),
    /// The native layer failed to remove the hook.
    StopFailed(String),
}

/// Relies on `format!` with two `{}` placeholders: a `&str` is written as
/// its characters, so the result is `a` followed by `b`.
#[verifier::external_body]
fn concat(a: &str, b: &str) -> (r: String)
    ensures
        r@ == a@ + b@,
{
    format!("{}{}", a, b)
}

/// The text that a caller shows for an error.
pub open spec fn error_text(e: SessionError) -> Seq<char> {
    match e {
        SessionError::AlreadyRunning => "Hook is already running"@,
        SessionError::StartFailed(m) => "Failed to start hook: "@ + m@,
        SessionError::ListenFailed(m) => "Failed to start listener: "@ + m@,
        SessionError::StopFailed(m) => "Failed to stop hook: "@ + m@,
    }
}

impl SessionError {
    /// The error's text: a fixed sentence, followed for native failures by
    /// the native layer's own message.
    pub fn message(&self) -> (r: String)
        ensures
            r@ == error_text(*self),
    {
        match self {
            SessionError::AlreadyRunning => "Hook is already running".to_owned(),
            SessionError::StartFailed(m) => concat("Failed to start hook: ", m.as_str()),
            SessionError::ListenFailed(m) => concat("Failed to start listener: ", m.as_str()),
            SessionError::StopFailed(m) => concat("Failed to stop hook: ", m.as_str()),
        }
    }
}

/// What a start answers before any native call, for a session that holds
/// `v`: refused while a handle is held.
pub open spec fn start_check<H>(v: Option<H>) -> Result<(), SessionError> {
    if v is Some {
        Err(SessionError::AlreadyRunning)
    } else {
        Ok(())
    }
}

/// What a start reports once the native layer answered `launched`.
pub open spec fn start_reply<H>(launched: Result<H, String>) -> Result<(), SessionError> {
    match launched {
        Ok(_) => Ok(()),
        Err(m) => Err(SessionError::StartFailed(m)),
    }
}

/// The handle a session holds once the native layer answered `launched`.
pub open spec fn held_after_start<H>(launched: Result<H, String>) -> Option<H> {
    match launched {
        Ok(h) => Some(h),
        Err(_) => None,
    }
}

/// What a stop reports once the native layer answered `native`.
pub open spec fn stop_reply(native: Result<(), String>) -> Result<(), SessionError> {
    match native {
        Ok(()) => Ok(()),
        Err(m) => Err(SessionError::StopFailed(m)),
    }
}

/// A capture session: the native handle while capture is active, nothing
/// while it is stopped. The caller keeps it behind a lock, so that the check
/// and the update inside `start` and `stop` form one critical section.
pub struct Session<H> {
    handle: Option<H>,
}

impl<H> View for Session<H> {
    type V = Option<H>;

    closed spec fn view(&self) -> Option<H> {
        self.handle
    }
}

impl<H> Session<H> {
    /// A stopped session.
    pub fn new() -> (r: Self)
        ensures
            r@ is None,
    {
        Session { handle: None }
    }

    /// A session whose capture the caller has already started.
    pub fn started(h: H) -> (r: Self)
        ensures
            r@ == Some(h),
    {
        Session { handle: Some(h) }
    }

    /// Whether a capture handle is held.
    pub fn is_running(&self) -> (r: bool)
        ensures
            r == self@ is Some,
    {
        self.handle.is_some()
    }

    /// Starts capture: refused while a handle is held, without calling
    /// `launch`; otherwise `launch` installs the native hook, and the session
    /// keeps the handle it returns or reports its refusal. Nothing is
    /// retried.
    pub fn start<F: FnOnce() -> Result<H, String>>(&mut self, launch: F) -> (r: Result<
        (),
        SessionError,
    >)
        requires
            launch.requires(()),
        ensures
            old(self)@ is Some ==> r == start_check(old(self)@) && final(self)@ == old(self)@,
            old(self)@ is None ==> exists|launched: Result<H, String>|
                #[trigger] launch.ensures((), launched) && final(self)@ == held_after_start(
                    launched,
                ) && r == start_reply(launched),
    {
        if self.handle.is_some() {
            return Err(SessionError::AlreadyRunning);
        }
        let launched = launch();
        match launched {
            Ok(h) => {
                self.handle = Some(h);
                Ok(())
            },
            Err(m) => Err(SessionError::StartFailed(m)),
        }
    }

    /// Stops capture: the session holds nothing afterwards, whatever the
    /// native layer answers. With no handle held this is a success and
    /// `halt` is not called; otherwise `halt` removes the native hook and its
    /// failure is reported, not retried.
    pub fn stop<G: FnOnce(H) -> Result<(), String>>(&mut self, halt: G) -> (r: Result<
        (),
        SessionError,
    >)
        requires
            forall|h: H| halt.requires((h,)),
        ensures
            final(self)@ is None,
            old(self)@ is None ==> r == Ok::<(), SessionError>(()),
            old(self)@ is Some ==> exists|native: Result<(), String>|
                #[trigger] halt.ensures((old(self)@->Some_0,), native) && r == stop_reply(native),
    {
        match self.handle.take() {
            None => Ok(()),
            Some(h) => match halt(h) {
                Ok(()) => Ok(()),
                Err(m) => Err(SessionError::StopFailed(m)),
            },
        }
    }
}

} // verus!
