use vstd::prelude::*;

verus! {

/// Errors reported by the engine.
#[derive(Debug, Clone, PartialEq, Eq)]
pub enum MpvError {
    /// mpv could not allocate a client context.
    AllocationFailed,
    /// `mpv_initialize` reported a failure; the text says which status.
    InitializationFailed(String),
    /// An mpv call returned a negative status `code`, described by `message`.
    Internal { code: i32, message: String },
    /// An argument could not be handed to mpv as a C string.
    InvalidCString(String),
    /// A property could not be read or written.
    PropertyError(String),
    /// The engine's event channel is gone.
    ChannelDisconnected,
}

/// The message attached to a failed status: mpv's own description when it
/// gave one, `Unknown error` otherwise.
pub open spec fn error_message(text: Option<String>) -> Seq<char> {
    match text {
        Some(t) => t@,
        None => "Unknown error"@,
    }
}

impl MpvError {
    /// Maps an mpv status code to a result. Non-negative codes are success;
    /// a negative code becomes `Internal` with mpv's description of it
    /// (`text`, as `mpv_error_string` gives it; `None` where mpv gave none).
    pub fn from_code(code: i32, text: Option<String>) -> (result: Result<(), MpvError>)
        ensures
            result is Ok <==> code >= 0,
            code < 0 ==> (result matches Err(MpvError::Internal { code: c, message: m })
                && c == code && m@ == error_message(text)),
    {
        if code >= 0 {
            Ok(())
        } else {
            let message = match text {
                Some(t) => t,
                None => String::from_str("Unknown error"),
            };
            Err(MpvError::Internal { code, message })
        }
    }
}

} // verus!
