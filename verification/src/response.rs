use vstd::prelude::*;

verus! {

/// The uniform JSON envelope that every handler returns:
/// `{success, message, data, error_code, timestamp}`.
#[derive(Debug)]
pub struct StandardResponse<T> {
    pub success: bool,
    pub message: String,
    pub data: Option<T>,
    pub error_code: Option<String>,
    pub timestamp: String,
}

/// Relies on chrono's `Utc::now` and `DateTime::to_rfc3339` for the envelope
/// timestamp. The value depends on the clock, so nothing is assumed of it.
#[verifier::external_body]
fn now_rfc3339() -> String {
    chrono::Utc::now().to_rfc3339()
}

impl<T> StandardResponse<T> {
    /// A success envelope: `success` is true, `data` carries the payload and
    /// `error_code` is empty. A missing message defaults to a fixed phrase.
    pub fn ok(data: T, message: Option<String>) -> (r: Self)
        ensures
            r.success,
            r.data == Some(data),
            r.error_code is None,
            r.message@ == match message {
                Some(m) => m@,
                None => "Operation successful"@,
            },
    {
        let msg = match message {
            Some(m) => m,
            None => "Operation successful".to_owned(),
        };
        StandardResponse {
            success: true,
            message: msg,
            data: Some(data),
            error_code: None,
            timestamp: now_rfc3339(),
        }
    }

    /// An error envelope: `success` is false and `data` is empty.
    pub fn error(message: String, error_code: Option<String>) -> (r: Self)
        ensures
            !r.success,
            r.data is None,
            r.message == message,
            r.error_code == error_code,
    {
        StandardResponse {
            success: false,
            message,
            data: None,
            error_code,
            timestamp: now_rfc3339(),
        }
    }
}

} // verus!
