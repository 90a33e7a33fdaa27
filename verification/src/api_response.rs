use vstd::prelude::*;

verus! {

/// HTTP status 200.
pub const STATUS_OK: u16 = 200;
/// HTTP status 400.
pub const STATUS_BAD_REQUEST: u16 = 400;
/// HTTP status 401.
pub const STATUS_UNAUTHORIZED: u16 = 401;
/// HTTP status 404.
pub const STATUS_NOT_FOUND: u16 = 404;
/// HTTP status 500.
pub const STATUS_INTERNAL_SERVER_ERROR: u16 = 500;

/// An HTTP status code as the server sends it: a number of three digits.
pub open spec fn is_status_code(code: u16) -> bool {
    100 <= code <= 999
}

/// The JSON envelope every endpoint answers with.
pub struct ApiResponse<T> {
    pub status: i16,
    pub message: String,
    pub data: Option<T>,
}

/// A reply: the HTTP status code and the envelope sent with it.
pub type Reply<T> = (u16, ApiResponse<T>);

impl<T> ApiResponse<T> {
    /// A success reply: HTTP 200, envelope status 200, the message and the data.
    pub fn ok(message: &str, data: T) -> (r: Reply<T>)
        ensures
            r.0 == STATUS_OK,
            r.1.status == 200,
            r.1.message@ == message@,
            r.1.data == Some(data),
    {
        (STATUS_OK, ApiResponse { status: 200, message: message.to_owned(), data: Some(data) })
    }

    /// A failure reply: the given HTTP status, envelope status 400 whatever
    /// that code is, the message and no data.
    pub fn error(code: u16, message: &str) -> (r: Reply<T>)
        requires
            is_status_code(code),
        ensures
            r.0 == code,
            r.1.status == 400,
            r.1.message@ == message@,
            r.1.data is None,
    {
        (code, ApiResponse { status: 400, message: message.to_owned(), data: None })
    }
}

} // verus!
