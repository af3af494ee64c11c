//! The envelope that tells success from failure.

use vstd::prelude::*;

verus! {

/// Either data, with `success` set, or a message, with `success` cleared.
#[derive(Debug)]
pub struct ApiResponse<T> {
    pub success: bool,
    pub data: Option<T>,
    pub message: Option<String>,
}

impl<T> ApiResponse<T> {
    /// The invariant of an envelope: exactly one of `data` and `message` is
    /// there, and `success` is cleared exactly when the message is.
    pub open spec fn wf(&self) -> bool {
        (self.data is Some) != (self.message is Some) && (self.success <==> self.message is None)
    }

    /// The envelope of a success.
    pub fn ok(data: T) -> (r: Self)
        ensures
            r.success,
            r.data == Some(data),
            r.message is None,
            r.wf(),
    {
        Self { success: true, data: Some(data), message: None }
    }

    /// The envelope of a failure. It carries no data, whatever `T` is.
    pub fn error(message: String) -> (r: ApiResponse<()>)
        ensures
            !r.success,
            r.data is None,
            r.message == Some(message),
            r.wf(),
    {
        ApiResponse { success: false, data: None, message: Some(message) }
    }
}

} // verus!
