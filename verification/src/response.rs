//! The envelopes in which results go back to a caller.

use vstd::prelude::*;

verus! {

/// The outcome of a request: either the data that was asked for, or the
/// reason why there is none.
#[derive(Debug, PartialEq, Eq)]
pub struct ApiResponse<T> {
    pub success: bool,
    pub data: Option<T>,
    pub error: Option<String>,
}

impl<T> ApiResponse<T> {
    /// A response that carries `data`.
    pub fn success(data: T) -> (response: Self)
        ensures
            response.success,
            response.data == Some(data),
            response.error is None,
    {
        ApiResponse { success: true, data: Some(data), error: None }
    }

    /// A response that carries no data, only the reason `message`.
    pub fn error(message: String) -> (response: ApiResponse<()>)
        ensures
            !response.success,
            response.data is None,
            response.error == Some(message),
    {
        ApiResponse { success: false, data: None, error: Some(message) }
    }
}

/// What a caller is told after a command to the relay.
#[derive(Debug, PartialEq, Eq)]
pub struct BroadcastResponse {
    pub success: bool,
    pub message: String,
}

impl BroadcastResponse {
    /// The report that a command was carried out, in the words of `message`.
    pub fn done(message: &str) -> (response: Self)
        ensures
            response.success,
            response.message@ == message@,
    {
        BroadcastResponse { success: true, message: message.to_string() }
    }
}

} // verus!
