use vstd::prelude::*;

pub mod config;
pub mod json;
pub mod numtext;
pub mod codec;
pub mod parse;
pub mod roundtrip;
pub mod docjson;
pub mod client;
pub mod docmcp;
pub mod docmodels;
pub mod docproviders;
pub mod commands;
pub mod wire;
pub mod shaping;
pub mod store;
pub mod supervisor;

verus! {

/// Uniform success/error envelope returned to the UI for every command.
pub struct ApiResponse<T> {
    pub success: bool,
    pub data: Option<T>,
    pub error: Option<String>,
}

impl<T> ApiResponse<T> {
    /// Wraps a value in a successful envelope.
    pub fn success(data: T) -> (r: ApiResponse<T>)
        ensures
            r.success,
            r.data == Some(data),
            r.error is None,
    {
        ApiResponse { success: true, data: Some(data), error: None }
    }

    /// Wraps a message in a failed envelope.
    pub fn error(message: &str) -> (r: ApiResponse<T>)
        ensures
            !r.success,
            r.data is None,
            r.error is Some,
            r.error->0@ == message@,
    {
        ApiResponse { success: false, data: None, error: Some(message.to_owned()) }
    }
}

} // verus!
