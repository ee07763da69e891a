//! # Armature Azure Functions
//!
//! The verified core of a runtime adapter for Azure Functions custom handlers.
//!
//! The adapter turns each HTTP trigger invocation into a [`FunctionRequest`] and the
//! handler's [`FunctionResponse`] back out. This crate holds what the adapter decides and
//! computes: how a request is read, when it is refused and with what answer, what the handler
//! gets to see, by when it has to be done, and how its response is put on the wire. Reading
//! sockets, waiting and running handlers is left to the program around it, which asks
//! [`AzureFunctionsRuntime`] what to do next and reports what came of it.
//!
//! ## How an invocation runs
//!
//! 1. [`AzureFunctionsRuntime::handle_http_request`] takes the head of a request. It either
//!    answers at once or asks for the body, with a limit and a deadline.
//! 2. [`AzureFunctionsRuntime::receive_body`] takes what came of reading the body. It either
//!    answers or asks for the handler to be run, against the same deadline.
//! 3. [`AzureFunctionsRuntime::conclude`] takes what came of running the handler and gives the
//!    response.
//! 4. [`WireResponse::from_response`] turns the response into what is sent.
//!
//! Headers and query parameters are lists of pairs rather than maps throughout, so repeated
//! names survive in wire order.

pub mod body_serde;
pub mod config;
pub mod environment;
pub mod error;
pub mod fields;
pub mod json;
pub mod laws;
pub mod number;
pub mod payload;
pub mod protocol;
pub mod query;
pub mod request;
pub mod response;
pub mod runtime;
pub mod text;
pub mod text_map;
pub mod wire;

pub use config::FunctionConfig;
pub use environment::{
    custom_handler_port, function_app_name, function_name, invocation_id, is_azure_functions,
};
pub use error::AzureFunctionsError;
pub use query::parse_query;
pub use request::{FunctionRequest, RequestContext, RetryContext, TraceContext};
pub use response::{ApplicationReply, FunctionResponse};
pub use runtime::{AzureFunctionsRuntime, RuntimeConfig};
pub use text_map::TextMap;
pub use wire::{RequestHead, WireResponse};
