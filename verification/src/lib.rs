//! A minimal JSON-RPC style engine: message shapes, wire codec, method
//! registry, dispatcher and server lifecycle, with their behaviour stated as
//! contracts and proved.

pub mod client;
pub mod codec;
pub mod dispatch;
pub mod json;
pub mod lifecycle;
pub mod message;
pub mod registry;
pub mod server;

pub use client::{call_text, read_reply, CallError};
pub use codec::{decode_request, decode_response, encode_request, encode_response};
pub use dispatch::{answer, handle_message, route, serve, Route};
pub use lifecycle::{Action, Event, Phase};
pub use message::{Request, Response, RpcError, INTERNAL_ERROR, INVALID_REQUEST, METHOD_NOT_FOUND};
pub use registry::Registry;
pub use server::{Server, StartError, IO_TIMEOUT_SECONDS, WORKER_THREADS};
