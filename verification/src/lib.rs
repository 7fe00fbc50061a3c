//! A JSON-RPC 2.0 request-processing engine.
//!
//! Given the text of a single request object or of a batch array, the
//! engine validates the envelope, hands the validated request to a
//! registered handler, and renders a correctly shaped response text, or no
//! text at all for notifications. The validation, dispatch and composition
//! rules are stated as specification functions and the engine is verified
//! against them; only the JSON text parser and encoder are trusted.

pub mod errors;
pub mod json;
pub mod laws;
pub mod response;
pub mod server;
pub mod wire;

pub use errors::ErrorCode;
pub use errors::ErrorJsonRpc;
pub use json::JsonValue;
pub use response::JsonRpcRequest;
pub use response::JsonRpcResponse;
pub use server::EmptyRegistry;
pub use server::Handler;
pub use server::JsonRpcServer;
