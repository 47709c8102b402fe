//! Core of the LiteRT bindings: the status and error model, the typed
//! descriptions of models and buffers, and the protocols by which buffers
//! are created and accessed.
//!
//! The engine itself is reached through a C interface that only unsafe code
//! can call. This crate holds everything else: it decides which call is made
//! next and with which arguments, and it turns what the call handed back into
//! typed results. The caller performs each call and passes the answer in.

pub mod access;
pub mod bindings;
pub mod compiled_model;
pub mod environment;
pub mod error;
pub mod helper_funs;
pub mod model;
pub mod tensor_buffer;

pub use bindings::LiteRtStatus;
pub use compiled_model::CompiledModel;
pub use compiled_model::LiteRtHwAccelerator;
pub use compiled_model::Options;
pub use environment::Environment;
pub use environment::EnvironmentBuilder;
pub use error::Error;
pub use error::ErrorCause;
pub use model::Model;
pub use tensor_buffer::ElementType;
pub use tensor_buffer::TensorBuffer;
pub use tensor_buffer::TensorBufferRequirements;
pub use tensor_buffer::TensorBufferType;
