//! A single-host PDF rendering cluster, as pure decision logic.
//!
//! The crate holds the rules of a load-balancing broker, of the worker
//! processes it supervises and of the wire protocol between them. Sockets,
//! processes and the rendering engine are driven by the program around it:
//! every function here maps plain values to plain values, and says in its
//! contract which.

pub mod broker;
pub mod error;
pub mod fleet;
pub mod helpers;
pub mod json;
pub mod pdf;
pub mod protocol;
pub mod request;
pub mod router;
pub mod worker;
