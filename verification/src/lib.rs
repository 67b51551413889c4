//! A verified request pipeline for a single-schema GraphQL gateway.
//!
//! A request passes through the pipeline in steps, none of which does I/O:
//!
//! - [`operation`] decodes the body of a POST request or the parameters of a
//!   GET request into one [`operation::Operation`], or finds the request
//!   malformed;
//! - [`handlers`] decides what follows: the operation goes to the engine, or
//!   the request is answered at once;
//! - [`resolver`] is the discipline by which a resolver borrows a connection
//!   from the shared pool and gives it back;
//! - [`execution`] takes what the engine hands back and makes the result of
//!   it;
//! - [`response`] writes the result as the reply that goes back over HTTP.
//!
//! The engine itself, the pool and the transport stand outside: whoever
//! embeds the pipeline reads the request, runs the engine where a step says
//! so, and sends the reply. [`json`] is where the pipeline meets JSON text.

pub mod execution;
pub mod handlers;
pub mod json;
pub mod operation;
pub mod resolver;
pub mod response;
pub mod schemas;
