//! Retrieval-augmented question answering for a customer table.
//!
//! A request carries a free-text command. The customer's name is taken from
//! the first bracketed part of the command, the customer's address is looked
//! up in a key-value table, and the command together with that address is
//! sent to a language model whose streamed answer is collected into the reply.
//!
//! The network work (table query, model stream) is done by the caller, and
//! the caller names the model to invoke; this library builds the requests and
//! holds the decisions in between, each with its contract.
pub mod bedrock;
pub mod dynamo;
pub mod handler;
pub mod name;
pub mod stream;

pub use name::extract_name;
