//! Generation of the argument-marshalling glue for a smart-contract entry
//! point: from a description of the entry point's argument list, build the
//! record type that receives the ordinary call input, the pattern that
//! unpacks it, the ordered call-site expression list, and the blocks that
//! read asynchronous sub-call results back into bindings.
//!
//! Every operation is a pure function of the signature description; the
//! fragments it returns are plain data plus an exact textual rendering.

pub mod model;
pub mod fragments;
pub mod generator;
pub mod render;
pub mod laws;
