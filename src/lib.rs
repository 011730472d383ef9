//! A minimal Arrow Flight service over one optional dataset path.
//!
//! The dispatcher answers every Flight RPC from its configuration alone:
//! the handlers are verified functions from plain request values to plain
//! response values, and the network side only moves those values over gRPC.
pub mod status;
pub mod flight;
pub mod server;
