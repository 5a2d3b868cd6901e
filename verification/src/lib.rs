//! The decision core of a forward HTTP proxy.
//!
//! The crate holds what a proxy decides, and none of what it sends or
//! receives: how the listening address is chosen from the command line, the
//! environment and a configuration file, which address a name lookup yields,
//! and what happens, step by step, to a request that arrives on a connection.
//! A driver performs the input and output and feeds the results back in.

pub mod address;
pub mod config;
pub mod dispatcher;
pub mod port;
pub mod request;
pub mod yaml;
