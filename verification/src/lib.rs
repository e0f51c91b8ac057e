//! A verified core of the Model Context Protocol SDK: protocol data types,
//! message classification, request routing, session bookkeeping and the
//! decisions that drive servers and clients.
#![allow(unused_imports)]

use vstd::prelude::*;

pub mod text;
pub mod assoc;
pub mod handler;
pub mod json;
pub mod mcp_core;
pub mod mcp_client;
pub mod macros;
pub mod mcp_server;
pub mod model;
pub mod service;
pub mod transport;

verus! {

} // verus!
