//! Transports: the streamable HTTP session bookkeeping and the tower adapter.
use vstd::prelude::*;

pub mod http;
pub mod session;
pub mod sse_client;
pub mod tower_adapter;

verus! {


} // verus!
