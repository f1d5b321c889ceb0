//! Handle for an established live-feed connection.

use vstd::prelude::*;

verus! {

/// Witness that a live websocket feed has been set up and is delivering
/// messages into the dispatcher's channel. The connection itself is owned by
/// the runtime around the library; the engine never touches it, and engine
/// state survives any number of reconnects.
pub struct SolanaConnector;

} // verus!
