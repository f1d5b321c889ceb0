//! Handle for a configured historical-archive RPC setup.

use vstd::prelude::*;

verus! {

/// Witness that the historical-archive index files have been fetched and the
/// local RPC server over them has been launched. The downloads and the server
/// are run by the runtime around the library.
pub struct OldFaithfulSolanaConnector;

} // verus!
