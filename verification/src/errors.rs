use vstd::prelude::*;

verus! {

/// A gRPC-style status surfaced by the engine on a failed call: a numeric
/// code together with a human-readable message.
#[derive(Debug, Clone)]
pub struct RpcStatus {
    pub code: u32,
    pub message: String,
}

/// Connection-level failures raised while building channels and clients or
/// issuing the submit call. Transport problems carry the transport's own
/// detail text; call failures carry the status the engine answered with.
#[derive(Debug, Clone)]
pub enum BlockEngineConnectionError {
    TransportError(String),
    ClientError(RpcStatus),
}

pub type BlockEngineConnectionResult<T> = Result<T, BlockEngineConnectionError>;

/// Engine-reported reasons a bundle was not executed, plus the generic
/// internal-error bucket that an inconclusive confirmation collapses into.
#[derive(Debug, Clone, PartialEq, Eq)]
pub enum BundleRejectionError {
    /// The bundle lost the state (local) auction: the auction id and the
    /// simulated tip in lamports.
    StateAuctionBidRejected(String, u64),
    /// The bundle won its state auction but lost the global batch auction:
    /// the auction id and the simulated tip in lamports.
    WinningBatchBidRejected(String, u64),
    /// Simulating one transaction of the bundle failed: its signature and an
    /// optional diagnostic message.
    SimulationFailure(String, Option<String>),
    /// The engine reported an internal failure, or the coordinator could not
    /// confirm the bundle in time.
    InternalError(String),
}

} // verus!
