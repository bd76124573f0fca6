use vstd::prelude::*;
use crate::errors::BundleRejectionError;

verus! {

/// The engine's stated reason for rejecting a bundle, as carried by a
/// `Rejected` result event.
#[derive(Debug, Clone)]
#[allow(inconsistent_fields)]
pub enum RejectionReason {
    /// The bundle lost the state (local) auction.
    StateAuctionBidRejected { auction_id: String, simulated_bid_lamports: u64, msg: Option<String> },
    /// The bundle won its state auction but lost the global batch auction.
    WinningBatchBidRejected { auction_id: String, simulated_bid_lamports: u64, msg: Option<String> },
    /// Simulating one transaction of the bundle failed.
    SimulationFailure { tx_signature: String, msg: Option<String> },
    /// The engine reported an internal failure.
    InternalError { msg: String },
}

/// One result event pushed by the engine's result stream.
#[derive(Debug, Clone)]
pub enum BundleResultEvent {
    /// A validator accepted the bundle at the given slot; informational only,
    /// waiting continues.
    Accepted { slot: u64, validator_identity: String },
    /// The engine rejected the bundle; `None` stands for a rejection event
    /// whose reason payload was empty, which is ignored.
    Rejected { reason: Option<RejectionReason> },
    /// An empty or unrecognized payload; ignored, waiting continues.
    Unrecognized,
}

/// The typed error a rejection reason resolves to: auction rejections keep
/// their auction id and simulated tip and drop the free-form message,
/// simulation failures keep the signature and the optional message, and
/// internal errors keep their message.
pub open spec fn spec_rejection_error(reason: RejectionReason) -> BundleRejectionError {
    match reason {
        RejectionReason::StateAuctionBidRejected { auction_id, simulated_bid_lamports, .. } =>
            BundleRejectionError::StateAuctionBidRejected(auction_id, simulated_bid_lamports),
        RejectionReason::WinningBatchBidRejected { auction_id, simulated_bid_lamports, .. } =>
            BundleRejectionError::WinningBatchBidRejected(auction_id, simulated_bid_lamports),
        RejectionReason::SimulationFailure { tx_signature, msg } =>
            BundleRejectionError::SimulationFailure(tx_signature, msg),
        RejectionReason::InternalError { msg } =>
            BundleRejectionError::InternalError(msg),
    }
}

/// Maps an engine-reported rejection reason to the matching typed error.
pub fn rejection_error(reason: RejectionReason) -> (r: BundleRejectionError)
    ensures
        r == spec_rejection_error(reason),
{
    match reason {
        RejectionReason::StateAuctionBidRejected { auction_id, simulated_bid_lamports, .. } =>
            BundleRejectionError::StateAuctionBidRejected(auction_id, simulated_bid_lamports),
        RejectionReason::WinningBatchBidRejected { auction_id, simulated_bid_lamports, .. } =>
            BundleRejectionError::WinningBatchBidRejected(auction_id, simulated_bid_lamports),
        RejectionReason::SimulationFailure { tx_signature, msg } =>
            BundleRejectionError::SimulationFailure(tx_signature, msg),
        RejectionReason::InternalError { msg } =>
            BundleRejectionError::InternalError(msg),
    }
}

} // verus!
