use vstd::prelude::*;

verus! {

/// One signed transaction of a bundle, as the protocol reads it: its
/// signatures — the first is the transaction's identity — and its wire
/// encoding, attached by the caller's codec before submission. This library
/// never signs and never encodes.
#[derive(Debug, Clone)]
pub struct SignedTransaction {
    pub signatures: Vec<String>,
    pub wire_bytes: Vec<u8>,
}

/// The encoded form of one transaction as transmitted to the engine.
#[derive(Debug, Clone)]
pub struct WirePacket {
    pub data: Vec<u8>,
}

/// The engine's acknowledgment that a submitted bundle entered the auction
/// pipeline: the server-assigned bundle identifier. Not a confirmation.
#[derive(Debug, Clone)]
pub struct BundleSubmissionResult {
    pub bundle_id: String,
}

/// A transaction is well-formed for submission when it carries at least one
/// signature, so that it has an identity.
pub open spec fn spec_has_identity(tx: SignedTransaction) -> bool {
    tx.signatures@.len() > 0
}

/// The identity of every transaction in the bundle, in bundle order: each
/// transaction's first signature, no additions, no omissions.
pub fn bundle_signatures(transactions: &Vec<SignedTransaction>) -> (r: Vec<String>)
    requires
        forall|i: int|
            0 <= i < transactions@.len() ==> spec_has_identity(#[trigger] transactions@[i]),
    ensures
        r@.len() == transactions@.len(),
        forall|i: int| 0 <= i < r@.len() ==> r@[i] == #[trigger] transactions@[i].signatures@[0],
{
    let mut r: Vec<String> = Vec::new();
    let mut i: usize = 0;
    while i < transactions.len()
        invariant
            i <= transactions@.len(),
            r@.len() == i,
            forall|j: int|
                0 <= j < transactions@.len() ==> spec_has_identity(#[trigger] transactions@[j]),
            forall|j: int| 0 <= j < i ==> r@[j] == #[trigger] transactions@[j].signatures@[0],
        decreases transactions@.len() - i,
    {
        let sig: &String = &transactions[i].signatures[0];
        r.push(sig.clone());
        i = i + 1;
    }
    r
}

/// The wire packets of a bundle, exactly one per transaction and in the same
/// order: packet `i` carries transaction `i`'s encoding, verbatim. The bundle
/// is submitted as a single call carrying all of them; nothing is split,
/// batched, reordered, added or dropped.
pub fn build_bundle_packets(transactions: Vec<SignedTransaction>) -> (r: Vec<WirePacket>)
    ensures
        r@.len() == transactions@.len(),
        forall|i: int| 0 <= i < r@.len() ==> r@[i].data == #[trigger] transactions@[i].wire_bytes,
{
    let ghost all = transactions@;
    let mut rest = transactions;
    let mut r: Vec<WirePacket> = Vec::new();
    while rest.len() > 0
        invariant
            r@.len() + rest@.len() == all.len(),
            forall|j: int| 0 <= j < r@.len() ==> r@[j].data == #[trigger] all[j].wire_bytes,
            forall|j: int|
                0 <= j < rest@.len() ==> #[trigger] rest@[j] == all[r@.len() + j],
        decreases rest@.len(),
    {
        let tx = rest.remove(0);
        r.push(WirePacket { data: tx.wire_bytes });
        proof {
            assert(rest@ =~= all.subrange(r@.len() as int, all.len() as int));
        }
    }
    r
}

} // verus!
