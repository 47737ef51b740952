//! The immutable transfer record that relayers consume.

use vstd::prelude::*;

verus! {

/// One published asset transfer. Relayers use the pair of destination chain
/// and deposit nonce as the unique key for replay protection on the
/// destination chain.
pub struct TransferRecord {
    /// The destination chain the asset is bridged to.
    pub dest_chain_id: Vec<u8>,
    /// The deposit nonce issued for this transfer.
    pub nonce: u32,
    /// The recipient on the destination chain.
    pub to: Vec<u8>,
    /// The asset being transferred.
    pub asset_id: Vec<u8>,
    /// Opaque data carried along for the relayers.
    pub metadata: Vec<u8>,
}

/// The mathematical shape of a transfer record.
#[verifier::ext_equal]
pub struct RecordView {
    pub dest_chain_id: Seq<u8>,
    pub nonce: u32,
    pub to: Seq<u8>,
    pub asset_id: Seq<u8>,
    pub metadata: Seq<u8>,
}

impl View for TransferRecord {
    type V = RecordView;

    open spec fn view(&self) -> RecordView {
        RecordView {
            dest_chain_id: self.dest_chain_id@,
            nonce: self.nonce,
            to: self.to@,
            asset_id: self.asset_id@,
            metadata: self.metadata@,
        }
    }
}

} // verus!
