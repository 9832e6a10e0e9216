use vstd::prelude::*;

verus! {

/// One transaction of a block, with every field kept as the node sent it.
pub struct Transaction {
    pub hash: String,
    pub from: String,
    /// Absent for a transaction that creates a contract.
    pub to: Option<String>,
    /// Amount in Wei, as a hex string.
    pub value: String,
    /// Gas limit, as a hex string.
    pub gas: String,
    /// Absent on fee-market transaction types.
    pub gas_price: Option<String>,
}

/// A block header and its transactions, in chain order.
pub struct Block {
    pub number: Option<String>,
    pub hash: Option<String>,
    pub parent_hash: Option<String>,
    /// Seconds since the epoch, as a hex string.
    pub timestamp: String,
    pub transactions: Vec<Transaction>,
}

/// The JSON-RPC response: `result` is absent when the node has no block for
/// the identifier that was asked for.
pub struct BlockData {
    pub result: Option<Block>,
}

} // verus!
