//! Reading the newest block of an Ethereum node: the JSON-RPC request that asks
//! for it, and the text report of its header and latest transactions.

pub mod block;
pub mod printer;
pub mod report;
pub mod request;

pub use block::{Block, BlockData, Transaction};
pub use printer::render_block_data;
pub use report::{report, report_envelope, FetchError, Report};
pub use request::{block_by_number_request, decimal_text, BlockParams, RpcRequest};
