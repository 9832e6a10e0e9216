use vstd::prelude::*;

use crate::block::BlockData;
use crate::printer::{block_lines, render_block_data, texts};

verus! {

/// Why a block could not be had: the request did not go through, or the answer
/// was not a JSON-RPC envelope of a block.
pub enum FetchError {
    Transport(String),
    Decode(String),
}

/// What the program writes: lines for standard output and for standard error.
pub struct Report {
    pub stdout: Vec<String>,
    pub stderr: Vec<String>,
}

/// The lines written for an envelope, to standard output and to standard error.
pub open spec fn envelope_output(data: BlockData) -> (Seq<Seq<char>>, Seq<Seq<char>>) {
    match data.result {
        Some(b) => (block_lines(b), Seq::empty()),
        None => (Seq::empty(), seq!["No block data found."@]),
    }
}

/// The report on an envelope: the block's report, or a single diagnostic on
/// standard error when the node had no block.
pub fn report_envelope(data: &BlockData) -> (r: Report)
    ensures
        (texts(r.stdout@), texts(r.stderr@)) == envelope_output(*data),
{
    match &data.result {
        Some(block) => {
            let stdout = render_block_data(block);
            let stderr: Vec<String> = Vec::new();
            assert(texts(stderr@) =~= Seq::empty());
            Report { stdout, stderr }
        },
        None => {
            let stdout: Vec<String> = Vec::new();
            let mut stderr: Vec<String> = Vec::new();
            stderr.push(String::from_str("No block data found."));
            assert(texts(stdout@) =~= Seq::empty());
            assert(texts(stderr@) =~= seq!["No block data found."@]);
            Report { stdout, stderr }
        },
    }
}

/// The outcome of one run on what the fetch gave: a failed fetch is handed
/// on as it is, with nothing written; a fetched envelope is reported.
pub fn report(fetched: Result<BlockData, FetchError>) -> (r: Result<Report, FetchError>)
    ensures
        fetched matches Err(e) ==> r == Err::<Report, FetchError>(e),
        fetched matches Ok(data) ==> (r matches Ok(rep) && (texts(rep.stdout@), texts(
            rep.stderr@,
        )) == envelope_output(data)),
{
    match fetched {
        Ok(data) => Ok(report_envelope(&data)),
        Err(e) => Err(e),
    }
}

} // verus!
