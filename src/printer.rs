use vstd::prelude::*;

use crate::block::{Block, Transaction};

verus! {

/// The text of an optional field, or `default` when it is absent.
pub open spec fn text_or(field: Option<String>, default: Seq<char>) -> Seq<char> {
    match field {
        Some(s) => s@,
        None => default,
    }
}

/// The last five transactions (all of them when there are fewer), newest first.
pub open spec fn recent_transactions(txs: Seq<Transaction>) -> Seq<Transaction> {
    let n = txs.len();
    let k = if n < 5 { n } else { 5 };
    Seq::new(k, |i: int| txs[n - 1 - i])
}

/// The record of one transaction: six labelled lines and a blank one.
pub open spec fn transaction_lines(tx: Transaction) -> Seq<Seq<char>> {
    seq![
        "  Tx Hash: "@ + tx.hash@,
        "  From: "@ + tx.from@,
        "  To: "@ + text_or(tx.to, "None"@),
        "  Value: "@ + tx.value@ + " Wei"@,
        "  Gas: "@ + tx.gas@,
        "  Gas Price: "@ + text_or(tx.gas_price, "None"@),
        ""@,
    ]
}

/// The records of `txs`, one after another, in the order given.
pub open spec fn records(txs: Seq<Transaction>) -> Seq<Seq<char>>
    decreases txs.len(),
{
    if txs.len() == 0 {
        Seq::empty()
    } else {
        records(txs.drop_last()) + transaction_lines(txs.last())
    }
}

/// The header of the report: the block's own fields, a blank line and the title
/// of the transaction list.
pub open spec fn header_lines(b: Block) -> Seq<Seq<char>> {
    seq![
        "Block Number: "@ + text_or(b.number, "Unknown"@),
        "Block Hash: "@ + text_or(b.hash, "Unknown"@),
        "Parent Block Hash: "@ + text_or(b.parent_hash, "Unknown"@),
        "Timestamp: "@ + b.timestamp@,
        ""@,
        "Last 5 Transactions:"@,
    ]
}

/// Every line of the report on a block.
pub open spec fn block_lines(b: Block) -> Seq<Seq<char>> {
    header_lines(b) + records(recent_transactions(b.transactions@))
}

/// The characters of each string in `v`.
pub open spec fn texts(v: Seq<String>) -> Seq<Seq<char>> {
    v.map_values(|s: String| s@)
}

/// The records of a sequence of transactions take seven lines each.
pub proof fn lemma_records_len(txs: Seq<Transaction>)
    ensures
        records(txs).len() == 7 * txs.len(),
    decreases txs.len(),
{
    if txs.len() > 0 {
        lemma_records_len(txs.drop_last());
    }
}

/// A block with `n` transactions gets exactly `min(n, 5)` records: the last
/// five of its transactions (all of them when it has fewer), in reverse order.
pub proof fn lemma_last_five_reversed(b: Block)
    ensures
        ({
            let n = b.transactions@.len();
            let k = if n < 5 { n } else { 5 };
            &&& recent_transactions(b.transactions@).len() == k
            &&& recent_transactions(b.transactions@) == b.transactions@.subrange(n - k, n as int).reverse()
            &&& block_lines(b).len() == header_lines(b).len() + 7 * k
            &&& block_lines(b) == header_lines(b) + records(recent_transactions(b.transactions@))
        }),
{
    let txs = b.transactions@;
    let n = txs.len();
    let k = if n < 5 { n } else { 5 };
    let last = txs.subrange(n - k, n as int);
    lemma_records_len(recent_transactions(txs));
    assert(recent_transactions(txs) =~= last.reverse());
}

/// A block with fewer than five transactions gets all of them, in reverse order.
pub proof fn lemma_short_block_all_reversed(b: Block)
    requires
        b.transactions@.len() < 5,
    ensures
        recent_transactions(b.transactions@) == b.transactions@.reverse(),
{
    assert(recent_transactions(b.transactions@) =~= b.transactions@.reverse());
}

/// A block without transactions gets the header, ending in the title of the
/// transaction list, and nothing after it.
pub proof fn lemma_no_transactions(b: Block)
    requires
        b.transactions@.len() == 0,
    ensures
        block_lines(b) == header_lines(b),
        block_lines(b).last() == "Last 5 Transactions:"@,
{
    assert(recent_transactions(b.transactions@) =~= Seq::<Transaction>::empty());
    assert(block_lines(b) =~= header_lines(b));
}

/// An absent field of a block prints as "Unknown", one of a transaction as
/// "None".
pub proof fn lemma_absent_fields(b: Block, tx: Transaction)
    ensures
        b.number is None ==> block_lines(b)[0] == "Block Number: "@ + "Unknown"@,
        b.hash is None ==> block_lines(b)[1] == "Block Hash: "@ + "Unknown"@,
        b.parent_hash is None ==> block_lines(b)[2] == "Parent Block Hash: "@ + "Unknown"@,
        tx.to is None ==> transaction_lines(tx)[2] == "  To: "@ + "None"@,
        tx.gas_price is None ==> transaction_lines(tx)[5] == "  Gas Price: "@ + "None"@,
{
}

fn text_or_default<'a>(field: &'a Option<String>, default: &'a str) -> (r: &'a str)
    ensures
        r@ == text_or(*field, default@),
{
    match field {
        Some(s) => s.as_str(),
        None => default,
    }
}

fn labelled(label: &str, value: &str) -> (r: String)
    ensures
        r@ == label@ + value@,
{
    let mut line = String::from_str(label);
    line.append(value);
    line
}

fn push_line(lines: &mut Vec<String>, line: String)
    ensures
        texts(final(lines)@) == texts(old(lines)@).push(line@),
{
    lines.push(line);
    assert(texts(final(lines)@) =~= texts(old(lines)@).push(line@));
}

fn push_transaction(lines: &mut Vec<String>, tx: &Transaction)
    ensures
        texts(final(lines)@) == texts(old(lines)@) + transaction_lines(*tx),
{
    let ghost start = texts(lines@);
    push_line(lines, labelled("  Tx Hash: ", tx.hash.as_str()));
    push_line(lines, labelled("  From: ", tx.from.as_str()));
    push_line(lines, labelled("  To: ", text_or_default(&tx.to, "None")));
    let mut value = labelled("  Value: ", tx.value.as_str());
    value.append(" Wei");
    push_line(lines, value);
    push_line(lines, labelled("  Gas: ", tx.gas.as_str()));
    push_line(lines, labelled("  Gas Price: ", text_or_default(&tx.gas_price, "None")));
    push_line(lines, String::from_str(""));
    assert(texts(lines@) =~= start + transaction_lines(*tx));
}

/// The report on a block, line by line: number, hash, parent hash (each
/// "Unknown" when absent), timestamp, then the last five transactions, newest
/// first.
pub fn render_block_data(block: &Block) -> (r: Vec<String>)
    ensures
        texts(r@) == block_lines(*block),
{
    let mut lines: Vec<String> = Vec::new();
    push_line(&mut lines, labelled("Block Number: ", text_or_default(&block.number, "Unknown")));
    push_line(&mut lines, labelled("Block Hash: ", text_or_default(&block.hash, "Unknown")));
    push_line(
        &mut lines,
        labelled("Parent Block Hash: ", text_or_default(&block.parent_hash, "Unknown")),
    );
    push_line(&mut lines, labelled("Timestamp: ", block.timestamp.as_str()));
    push_line(&mut lines, String::from_str(""));
    push_line(&mut lines, String::from_str("Last 5 Transactions:"));
    assert(texts(lines@) =~= header_lines(*block));

    let txs = &block.transactions;
    let n = txs.len();
    let k: usize = if n < 5 { n } else { 5 };
    let ghost recent = recent_transactions(txs@);
    let mut i: usize = 0;
    while i < k
        invariant
            n == txs@.len(),
            k == recent.len(),
            i <= k,
            recent == recent_transactions(txs@),
            texts(lines@) == header_lines(*block) + records(recent.take(i as int)),
        decreases k - i,
    {
        push_transaction(&mut lines, &txs[n - 1 - i]);
        assert(recent.take(i + 1).drop_last() =~= recent.take(i as int));
        assert(records(recent.take(i + 1)) == records(recent.take(i as int)) + transaction_lines(
            recent[i as int],
        ));
        assert(texts(lines@) =~= header_lines(*block) + records(recent.take(i + 1)));
        i = i + 1;
    }
    assert(recent.take(k as int) =~= recent);
    lines
}

} // verus!
