use eth_block_viewer::{render_block_data, report, report_envelope, Block, BlockData, FetchError, Transaction};

fn tx(i: u32) -> Transaction {
    Transaction {
        hash: format!("0xh{}", i),
        from: format!("0xf{}", i),
        to: Some(format!("0xt{}", i)),
        value: format!("0x{:x}", i),
        gas: "0x5208".to_string(),
        gas_price: Some("0x3b9aca00".to_string()),
    }
}

fn block_with(n: u32) -> Block {
    Block {
        number: Some("0x10".to_string()),
        hash: Some("0xabc".to_string()),
        parent_hash: Some("0xdef".to_string()),
        timestamp: "0x5f5e100".to_string(),
        transactions: (1..=n).map(tx).collect(),
    }
}

fn tx_hashes(lines: &[String]) -> Vec<String> {
    lines
        .iter()
        .filter(|l| l.starts_with("  Tx Hash: "))
        .map(|l| l["  Tx Hash: ".len()..].to_string())
        .collect()
}

#[test]
fn header_lines_of_full_block() {
    let lines = render_block_data(&block_with(1));
    assert_eq!(lines[0], "Block Number: 0x10");
    assert_eq!(lines[1], "Block Hash: 0xabc");
    assert_eq!(lines[2], "Parent Block Hash: 0xdef");
    assert_eq!(lines[3], "Timestamp: 0x5f5e100");
    assert_eq!(lines[4], "");
    assert_eq!(lines[5], "Last 5 Transactions:");
}

#[test]
fn transaction_record_lines() {
    let lines = render_block_data(&block_with(1));
    let expected = vec![
        "  Tx Hash: 0xh1",
        "  From: 0xf1",
        "  To: 0xt1",
        "  Value: 0x1 Wei",
        "  Gas: 0x5208",
        "  Gas Price: 0x3b9aca00",
        "",
    ];
    assert_eq!(lines[6..].to_vec(), expected);
    assert_eq!(lines.len(), 13);
}

#[test]
fn ten_transactions_give_last_five_newest_first() {
    let lines = render_block_data(&block_with(10));
    assert_eq!(lines.len(), 6 + 7 * 5);
    assert_eq!(tx_hashes(&lines), vec!["0xh10", "0xh9", "0xh8", "0xh7", "0xh6"]);
}

#[test]
fn exactly_five_transactions_all_reversed() {
    let lines = render_block_data(&block_with(5));
    assert_eq!(tx_hashes(&lines), vec!["0xh5", "0xh4", "0xh3", "0xh2", "0xh1"]);
}

#[test]
fn fewer_than_five_transactions_all_reversed() {
    let lines = render_block_data(&block_with(3));
    assert_eq!(lines.len(), 6 + 7 * 3);
    assert_eq!(tx_hashes(&lines), vec!["0xh3", "0xh2", "0xh1"]);
}

#[test]
fn no_transactions_gives_header_only() {
    let lines = render_block_data(&block_with(0));
    assert_eq!(lines.len(), 6);
    assert_eq!(lines.last().unwrap(), "Last 5 Transactions:");
}

#[test]
fn absent_block_fields_print_unknown() {
    let mut b = block_with(0);
    b.number = None;
    b.hash = None;
    b.parent_hash = None;
    let lines = render_block_data(&b);
    assert_eq!(lines[0], "Block Number: Unknown");
    assert_eq!(lines[1], "Block Hash: Unknown");
    assert_eq!(lines[2], "Parent Block Hash: Unknown");
}

#[test]
fn absent_transaction_fields_print_none() {
    let mut b = block_with(1);
    b.transactions[0].to = None;
    b.transactions[0].gas_price = None;
    let lines = render_block_data(&b);
    assert_eq!(lines[8], "  To: None");
    assert_eq!(lines[11], "  Gas Price: None");
}

#[test]
fn null_result_gives_diagnostic_only() {
    let r = report_envelope(&BlockData { result: None });
    assert!(r.stdout.is_empty());
    assert_eq!(r.stderr, vec!["No block data found.".to_string()]);
}

#[test]
fn present_result_gives_block_report() {
    let r = report_envelope(&BlockData { result: Some(block_with(2)) });
    assert!(r.stderr.is_empty());
    assert_eq!(r.stdout, render_block_data(&block_with(2)));
}

#[test]
fn failed_fetch_is_handed_on_without_output() {
    match report(Err(FetchError::Decode("expected value at line 1 column 1".to_string()))) {
        Err(FetchError::Decode(m)) => assert_eq!(m, "expected value at line 1 column 1"),
        _ => panic!("the decode error was not handed on"),
    }
    match report(Err(FetchError::Transport("connection refused".to_string()))) {
        Err(FetchError::Transport(m)) => assert_eq!(m, "connection refused"),
        _ => panic!("the transport error was not handed on"),
    }
}

#[test]
fn successful_fetch_is_reported() {
    match report(Ok(BlockData { result: None })) {
        Ok(r) => {
            assert!(r.stdout.is_empty());
            assert_eq!(r.stderr, vec!["No block data found.".to_string()]);
        }
        Err(_) => panic!("a fetched envelope gave an error"),
    }
}
