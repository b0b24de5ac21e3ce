use block_explorer::query::{Action, Event, Query, QueryOutcome, QueryRequest};
use block_explorer::types::{
    AssembledBlock, BlockRow, DecodedTx, HashParseFault, Header, LatestBlock, QueryError,
    TxHashEntry, TxRecord,
};

fn row(id: u8, height: u64) -> BlockRow {
    BlockRow {
        block_id: vec![id, id, id],
        header: Header { height, time: String::from("t"), proposer: vec![9] },
        last_commit: vec![id, 0],
    }
}

fn entry(hash: &[u8], kind: &str) -> TxHashEntry {
    TxHashEntry { hash: hash.to_vec(), raw_kind: String::from(kind) }
}

fn expect_fetch_entries(a: Action) -> Vec<u8> {
    match a {
        Action::FetchTxEntries { block_id } => block_id,
        other => panic!("expected a tx-entries fetch, got {:?}", kind_of(&other)),
    }
}

fn kind_of(a: &Action) -> &'static str {
    match a {
        Action::FetchBlockByHash { .. } => "FetchBlockByHash",
        Action::FetchBlockByHeight { .. } => "FetchBlockByHeight",
        Action::FetchLatestBlock => "FetchLatestBlock",
        Action::FetchLatestBlocks { .. } => "FetchLatestBlocks",
        Action::FetchTxEntries { .. } => "FetchTxEntries",
        Action::FetchTxRecord { .. } => "FetchTxRecord",
        Action::DecodeRecord { .. } => "DecodeRecord",
        Action::FetchEpoch { .. } => "FetchEpoch",
        Action::Finish { .. } => "Finish",
    }
}

fn finish_block(a: Action) -> AssembledBlock {
    match a {
        Action::Finish { outcome: QueryOutcome::Block(b) } => b,
        other => panic!("expected an assembled block, got {:?}", kind_of(&other)),
    }
}

/// Drives a by-hash request whose block holds the given entries; decrypted
/// entries are resolved from `lookups` in order: None means the record is
/// absent, Some(d) means the record is present and decodes to d (None inside
/// meaning decode failure).
fn assemble_by_hash(
    entries: Vec<TxHashEntry>,
    mut lookups: Vec<Option<Option<DecodedTx>>>,
) -> AssembledBlock {
    lookups.reverse();
    let (mut q, a) = Query::start(QueryRequest::ByHash { hash_hex: String::from("00ff") });
    let hash = match a {
        Action::FetchBlockByHash { hash } => hash,
        other => panic!("expected a block fetch, got {:?}", kind_of(&other)),
    };
    assert_eq!(hash, vec![0x00, 0xff]);
    let mut a = q.step(Event::BlockRow { row: Some(row(1, 5)) });
    expect_fetch_entries(a);
    a = q.step(Event::TxEntries { entries });
    loop {
        match a {
            Action::FetchTxRecord { hash: _ } => {
                let lk = lookups.pop().expect("more record fetches than lookups");
                match lk {
                    None => {
                        a = q.step(Event::TxRecord { record: None });
                    }
                    Some(decoded) => {
                        a = q.step(Event::TxRecord {
                            record: Some(TxRecord { data: vec![1, 2, 3] }),
                        });
                        match &a {
                            Action::DecodeRecord { .. } => {}
                            other => panic!("expected a decode, got {:?}", kind_of(other)),
                        }
                        a = q.step(Event::Decoded { decoded });
                    }
                }
            }
            Action::Finish { .. } => return finish_block(a),
            other => panic!("unexpected action {:?}", kind_of(&other)),
        }
    }
}

#[test]
fn all_records_present_keeps_count_and_order() {
    let entries = vec![
        entry(&[1], "Wrapper"),
        entry(&[2], "Decrypted"),
        entry(&[3], "Wrapper"),
        entry(&[4], "Decrypted"),
    ];
    let b = assemble_by_hash(
        entries,
        vec![Some(Some(DecodedTx::Transfer)), Some(Some(DecodedTx::Bond))],
    );
    assert_eq!(b.tx_hashes.len(), 4);
    assert_eq!(b.tx_hashes[0].hash, vec![1]);
    assert_eq!(b.tx_hashes[1].hash, vec![2]);
    assert_eq!(b.tx_hashes[2].hash, vec![3]);
    assert_eq!(b.tx_hashes[3].hash, vec![4]);
    assert_eq!(b.tx_hashes[0].label, "Wrapper");
    assert_eq!(b.tx_hashes[1].label, "Transfer");
    assert_eq!(b.tx_hashes[2].label, "Wrapper");
    assert_eq!(b.tx_hashes[3].label, "Bond");
}

#[test]
fn wrapper_entries_always_labeled_wrapper() {
    let entries = vec![entry(&[7, 7], "Wrapper"), entry(&[8, 8], "Wrapper")];
    let b = assemble_by_hash(entries, vec![]);
    assert_eq!(b.tx_hashes.len(), 2);
    assert_eq!(b.tx_hashes[0].label, "Wrapper");
    assert_eq!(b.tx_hashes[1].label, "Wrapper");
}

#[test]
fn unknown_kind_tag_treated_as_wrapper() {
    let entries = vec![entry(&[7], "SomethingElse")];
    let b = assemble_by_hash(entries, vec![]);
    assert_eq!(b.tx_hashes.len(), 1);
    assert_eq!(b.tx_hashes[0].label, "Wrapper");
}

#[test]
fn decrypted_bond_labeled_bond() {
    let entries = vec![entry(&[2], "Decrypted")];
    let b = assemble_by_hash(entries, vec![Some(Some(DecodedTx::Bond))]);
    assert_eq!(b.tx_hashes.len(), 1);
    assert_eq!(b.tx_hashes[0].label, "Bond");
}

#[test]
fn decode_failure_falls_back_to_decrypted() {
    let entries = vec![entry(&[2], "Decrypted")];
    let b = assemble_by_hash(entries, vec![Some(None)]);
    assert_eq!(b.tx_hashes.len(), 1);
    assert_eq!(b.tx_hashes[0].label, "Decrypted");
}

#[test]
fn unrecognized_variant_falls_back_to_decrypted() {
    let entries = vec![entry(&[2], "Decrypted")];
    let b = assemble_by_hash(entries, vec![Some(Some(DecodedTx::Unrecognized))]);
    assert_eq!(b.tx_hashes.len(), 1);
    assert_eq!(b.tx_hashes[0].label, "Decrypted");
}

#[test]
fn missing_record_is_silently_omitted() {
    let entries = vec![
        entry(&[1], "Wrapper"),
        entry(&[2], "Decrypted"),
        entry(&[3], "Wrapper"),
    ];
    let b = assemble_by_hash(entries, vec![None]);
    assert_eq!(b.tx_hashes.len(), 2);
    assert_eq!(b.tx_hashes[0].hash, vec![1]);
    assert_eq!(b.tx_hashes[1].hash, vec![3]);
}

#[test]
fn by_hash_absent_block_is_not_found() {
    let (mut q, a) = Query::start(QueryRequest::ByHash { hash_hex: String::from("ab") });
    match a {
        Action::FetchBlockByHash { hash } => assert_eq!(hash, vec![0xab]),
        other => panic!("expected a block fetch, got {:?}", kind_of(&other)),
    }
    let a = q.step(Event::BlockRow { row: None });
    match a {
        Action::Finish { outcome: QueryOutcome::NotFound } => {}
        other => panic!("expected NotFound, got {:?}", kind_of(&other)),
    }
}

#[test]
fn malformed_hash_rejected_before_any_store_access() {
    let (_q, a) = Query::start(QueryRequest::ByHash { hash_hex: String::from("xyz") });
    match a {
        Action::Finish {
            outcome: QueryOutcome::Failed(QueryError::ClientInput { fault }),
        } => assert_eq!(fault, HashParseFault::OddLength),
        other => panic!("expected a client-input rejection, got {:?}", kind_of(&other)),
    }
    let (_q, a) = Query::start(QueryRequest::ByHash { hash_hex: String::from("0g") });
    match a {
        Action::Finish {
            outcome: QueryOutcome::Failed(QueryError::ClientInput { fault }),
        } => assert_eq!(fault, HashParseFault::BadDigit { index: 1 }),
        other => panic!("expected a client-input rejection, got {:?}", kind_of(&other)),
    }
}

#[test]
fn by_height_store_failure_is_fatal() {
    let (mut q, a) = Query::start(QueryRequest::ByHeight { height: 11 });
    match a {
        Action::FetchBlockByHeight { height } => assert_eq!(height, 11),
        other => panic!("expected a height fetch, got {:?}", kind_of(&other)),
    }
    let a = q.step(Event::StoreFailed);
    match a {
        Action::Finish { outcome: QueryOutcome::Failed(QueryError::StoreFailure) } => {}
        other => panic!("expected a store failure, got {:?}", kind_of(&other)),
    }
}

fn enrich_one(q: &mut Query, mut a: Action, entries: Vec<TxHashEntry>, epoch: u64) -> Action {
    expect_fetch_entries(a);
    a = q.step(Event::TxEntries { entries });
    match a {
        Action::FetchEpoch { .. } => {}
        other => panic!("expected an epoch fetch, got {:?}", kind_of(&other)),
    }
    q.step(Event::Epoch { epoch })
}

#[test]
fn latest_without_count_and_with_count_one_agree_in_content() {
    let mk_entries = || vec![entry(&[1], "Wrapper")];

    let (mut q1, a1) = Query::start(QueryRequest::Latest { count: None, offset: None });
    assert!(matches!(a1, Action::FetchLatestBlock));
    let a1 = q1.step(Event::BlockRow { row: Some(row(4, 40)) });
    let a1 = enrich_one(&mut q1, a1, mk_entries(), 77);
    let single = match a1 {
        Action::Finish { outcome: QueryOutcome::Latest(LatestBlock::LastBlock(b)) } => *b,
        other => panic!("expected the single shape, got {:?}", kind_of(&other)),
    };

    let (mut q2, a2) =
        Query::start(QueryRequest::Latest { count: Some(1), offset: Some(0) });
    match a2 {
        Action::FetchLatestBlocks { count, offset } => {
            assert_eq!((count, offset), (1, 0));
        }
        other => panic!("expected a latest fetch, got {:?}", kind_of(&other)),
    }
    let a2 = q2.step(Event::BlockRows { rows: vec![row(4, 40)] });
    let a2 = enrich_one(&mut q2, a2, mk_entries(), 77);
    let many = match a2 {
        Action::Finish { outcome: QueryOutcome::Latest(LatestBlock::LatestBlocks(bs)) } => bs,
        other => panic!("expected the sequence shape, got {:?}", kind_of(&other)),
    };

    assert_eq!(many.len(), 1);
    let b = &many[0];
    assert_eq!(b.block_id, single.block_id);
    assert_eq!(b.header.height, single.header.height);
    assert_eq!(b.last_commit, single.last_commit);
    assert_eq!(b.epoch, single.epoch);
    assert_eq!(b.tx_hashes.len(), single.tx_hashes.len());
    assert_eq!(b.tx_hashes[0].hash, single.tx_hashes[0].hash);
    assert_eq!(b.tx_hashes[0].label, single.tx_hashes[0].label);
}

#[test]
fn latest_with_count_three_offset_two_keeps_recency_order() {
    let (mut q, a) = Query::start(QueryRequest::Latest { count: Some(3), offset: Some(2) });
    match a {
        Action::FetchLatestBlocks { count, offset } => assert_eq!((count, offset), (3, 2)),
        other => panic!("expected a latest fetch, got {:?}", kind_of(&other)),
    }
    let rows = vec![row(5, 50), row(4, 49), row(3, 48)];
    let mut a = q.step(Event::BlockRows { rows });
    for epoch in [90u64, 91, 92] {
        a = enrich_one(&mut q, a, vec![], epoch);
    }
    let bs = match a {
        Action::Finish { outcome: QueryOutcome::Latest(LatestBlock::LatestBlocks(bs)) } => bs,
        other => panic!("expected the sequence shape, got {:?}", kind_of(&other)),
    };
    assert_eq!(bs.len(), 3);
    assert_eq!(bs[0].block_id, vec![5, 5, 5]);
    assert_eq!(bs[1].block_id, vec![4, 4, 4]);
    assert_eq!(bs[2].block_id, vec![3, 3, 3]);
    assert_eq!(bs[0].header.height, 50);
    assert_eq!(bs[2].header.height, 48);
    assert_eq!((bs[0].epoch, bs[1].epoch, bs[2].epoch), (90, 91, 92));
}

#[test]
fn latest_offset_defaults_to_zero() {
    let (_q, a) = Query::start(QueryRequest::Latest { count: Some(2), offset: None });
    match a {
        Action::FetchLatestBlocks { count, offset } => assert_eq!((count, offset), (2, 0)),
        other => panic!("expected a latest fetch, got {:?}", kind_of(&other)),
    }
}

#[test]
fn latest_with_no_rows_returns_empty_sequence() {
    let (mut q, _a) = Query::start(QueryRequest::Latest { count: Some(3), offset: None });
    let a = q.step(Event::BlockRows { rows: vec![] });
    match a {
        Action::Finish { outcome: QueryOutcome::Latest(LatestBlock::LatestBlocks(bs)) } => {
            assert!(bs.is_empty())
        }
        other => panic!("expected the sequence shape, got {:?}", kind_of(&other)),
    }
}

#[test]
fn oracle_failure_aborts_latest_with_no_partial_result() {
    let (mut q, _a) = Query::start(QueryRequest::Latest { count: Some(2), offset: None });
    let a = q.step(Event::BlockRows { rows: vec![row(2, 20), row(1, 19)] });
    expect_fetch_entries(a);
    let a = q.step(Event::TxEntries { entries: vec![entry(&[1], "Wrapper")] });
    match a {
        Action::FetchEpoch { height } => assert_eq!(height, 20),
        other => panic!("expected an epoch fetch, got {:?}", kind_of(&other)),
    }
    let a = q.step(Event::OracleFailed);
    match a {
        Action::Finish { outcome: QueryOutcome::Failed(QueryError::OracleFailure) } => {}
        other => panic!("expected an oracle failure, got {:?}", kind_of(&other)),
    }
}

#[test]
fn latest_blocks_classify_their_own_transactions() {
    let (mut q, _a) = Query::start(QueryRequest::Latest { count: Some(2), offset: None });
    let mut a = q.step(Event::BlockRows { rows: vec![row(2, 20), row(1, 19)] });

    expect_fetch_entries(a);
    a = q.step(Event::TxEntries {
        entries: vec![entry(&[1], "Decrypted"), entry(&[2], "Wrapper")],
    });
    match &a {
        Action::FetchTxRecord { hash } => assert_eq!(hash, &vec![1]),
        other => panic!("expected a record fetch, got {:?}", kind_of(other)),
    }
    a = q.step(Event::TxRecord { record: Some(TxRecord { data: vec![0] }) });
    assert!(matches!(a, Action::DecodeRecord { .. }));
    a = q.step(Event::Decoded { decoded: Some(DecodedTx::Ibc) });
    match &a {
        Action::FetchEpoch { height } => assert_eq!(*height, 20),
        other => panic!("expected an epoch fetch, got {:?}", kind_of(other)),
    }
    a = q.step(Event::Epoch { epoch: 8 });

    expect_fetch_entries(a);
    a = q.step(Event::TxEntries { entries: vec![entry(&[3], "Decrypted")] });
    assert!(matches!(a, Action::FetchTxRecord { .. }));
    a = q.step(Event::TxRecord { record: None });
    match &a {
        Action::FetchEpoch { height } => assert_eq!(*height, 19),
        other => panic!("expected an epoch fetch, got {:?}", kind_of(other)),
    }
    a = q.step(Event::Epoch { epoch: 9 });

    let bs = match a {
        Action::Finish { outcome: QueryOutcome::Latest(LatestBlock::LatestBlocks(bs)) } => bs,
        other => panic!("expected the sequence shape, got {:?}", kind_of(&other)),
    };
    assert_eq!(bs.len(), 2);
    assert_eq!(bs[0].epoch, 8);
    assert_eq!(bs[0].tx_hashes.len(), 2);
    assert_eq!(bs[0].tx_hashes[0].label, "Ibc");
    assert_eq!(bs[0].tx_hashes[1].label, "Wrapper");
    assert_eq!(bs[1].epoch, 9);
    assert_eq!(bs[1].tx_hashes.len(), 0);
}

#[test]
fn latest_single_empty_store_is_a_store_failure() {
    let (mut q, _a) = Query::start(QueryRequest::Latest { count: None, offset: None });
    let a = q.step(Event::BlockRow { row: None });
    match a {
        Action::Finish { outcome: QueryOutcome::Failed(QueryError::StoreFailure) } => {}
        other => panic!("expected a store failure, got {:?}", kind_of(&other)),
    }
}
