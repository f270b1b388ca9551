use bitcoin_dashboard::blocks::{block_row, reorg_start, BlockStats, BlockSync, SyncStep, REPROCESS_DEPTH};

fn run(mut sync: BlockSync) -> Vec<u64> {
    let mut heights = Vec::new();
    loop {
        match sync.step() {
            SyncStep::Fetch(h) => heights.push(h),
            SyncStep::Done => break,
        }
    }
    // once done, a cycle stays done
    assert!(matches!(sync.step(), SyncStep::Done));
    heights
}

#[test]
fn reorg_start_from_empty_store_is_genesis() {
    assert_eq!(reorg_start(None), 0);
    assert_eq!(reorg_start(Some(0)), 0);
}

#[test]
fn reorg_start_for_short_chains_is_genesis() {
    assert_eq!(reorg_start(Some(1)), 0);
    assert_eq!(reorg_start(Some(5)), 0);
    assert_eq!(reorg_start(Some(6)), 0);
}

#[test]
fn reorg_start_refetches_last_six_blocks() {
    assert_eq!(REPROCESS_DEPTH, 6);
    assert_eq!(reorg_start(Some(7)), 2);
    assert_eq!(reorg_start(Some(150)), 145);
    assert_eq!(reorg_start(Some(u64::MAX)), u64::MAX - 5);
}

#[test]
fn sync_fetches_from_reorg_start_to_tip() {
    let heights = run(BlockSync::new(Some(100), 103));
    assert_eq!(heights, vec![95, 96, 97, 98, 99, 100, 101, 102, 103]);
}

#[test]
fn sync_without_new_blocks_reprocesses_six() {
    let heights = run(BlockSync::new(Some(10), 10));
    assert_eq!(heights, vec![5, 6, 7, 8, 9, 10]);
}

#[test]
fn sync_from_empty_store_fetches_everything() {
    assert_eq!(run(BlockSync::new(None, 2)), vec![0, 1, 2]);
    assert_eq!(run(BlockSync::new(None, 0)), vec![0]);
}

#[test]
fn sync_with_tip_below_start_fetches_nothing() {
    assert_eq!(run(BlockSync::new(Some(20), 3)), Vec::<u64>::new());
}

#[test]
fn sync_up_to_the_largest_height_terminates() {
    let heights = run(BlockSync::new(Some(u64::MAX), u64::MAX));
    assert_eq!(heights.len(), 6);
    assert_eq!(heights[0], u64::MAX - 5);
    assert_eq!(heights[5], u64::MAX);
}

#[test]
fn block_row_renames_stats_fields() {
    let bs = BlockStats {
        height: 812,
        time: 1_700_000_000,
        txs: 3,
        totalfee: 4500,
        avgfee: 2250,
        avgfeerate: 15,
        minfeerate: 10,
        maxfeerate: 20,
        blockhash: "00ab".to_string(),
    };
    let row = block_row(bs, Some("F2Pool".to_string()));
    assert_eq!(row.height, 812);
    assert_eq!(row.hash, "00ab");
    assert_eq!(row.time, 1_700_000_000);
    assert_eq!(row.tx_count, 3);
    assert_eq!(row.total_fee, 4500);
    assert_eq!(row.avg_fee, 2250);
    assert_eq!(row.avg_feerate, 15);
    assert_eq!(row.min_feerate, 10);
    assert_eq!(row.max_feerate, 20);
    assert_eq!(row.pool_name.as_deref(), Some("F2Pool"));
}
