use block_indexer::catch_up::{settle_batch, BatchOutcome, CatchUp, CatchUpAction, FetchedBlock};
use block_indexer::crawl::{
    can_process, cometbft_crawler_state, crawl_next, CrawlNext, needs_catch_up, processed_height, start_height,
    BlockCrawl, CrawlAction, CrawlPhase, MainError, CATCH_UP_THRESHOLD,
};
use block_indexer::namada::{epoch_at_height, last_block_height, NamadaQueryError};

fn complete(height: u32) -> FetchedBlock<String, u8> {
    FetchedBlock {
        block: Some(format!("block-{}", height)),
        events: Some(1),
        epoch: Some(9),
    }
}

fn heights_of(action: CatchUpAction<String, u8>) -> Vec<u32> {
    match action {
        CatchUpAction::Fetch { heights } => heights,
        _ => panic!("expected a fetch"),
    }
}

#[test]
fn catch_up_cuts_range_into_batches() {
    let c = CatchUp::new(10, 16, 3);
    assert_eq!(heights_of(c.next_action()), vec![10, 11, 12]);
}

#[test]
fn catch_up_runs_all_batches_in_order() {
    let mut c = CatchUp::new(10, 16, 3);
    let mut seen: Vec<Vec<u32>> = Vec::new();
    let mut progress: Vec<u32> = Vec::new();
    let mut action: CatchUpAction<String, u8> = c.next_action();
    loop {
        match action {
            CatchUpAction::Fetch { heights } => {
                seen.push(heights.clone());
                let results = heights.iter().map(|h| complete(*h)).collect();
                action = c.on_fetched(results);
            }
            CatchUpAction::Commit { blocks, last_processed_block } => {
                assert_eq!(blocks.last().unwrap().block_height, last_processed_block);
                progress.push(last_processed_block);
                action = c.on_committed(true);
            }
            CatchUpAction::Completed => break,
            _ => panic!("unexpected action"),
        }
    }
    assert_eq!(seen, vec![vec![10, 11, 12], vec![13, 14, 15], vec![16]]);
    assert_eq!(progress, vec![12, 15, 16]);
}

#[test]
fn catch_up_of_empty_range_is_complete() {
    let c = CatchUp::new(20, 10, 5);
    assert!(matches!(c.next_action::<String, u8>(), CatchUpAction::Completed));
}

#[test]
fn catch_up_retries_incomplete_batch() {
    let mut c = CatchUp::new(1, 2, 5);
    let heights = heights_of(c.next_action());
    assert_eq!(heights, vec![1, 2]);
    let mut missing = complete(2);
    missing.events = None;
    match c.on_fetched(vec![complete(1), missing]) {
        CatchUpAction::RetryFetch { heights } => assert_eq!(heights, vec![1, 2]),
        _ => panic!("expected a retry"),
    }
    match c.on_fetched(vec![complete(1), complete(2)]) {
        CatchUpAction::Commit { blocks, last_processed_block } => {
            assert_eq!(blocks.len(), 2);
            assert_eq!(blocks[0].block, "block-1");
            assert_eq!(blocks[1].block_height, 2);
            assert_eq!(last_processed_block, 2);
        }
        _ => panic!("expected a commit"),
    }
    assert!(matches!(c.on_committed::<String, u8>(true), CatchUpAction::Completed));
}

#[test]
fn catch_up_stops_on_failed_write() {
    let mut c = CatchUp::new(1, 10, 5);
    let heights = heights_of(c.next_action());
    let results = heights.iter().map(|h| complete(*h)).collect();
    assert!(matches!(c.on_fetched(results), CatchUpAction::Commit { .. }));
    assert!(matches!(c.on_committed::<String, u8>(false), CatchUpAction::Failed));
    assert!(matches!(c.next_action::<String, u8>(), CatchUpAction::Failed));
}

#[test]
fn catch_up_heights_wrap_to_block_heights() {
    let c = CatchUp::new(4_294_967_295, 4_294_967_296, 10);
    assert_eq!(heights_of(c.next_action()), vec![4_294_967_295, 0]);
}

#[test]
fn settle_batch_stops_at_first_missing_block() {
    let batch = vec![5u64, 6, 7];
    let mut broken = complete(6);
    broken.block = None;
    let outcome = settle_batch(&batch, vec![complete(5), broken, complete(7)]);
    assert!(matches!(outcome, BatchOutcome::Retry));
    let outcome = settle_batch(&batch, vec![complete(5), complete(6)]);
    assert!(matches!(outcome, BatchOutcome::Retry));
    match settle_batch(&batch, vec![complete(5), complete(6), complete(7)]) {
        BatchOutcome::Commit { blocks, last_processed_block } => {
            let hs: Vec<u32> = blocks.iter().map(|b| b.block_height).collect();
            assert_eq!(hs, vec![5, 6, 7]);
            assert_eq!(last_processed_block, 7);
            assert_eq!(blocks[2].epoch, 9);
        }
        _ => panic!("expected a commit"),
    }
}

#[test]
fn settle_batch_missing_epoch_retries() {
    let batch = vec![8u64];
    let mut no_epoch = complete(8);
    no_epoch.epoch = None;
    assert!(matches!(settle_batch(&batch, vec![no_epoch]), BatchOutcome::Retry));
}

#[test]
fn crawl_processes_reached_block() {
    let mut crawl = BlockCrawl::new(50);
    assert!(matches!(crawl.first_action::<String, u8>(), CrawlAction::QueryLastBlock));
    match crawl.on_last_block::<String, u8>(Some(60)) {
        CrawlAction::FetchBlock { height } => assert_eq!(height, 50),
        _ => panic!("expected a fetch"),
    }
    match crawl.on_block_data(Some(("b".to_string(), 3u8, 4u32))) {
        CrawlAction::Commit { blocks, last_processed_block } => {
            assert_eq!(last_processed_block, 50);
            assert_eq!(blocks.len(), 1);
            assert_eq!(blocks[0].block_height, 50);
            assert_eq!(blocks[0].epoch, 4);
        }
        _ => panic!("expected a commit"),
    }
    assert!(matches!(crawl.on_committed::<String, u8>(true), CrawlAction::Finish(Ok(()))));
    assert_eq!(crawl.phase, CrawlPhase::Finished);
}

#[test]
fn crawl_waits_for_unproduced_block() {
    let mut crawl = BlockCrawl::new(50);
    assert!(matches!(crawl.on_last_block::<String, u8>(Some(49)), CrawlAction::UpdateTimestamp));
    assert!(matches!(
        crawl.on_timestamp_updated::<String, u8>(true),
        CrawlAction::Finish(Err(MainError::NoAction))
    ));
    let mut crawl = BlockCrawl::new(50);
    crawl.on_last_block::<String, u8>(Some(1));
    assert!(matches!(
        crawl.on_timestamp_updated::<String, u8>(false),
        CrawlAction::Finish(Err(MainError::Database))
    ));
}

#[test]
fn crawl_errors() {
    let mut crawl = BlockCrawl::new(5);
    assert!(matches!(
        crawl.on_last_block::<String, u8>(None),
        CrawlAction::Finish(Err(MainError::RpcError))
    ));
    let mut crawl = BlockCrawl::new(5);
    crawl.on_last_block::<String, u8>(Some(5));
    assert!(matches!(
        crawl.on_block_data::<String, u8>(None),
        CrawlAction::Finish(Err(MainError::RpcError))
    ));
    let mut crawl = BlockCrawl::new(5);
    crawl.on_last_block::<String, u8>(Some(5));
    crawl.on_block_data(Some(("b".to_string(), 0u8, 1u32)));
    assert!(matches!(
        crawl.on_committed::<String, u8>(false),
        CrawlAction::Finish(Err(MainError::Database))
    ));
}

#[test]
fn start_and_catch_up_decisions() {
    assert_eq!(processed_height(None), 0);
    let state = cometbft_crawler_state(41, 1_700_000_000);
    assert_eq!(state.last_processed_block, 41);
    assert_eq!(state.timestamp, 1_700_000_000);
    assert_eq!(processed_height(Some(state)), 41);
    assert_eq!(start_height(41), 42);
    assert_eq!(start_height(u32::MAX), 4_294_967_296);
    assert_eq!(cometbft_crawler_state(-1, 0).last_processed_block, u32::MAX);
    assert_eq!(CATCH_UP_THRESHOLD, 1000);
    assert!(needs_catch_up(1, 1002));
    assert!(!needs_catch_up(2, 1002));
    assert!(!needs_catch_up(1, 1000));
    assert!(can_process(10, 10));
    assert!(can_process(10, 11));
    assert!(!can_process(10, 9));
}

#[test]
fn catch_up_then_crawl_resumes_after_range() {
    let mut c = CatchUp::new(1, 7, 4);
    let mut last = 0;
    let mut action: CatchUpAction<String, u8> = c.next_action();
    loop {
        match action {
            CatchUpAction::Fetch { heights } => {
                action = c.on_fetched(heights.iter().map(|h| complete(*h)).collect());
            }
            CatchUpAction::Commit { last_processed_block, .. } => {
                last = last_processed_block;
                action = c.on_committed(true);
            }
            CatchUpAction::Completed => break,
            _ => panic!("unexpected action"),
        }
    }
    assert_eq!(last, 7);
    assert_eq!(start_height(last), 8);
}

#[test]
fn namada_replies() {
    assert_eq!(last_block_height(Ok(Some(100))), Ok(100));
    assert_eq!(last_block_height(Ok(Some(4_294_967_296))), Ok(0));
    assert_eq!(last_block_height(Ok(None)), Err(NamadaQueryError::NoLastBlock));
    assert_eq!(last_block_height(Err(())), Err(NamadaQueryError::LastBlockQueryFailed));
    assert_eq!(epoch_at_height(7, Ok(Some(3))), Ok(3));
    assert_eq!(epoch_at_height(7, Ok(None)), Err(NamadaQueryError::NoEpoch { height: 7 }));
    assert_eq!(epoch_at_height(7, Err(())), Err(NamadaQueryError::EpochQueryFailed { height: 7 }));
}

#[test]
fn written_heights_come_from_the_batch() {
    let batch = vec![1u64, 2];
    match settle_batch(&batch, vec![complete(7), complete(8)]) {
        BatchOutcome::Commit { blocks, last_processed_block } => {
            assert_eq!(blocks[0].block_height, 1);
            assert_eq!(blocks[1].block_height, 2);
            assert_eq!(blocks[0].block, "block-7");
            assert_eq!(last_processed_block, 2);
        }
        _ => panic!("expected a commit"),
    }
}

#[test]
fn settle_batch_with_extra_complete_fetch_retries() {
    let batch = vec![1u64, 2];
    let outcome = settle_batch(&batch, vec![complete(1), complete(2), complete(3)]);
    assert!(matches!(outcome, BatchOutcome::Retry));
    let mut extra = complete(3);
    extra.block = None;
    let outcome = settle_batch(&batch, vec![complete(1), complete(2), extra]);
    assert!(matches!(outcome, BatchOutcome::Commit { .. }));
}

#[test]
fn catch_up_writes_every_height_once_in_order() {
    let mut c = CatchUp::new(3, 13, 4);
    let mut written: Vec<u32> = Vec::new();
    let mut action: CatchUpAction<String, u8> = c.next_action();
    loop {
        match action {
            CatchUpAction::Fetch { heights } => {
                action = c.on_fetched(heights.iter().map(|h| complete(*h)).collect());
            }
            CatchUpAction::Commit { blocks, .. } => {
                written.extend(blocks.iter().map(|b| b.block_height));
                action = c.on_committed(true);
            }
            CatchUpAction::Completed => break,
            _ => panic!("unexpected action"),
        }
    }
    assert_eq!(written, (3..=13).collect::<Vec<u32>>());
}

#[test]
fn crawl_next_moves() {
    assert_eq!(crawl_next(5, Ok(())), CrawlNext::Crawl(6));
    assert_eq!(crawl_next(5, Err(MainError::NoAction)), CrawlNext::RetryAfterPause(5));
    assert_eq!(crawl_next(5, Err(MainError::RpcError)), CrawlNext::Stop(MainError::RpcError));
    assert_eq!(crawl_next(u32::MAX, Err(MainError::Database)), CrawlNext::Stop(MainError::Database));
}

#[test]
fn namada_error_messages() {
    assert_eq!(NamadaQueryError::NoLastBlock.message(), "No last block found");
    assert_eq!(
        NamadaQueryError::LastBlockQueryFailed.message(),
        "Failed to query Namada's last committed block"
    );
    assert_eq!(
        NamadaQueryError::NoEpoch { height: 5 }.message(),
        "No Namada epoch found for height 5"
    );
    assert_eq!(
        NamadaQueryError::EpochQueryFailed { height: 5 }.message(),
        "Failed to query Namada's epoch at height 5"
    );
    assert_eq!(
        NamadaQueryError::NoEpoch { height: 0 }.message(),
        "No Namada epoch found for height 0"
    );
    assert_eq!(
        NamadaQueryError::NoEpoch { height: 4_294_967_295 }.message(),
        "No Namada epoch found for height 4294967295"
    );
    assert_eq!(
        NamadaQueryError::EpochQueryFailed { height: 1020 }.message(),
        "Failed to query Namada's epoch at height 1020"
    );
}
