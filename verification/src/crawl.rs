//! The crawler's decisions for one block and for where it starts: whether the
//! chain has produced the block yet, what is written once it has, and whether
//! the crawler must first catch up in batches.

use crate::catch_up::CometbftBlock;
use vstd::prelude::*;

verus! {

/// How far behind the chain's tip the crawler may start before it catches up
/// in batches.
pub const CATCH_UP_THRESHOLD: u64 = 1000;

/// Errors that end a crawl step.
#[derive(Debug, Clone, Copy, PartialEq, Eq, Structural)]
pub enum MainError {
    /// The block does not exist yet; nothing was written but the timestamp.
    NoAction,
    /// A query to the chain failed.
    RpcError,
    /// A write to or read from the database failed.
    Database,
}

/// The progress of a crawler: the last block it processed, and when.
#[derive(Debug, Clone, Copy, PartialEq, Eq, Structural)]
pub struct BlockCrawlerState {
    pub last_processed_block: u32,
    pub timestamp: i64,
}

/// The block crawler's progress as read back from the database.
#[derive(Debug, Clone, Copy, PartialEq, Eq, Structural)]
pub struct CometbftCrawlerState {
    pub last_processed_block: u32,
    pub timestamp: i64,
}

/// The stored progress (a signed height and a UNIX timestamp) as the
/// crawler's state; the height is taken back as a block height.
pub fn cometbft_crawler_state(last_processed_block: i32, timestamp: i64) -> (state:
    CometbftCrawlerState)
    ensures
        state.last_processed_block == last_processed_block as u32,
        state.timestamp == timestamp,
{
    CometbftCrawlerState { last_processed_block: last_processed_block as u32, timestamp }
}

/// The last processed height, 0 when nothing was processed yet.
pub fn processed_height(state: Option<CometbftCrawlerState>) -> (height: u32)
    ensures
        height == match state {
            Some(s) => s.last_processed_block,
            None => 0,
        },
{
    match state {
        Some(s) => s.last_processed_block,
        None => 0,
    }
}

/// The first height to crawl: the one after the last processed one.
pub fn start_height(processed: u32) -> (height: u64)
    ensures
        height == processed + 1,
{
    processed as u64 + 1
}

/// The crawler catches up in batches when the chain's tip, less the
/// threshold, is beyond the first height to crawl.
pub fn needs_catch_up(from_height: u64, to_height: u64) -> (catch_up: bool)
    requires
        to_height >= CATCH_UP_THRESHOLD,
    ensures
        catch_up == (to_height - CATCH_UP_THRESHOLD > from_height),
{
    to_height - CATCH_UP_THRESHOLD > from_height
}

/// A block can be processed once the chain's last committed block has reached it.
pub fn can_process(block_height: u32, last_block_height: u32) -> (ok: bool)
    ensures
        ok == (last_block_height >= block_height),
{
    last_block_height >= block_height
}

/// Where the crawl of one block stands.
#[derive(Debug, Clone, Copy, PartialEq, Eq, Structural)]
pub enum CrawlPhase {
    /// Waiting for the chain's last committed height.
    QueryingLastBlock,
    /// The block does not exist yet; waiting for the timestamp to be recorded.
    UpdatingTimestamp,
    /// Waiting for the block, its results and its epoch.
    FetchingBlock,
    /// Waiting for the block and the progress to be written.
    Committing,
    /// Done.
    Finished,
}

/// The next thing the crawl of one block asks for.
pub enum CrawlAction<B, E> {
    /// Query the chain's last committed height.
    QueryLastBlock,
    /// Record the current time as the crawler's timestamp.
    UpdateTimestamp,
    /// Fetch the block, its results and its epoch at `height`.
    FetchBlock { height: u32 },
    /// Write `blocks` and record `last_processed_block` as the progress, with
    /// the current time.
    Commit { blocks: Vec<CometbftBlock<B, E>>, last_processed_block: u32 },
    /// The crawl of this block ends with this result.
    Finish(Result<(), MainError>),
}

/// The crawl of the block at one height.
pub struct BlockCrawl {
    pub height: u32,
    pub phase: CrawlPhase,
    /// The chain's last committed height, once known.
    pub chain_tip: Option<u32>,
}

impl BlockCrawl {
    /// A block is fetched or written only once the chain has reached it.
    pub open spec fn wf(&self) -> bool {
        (self.phase == CrawlPhase::FetchingBlock || self.phase == CrawlPhase::Committing) ==> (
        self.chain_tip matches Some(tip) && tip >= self.height)
    }

    /// Starts the crawl of the block at `height`.
    pub fn new(height: u32) -> (c: Self)
        ensures
            c.wf(),
            c.height == height,
            c.phase == CrawlPhase::QueryingLastBlock,
            c.chain_tip is None,
    {
        BlockCrawl { height, phase: CrawlPhase::QueryingLastBlock, chain_tip: None }
    }

    /// The first step of a crawl: ask for the chain's last committed height.
    pub fn first_action<B, E>(&self) -> (action: CrawlAction<B, E>)
        requires
            self.phase == CrawlPhase::QueryingLastBlock,
        ensures
            action is QueryLastBlock,
    {
        CrawlAction::QueryLastBlock
    }

    /// Takes the chain's last committed height (`None` when the query
    /// failed): a failed query ends the crawl with an RPC error; a block
    /// the chain has reached is fetched; otherwise the timestamp is recorded.
    pub fn on_last_block<B, E>(&mut self, last_block: Option<u32>) -> (action: CrawlAction<B, E>)
        requires
            old(self).wf(),
            old(self).phase == CrawlPhase::QueryingLastBlock,
        ensures
            final(self).wf(),
            final(self).height == old(self).height,
            final(self).chain_tip == last_block,
            match last_block {
                None => final(self).phase == CrawlPhase::Finished && action == CrawlAction::<
                    B,
                    E,
                >::Finish(Err(MainError::RpcError)),
                Some(tip) => if tip >= old(self).height {
                    final(self).phase == CrawlPhase::FetchingBlock && action == CrawlAction::<
                        B,
                        E,
                    >::FetchBlock { height: old(self).height }
                } else {
                    final(self).phase == CrawlPhase::UpdatingTimestamp && action is UpdateTimestamp
                },
            },
    {
        self.chain_tip = last_block;
        match last_block {
            None => {
                self.phase = CrawlPhase::Finished;
                CrawlAction::Finish(Err(MainError::RpcError))
            },
            Some(tip) => {
                if can_process(self.height, tip) {
                    self.phase = CrawlPhase::FetchingBlock;
                    CrawlAction::FetchBlock { height: self.height }
                } else {
                    self.phase = CrawlPhase::UpdatingTimestamp;
                    CrawlAction::UpdateTimestamp
                }
            },
        }
    }

    /// Takes whether recording the timestamp succeeded: the crawl ends with
    /// "no action", or with a database error when the write failed.
    pub fn on_timestamp_updated<B, E>(&mut self, succeeded: bool) -> (action: CrawlAction<B, E>)
        requires
            old(self).wf(),
            old(self).phase == CrawlPhase::UpdatingTimestamp,
        ensures
            final(self).wf(),
            *final(self) == (BlockCrawl { phase: CrawlPhase::Finished, ..*old(self) }),
            action == CrawlAction::<B, E>::Finish(
                Err(if succeeded { MainError::NoAction } else { MainError::Database }),
            ),
    {
        self.phase = CrawlPhase::Finished;
        if succeeded {
            CrawlAction::Finish(Err(MainError::NoAction))
        } else {
            CrawlAction::Finish(Err(MainError::Database))
        }
    }

    /// Takes the block, its results and its epoch (`None` when a query
    /// failed): a failed query ends the crawl with an RPC error; otherwise the
    /// block is written with its own height recorded as the progress.
    pub fn on_block_data<B, E>(&mut self, data: Option<(B, E, u32)>) -> (action: CrawlAction<B, E>)
        requires
            old(self).wf(),
            old(self).phase == CrawlPhase::FetchingBlock,
        ensures
            final(self).wf(),
            final(self).height == old(self).height,
            final(self).chain_tip == old(self).chain_tip,
            match data {
                None => final(self).phase == CrawlPhase::Finished && action == CrawlAction::<
                    B,
                    E,
                >::Finish(Err(MainError::RpcError)),
                Some((block, events, epoch)) => {
                    &&& final(self).phase == CrawlPhase::Committing
                    &&& action matches CrawlAction::Commit { blocks, last_processed_block }
                    &&& last_processed_block == old(self).height
                    &&& blocks@ == seq![
                        CometbftBlock { block_height: old(self).height, block, events, epoch },
                    ]
                },
            },
            action is Commit ==> (old(self).chain_tip matches Some(tip) && tip >= old(self).height),
    {
        match data {
            None => {
                self.phase = CrawlPhase::Finished;
                CrawlAction::Finish(Err(MainError::RpcError))
            },
            Some((block, events, epoch)) => {
                self.phase = CrawlPhase::Committing;
                let mut blocks: Vec<CometbftBlock<B, E>> = Vec::new();
                blocks.push(CometbftBlock { block_height: self.height, block, events, epoch });
                CrawlAction::Commit { blocks, last_processed_block: self.height }
            },
        }
    }

    /// Takes whether writing the block succeeded: the crawl ends well, or with
    /// a database error.
    pub fn on_committed<B, E>(&mut self, succeeded: bool) -> (action: CrawlAction<B, E>)
        requires
            old(self).wf(),
            old(self).phase == CrawlPhase::Committing,
        ensures
            final(self).wf(),
            *final(self) == (BlockCrawl { phase: CrawlPhase::Finished, ..*old(self) }),
            action == CrawlAction::<B, E>::Finish(
                if succeeded { Ok(()) } else { Err(MainError::Database) },
            ),
    {
        self.phase = CrawlPhase::Finished;
        if succeeded {
            CrawlAction::Finish(Ok(()))
        } else {
            CrawlAction::Finish(Err(MainError::Database))
        }
    }
}

/// What the crawler does after the crawl of one height ended.
#[derive(Debug, Clone, Copy, PartialEq, Eq, Structural)]
pub enum CrawlNext {
    /// Crawl this height next.
    Crawl(u32),
    /// Pause, then crawl this height again.
    RetryAfterPause(u32),
    /// Stop crawling with this error.
    Stop(MainError),
}

/// The crawler's next move after the crawl of `height` ended with `outcome`:
/// a processed height moves on to the next one, a height with nothing to do
/// yet is tried again after a pause, and any other error stops the crawler.
pub fn crawl_next(height: u32, outcome: Result<(), MainError>) -> (next: CrawlNext)
    requires
        outcome is Ok ==> height < u32::MAX,
    ensures
        next == match outcome {
            Ok(()) => CrawlNext::Crawl((height + 1) as u32),
            Err(MainError::NoAction) => CrawlNext::RetryAfterPause(height),
            Err(e) => CrawlNext::Stop(e),
        },
{
    match outcome {
        Ok(()) => CrawlNext::Crawl(height + 1),
        Err(MainError::NoAction) => CrawlNext::RetryAfterPause(height),
        Err(e) => CrawlNext::Stop(e),
    }
}

} // verus!

