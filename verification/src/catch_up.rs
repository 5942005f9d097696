//! Catching up with the chain: the heights from the first unprocessed block to
//! the chain's tip are cut into batches; each batch is fetched until every
//! block of it came back, then written together with the crawler's progress.

use itertools::Itertools;
use vstd::prelude::*;

verus! {

/// The number of heights in `from..=to`.
pub open spec fn span(from: u64, to: u64) -> nat {
    if from <= to {
        (to - from + 1) as nat
    } else {
        0
    }
}

/// The number of chunks of `size` elements (the last one possibly shorter)
/// that `total` elements make.
pub open spec fn chunk_count(total: nat, size: nat) -> nat {
    if size == 0 {
        0
    } else {
        ((total + size - 1) as nat / size) as nat
    }
}

/// The length of chunk `i` when `total` elements are cut into chunks of `size`.
pub open spec fn chunk_len(total: nat, size: nat, i: int) -> int {
    if total - i * size < size {
        total - i * size
    } else {
        size as int
    }
}

/// `chunks` is `from..=to` cut, in order, into chunks of `size` heights, of
/// which only the last may be shorter.
pub open spec fn is_chunking(chunks: Seq<Seq<u64>>, from: u64, to: u64, size: nat) -> bool {
    &&& size > 0
    &&& chunks.len() == chunk_count(span(from, to), size)
    &&& forall|i: int|
        0 <= i < chunks.len() ==> #[trigger] chunks[i].len() == chunk_len(span(from, to), size, i)
    &&& forall|i: int, j: int|
        0 <= i < chunks.len() && 0 <= j < chunks[i].len() ==> #[trigger] chunks[i][j] == from + i
            * size + j
}

/// Cuts `from..=to` into chunks with `itertools::Itertools::chunks`.
///
/// Trusted: `chunks(size)` yields, in order, chunks of `size` consecutive
/// elements of the iterator, the last one shorter when the elements run out,
/// and panics on a size of 0 (hence the `requires`).
#[verifier::external_body]
fn chunk_heights(from: u64, to: u64, size: usize) -> (chunks: Vec<Vec<u64>>)
    requires
        size > 0,
    ensures
        is_chunking(chunks.deep_view(), from, to, size as nat),
{
    let chunks = (from..=to).chunks(size);
    let collected: Vec<Vec<u64>> = chunks.into_iter().map(|chunk| chunk.collect()).collect();
    collected
}

/// Facts on the number of chunks: all but the last chunk are full, the last
/// one is not empty.
pub proof fn lemma_chunk_count_bounds(total: nat, size: nat)
    requires
        size > 0,
    ensures
        total == 0 ==> chunk_count(total, size) == 0,
        total > 0 ==> chunk_count(total, size) >= 1,
        total > 0 ==> (chunk_count(total, size) - 1) * size < total,
        total <= chunk_count(total, size) * size,
{
    let a = (total + size - 1) as nat;
    let n = chunk_count(total, size);
    assert(n == a / size);
    vstd::arithmetic::div_mod::lemma_fundamental_div_mod(a as int, size as int);
    vstd::arithmetic::div_mod::lemma_mod_bound(a as int, size as int);
    assert(a == size * n + a % size);
    assert(n * size == size * n) by (nonlinear_arith);
    assert((n - 1) * size == n * size - size) by (nonlinear_arith);
    if total == 0 {
        assert(a < size);
        vstd::arithmetic::div_mod::lemma_basic_div(a as int, size as int);
    }
    if total > 0 {
        assert(a >= size);
        assert(n >= 1) by (nonlinear_arith)
            requires
                a == size * n + a % size,
                a % size < size,
                a >= size,
                size > 0,
        ;
    }
}

/// Chunk `i` (of a chunking of `from..=to`) starts at `from + i * size`, is
/// not empty, and is full unless it is the last one.
pub proof fn lemma_chunk_shape(chunks: Seq<Seq<u64>>, from: u64, to: u64, size: nat, i: int)
    requires
        is_chunking(chunks, from, to, size),
        0 <= i < chunks.len(),
    ensures
        chunks[i].len() >= 1,
        chunks[i].len() <= size,
        i + 1 < chunks.len() ==> chunks[i].len() == size,
        chunks[i][0] == from + i * size,
        i + 1 == chunks.len() ==> chunks[i][chunks[i].len() - 1] == to,
{
    let total = span(from, to);
    let n = chunks.len();
    lemma_chunk_count_bounds(total, size);
    assert(total > 0);
    assert(i * size <= (n - 1) * size) by (nonlinear_arith)
        requires
            i <= n - 1,
            size > 0,
    ;
    if i + 1 < n {
        assert((i + 1) * size <= (n - 1) * size) by (nonlinear_arith)
            requires
                i + 1 <= n - 1,
                size > 0,
        ;
        assert((i + 1) * size == i * size + size) by (nonlinear_arith);
    }
    if i + 1 == n {
        assert(n * size == (n - 1) * size + size) by (nonlinear_arith);
    }
    assert(chunks[i][0] == from + i * size);
}

/// Consecutive chunks are adjacent: the next one starts right after the
/// previous one ends.
pub proof fn lemma_chunks_adjacent(chunks: Seq<Seq<u64>>, from: u64, to: u64, size: nat, i: int)
    requires
        is_chunking(chunks, from, to, size),
        0 <= i,
        i + 1 < chunks.len(),
    ensures
        chunks[i][chunks[i].len() - 1] + 1 == chunks[i + 1][0],
{
    lemma_chunk_shape(chunks, from, to, size, i);
    lemma_chunk_shape(chunks, from, to, size, i + 1);
    assert((i + 1) * size == i * size + size) by (nonlinear_arith);
}


/// What came back for one height of a batch: the block, its results and its
/// epoch, each missing where its query failed. Fetches are answered in the
/// order of the batch's heights.
pub struct FetchedBlock<B, E> {
    pub block: Option<B>,
    pub events: Option<E>,
    pub epoch: Option<u32>,
}

impl<B, E> FetchedBlock<B, E> {
    /// All three queries for this height succeeded.
    pub open spec fn is_complete(&self) -> bool {
        &&& self.block is Some
        &&& self.events is Some
        &&& self.epoch is Some
    }
}

/// A block to be written: its height, the block, its results and its epoch.
pub struct CometbftBlock<B, E> {
    pub block_height: u32,
    pub block: B,
    pub events: E,
    pub epoch: u32,
}

/// The block written for a complete fetch at `height`.
pub open spec fn committed_block<B, E>(height: u64, fetched: FetchedBlock<B, E>) -> CometbftBlock<
    B,
    E,
> {
    CometbftBlock {
        block_height: height as u32,
        block: fetched.block->0,
        events: fetched.events->0,
        epoch: fetched.epoch->0,
    }
}

/// The blocks written for a batch: the fetch answering each height of the
/// batch, at that height.
pub open spec fn committed_blocks<B, E>(batch: Seq<u64>, results: Seq<FetchedBlock<B, E>>) -> Seq<
    CometbftBlock<B, E>,
> {
    Seq::new(batch.len(), |k: int| committed_block(batch[k], results[k]))
}

/// The leading complete fetches, taken in order, are exactly `n` long.
pub open spec fn batch_fetched<B, E>(n: nat, results: Seq<FetchedBlock<B, E>>) -> bool {
    &&& n <= results.len()
    &&& forall|k: int| 0 <= k < n ==> #[trigger] results[k].is_complete()
    &&& n < results.len() ==> !results[n as int].is_complete()
}

/// The progress recorded after a batch: its highest height (the last one), as
/// a block height.
pub open spec fn batch_top(batch: Seq<u64>) -> u32 {
    if batch.len() > 0 {
        batch.last() as u32
    } else {
        0
    }
}

/// The heights of a batch as block heights.
pub open spec fn block_heights(batch: Seq<u64>) -> Seq<u32> {
    batch.map_values(|h: u64| h as u32)
}

/// The heights of a sequence of blocks.
pub open spec fn heights_of<B, E>(blocks: Seq<CometbftBlock<B, E>>) -> Seq<u32> {
    blocks.map_values(|b: CometbftBlock<B, E>| b.block_height)
}

/// What to do with the fetches of one batch.
pub enum BatchOutcome<B, E> {
    /// Some block is missing: the whole batch is fetched again.
    Retry,
    /// Every block came back: write them, and record `last_processed_block`.
    Commit { blocks: Vec<CometbftBlock<B, E>>, last_processed_block: u32 },
}

/// Decides on the fetches of a batch. The fetches are taken in order until the
/// first incomplete one; the batch is written only if exactly as many blocks
/// came back as the batch has heights. Each written block carries the height
/// of the batch it answers, and the recorded progress is the batch's last
/// height.
pub fn settle_batch<B, E>(batch: &Vec<u64>, results: Vec<FetchedBlock<B, E>>) -> (outcome:
    BatchOutcome<B, E>)
    ensures
        (outcome is Commit) <==> batch_fetched(batch@.len(), results@),
        outcome matches BatchOutcome::Commit { blocks, last_processed_block } ==> {
            &&& blocks@ == committed_blocks(batch@, results@)
            &&& heights_of(blocks@) == block_heights(batch@)
            &&& last_processed_block == batch_top(batch@)
            &&& blocks@.len() == batch@.len()
            &&& forall|k: int|
                0 <= k < batch@.len() ==> {
                    &&& #[trigger] blocks@[k].block_height == batch@[k] as u32
                    &&& blocks@[k].block == results@[k].block->0
                    &&& blocks@[k].events == results@[k].events->0
                    &&& blocks@[k].epoch == results@[k].epoch->0
                }
        },
{
    let ghost all = results@;
    let n = batch.len();
    let mut rest = results;
    let mut successful: Vec<CometbftBlock<B, E>> = Vec::new();
    let mut stopped = false;
    while !stopped && successful.len() < n && rest.len() > 0
        invariant
            n == batch@.len(),
            successful@.len() <= n,
            stopped ==> successful@.len() < n,
            successful@.len() + rest@.len() == all.len() || stopped,
            rest@ == all.skip(successful@.len() as int + (if stopped { 1int } else { 0int })),
            successful@.len() <= all.len(),
            stopped ==> successful@.len() < all.len() && !all[successful@.len() as int].is_complete(),
            forall|k: int|
                #![trigger successful@[k]]
                #![trigger all[k]]
                0 <= k < successful@.len() ==> all[k].is_complete() && successful@[k]
                    == committed_block(batch@[k], all[k]),
        decreases rest@.len(),
    {
        let fetched = rest.remove(0);
        let i = successful.len();
        assert(fetched == all[i as int]);
        match fetched {
            FetchedBlock { block: Some(block), events: Some(events), epoch: Some(epoch) } => {
                successful.push(
                    CometbftBlock { block_height: batch[i] as u32, block, events, epoch },
                );
                assert(rest@ =~= all.skip(i + 1));
            },
            _ => {
                stopped = true;
                assert(rest@ =~= all.skip(i + 1));
            },
        }
    }
    proof {
        if !stopped && successful@.len() < n {
            assert(successful@.len() == all.len());
        }
    }
    if successful.len() != n {
        proof {
            if stopped {
                let j = successful@.len() as int;
                assert(!all[j].is_complete());
                assert(!(forall|k: int| 0 <= k < n ==> #[trigger] all[k].is_complete()));
            } else {
                assert(successful@.len() == all.len());
            }
            assert(!batch_fetched(n as nat, all));
        }
        return BatchOutcome::Retry;
    }
    // every height of the batch came back; one more complete fetch would make
    // the run of complete fetches longer than the batch
    if rest.len() > 0 {
        let next_complete = match &rest[0] {
            FetchedBlock { block: Some(_), events: Some(_), epoch: Some(_) } => true,
            _ => false,
        };
        if next_complete {
            proof {
                assert(!stopped);
                assert(rest@[0] == all[n as int]);
                assert(all[n as int].is_complete());
            }
            return BatchOutcome::Retry;
        }
    }
    let last_processed_block: u32 = if n > 0 {
        batch[n - 1] as u32
    } else {
        0
    };
    assert(successful@ =~= committed_blocks(batch@, all));
    assert(heights_of(successful@) =~= block_heights(batch@));
    BatchOutcome::Commit { blocks: successful, last_processed_block }
}

/// The next step of a catch-up.
pub enum CatchUpAction<B, E> {
    /// Fetch the block, results and epoch at each of these heights.
    Fetch { heights: Vec<u32> },
    /// Some block of the batch was missing: pause, then fetch these heights again.
    RetryFetch { heights: Vec<u32> },
    /// Write these blocks and record `last_processed_block` as the progress.
    Commit { blocks: Vec<CometbftBlock<B, E>>, last_processed_block: u32 },
    /// Every batch was written.
    Completed,
    /// A write failed; the catch-up stops with an error.
    Failed,
}

/// A catch-up from `from_height` to `to_height` in batches of `batch_size`.
pub struct CatchUp {
    from_height: u64,
    to_height: u64,
    batch_size: usize,
    batches: Vec<Vec<u64>>,
    next: usize,
    committing: bool,
    failed: bool,
}

/// The state of a catch-up: its range, its batches, how many batches are
/// written, whether the current batch is being written, and whether a write failed.
pub struct CatchUpView {
    pub from_height: u64,
    pub to_height: u64,
    pub batch_size: nat,
    pub batches: Seq<Seq<u64>>,
    pub next: nat,
    pub committing: bool,
    pub failed: bool,
}

impl View for CatchUp {
    type V = CatchUpView;

    closed spec fn view(&self) -> CatchUpView {
        CatchUpView {
            from_height: self.from_height,
            to_height: self.to_height,
            batch_size: self.batch_size as nat,
            batches: self.batches.deep_view(),
            next: self.next as nat,
            committing: self.committing,
            failed: self.failed,
        }
    }
}

impl CatchUpView {
    /// The batches cut the whole range, the written ones form a prefix, and a
    /// batch is written only while the catch-up goes on.
    pub open spec fn wf(self) -> bool {
        &&& is_chunking(self.batches, self.from_height, self.to_height, self.batch_size)
        &&& self.next <= self.batches.len()
        &&& self.committing ==> self.next < self.batches.len() && !self.failed
    }

    /// The step a catch-up that is not writing takes next.
    pub open spec fn pending<B, E>(self, action: CatchUpAction<B, E>) -> bool {
        if self.failed {
            action is Failed
        } else if self.next < self.batches.len() {
            action matches CatchUpAction::Fetch { heights } && heights@ == block_heights(
                self.batches[self.next as int],
            )
        } else {
            action is Completed
        }
    }
}

impl CatchUp {
    /// Starts a catch-up over `from_height..=to_height`, cut into batches of
    /// `batch_size` heights; nothing is written yet.
    pub fn new(from_height: u64, to_height: u64, batch_size: usize) -> (c: Self)
        requires
            batch_size > 0,
        ensures
            c@.wf(),
            c@.from_height == from_height,
            c@.to_height == to_height,
            c@.batch_size == batch_size,
            c@.next == 0,
            !c@.committing,
            !c@.failed,
    {
        let batches = chunk_heights(from_height, to_height, batch_size);
        CatchUp {
            from_height,
            to_height,
            batch_size,
            batches,
            next: 0,
            committing: false,
            failed: false,
        }
    }

    /// Heights of the batch being worked on, as block heights.
    fn current_heights(&self) -> (heights: Vec<u32>)
        requires
            self@.wf(),
            self.next < self.batches.len(),
        ensures
            heights@ == block_heights(self@.batches[self.next as int]),
    {
        let batch = &self.batches[self.next];
        let mut heights: Vec<u32> = Vec::new();
        for i in 0..batch.len()
            invariant
                batch@ == self@.batches[self.next as int],
                heights@.len() == i,
                forall|k: int| 0 <= k < i ==> #[trigger] heights@[k] == batch@[k] as u32,
        {
            heights.push(batch[i] as u32);
        }
        assert(heights@ =~= block_heights(batch@));
        heights
    }

    /// The next step when no batch is being written: fetch the next batch, or
    /// stop when all are written or a write failed.
    pub fn next_action<B, E>(&self) -> (action: CatchUpAction<B, E>)
        requires
            self@.wf(),
            !self@.committing,
        ensures
            self@.pending(action),
    {
        if self.failed {
            CatchUpAction::Failed
        } else if self.next < self.batches.len() {
            CatchUpAction::Fetch { heights: self.current_heights() }
        } else {
            CatchUpAction::Completed
        }
    }

    /// Takes the fetches of the current batch: when every block of the batch
    /// came back they are to be written, with the batch's last height as the
    /// progress; otherwise the batch is fetched again.
    pub fn on_fetched<B, E>(&mut self, results: Vec<FetchedBlock<B, E>>) -> (action: CatchUpAction<
        B,
        E,
    >)
        requires
            old(self)@.wf(),
            !old(self)@.committing,
            !old(self)@.failed,
            old(self)@.next < old(self)@.batches.len(),
        ensures
            final(self)@.wf(),
            final(self)@ == (CatchUpView {
                committing: batch_fetched(old(self)@.batches[old(self)@.next as int].len(), results@),
                ..old(self)@
            }),
            batch_fetched(old(self)@.batches[old(self)@.next as int].len(), results@) ==> (
            action matches CatchUpAction::Commit { blocks, last_processed_block } && blocks@
                == committed_blocks(old(self)@.batches[old(self)@.next as int], results@)
                && heights_of(blocks@) == block_heights(old(self)@.batches[old(self)@.next as int])
                && last_processed_block == batch_top(old(self)@.batches[old(self)@.next as int])),
            !batch_fetched(old(self)@.batches[old(self)@.next as int].len(), results@) ==> (
            action matches CatchUpAction::RetryFetch { heights } && heights@ == block_heights(
                old(self)@.batches[old(self)@.next as int],
            )),
    {
        let ghost batch = self@.batches[self.next as int];
        assert(self.batches[self.next as int]@ == batch);
        let outcome = settle_batch(&self.batches[self.next], results);
        match outcome {
            BatchOutcome::Retry => CatchUpAction::RetryFetch { heights: self.current_heights() },
            BatchOutcome::Commit { blocks, last_processed_block } => {
                self.committing = true;
                CatchUpAction::Commit { blocks, last_processed_block }
            },
        }
    }

    /// Takes the result of writing the current batch: on success the next
    /// batch comes (or the catch-up is complete); on failure it stops.
    pub fn on_committed<B, E>(&mut self, succeeded: bool) -> (action: CatchUpAction<B, E>)
        requires
            old(self)@.wf(),
            old(self)@.committing,
        ensures
            final(self)@.wf(),
            !final(self)@.committing,
            succeeded ==> final(self)@ == (CatchUpView {
                next: old(self)@.next + 1,
                committing: false,
                ..old(self)@
            }),
            !succeeded ==> final(self)@ == (CatchUpView {
                committing: false,
                failed: true,
                ..old(self)@
            }),
            final(self)@.pending(action),
    {
        self.committing = false;
        proof {
            assert(self.next < self.batches.len());
        }
        if succeeded {
            self.next = self.next + 1;
        } else {
            self.failed = true;
        }
        self.next_action()
    }
}


/// A catch-up over `from..=to` works through batches that start at `from`,
/// follow each other without gap or overlap, hold between one and
/// `batch_size` heights each, and end at `to`; so the progress recorded after
/// the last batch is `to`. An empty range has no batch at all.
pub proof fn lemma_catch_up_covers_range(c: CatchUpView)
    requires
        c.wf(),
    ensures
        c.from_height > c.to_height ==> c.batches.len() == 0,
        c.from_height <= c.to_height ==> {
            &&& c.batches.len() >= 1
            &&& c.batches[0][0] == c.from_height
            &&& forall|k: int|
                0 <= k < c.batches.len() ==> 1 <= #[trigger] c.batches[k].len() <= c.batch_size
            &&& forall|k: int|
                0 <= k < c.batches.len() - 1 ==> #[trigger] c.batches[k].last() + 1 == c.batches[k
                    + 1][0]
            &&& c.batches.last().last() == c.to_height
            &&& batch_top(c.batches.last()) == c.to_height as u32
        },
{
    let total = span(c.from_height, c.to_height);
    lemma_chunk_count_bounds(total, c.batch_size);
    if c.from_height <= c.to_height {
        let n = c.batches.len() as int;
        lemma_chunk_shape(c.batches, c.from_height, c.to_height, c.batch_size, 0);
        assert(0 * c.batch_size == 0) by (nonlinear_arith);
        lemma_chunk_shape(c.batches, c.from_height, c.to_height, c.batch_size, n - 1);
        assert forall|k: int| 0 <= k < c.batches.len() implies 1 <= #[trigger] c.batches[k].len()
            <= c.batch_size by {
            lemma_chunk_shape(c.batches, c.from_height, c.to_height, c.batch_size, k);
        }
        assert forall|k: int| 0 <= k < c.batches.len() - 1 implies #[trigger] c.batches[k].last()
            + 1 == c.batches[k + 1][0] by {
            lemma_chunks_adjacent(c.batches, c.from_height, c.to_height, c.batch_size, k);
        }
    }
}

/// After a catch-up over `from..=to` has written its last batch, the recorded
/// progress is `to` itself (when `to` is a block height); this recorded height
/// is where the crawler is then started.
pub proof fn lemma_catch_up_records_range_end(c: CatchUpView)
    requires
        c.wf(),
        c.from_height <= c.to_height,
        c.to_height <= u32::MAX,
    ensures
        batch_top(c.batches.last()) == c.to_height,
{
    lemma_catch_up_covers_range(c);
}

/// The heights `from..=to`, in ascending order.
pub open spec fn range_heights(from: u64, to: u64) -> Seq<u64> {
    Seq::new(span(from, to), |i: int| (from + i) as u64)
}

/// How many heights of the range the first `k` batches hold.
pub open spec fn covered(c: CatchUpView, k: int) -> int {
    if k < c.batches.len() {
        k * c.batch_size
    } else {
        span(c.from_height, c.to_height) as int
    }
}

proof fn lemma_written_prefix(c: CatchUpView, written: Seq<Seq<u32>>, k: int)
    requires
        c.wf(),
        written.len() == c.batches.len(),
        forall|i: int| 0 <= i < written.len() ==> #[trigger] written[i] == block_heights(c.batches[i]),
        0 <= k <= written.len(),
    ensures
        0 <= covered(c, k) <= span(c.from_height, c.to_height),
        written.take(k).flatten() == block_heights(range_heights(c.from_height, c.to_height)).take(
            covered(c, k),
        ),
    decreases k,
{
    let total = span(c.from_height, c.to_height);
    let size = c.batch_size;
    let all = block_heights(range_heights(c.from_height, c.to_height));
    lemma_chunk_count_bounds(total, size);
    if k == 0 {
        assert(written.take(0) =~= Seq::<Seq<u32>>::empty());
        assert(0 * size == 0) by (nonlinear_arith);
        if c.batches.len() == 0 {
            assert(total == 0);
        }
        assert(all.take(covered(c, 0)) =~= Seq::<u32>::empty());
    } else {
        let j = k - 1;
        lemma_written_prefix(c, written, j);
        lemma_chunk_shape(c.batches, c.from_height, c.to_height, size, j);
        let batch = c.batches[j];
        let len = batch.len() as int;
        assert(covered(c, j) == j * size);
        assert(j * size + size == k * size) by (nonlinear_arith)
            requires
                j == k - 1,
        ;
        if k < c.batches.len() {
            assert(len == size);
            assert(covered(c, k) == j * size + len);
        } else {
            assert(batch[len - 1] == c.to_height);
            assert(batch[len - 1] == c.from_height + j * size + len - 1);
            assert(covered(c, k) == j * size + len);
        }
        assert(written.take(k) =~= written.take(j).push(written[j]));
        written.take(j).lemma_flatten_push(written[j]);
        assert(written.take(k).flatten() =~= all.take(covered(c, j)) + block_heights(batch));
        assert forall|i: int| 0 <= i < covered(c, k) implies #[trigger] all.take(covered(c, k))[i]
            == (all.take(covered(c, j)) + block_heights(batch))[i] by {
            if i >= covered(c, j) {
                let m = i - covered(c, j);
                assert(batch[m] == c.from_height + j * size + m);
            }
        }
        assert(all.take(covered(c, k)) =~= all.take(covered(c, j)) + block_heights(batch));
    }
}

/// Across a whole catch-up, the heights of the blocks written for each batch,
/// taken batch after batch, are the heights `from..=to` (as block heights):
/// every height once, in ascending order.
pub proof fn lemma_written_heights_cover_range(c: CatchUpView, written: Seq<Seq<u32>>)
    requires
        c.wf(),
        written.len() == c.batches.len(),
        forall|k: int| 0 <= k < written.len() ==> #[trigger] written[k] == block_heights(c.batches[k]),
    ensures
        written.flatten() == block_heights(range_heights(c.from_height, c.to_height)),
{
    lemma_written_prefix(c, written, written.len() as int);
    assert(written.take(written.len() as int) =~= written);
    let all = block_heights(range_heights(c.from_height, c.to_height));
    assert(all.take(all.len() as int) =~= all);
}

/// Each block written for a batch is the fetch answering the same position of
/// the batch: that position's height, and the block, results and epoch of
/// that very fetch, so a block is stored with the epoch answered for its own
/// height.
pub proof fn lemma_committed_blocks_carry_their_fetch<B, E>(
    batch: Seq<u64>,
    results: Seq<FetchedBlock<B, E>>,
)
    ensures
        committed_blocks(batch, results).len() == batch.len(),
        forall|k: int|
            0 <= k < batch.len() ==> {
                &&& #[trigger] committed_blocks(batch, results)[k].block_height == batch[k] as u32
                &&& committed_blocks(batch, results)[k].block == results[k].block->0
                &&& committed_blocks(batch, results)[k].events == results[k].events->0
                &&& committed_blocks(batch, results)[k].epoch == results[k].epoch->0
            },
{
}

} // verus!

