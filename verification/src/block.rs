//! Blocks as the crawler receives them, the row stored for each block, and the
//! block served by the API.

use vstd::prelude::*;

verus! {

/// An identifier: an account address or a hash, kept as text.
#[derive(Debug, Clone, PartialEq, Eq, Hash)]
pub enum Id {
    Account(String),
    Hash(String),
}

impl Id {
    /// The text of the identifier, whatever its kind.
    pub open spec fn text(&self) -> Seq<char> {
        match self {
            Id::Account(s) => s@,
            Id::Hash(s) => s@,
        }
    }

    /// The identifier written out as text.
    pub fn to_string(&self) -> (s: String)
        ensures
            s@ == self.text(),
            match self {
                Id::Account(held) => s@ == held@,
                Id::Hash(held) => s@ == held@,
            },
    {
        match self {
            Id::Account(a) => a.clone(),
            Id::Hash(h) => h.clone(),
        }
    }
}

/// The header fields of a block that the indexer keeps.
#[derive(Debug, Clone)]
pub struct BlockHeader {
    pub height: u32,
    pub proposer_address: String,
    pub timestamp: String,
}

/// A wrapper transaction of a block.
#[derive(Debug, Clone)]
pub struct WrapperTransaction {
    pub tx_id: Id,
}

/// An inner transaction of a block.
#[derive(Debug, Clone)]
pub struct InnerTransaction {
    pub tx_id: Id,
}

/// A block with its transactions and the signatures of its commit.
#[derive(Debug, Clone)]
pub struct BlockWithSignatures {
    pub hash: Id,
    pub header: BlockHeader,
    pub epoch: u32,
    pub wrapper_transactions: Vec<WrapperTransaction>,
    pub inner_transactions: Vec<InnerTransaction>,
    pub signatures: Vec<String>,
}

impl BlockWithSignatures {
    /// The wrapper transactions of the block, in order.
    pub fn wrapper_txs(&self) -> (txs: &Vec<WrapperTransaction>)
        ensures
            txs@ == self.wrapper_transactions@,
    {
        &self.wrapper_transactions
    }

    /// The inner transactions of the block, in order.
    pub fn inner_txs(&self) -> (txs: &Vec<InnerTransaction>)
        ensures
            txs@ == self.inner_transactions@,
    {
        &self.inner_transactions
    }
}

/// The texts of a sequence of strings.
pub open spec fn texts(v: Seq<String>) -> Seq<Seq<char>> {
    v.map_values(|s: String| s@)
}

/// The ids of a sequence of wrapper transactions, as text.
pub open spec fn wrapper_ids(txs: Seq<WrapperTransaction>) -> Seq<Seq<char>> {
    txs.map_values(|tx: WrapperTransaction| tx.tx_id.text())
}

/// The ids of a sequence of inner transactions, as text.
pub open spec fn inner_ids(txs: Seq<InnerTransaction>) -> Seq<Seq<char>> {
    txs.map_values(|tx: InnerTransaction| tx.tx_id.text())
}

/// The row stored for a block.
#[derive(Debug, Clone)]
pub struct BlockInsertDb {
    pub id: String,
    pub height: i32,
    pub epoch: i32,
    pub time: String,
    pub proposer_address: String,
    pub wrapper_txs: Vec<String>,
    pub inner_txs: Vec<String>,
    pub signatures: Vec<String>,
}

/// Rows read back from the block table have the same shape as the rows written.
pub type BlocksDb = BlockInsertDb;

fn wrapper_tx_hashes(txs: &Vec<WrapperTransaction>) -> (hashes: Vec<String>)
    ensures
        texts(hashes@) == wrapper_ids(txs@),
        hashes@.len() == txs@.len(),
        forall|k: int| 0 <= k < txs@.len() ==> #[trigger] hashes@[k]@ == match txs@[k].tx_id {
            Id::Account(held) => held@,
            Id::Hash(held) => held@,
        },
{
    let mut hashes: Vec<String> = Vec::new();
    for i in 0..txs.len()
        invariant
            hashes@.len() == i,
            forall|k: int| 0 <= k < i ==> #[trigger] hashes@[k]@ == txs@[k].tx_id.text(),
    {
        hashes.push(txs[i].tx_id.to_string());
    }
    assert(texts(hashes@) =~= wrapper_ids(txs@));
    hashes
}

fn inner_tx_hashes(txs: &Vec<InnerTransaction>) -> (hashes: Vec<String>)
    ensures
        texts(hashes@) == inner_ids(txs@),
        hashes@.len() == txs@.len(),
        forall|k: int| 0 <= k < txs@.len() ==> #[trigger] hashes@[k]@ == match txs@[k].tx_id {
            Id::Account(held) => held@,
            Id::Hash(held) => held@,
        },
{
    let mut hashes: Vec<String> = Vec::new();
    for i in 0..txs.len()
        invariant
            hashes@.len() == i,
            forall|k: int| 0 <= k < i ==> #[trigger] hashes@[k]@ == txs@[k].tx_id.text(),
    {
        hashes.push(txs[i].tx_id.to_string());
    }
    assert(texts(hashes@) =~= inner_ids(txs@));
    hashes
}

impl BlockInsertDb {
    /// The row for a block: its hash as id, its height and epoch (as stored
    /// integers), the header's time and proposer, the ids of its wrapper and
    /// inner transactions in order, and its signatures.
    pub open spec fn spec_from(block: BlockWithSignatures) -> BlockInsertDbView {
        BlockInsertDbView {
            id: block.hash.text(),
            height: block.header.height as i32,
            epoch: block.epoch as i32,
            time: block.header.timestamp@,
            proposer_address: block.header.proposer_address@,
            wrapper_txs: wrapper_ids(block.wrapper_transactions@),
            inner_txs: inner_ids(block.inner_transactions@),
            signatures: texts(block.signatures@),
        }
    }

    /// Builds the row stored for `block`.
    pub fn from(block: BlockWithSignatures) -> (row: Self)
        ensures
            row@ == Self::spec_from(block),
            row.id@ == match block.hash {
                Id::Account(held) => held@,
                Id::Hash(held) => held@,
            },
            row.height == block.header.height as i32,
            row.epoch == block.epoch as i32,
            row.time@ == block.header.timestamp@,
            row.proposer_address@ == block.header.proposer_address@,
            row.wrapper_txs@.len() == block.wrapper_transactions@.len(),
            forall|k: int|
                0 <= k < block.wrapper_transactions@.len() ==> #[trigger] row.wrapper_txs@[k]@
                    == match block.wrapper_transactions@[k].tx_id {
                    Id::Account(held) => held@,
                    Id::Hash(held) => held@,
                },
            row.inner_txs@.len() == block.inner_transactions@.len(),
            forall|k: int|
                0 <= k < block.inner_transactions@.len() ==> #[trigger] row.inner_txs@[k]@
                    == match block.inner_transactions@[k].tx_id {
                    Id::Account(held) => held@,
                    Id::Hash(held) => held@,
                },
            row.signatures@ == block.signatures@,
    {
        let inner_tx_hashes: Vec<String> = inner_tx_hashes(block.inner_txs());
        let wrapper_tx_hashes: Vec<String> = wrapper_tx_hashes(block.wrapper_txs());
        let id = block.hash.to_string();
        BlockInsertDb {
            id,
            height: block.header.height as i32,
            epoch: block.epoch as i32,
            time: block.header.timestamp,
            proposer_address: block.header.proposer_address,
            wrapper_txs: wrapper_tx_hashes,
            inner_txs: inner_tx_hashes,
            signatures: block.signatures,
        }
    }
}

/// The contents of a block row, as text and integers.
pub struct BlockInsertDbView {
    pub id: Seq<char>,
    pub height: i32,
    pub epoch: i32,
    pub time: Seq<char>,
    pub proposer_address: Seq<char>,
    pub wrapper_txs: Seq<Seq<char>>,
    pub inner_txs: Seq<Seq<char>>,
    pub signatures: Seq<Seq<char>>,
}

impl View for BlockInsertDb {
    type V = BlockInsertDbView;

    open spec fn view(&self) -> BlockInsertDbView {
        BlockInsertDbView {
            id: self.id@,
            height: self.height,
            epoch: self.epoch,
            time: self.time@,
            proposer_address: self.proposer_address@,
            wrapper_txs: texts(self.wrapper_txs@),
            inner_txs: texts(self.inner_txs@),
            signatures: texts(self.signatures@),
        }
    }
}

/// A block as the API serves it.
#[derive(Debug, Clone)]
pub struct Block {
    pub id: String,
    pub height: i32,
    pub epoch: i32,
    pub time: String,
    pub proposer_address: String,
    pub wrapper_txs: Vec<String>,
    pub inner_txs: Vec<String>,
    pub signatures: Vec<String>,
}

impl View for Block {
    type V = BlockInsertDbView;

    open spec fn view(&self) -> BlockInsertDbView {
        BlockInsertDbView {
            id: self.id@,
            height: self.height,
            epoch: self.epoch,
            time: self.time@,
            proposer_address: self.proposer_address@,
            wrapper_txs: texts(self.wrapper_txs@),
            inner_txs: texts(self.inner_txs@),
            signatures: texts(self.signatures@),
        }
    }
}

impl Block {
    /// The served block carries every field of the stored row unchanged.
    pub fn from(value: BlocksDb) -> (block: Self)
        ensures
            block@ == value@,
            block.wrapper_txs@ == value.wrapper_txs@,
            block.inner_txs@ == value.inner_txs@,
            block.signatures@ == value.signatures@,
    {
        Block {
            id: value.id,
            height: value.height,
            epoch: value.epoch,
            time: value.time,
            proposer_address: value.proposer_address,
            wrapper_txs: value.wrapper_txs,
            inner_txs: value.inner_txs,
            signatures: value.signatures,
        }
    }
}

/// A block written by the crawler and read back by the API is served with the
/// block's own hash, height, epoch, time, proposer, transaction ids and
/// signatures.
pub proof fn lemma_served_block_matches_indexed(block: BlockWithSignatures, row: BlocksDb, served: Block)
    requires
        row@ == BlockInsertDb::spec_from(block),
        served@ == row@,
    ensures
        served.id@ == block.hash.text(),
        served.height == block.header.height as i32,
        served.epoch == block.epoch as i32,
        served.time@ == block.header.timestamp@,
        served.proposer_address@ == block.header.proposer_address@,
        texts(served.wrapper_txs@) == wrapper_ids(block.wrapper_transactions@),
        texts(served.inner_txs@) == inner_ids(block.inner_transactions@),
        texts(served.signatures@) == texts(block.signatures@),
{
}

/// The text of an identifier is the string it holds, whole, whatever its kind
/// and length.
pub proof fn lemma_id_text_is_held_string(held: String)
    ensures
        Id::Account(held).text() == held@,
        Id::Hash(held).text() == held@,
{
}

/// The ids kept for a block's transactions are the transactions' own ids, one
/// for each transaction and in the block's order; kept strings are kept as
/// they are, in order.
pub proof fn lemma_transaction_ids_in_order(
    wrappers: Seq<WrapperTransaction>,
    inners: Seq<InnerTransaction>,
    strings: Seq<String>,
)
    ensures
        wrapper_ids(wrappers).len() == wrappers.len(),
        forall|k: int|
            0 <= k < wrappers.len() ==> #[trigger] wrapper_ids(wrappers)[k] == match wrappers[k].tx_id {
                Id::Account(held) => held@,
                Id::Hash(held) => held@,
            },
        inner_ids(inners).len() == inners.len(),
        forall|k: int|
            0 <= k < inners.len() ==> #[trigger] inner_ids(inners)[k] == match inners[k].tx_id {
                Id::Account(held) => held@,
                Id::Hash(held) => held@,
            },
        texts(strings).len() == strings.len(),
        forall|k: int| 0 <= k < strings.len() ==> #[trigger] texts(strings)[k] == strings[k]@,
{
}

} // verus!

