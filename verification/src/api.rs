//! The rules of the block API: the parameters of a range query, the errors it
//! answers with, and how stored rows become served blocks.

use crate::block::{Block, BlocksDb};
use vstd::prelude::*;
use vstd::string::StringExecFns;

verus! {

/// The height served as the latest block.
pub const LATEST_BLOCK_HEIGHT: u64 = 1;

/// The tip used when a range query gives none.
pub const DEFAULT_TIP: u64 = 1;

/// The length used when a range query gives none.
pub const DEFAULT_LENGTH: u64 = 1;

/// The highest tip a range query declares acceptable.
pub const MAX_TIP: u64 = 10000;

/// The longest range a range query declares acceptable.
pub const MAX_LENGTH: u64 = 20;

/// The parameters of a range query: the highest height, and how many blocks.
#[derive(Debug, Clone, Copy, PartialEq, Eq, Structural)]
pub struct BlockRangeQueryParams {
    pub tip: Option<u64>,
    pub length: Option<u64>,
}

impl BlockRangeQueryParams {
    /// The declared bounds: a given tip lies in 1..=10000 and a given length
    /// in 1..=20.
    pub open spec fn within_bounds(&self) -> bool {
        &&& self.tip matches Some(t) ==> 1 <= t <= MAX_TIP
        &&& self.length matches Some(l) ==> 1 <= l <= MAX_LENGTH
    }

    /// Whether the parameters lie within their declared bounds.
    pub fn is_valid(&self) -> (ok: bool)
        ensures
            ok == self.within_bounds(),
            ok == ((self.tip is None || 1 <= self.tip->0 <= 10000) && (self.length is None || 1
                <= self.length->0 <= 20)),
    {
        let tip_ok = match self.tip {
            Some(t) => 1 <= t && t <= MAX_TIP,
            None => true,
        };
        let length_ok = match self.length {
            Some(l) => 1 <= l && l <= MAX_LENGTH,
            None => true,
        };
        tip_ok && length_ok
    }

    /// The tip asked for, or the default.
    pub open spec fn tip_or_default(&self) -> u64 {
        match self.tip {
            Some(t) => t,
            None => DEFAULT_TIP,
        }
    }

    /// The length asked for, or the default.
    pub open spec fn length_or_default(&self) -> u64 {
        match self.length {
            Some(l) => l,
            None => DEFAULT_LENGTH,
        }
    }
}

/// The errors of the block API.
#[derive(Debug, Clone)]
pub enum BlocksError {
    Database(String),
    Unknown(String),
    InvalidRange(String),
}

/// The message of the error raised for a range that reaches below height 1.
pub open spec fn invalid_range_message() -> Seq<char> {
    "Range would include block height less than 1"@
}

impl BlocksError {
    /// The text the error is shown with.
    pub open spec fn message_spec(&self) -> Seq<char> {
        match self {
            BlocksError::Database(s) => "Database error: "@ + s@,
            BlocksError::Unknown(s) => "Unknown error: "@ + s@,
            BlocksError::InvalidRange(s) => "Invalid range: "@ + s@,
        }
    }

    /// The text the error is shown with.
    pub fn message(&self) -> (s: String)
        ensures
            s@ == self.message_spec(),
    {
        match self {
            BlocksError::Database(s) => "Database error: ".to_owned().concat(s.as_str()),
            BlocksError::Unknown(s) => "Unknown error: ".to_owned().concat(s.as_str()),
            BlocksError::InvalidRange(s) => "Invalid range: ".to_owned().concat(s.as_str()),
        }
    }

    /// Every error of the block API is answered as an internal server error.
    pub fn status_code(&self) -> (code: u16)
        ensures
            code == 500,
    {
        match self {
            BlocksError::Unknown(_) | BlocksError::Database(_) | BlocksError::InvalidRange(_) => 500,
        }
    }
}

/// Checks a range query: the tip and the length default to 1, and the
/// earliest height `tip - length + 1` is computed in `u64`; a range whose
/// earliest height is not above 0 is refused. The subtraction and the addition
/// must not overflow (`requires`), so every range that passes them has an
/// earliest height of at least 1 and is accepted.
pub fn block_range_request(query: &BlockRangeQueryParams) -> (res: Result<(u64, u64), BlocksError>)
    requires
        query.length_or_default() <= query.tip_or_default(),
        query.tip_or_default() - query.length_or_default() + 1 <= u64::MAX,
    ensures
        query.tip_or_default() - query.length_or_default() + 1 <= 0 ==> (res matches Err(
            BlocksError::InvalidRange(msg),
        ) && msg@ == invalid_range_message()),
        query.tip_or_default() - query.length_or_default() + 1 > 0 ==> res == Ok::<
            (u64, u64),
            BlocksError,
        >((query.tip_or_default(), query.length_or_default())),
        res matches Ok((tip, length)) ==> {
            &&& tip == (if query.tip is Some { query.tip->0 } else { 1u64 })
            &&& length == (if query.length is Some { query.length->0 } else { 1u64 })
        },
{
    let tip = match query.tip {
        Some(t) => t,
        None => DEFAULT_TIP,
    };
    let length = match query.length {
        Some(l) => l,
        None => DEFAULT_LENGTH,
    };
    let earliest_block = tip - length + 1;
    if earliest_block <= 0 {
        let msg = "Range would include block height less than 1".to_owned();
        return Err(BlocksError::InvalidRange(msg));
    }
    Ok((tip, length))
}

/// Access to the stored blocks through the application's state.
pub struct BlocksRepository<S> {
    pub app_state: S,
}

impl<S> BlocksRepository<S> {
    /// A repository over `app_state`.
    pub fn new(app_state: S) -> (repo: Self)
        ensures
            repo.app_state == app_state,
    {
        BlocksRepository { app_state }
    }

    /// The stored heights a range query covers: from `tip - length + 1` up to
    /// `tip`, both included.
    pub fn block_range(tip: i32, length: i32) -> (range: (i32, i32))
        requires
            i32::MIN <= tip - length <= i32::MAX,
            tip - length + 1 <= i32::MAX,
        ensures
            range.0 == tip - length + 1,
            range.1 == tip,
    {
        let first_block = tip - length + 1;
        let last_block = tip;
        (first_block, last_block)
    }
}

/// The block service over the application's state.
pub struct BlocksService<S> {
    pub blocks_repo: BlocksRepository<S>,
}

impl<S> BlocksService<S> {
    /// A service whose repository works over `app_state`.
    pub fn new(app_state: S) -> (service: Self)
        ensures
            service.blocks_repo.app_state == app_state,
    {
        BlocksService { blocks_repo: BlocksRepository::new(app_state) }
    }
}

/// The stored height a requested height (or length) is looked up by.
pub open spec fn stored_height_spec(height: u64) -> i32 {
    height as i32
}

/// The stored height a requested height (or length) is looked up by.
pub fn stored_height(height: u64) -> (h: i32)
    ensures
        h == stored_height_spec(height),
{
    height as i32
}

/// The answer to a block query: the stored row as a served block, or the
/// repository's failure as a database error.
pub fn block_response(found: Result<BlocksDb, String>) -> (res: Result<Block, BlocksError>)
    ensures
        match found {
            Ok(row) => res matches Ok(block) && block@ == row@,
            Err(e) => res matches Err(BlocksError::Database(m)) && m@ == e@,
        },
{
    match found {
        Ok(row) => Ok(Block::from(row)),
        Err(e) => Err(BlocksError::Database(e)),
    }
}

/// The answer to a range query: every stored row, in order, as a served
/// block, or the repository's failure as a database error.
pub fn block_range_response(found: Result<Vec<BlocksDb>, String>) -> (res: Result<
    Vec<Block>,
    BlocksError,
>)
    ensures
        match found {
            Ok(rows) => res matches Ok(blocks) && blocks@.len() == rows@.len() && forall|i: int|
                0 <= i < rows@.len() ==> #[trigger] blocks@[i]@ == rows@[i]@,
            Err(e) => res matches Err(BlocksError::Database(m)) && m@ == e@,
        },
{
    match found {
        Ok(rows) => {
            let ghost all = rows@;
            let mut rest = rows;
            let mut blocks: Vec<Block> = Vec::new();
            while rest.len() > 0
                invariant
                    blocks@.len() + rest@.len() == all.len(),
                    rest@ == all.skip(blocks@.len() as int),
                    forall|i: int| 0 <= i < blocks@.len() ==> #[trigger] blocks@[i]@ == all[i]@,
                decreases rest@.len(),
            {
                let row = rest.remove(0);
                let ghost i = blocks@.len() as int;
                assert(row == all[i]);
                blocks.push(Block::from(row));
                assert(rest@ =~= all.skip(i + 1));
            }
            Ok(blocks)
        },
        Err(e) => Err(BlocksError::Database(e)),
    }
}

/// An accepted range query whose tip is a stored height is looked up over
/// exactly `length` stored heights, the highest being the tip and none below 1.
pub proof fn lemma_accepted_range_is_valid(query: BlockRangeQueryParams)
    requires
        query.tip_or_default() - query.length_or_default() + 1 >= 1,
        query.tip_or_default() <= i32::MAX,
    ensures
        ({
            let tip = stored_height_spec(query.tip_or_default());
            let length = stored_height_spec(query.length_or_default());
            &&& tip - length + 1 >= 1
            &&& tip - (tip - length + 1) + 1 == query.length_or_default()
            &&& tip == query.tip_or_default()
        }),
{
}

/// A range query's tip and length are the ones given, and 1 for each one not
/// given, each independently of the other.
pub proof fn lemma_range_defaults(query: BlockRangeQueryParams)
    ensures
        query.tip is None ==> query.tip_or_default() == 1,
        query.tip matches Some(t) ==> query.tip_or_default() == t,
        query.length is None ==> query.length_or_default() == 1,
        query.length matches Some(l) ==> query.length_or_default() == l,
{
}

/// The bounds of a range query hold each parameter on its own: a given tip in
/// 1..=10000 and a given length in 1..=20, whatever the other one is.
pub proof fn lemma_bounds_are_independent(query: BlockRangeQueryParams)
    ensures
        query.within_bounds() <==> ((query.tip is None || 1 <= query.tip->0 <= 10000) && (
        query.length is None || 1 <= query.length->0 <= 20)),
        query.length matches Some(l) && (l < 1 || l > 20) ==> !query.within_bounds(),
        query.tip matches Some(t) && (t < 1 || t > 10000) ==> !query.within_bounds(),
{
}

} // verus!

