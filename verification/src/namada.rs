//! What the crawler makes of Namada's answers: the last committed block and
//! the epoch at a height.

use vstd::prelude::*;
use vstd::string::StringExecFns;

verus! {

/// Why a query to Namada gave no usable answer.
#[derive(Debug, Clone, Copy, PartialEq, Eq, Structural)]
pub enum NamadaQueryError {
    /// The query for the last committed block failed.
    LastBlockQueryFailed,
    /// Namada reported no last committed block.
    NoLastBlock,
    /// The query for the epoch at `height` failed.
    EpochQueryFailed { height: u32 },
    /// Namada reported no epoch at `height`.
    NoEpoch { height: u32 },
}

/// The character of a decimal digit.
pub open spec fn digit_char(d: nat) -> char {
    if d == 0 {
        '0'
    } else if d == 1 {
        '1'
    } else if d == 2 {
        '2'
    } else if d == 3 {
        '3'
    } else if d == 4 {
        '4'
    } else if d == 5 {
        '5'
    } else if d == 6 {
        '6'
    } else if d == 7 {
        '7'
    } else if d == 8 {
        '8'
    } else {
        '9'
    }
}

/// A number written in decimal, most significant digit first, without
/// leading zeros.
pub open spec fn decimal(n: nat) -> Seq<char>
    decreases n,
{
    if n < 10 {
        seq![digit_char(n)]
    } else {
        decimal(n / 10).push(digit_char(n % 10))
    }
}

fn digit_str(d: u32) -> (s: &'static str)
    requires
        d < 10,
    ensures
        s@ == seq![digit_char(d as nat)],
{
    if d == 0 {
        proof { reveal_strlit("0"); }
        "0"
    } else if d == 1 {
        proof { reveal_strlit("1"); }
        "1"
    } else if d == 2 {
        proof { reveal_strlit("2"); }
        "2"
    } else if d == 3 {
        proof { reveal_strlit("3"); }
        "3"
    } else if d == 4 {
        proof { reveal_strlit("4"); }
        "4"
    } else if d == 5 {
        proof { reveal_strlit("5"); }
        "5"
    } else if d == 6 {
        proof { reveal_strlit("6"); }
        "6"
    } else if d == 7 {
        proof { reveal_strlit("7"); }
        "7"
    } else if d == 8 {
        proof { reveal_strlit("8"); }
        "8"
    } else {
        proof { reveal_strlit("9"); }
        "9"
    }
}

/// Appends `n` written in decimal to `s`.
fn push_decimal(s: &mut String, n: u32)
    ensures
        final(s)@ == old(s)@ + decimal(n as nat),
    decreases n,
{
    let ghost start = s@;
    if n >= 10 {
        push_decimal(s, n / 10);
    }
    s.append(digit_str(n % 10));
    proof {
        if n >= 10 {
            assert(start + decimal(n as nat) =~= start + decimal((n / 10) as nat) + seq![
                digit_char((n % 10) as nat),
            ]);
        } else {
            assert(start + decimal(n as nat) =~= start + seq![digit_char((n % 10) as nat)]);
        }
    }
}

impl NamadaQueryError {
    /// The text the error is shown with.
    pub open spec fn message_spec(&self) -> Seq<char> {
        match self {
            NamadaQueryError::LastBlockQueryFailed => "Failed to query Namada's last committed block"@,
            NamadaQueryError::NoLastBlock => "No last block found"@,
            NamadaQueryError::EpochQueryFailed { height } => "Failed to query Namada's epoch at height "@
                + decimal(*height as nat),
            NamadaQueryError::NoEpoch { height } => "No Namada epoch found for height "@ + decimal(
                *height as nat,
            ),
        }
    }

    /// The text the error is shown with.
    pub fn message(&self) -> (s: String)
        ensures
            s@ == self.message_spec(),
    {
        match self {
            NamadaQueryError::LastBlockQueryFailed => "Failed to query Namada's last committed block".to_owned(),
            NamadaQueryError::NoLastBlock => "No last block found".to_owned(),
            NamadaQueryError::EpochQueryFailed { height } => {
                let mut s = "Failed to query Namada's epoch at height ".to_owned();
                push_decimal(&mut s, *height);
                s
            },
            NamadaQueryError::NoEpoch { height } => {
                let mut s = "No Namada epoch found for height ".to_owned();
                push_decimal(&mut s, *height);
                s
            },
        }
    }
}

/// The last committed block's height as a block height, from Namada's reply
/// (`Err` when the query failed, `None` when there is no such block).
pub fn last_block_height(reply: Result<Option<u64>, ()>) -> (res: Result<u32, NamadaQueryError>)
    ensures
        res == match reply {
            Err(_) => Err(NamadaQueryError::LastBlockQueryFailed),
            Ok(None) => Err(NamadaQueryError::NoLastBlock),
            Ok(Some(h)) => Ok::<u32, NamadaQueryError>(h as u32),
        },
{
    match reply {
        Err(_) => Err(NamadaQueryError::LastBlockQueryFailed),
        Ok(None) => Err(NamadaQueryError::NoLastBlock),
        Ok(Some(h)) => Ok(h as u32),
    }
}

/// The epoch of the block at `block_height` as the crawler keeps it, from
/// Namada's reply (`Err` when the query failed, `None` when there is no epoch).
pub fn epoch_at_height(block_height: u32, reply: Result<Option<u64>, ()>) -> (res: Result<
    u32,
    NamadaQueryError,
>)
    ensures
        res == match reply {
            Err(_) => Err(NamadaQueryError::EpochQueryFailed { height: block_height }),
            Ok(None) => Err(NamadaQueryError::NoEpoch { height: block_height }),
            Ok(Some(e)) => Ok::<u32, NamadaQueryError>(e as u32),
        },
{
    match reply {
        Err(_) => Err(NamadaQueryError::EpochQueryFailed { height: block_height }),
        Ok(None) => Err(NamadaQueryError::NoEpoch { height: block_height }),
        Ok(Some(e)) => Ok(e as u32),
    }
}

} // verus!
