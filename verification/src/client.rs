//! The headers the chain client sends with every request.

use vstd::prelude::*;

verus! {

/// The name the client announces itself with.
pub open spec fn user_agent() -> Seq<char> {
    "namada-indexer"@
}

/// The headers sent with every request: the indexer's `version` under
/// `x-namada`, and the indexer's name as `User-Agent`, in that order.
pub fn default_headers(version: &str) -> (headers: Vec<(String, String)>)
    ensures
        headers@.len() == 2,
        headers@[0].0@ == "x-namada"@,
        headers@[0].1@ == version@,
        headers@[1].0@ == "User-Agent"@,
        headers@[1].1@ == user_agent(),
{
    let mut headers: Vec<(String, String)> = Vec::new();
    headers.push(("x-namada".to_owned(), version.to_owned()));
    headers.push(("User-Agent".to_owned(), "namada-indexer".to_owned()));
    headers
}

} // verus!
