//! File-suggestion support: the request shape and the cache key under
//! which suggestions for one issue are stored.

use vstd::prelude::*;
use vstd::string::StringExecFns;

use crate::decimal::spec_dec;
use crate::decimal::u64_to_dec;

verus! {

/// A request for file suggestions on one issue.
#[derive(Debug, PartialEq, Eq)]
pub struct IssueInput {
    pub repo_name: String,
    pub issue_number: u64,
}

/// The identity of one issue's suggestion entry.
#[derive(Debug, Hash, Eq, PartialEq)]
pub struct CacheKey {
    pub repo_name: String,
    pub issue_number: u64,
}

/// Builds the store key "{repo}_{issue number}" under which file
/// suggestions for one issue are kept.
pub fn get_cache_key(repo_name: &str, issue_number: u64) -> (r: String)
    ensures
        r@ == repo_name@ + seq!['_'] + spec_dec(issue_number as nat),
{
    let mut s = repo_name.to_owned();
    s.append("_");
    s.append(u64_to_dec(issue_number).as_str());
    proof {
        reveal_strlit("_");
        assert("_"@ =~= seq!['_']);
        assert(s@ =~= repo_name@ + seq!['_'] + spec_dec(issue_number as nat));
    }
    s
}

} // verus!
