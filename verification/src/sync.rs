//! Sync operations: the decisions and cache writes of a full
//! refresh and of a single-issue refresh. Network fetching itself
//! happens outside; these functions consume its results and keep the
//! cache consistent.

use vstd::prelude::*;
use vstd::string::StringExecFns;

use crate::freshness::MAX_AGE_MILLIS;
use crate::freshness::is_fresh;
use crate::model::IssueData;
use crate::model::RawComment;
use crate::model::RawIssue;
use crate::model::clone_issues;
use crate::model::issue_like;
use crate::model::issue_normalized;
use crate::model::issues_like;
use crate::model::normalize_comments;
use crate::model::normalize_issue;
use crate::store::CacheStatus;
use crate::store::IssuesCache;
use crate::store::dedup_numbers;
use crate::store::entry_for;
use crate::store::has_key;
use crate::store::has_number;
use crate::store::idx_of_number;
use crate::store::put_into;
use crate::store::upserted;
use crate::time::now_millis;

verus! {

/// The cache key of a repository: "{owner}/{repo}".
pub open spec fn spec_repo_key(owner: Seq<char>, repo: Seq<char>) -> Seq<char> {
    owner + seq!['/'] + repo
}

/// Builds the cache key "{owner}/{repo}".
pub fn repo_key(owner: &str, repo: &str) -> (r: String)
    ensures
        r@ == spec_repo_key(owner@, repo@),
{
    let mut s = owner.to_owned();
    s.append("/");
    s.append(repo);
    proof {
        reveal_strlit("/");
        assert("/"@ =~= seq!['/']);
        assert(s@ =~= spec_repo_key(owner@, repo@));
    }
    s
}

/// The first step of a full refresh: either the cached list is served
/// as it is, or the caller must fetch from the network.
pub enum FetchPlan {
    UseCached(Vec<IssueData>),
    NeedsFetch,
}

/// Decides the fast path of a full refresh at time `now`: with the
/// force flag off and a fresh entry, the cached list is returned as
/// an independent copy and nothing is fetched; with the flag on, or
/// the entry missing or stale, the caller must fetch.
pub fn fetch_issues_plan(
    cache: &IssuesCache,
    owner: &str,
    repo: &str,
    now: u64,
    force_refresh: bool,
) -> (r: FetchPlan)
    requires
        cache.wf(),
    ensures
        force_refresh ==> r is NeedsFetch,
        r is NeedsFetch <==> (force_refresh || !has_key(cache@, spec_repo_key(owner@, repo@))
            || now >= entry_for(cache@, spec_repo_key(owner@, repo@)).last_updated
            + MAX_AGE_MILLIS),
        r matches FetchPlan::UseCached(v) ==> has_key(cache@, spec_repo_key(owner@, repo@))
            && now < entry_for(cache@, spec_repo_key(owner@, repo@)).last_updated
            + MAX_AGE_MILLIS && issues_like(
            entry_for(cache@, spec_repo_key(owner@, repo@)).issues@,
            v@,
        ),
{
    if force_refresh {
        return FetchPlan::NeedsFetch;
    }
    let key = repo_key(owner, repo);
    match cache.get(&key) {
        Some(pair) => {
            if is_fresh(pair.1, now, MAX_AGE_MILLIS) {
                FetchPlan::UseCached(pair.0)
            } else {
                FetchPlan::NeedsFetch
            }
        }
        None => FetchPlan::NeedsFetch,
    }
}

/// Decides the fast path of a full refresh against the wall clock.
/// The clock is read inside, so only what holds at every time is
/// stated: forcing always fetches, and a served list is the cached
/// one.
pub fn fetch_issues_plan_now(
    cache: &IssuesCache,
    owner: &str,
    repo: &str,
    force_refresh: bool,
) -> (r: FetchPlan)
    requires
        cache.wf(),
    ensures
        force_refresh ==> r is NeedsFetch,
        r matches FetchPlan::UseCached(v) ==> has_key(cache@, spec_repo_key(owner@, repo@))
            && issues_like(entry_for(cache@, spec_repo_key(owner@, repo@)).issues@, v@),
{
    let now = now_millis();
    fetch_issues_plan(cache, owner, repo, now, force_refresh)
}

/// Normalizes the fetched issues of a full refresh, attaching to each
/// issue its fetched comment list. The two lists run in step.
pub fn normalize_refresh(raw_issues: Vec<RawIssue>, comments: Vec<Vec<RawComment>>) -> (out: Vec<
    IssueData,
>)
    requires
        comments@.len() == raw_issues@.len(),
    ensures
        out@.len() == raw_issues@.len(),
        forall|i: int|
            0 <= i < out@.len() ==> issue_normalized(
                raw_issues@[i],
                comments@[i]@,
                #[trigger] out@[i],
            ),
{
    let ghost raws = raw_issues@;
    let ghost cms = comments@;
    let mut out: Vec<IssueData> = Vec::new();
    let mut rest_issues = raw_issues;
    let mut rest_comments = comments;
    let mut taken: usize = 0;
    let n: usize = rest_issues.len();
    proof {
        assert(raws.skip(0) =~= raws);
        assert(cms.skip(0) =~= cms);
    }
    while rest_issues.len() > 0
        invariant
            raws.len() == n,
            cms.len() == n,
            taken + rest_issues.len() == n,
            rest_issues@ =~= raws.skip(taken as int),
            rest_comments@ =~= cms.skip(taken as int),
            out@.len() == taken,
            forall|i: int|
                0 <= i < taken ==> issue_normalized(raws[i], cms[i]@, #[trigger] out@[i]),
        decreases rest_issues.len(),
    {
        let raw = rest_issues.remove(0);
        let cm = rest_comments.remove(0);
        proof {
            assert(raw == raws[taken as int]);
            assert(cm == cms[taken as int]);
            assert(rest_issues@ =~= raws.skip(taken as int + 1));
            assert(rest_comments@ =~= cms.skip(taken as int + 1));
        }
        let mut d = normalize_issue(raw);
        d.comments = normalize_comments(cm);
        out.push(d);
        taken = taken + 1;
    }
    out
}

/// Commits a full refresh, all or nothing: when every comment list
/// was fetched, the issues are normalized and written through `put`
/// under "{owner}/{repo}" and the stored list is returned; when
/// comment fetching failed, the cache is left exactly as it was and
/// the error is passed on.
pub fn finish_refresh(
    cache: &mut IssuesCache,
    owner: &str,
    repo: &str,
    raw_issues: Vec<RawIssue>,
    comments: Result<Vec<Vec<RawComment>>, String>,
    now: u64,
) -> (r: Result<Vec<IssueData>, String>)
    requires
        old(cache).wf(),
        comments matches Ok(cs) ==> cs@.len() == raw_issues@.len(),
    ensures
        final(cache).wf(),
        comments matches Err(m) ==> final(cache)@ == old(cache)@ && (r matches Err(m2) && m2
            == m),
        comments matches Ok(cs) ==> r is Ok && exists|processed: Seq<IssueData>|
            {
                &&& processed.len() == raw_issues@.len()
                &&& (forall|i: int|
                    0 <= i < processed.len() ==> issue_normalized(
                        raw_issues@[i],
                        cs@[i]@,
                        #[trigger] processed[i],
                    ))
                &&& put_into(
                    old(cache)@,
                    final(cache)@,
                    spec_repo_key(owner@, repo@),
                    processed,
                    now,
                )
                &&& issues_like(
                    entry_for(final(cache)@, spec_repo_key(owner@, repo@)).issues@,
                    (r->Ok_0)@,
                )
            },
{
    match comments {
        Ok(cs) => {
            let processed = normalize_refresh(raw_issues, cs);
            let ghost processed_view = processed@;
            let key = repo_key(owner, repo);
            cache.put(&key, processed, now);
            let out = match cache.get(&key) {
                Some(pair) => pair.0,
                None => Vec::new(),
            };
            proof {
                assert(has_key(cache@, key@));
            }
            Ok(out)
        }
        Err(m) => Err(m),
    }
}

/// Integrates a freshly fetched single issue: normalizes it with its
/// comments, patches it into the cache under "{owner}/{repo}" through
/// `upsert_issue`, and returns the updated record. The rest of the
/// cached list is untouched.
pub fn integrate_single_issue(
    cache: &mut IssuesCache,
    owner: &str,
    repo: &str,
    raw: RawIssue,
    comments: Vec<RawComment>,
    now: u64,
) -> (r: IssueData)
    requires
        old(cache).wf(),
    ensures
        final(cache).wf(),
        issue_normalized(raw, comments@, r),
        exists|d: IssueData|
            {
                &&& issue_normalized(raw, comments@, d)
                &&& issue_like(d, r)
                &&& #[trigger] upserted(
                    old(cache)@,
                    final(cache)@,
                    spec_repo_key(owner@, repo@),
                    d,
                    now,
                )
            },
{
    let mut d = normalize_issue(raw);
    d.comments = normalize_comments(comments);
    let key = repo_key(owner, repo);
    let stored = d.clone();
    let ghost stored_view = stored;
    proof {
        assert(stored.comments@ =~= d.comments@);
    }
    cache.upsert_issue(&key, stored, now);
    proof {
        assert(issue_normalized(raw, comments@, stored_view));
        assert(issue_like(stored_view, d));
        assert(upserted(old(cache)@, cache@, spec_repo_key(owner@, repo@), stored_view, now));
    }
    d
}

/// Whether this repository is cached and when it was last fully
/// refreshed.
pub fn check_cache_status(cache: &IssuesCache, owner: &str, repo: &str) -> (r: CacheStatus)
    requires
        cache.wf(),
    ensures
        r.cached == has_key(cache@, spec_repo_key(owner@, repo@)),
        r.last_updated is Some <==> has_key(cache@, spec_repo_key(owner@, repo@)),
        has_key(cache@, spec_repo_key(owner@, repo@)) ==> r.last_updated->0 == entry_for(
            cache@,
            spec_repo_key(owner@, repo@),
        ).last_updated,
        r.etag is None,
{
    let key = repo_key(owner, repo);
    cache.status(&key)
}

/// An independent copy of the cached record for this issue number, if
/// the repository is cached and the number present; the cache is not
/// refreshed.
pub fn get_cached_issue(cache: &IssuesCache, owner: &str, repo: &str, issue_number: i64) -> (r:
    Option<IssueData>)
    requires
        cache.wf(),
    ensures
        r is Some <==> has_key(cache@, spec_repo_key(owner@, repo@)) && has_number(
            entry_for(cache@, spec_repo_key(owner@, repo@)).issues@,
            issue_number,
        ),
        r matches Some(d) ==> issue_like(
            entry_for(cache@, spec_repo_key(owner@, repo@)).issues@[idx_of_number(
                entry_for(cache@, spec_repo_key(owner@, repo@)).issues@,
                issue_number,
            )],
            d,
        ),
{
    let key = repo_key(owner, repo);
    cache.cached_issue(&key, issue_number)
}

} // verus!
