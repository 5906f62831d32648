use git_pulse::CacheStatus;
use git_pulse::FetchPlan;
use git_pulse::IssueData;
use git_pulse::IssuesCache;
use git_pulse::MAX_AGE_MILLIS;
use git_pulse::RawComment;
use git_pulse::RawIssue;
use git_pulse::RawIssueState;
use git_pulse::check_cache_status;
use git_pulse::fetch_issues_plan;
use git_pulse::fetch_issues_plan_now;
use git_pulse::finish_refresh;
use git_pulse::get_cached_issue;
use git_pulse::integrate_single_issue;
use git_pulse::is_fresh;
use git_pulse::repo_key;

fn raw_issue(number: i64, title: &str) -> RawIssue {
    RawIssue {
        number,
        title: title.to_string(),
        state: RawIssueState::Open,
        created_at: "2024-01-01T00:00:00+00:00".to_string(),
        body: Some(format!("body of #{}", number)),
        labels: vec!["bug".to_string()],
        assignees: vec!["alice".to_string()],
        creator: "alice".to_string(),
    }
}

fn raw_comment(id: u64, body: &str) -> RawComment {
    RawComment {
        id,
        body: Some(body.to_string()),
        created_at: "2024-01-02T00:00:00+00:00".to_string(),
        updated_at: None,
        author: "bob".to_string(),
    }
}

fn issue(number: i64, title: &str) -> IssueData {
    IssueData {
        number,
        title: title.to_string(),
        state: "open".to_string(),
        created_at: "2024-01-01T00:00:00+00:00".to_string(),
        body: None,
        labels: vec![],
        assignees: vec![],
        comments: vec![],
        creator: "alice".to_string(),
    }
}

#[test]
fn repo_key_is_owner_slash_repo() {
    assert_eq!(repo_key("acme", "widgets"), "acme/widgets");
    assert_eq!(repo_key("", ""), "/");
}

#[test]
fn freshness_window_is_five_minutes() {
    assert_eq!(MAX_AGE_MILLIS, 300_000);
    assert!(is_fresh(1_000, 1_000 + MAX_AGE_MILLIS - 1, MAX_AGE_MILLIS));
    assert!(!is_fresh(1_000, 1_000 + MAX_AGE_MILLIS, MAX_AGE_MILLIS));
    // a clock that went backwards still counts as fresh
    assert!(is_fresh(5_000, 1_000, MAX_AGE_MILLIS));
}

#[test]
fn fresh_entry_is_served_without_fetching() {
    let mut cache = IssuesCache::new();
    let key = repo_key("acme", "widgets");
    cache.put(&key, vec![issue(1, "one"), issue(2, "two")], 10_000);
    match fetch_issues_plan(&cache, "acme", "widgets", 10_000 + 60_000, false) {
        FetchPlan::UseCached(v) => {
            assert_eq!(v.len(), 2);
            assert_eq!(v[0].number, 1);
            assert_eq!(v[0].title, "one");
            assert_eq!(v[1].number, 2);
        }
        FetchPlan::NeedsFetch => panic!("fresh entry must be served from the cache"),
    }
}

#[test]
fn stale_entry_needs_fetch() {
    let mut cache = IssuesCache::new();
    let key = repo_key("acme", "widgets");
    cache.put(&key, vec![issue(1, "one")], 10_000);
    match fetch_issues_plan(&cache, "acme", "widgets", 10_000 + MAX_AGE_MILLIS, false) {
        FetchPlan::UseCached(_) => panic!("stale entry must be refetched"),
        FetchPlan::NeedsFetch => {}
    }
}

#[test]
fn force_refresh_always_fetches() {
    let mut cache = IssuesCache::new();
    let key = repo_key("acme", "widgets");
    cache.put(&key, vec![issue(1, "one")], 10_000);
    // entry is perfectly fresh, yet the force flag bypasses it
    match fetch_issues_plan(&cache, "acme", "widgets", 10_001, true) {
        FetchPlan::UseCached(_) => panic!("force refresh must bypass the cache"),
        FetchPlan::NeedsFetch => {}
    }
}

#[test]
fn force_refresh_overwrites_the_entry() {
    let mut cache = IssuesCache::new();
    let raws = vec![raw_issue(7, "new title")];
    let comments = Ok(vec![vec![]]);
    cache.put(&repo_key("acme", "widgets"), vec![issue(7, "old title")], 10_000);
    let out = finish_refresh(&mut cache, "acme", "widgets", raws, comments, 20_000).unwrap();
    assert_eq!(out.len(), 1);
    assert_eq!(out[0].title, "new title");
    let cached = get_cached_issue(&cache, "acme", "widgets", 7).unwrap();
    assert_eq!(cached.title, "new title");
}

#[test]
fn put_keeps_first_record_per_number() {
    let mut cache = IssuesCache::new();
    let key = repo_key("acme", "widgets");
    cache.put(&key, vec![issue(1, "first"), issue(2, "two"), issue(1, "second")], 10_000);
    match fetch_issues_plan(&cache, "acme", "widgets", 10_001, false) {
        FetchPlan::UseCached(v) => {
            assert_eq!(v.len(), 2);
            assert_eq!(v[0].number, 1);
            assert_eq!(v[0].title, "first");
            assert_eq!(v[1].number, 2);
        }
        FetchPlan::NeedsFetch => panic!("entry just written must be fresh"),
    }
}

#[test]
fn upsert_replaces_in_place_or_appends() {
    let mut cache = IssuesCache::new();
    let key = repo_key("acme", "widgets");
    cache.put(&key, vec![issue(1, "one"), issue(2, "two")], 10_000);
    // existing number: replaced at its position, others untouched
    cache.upsert_issue(&key, issue(1, "one updated"), 99_000);
    // new number: appended
    cache.upsert_issue(&key, issue(3, "three"), 99_000);
    let (issues, last_updated) = cache.get(&key).unwrap();
    assert_eq!(issues.len(), 3);
    assert_eq!(issues[0].number, 1);
    assert_eq!(issues[0].title, "one updated");
    assert_eq!(issues[1].number, 2);
    assert_eq!(issues[1].title, "two");
    assert_eq!(issues[2].number, 3);
    // a single-issue patch does not bump the refresh time
    assert_eq!(last_updated, 10_000);
}

#[test]
fn upsert_on_missing_key_creates_the_entry() {
    let mut cache = IssuesCache::new();
    let key = repo_key("acme", "widgets");
    cache.upsert_issue(&key, issue(5, "five"), 42_000);
    let (issues, last_updated) = cache.get(&key).unwrap();
    assert_eq!(issues.len(), 1);
    assert_eq!(issues[0].number, 5);
    assert_eq!(last_updated, 42_000);
}

#[test]
fn failed_comment_fetch_leaves_cache_unchanged() {
    let mut cache = IssuesCache::new();
    let key = repo_key("acme", "widgets");
    cache.put(&key, vec![issue(1, "kept")], 10_000);
    let raws = vec![raw_issue(1, "replaced"), raw_issue(2, "added")];
    let out = finish_refresh(
        &mut cache,
        "acme",
        "widgets",
        raws,
        Err("comment fetch failed for issue 2".to_string()),
        20_000,
    );
    assert_eq!(out.unwrap_err(), "comment fetch failed for issue 2");
    let (issues, last_updated) = cache.get(&key).unwrap();
    assert_eq!(issues.len(), 1);
    assert_eq!(issues[0].title, "kept");
    assert_eq!(last_updated, 10_000);
}

#[test]
fn failed_refresh_of_uncached_repo_caches_nothing() {
    let mut cache = IssuesCache::new();
    let out = finish_refresh(
        &mut cache,
        "acme",
        "widgets",
        vec![raw_issue(1, "one")],
        Err("boom".to_string()),
        20_000,
    );
    assert_eq!(out.unwrap_err(), "boom");
    let status = check_cache_status(&cache, "acme", "widgets");
    assert!(!status.cached);
    assert_eq!(status.last_updated, None);
}

#[test]
fn uncached_repo_fetches_and_reports_cached() {
    let mut cache = IssuesCache::new();
    let status_before = check_cache_status(&cache, "acme", "widgets");
    assert!(!status_before.cached);
    let now: u64 = 1_700_000_000_000;
    match fetch_issues_plan(&cache, "acme", "widgets", now, false) {
        FetchPlan::UseCached(_) => panic!("no entry yet, a fetch is due"),
        FetchPlan::NeedsFetch => {}
    }
    // the fetch returned two issues, in GitHub's order
    let raws = vec![raw_issue(8, "late"), raw_issue(3, "early")];
    let comments = Ok(vec![vec![raw_comment(100, "hello")], vec![]]);
    let out = finish_refresh(&mut cache, "acme", "widgets", raws, comments, now).unwrap();
    assert_eq!(out.len(), 2);
    assert_eq!(out[0].number, 8);
    assert_eq!(out[1].number, 3);
    assert_eq!(out[0].comments.len(), 1);
    assert_eq!(out[0].comments[0].body, "hello");
    let status: CacheStatus = check_cache_status(&cache, "acme", "widgets");
    assert!(status.cached);
    assert_eq!(status.last_updated, Some(now));
    assert_eq!(status.etag, None);
}

#[test]
fn added_comment_shows_up_and_other_issues_are_untouched() {
    let mut cache = IssuesCache::new();
    let now: u64 = 50_000;
    let raws = vec![raw_issue(41, "fortyone"), raw_issue(42, "fortytwo")];
    let comments = Ok(vec![vec![], vec![]]);
    finish_refresh(&mut cache, "acme", "widgets", raws, comments, now).unwrap();
    let before_41 = get_cached_issue(&cache, "acme", "widgets", 41).unwrap();

    // a comment was added remotely; the follow-up refresh hands in the
    // post-mutation state of issue 42
    let updated = integrate_single_issue(
        &mut cache,
        "acme",
        "widgets",
        raw_issue(42, "fortytwo"),
        vec![raw_comment(7, "new comment")],
        60_000,
    );
    assert_eq!(updated.comments.len(), 1);
    assert_eq!(updated.comments[0].body, "new comment");
    assert_eq!(updated.comments[0].author, "bob");

    let cached_42 = get_cached_issue(&cache, "acme", "widgets", 42).unwrap();
    assert_eq!(cached_42.comments.len(), 1);
    assert_eq!(cached_42.comments[0].body, "new comment");

    let after_41 = get_cached_issue(&cache, "acme", "widgets", 41).unwrap();
    assert_eq!(after_41, before_41);
}

#[test]
fn second_fetch_within_a_minute_hits_the_network_once() {
    let mut cache = IssuesCache::new();
    let mut network_calls: u32 = 0;
    let now: u64 = 1_000_000;

    let first = match fetch_issues_plan(&cache, "acme", "widgets", now, false) {
        FetchPlan::NeedsFetch => {
            network_calls += 1;
            let raws = vec![raw_issue(1, "one")];
            finish_refresh(&mut cache, "acme", "widgets", raws, Ok(vec![vec![]]), now).unwrap()
        }
        FetchPlan::UseCached(v) => v,
    };

    let second = match fetch_issues_plan(&cache, "acme", "widgets", now + 60_000, false) {
        FetchPlan::NeedsFetch => {
            network_calls += 1;
            let raws = vec![raw_issue(1, "one")];
            finish_refresh(&mut cache, "acme", "widgets", raws, Ok(vec![vec![]]), now + 60_000)
                .unwrap()
        }
        FetchPlan::UseCached(v) => v,
    };

    assert_eq!(network_calls, 1);
    assert_eq!(first, second);
}

#[test]
fn cached_issue_lookup_misses_report_none() {
    let mut cache = IssuesCache::new();
    assert!(get_cached_issue(&cache, "acme", "widgets", 1).is_none());
    let key = repo_key("acme", "widgets");
    cache.put(&key, vec![issue(1, "one")], 10_000);
    assert!(get_cached_issue(&cache, "acme", "widgets", 2).is_none());
    assert!(get_cached_issue(&cache, "other", "repo", 1).is_none());
    assert_eq!(get_cached_issue(&cache, "acme", "widgets", 1).unwrap().title, "one");
}

#[test]
fn plan_against_the_wall_clock() {
    let mut cache = IssuesCache::new();
    match fetch_issues_plan_now(&cache, "acme", "widgets", false) {
        FetchPlan::NeedsFetch => {}
        FetchPlan::UseCached(_) => panic!("an empty cache cannot serve"),
    }
    let key = repo_key("acme", "widgets");
    // an entry whose refresh time lies far beyond any real clock
    // reading stays fresh, whatever the clock says
    cache.put(&key, vec![issue(1, "one")], u64::MAX / 2);
    match fetch_issues_plan_now(&cache, "acme", "widgets", false) {
        FetchPlan::UseCached(v) => assert_eq!(v[0].number, 1),
        FetchPlan::NeedsFetch => panic!("a fresh entry must be served"),
    }
    match fetch_issues_plan_now(&cache, "acme", "widgets", true) {
        FetchPlan::UseCached(_) => panic!("force refresh must bypass the cache"),
        FetchPlan::NeedsFetch => {}
    }
}

#[test]
fn put_never_moves_the_refresh_time_backward() {
    let mut cache = IssuesCache::new();
    let key = repo_key("acme", "widgets");
    cache.put(&key, vec![issue(1, "one")], 50_000);
    // a racing write with an older clock reading cannot rewind the entry
    cache.put(&key, vec![issue(1, "one")], 40_000);
    let (_, last_updated) = cache.get(&key).unwrap();
    assert_eq!(last_updated, 50_000);
}
