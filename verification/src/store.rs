//! The cache store: a table of repository key to cached issue list and
//! last-refresh timestamp. It owns all mutation and keeps two
//! invariants: one entry per key, and one record per issue number
//! within an entry.

use vstd::prelude::*;

use crate::model::IssueData;
use crate::model::clone_issues;
use crate::model::issue_like;
use crate::model::issues_like;

verus! {

/// One cached repository: its key, its issue list and the time of the
/// last full refresh, in milliseconds since the Unix epoch.
pub struct CacheEntry {
    pub key: String,
    pub issues: Vec<IssueData>,
    pub last_updated: u64,
}

/// Read-only diagnostic for one repository key.
#[derive(Debug)]
pub struct CacheStatus {
    pub cached: bool,
    pub last_updated: Option<u64>,
    pub etag: Option<String>,
}

/// The table of cached repositories. All mutation of cached issue data
/// goes through `put` and `upsert_issue`, which keep it well formed.
pub struct IssuesCache {
    entries: Vec<CacheEntry>,
}

impl View for IssuesCache {
    type V = Seq<CacheEntry>;

    closed spec fn view(&self) -> Seq<CacheEntry> {
        self.entries@
    }
}

/// No two entries share a key.
pub open spec fn unique_keys(s: Seq<CacheEntry>) -> bool {
    forall|i: int, j: int| 0 <= i < j < s.len() ==> s[i].key@ != s[j].key@
}

/// No two records in one list share an issue number.
pub open spec fn unique_numbers(s: Seq<IssueData>) -> bool {
    forall|i: int, j: int| 0 <= i < j < s.len() ==> s[i].number != s[j].number
}

/// Whether some entry has this key.
pub open spec fn has_key(s: Seq<CacheEntry>, k: Seq<char>) -> bool {
    exists|i: int| 0 <= i < s.len() && s[i].key@ == k
}

/// The index of the entry with this key (meaningful when `has_key`).
pub open spec fn idx_of(s: Seq<CacheEntry>, k: Seq<char>) -> int {
    choose|i: int| 0 <= i < s.len() && s[i].key@ == k
}

/// The entry with this key (meaningful when `has_key`).
pub open spec fn entry_for(s: Seq<CacheEntry>, k: Seq<char>) -> CacheEntry {
    s[idx_of(s, k)]
}

/// Whether some record in the list has this issue number.
pub open spec fn has_number(s: Seq<IssueData>, n: i64) -> bool {
    exists|i: int| 0 <= i < s.len() && s[i].number == n
}

/// The index of the record with this issue number (meaningful when
/// `has_number`).
pub open spec fn idx_of_number(s: Seq<IssueData>, n: i64) -> int {
    choose|i: int| 0 <= i < s.len() && s[i].number == n
}

/// The larger of two timestamps.
pub open spec fn max64(a: u64, b: u64) -> u64 {
    if a >= b {
        a
    } else {
        b
    }
}

/// The issue list with duplicate numbers dropped, keeping the first
/// record of each number in order.
pub open spec fn dedup_numbers(s: Seq<IssueData>) -> Seq<IssueData>
    decreases s.len(),
{
    if s.len() == 0 {
        s
    } else {
        let d = dedup_numbers(s.drop_last());
        if has_number(d, s.last().number) {
            d
        } else {
            d.push(s.last())
        }
    }
}

/// What `put` does: under key `k` the table `f` holds the written
/// list with duplicate numbers dropped and a timestamp that never
/// moves backward, and it is the table `o` with exactly that one
/// entry replaced or appended; every other key is untouched.
pub open spec fn put_into(
    o: Seq<CacheEntry>,
    f: Seq<CacheEntry>,
    k: Seq<char>,
    issues: Seq<IssueData>,
    now: u64,
) -> bool {
    &&& has_key(f, k)
    &&& entry_for(f, k).key@ == k
    &&& entry_for(f, k).issues@ == dedup_numbers(issues)
    &&& (unique_numbers(issues) ==> entry_for(f, k).issues@ == issues)
    &&& (has_key(o, k) ==> entry_for(f, k).last_updated == max64(
        now,
        entry_for(o, k).last_updated,
    ) && f == o.update(idx_of(o, k), entry_for(f, k)))
    &&& (!has_key(o, k) ==> entry_for(f, k).last_updated == now && f == o.push(entry_for(f, k)))
    &&& (forall|k2: Seq<char>| k2 != k ==> has_key(f, k2) == has_key(o, k2))
    &&& (forall|k2: Seq<char>| k2 != k && has_key(o, k2) ==> entry_for(f, k2) == entry_for(o, k2))
}

/// What `upsert_issue` does: under key `k` the table `f` holds the
/// old entry with the record numbered like `d` replaced in place by
/// `d`, or with `d` appended when the number is new; the entry's
/// timestamp does not move. A missing entry is created with only `d`
/// and `now`. Every other key is untouched.
pub open spec fn upserted(
    o: Seq<CacheEntry>,
    f: Seq<CacheEntry>,
    k: Seq<char>,
    d: IssueData,
    now: u64,
) -> bool {
    &&& has_key(f, k)
    &&& entry_for(f, k).key@ == k
    &&& (has_key(o, k) ==> {
        &&& f == o.update(idx_of(o, k), entry_for(f, k))
        &&& entry_for(f, k).key == entry_for(o, k).key
        &&& entry_for(f, k).last_updated == entry_for(o, k).last_updated
        &&& (has_number(entry_for(o, k).issues@, d.number) ==> entry_for(f, k).issues@
            == entry_for(o, k).issues@.update(
            idx_of_number(entry_for(o, k).issues@, d.number),
            d,
        ))
        &&& (!has_number(entry_for(o, k).issues@, d.number) ==> entry_for(f, k).issues@
            == entry_for(o, k).issues@.push(d))
    })
    &&& (!has_key(o, k) ==> {
        &&& f == o.push(entry_for(f, k))
        &&& entry_for(f, k).issues@ == seq![d]
        &&& entry_for(f, k).last_updated == now
    })
    &&& (forall|k2: Seq<char>| k2 != k ==> has_key(f, k2) == has_key(o, k2))
    &&& (forall|k2: Seq<char>| k2 != k && has_key(o, k2) ==> entry_for(f, k2) == entry_for(o, k2))
}

impl IssuesCache {
    /// Well-formedness: entry keys are unique, and within each entry
    /// the issue numbers are unique. Established by `new` and kept by
    /// every mutating operation.
    pub open spec fn wf(&self) -> bool {
        &&& unique_keys(self@)
        &&& forall|i: int| 0 <= i < self@.len() ==> unique_numbers(#[trigger] self@[i].issues@)
    }

    /// An empty cache, as at application startup.
    pub fn new() -> (r: Self)
        ensures
            r@ == Seq::<CacheEntry>::empty(),
            r.wf(),
    {
        IssuesCache { entries: Vec::new() }
    }
}

impl Default for IssuesCache {
    fn default() -> (r: Self)
        ensures
            r@ == Seq::<CacheEntry>::empty(),
            r.wf(),
    {
        IssuesCache::new()
    }
}

/// With unique keys, any entry that matches a key stands at the one
/// index the key can be found at.
pub proof fn lemma_idx_unique(s: Seq<CacheEntry>, k: Seq<char>, i: int)
    requires
        unique_keys(s),
        0 <= i < s.len(),
        s[i].key@ == k,
    ensures
        has_key(s, k),
        idx_of(s, k) == i,
        entry_for(s, k) == s[i],
{
    assert(has_key(s, k));
    let j = idx_of(s, k);
    if j != i {
        if j < i {
            assert(s[j].key@ != s[i].key@);
        } else {
            assert(s[i].key@ != s[j].key@);
        }
    }
}

/// With unique numbers, any record that matches a number stands at the
/// one index the number can be found at.
pub proof fn lemma_number_idx_unique(s: Seq<IssueData>, n: i64, i: int)
    requires
        unique_numbers(s),
        0 <= i < s.len(),
        s[i].number == n,
    ensures
        has_number(s, n),
        idx_of_number(s, n) == i,
{
    assert(has_number(s, n));
    let j = idx_of_number(s, n);
    if j != i {
        if j < i {
            assert(s[j].number != s[i].number);
        } else {
            assert(s[i].number != s[j].number);
        }
    }
}

/// Deduplication keeps exactly the numbers of the input, yields unique
/// numbers, and leaves a list that already had unique numbers as it is.
pub proof fn lemma_dedup_numbers(s: Seq<IssueData>)
    ensures
        unique_numbers(dedup_numbers(s)),
        forall|n: i64| has_number(dedup_numbers(s), n) == has_number(s, n),
        dedup_numbers(s).len() <= s.len(),
        unique_numbers(s) ==> dedup_numbers(s) == s,
    decreases s.len(),
{
    if s.len() == 0 {
    } else {
        let dl = s.drop_last();
        lemma_dedup_numbers(dl);
        let d = dedup_numbers(dl);
        let last = s.last();
        assert forall|n: i64| has_number(#[trigger] dedup_numbers(s), n) == has_number(s, n) by {
            let ds = dedup_numbers(s);
            assert(has_number(dedup_numbers(dl), n) == has_number(dl, n));
            if has_number(ds, n) {
                let i = choose|i: int| 0 <= i < ds.len() && ds[i].number == n;
                if i < d.len() {
                    assert(d[i].number == n);
                    assert(has_number(d, n));
                    let j = choose|j: int| 0 <= j < dl.len() && dl[j].number == n;
                    assert(s[j].number == n);
                    assert(has_number(s, n));
                } else {
                    assert(ds[i] == last);
                    assert(s[s.len() - 1].number == n);
                    assert(has_number(s, n));
                }
            }
            if has_number(s, n) {
                let i = choose|i: int| 0 <= i < s.len() && s[i].number == n;
                if i < s.len() - 1 {
                    assert(dl[i].number == n);
                    assert(has_number(dl, n));
                    assert(has_number(d, n));
                    let j = choose|j: int| 0 <= j < d.len() && d[j].number == n;
                    assert(ds[j].number == n);
                    assert(has_number(ds, n));
                } else {
                    if has_number(d, last.number) {
                        assert(ds == d);
                        assert(has_number(ds, n));
                    } else {
                        assert(ds.last().number == n);
                        assert(has_number(ds, n));
                    }
                }
            }
        }
        if !has_number(d, last.number) {
            assert forall|i: int, j: int|
                0 <= i < j < dedup_numbers(s).len() implies dedup_numbers(s)[i].number
                != dedup_numbers(s)[j].number by {
                if j < d.len() {
                } else {
                    assert(dedup_numbers(s)[j] == last);
                    assert(dedup_numbers(s)[i] == d[i]);
                    assert(!has_number(d, last.number));
                    assert(d[i].number != last.number);
                }
            }
        }
        if unique_numbers(s) {
            assert forall|i: int, j: int| 0 <= i < j < dl.len() implies dl[i].number
                != dl[j].number by {
                assert(s[i].number != s[j].number);
            }
            assert(dedup_numbers(dl) == dl);
            if has_number(dl, last.number) {
                let i = choose|i: int| 0 <= i < dl.len() && dl[i].number == last.number;
                assert(s[i].number == s[s.len() - 1].number);
                assert(false);
            }
            assert(dedup_numbers(s) == dl.push(last));
            assert(dl.push(last) =~= s);
        }
    }
}

/// Replacing the entry at the index its key is found at leaves every
/// other key's entry, and the key set, as they were.
pub proof fn lemma_update_entry(s: Seq<CacheEntry>, i: int, e: CacheEntry)
    requires
        unique_keys(s),
        0 <= i < s.len(),
        e.key@ == s[i].key@,
    ensures
        unique_keys(s.update(i, e)),
        has_key(s.update(i, e), e.key@),
        idx_of(s.update(i, e), e.key@) == i,
        entry_for(s.update(i, e), e.key@) == e,
        forall|k: Seq<char>| k != e.key@ ==> has_key(s.update(i, e), k) == has_key(s, k),
        forall|k: Seq<char>|
            k != e.key@ && has_key(s, k) ==> entry_for(s.update(i, e), k) == entry_for(s, k),
{
    let s2 = s.update(i, e);
    assert(forall|x: int| 0 <= x < s2.len() ==> #[trigger] s2[x].key@ == s[x].key@);
    lemma_idx_unique(s2, e.key@, i);
    assert forall|k: Seq<char>| k != e.key@ implies has_key(s2, k) == has_key(s, k) by {
        if has_key(s2, k) {
            let x = choose|x: int| 0 <= x < s2.len() && s2[x].key@ == k;
            assert(s[x].key@ == k);
            assert(has_key(s, k));
        }
        if has_key(s, k) {
            let x = choose|x: int| 0 <= x < s.len() && s[x].key@ == k;
            assert(s2[x].key@ == k);
            assert(has_key(s2, k));
        }
    }
    assert forall|k: Seq<char>| k != e.key@ && has_key(s, k) implies entry_for(s2, k)
        == entry_for(s, k) by {
        let j = idx_of(s, k);
        assert(s[j].key@ == k);
        lemma_idx_unique(s2, k, j);
        assert(j != i);
    }
}

/// Appending an entry under a key not yet present leaves every other
/// key's entry, and their key set, as they were.
pub proof fn lemma_push_entry(s: Seq<CacheEntry>, e: CacheEntry)
    requires
        unique_keys(s),
        !has_key(s, e.key@),
    ensures
        unique_keys(s.push(e)),
        has_key(s.push(e), e.key@),
        idx_of(s.push(e), e.key@) == s.len(),
        entry_for(s.push(e), e.key@) == e,
        forall|k: Seq<char>| k != e.key@ ==> has_key(s.push(e), k) == has_key(s, k),
        forall|k: Seq<char>|
            k != e.key@ && has_key(s, k) ==> entry_for(s.push(e), k) == entry_for(s, k),
{
    let s2 = s.push(e);
    assert forall|a: int, b: int| 0 <= a < b < s2.len() implies s2[a].key@ != s2[b].key@ by {
        if b == s.len() {
            assert(s2[a] == s[a]);
            if s[a].key@ == e.key@ {
                assert(has_key(s, e.key@));
            }
        }
    }
    lemma_idx_unique(s2, e.key@, s.len() as int);
    assert forall|k: Seq<char>| k != e.key@ implies has_key(s2, k) == has_key(s, k) by {
        if has_key(s2, k) {
            let x = choose|x: int| 0 <= x < s2.len() && s2[x].key@ == k;
            assert(x < s.len());
            assert(s[x].key@ == k);
            assert(has_key(s, k));
        }
        if has_key(s, k) {
            let x = choose|x: int| 0 <= x < s.len() && s[x].key@ == k;
            assert(s2[x].key@ == k);
            assert(has_key(s2, k));
        }
    }
    assert forall|k: Seq<char>| k != e.key@ && has_key(s, k) implies entry_for(s2, k)
        == entry_for(s, k) by {
        let j = idx_of(s, k);
        assert(s[j].key@ == k);
        lemma_idx_unique(s2, k, j);
    }
}

/// The index of the first record with this issue number, if any.
fn find_issue_index(issues: &Vec<IssueData>, n: i64) -> (r: Option<usize>)
    ensures
        r matches Some(j) ==> j < issues@.len() && issues@[j as int].number == n,
        r is None ==> !has_number(issues@, n),
{
    let mut i: usize = 0;
    while i < issues.len()
        invariant
            i <= issues@.len(),
            forall|j: int| 0 <= j < i ==> issues@[j].number != n,
        decreases issues@.len() - i,
    {
        if issues[i].number == n {
            return Some(i);
        }
        i = i + 1;
    }
    None
}

/// Drops records whose issue number already occurred, keeping the
/// first record of each number in order.
fn dedup_issues(issues: Vec<IssueData>) -> (r: Vec<IssueData>)
    ensures
        r@ == dedup_numbers(issues@),
{
    let ghost original = issues@;
    let mut out: Vec<IssueData> = Vec::new();
    let mut rest = issues;
    let mut taken: usize = 0;
    let n: usize = rest.len();
    proof {
        assert(original.skip(0) =~= original);
        assert(original.take(0) =~= Seq::<IssueData>::empty());
    }
    while rest.len() > 0
        invariant
            original.len() == n,
            taken + rest.len() == original.len(),
            rest@ =~= original.skip(taken as int),
            out@ == dedup_numbers(original.take(taken as int)),
        decreases rest.len(),
    {
        let x = rest.remove(0);
        proof {
            assert(x == original[taken as int]);
            assert(rest@ =~= original.skip(taken as int + 1));
            let prefix = original.take(taken as int + 1);
            assert(prefix.drop_last() =~= original.take(taken as int));
            assert(prefix.last() == x);
        }
        match find_issue_index(&out, x.number) {
            Some(_) => {
                proof {
                    assert(has_number(out@, x.number));
                }
            }
            None => {
                out.push(x);
            }
        }
        taken = taken + 1;
    }
    proof {
        assert(original.take(taken as int) =~= original);
    }
    out
}

impl IssuesCache {
    /// The index of the entry with this key, if any.
    fn find_entry_index(&self, key: &String) -> (r: Option<usize>)
        ensures
            r matches Some(i) ==> i < self@.len() && self@[i as int].key@ == key@,
            r is None ==> !has_key(self@, key@),
    {
        let mut i: usize = 0;
        while i < self.entries.len()
            invariant
                i <= self@.len(),
                forall|j: int| 0 <= j < i ==> self@[j].key@ != key@,
            decreases self@.len() - i,
        {
            if self.entries[i].key == *key {
                return Some(i);
            }
            i = i + 1;
        }
        None
    }

    /// Snapshot read: an independent copy of the issue list and the
    /// last-refresh time for this key, if cached.
    pub fn get(&self, key: &String) -> (r: Option<(Vec<IssueData>, u64)>)
        requires
            self.wf(),
        ensures
            r is Some <==> has_key(self@, key@),
            r matches Some(p) ==> issues_like(entry_for(self@, key@).issues@, p.0@)
                && p.1 == entry_for(self@, key@).last_updated,
    {
        match self.find_entry_index(key) {
            Some(i) => {
                proof {
                    lemma_idx_unique(self@, key@, i as int);
                }
                let issues = clone_issues(&self.entries[i].issues);
                Some((issues, self.entries[i].last_updated))
            }
            None => None,
        }
    }

    /// Replaces the entire entry for this key, as after a full
    /// refresh. Uniqueness of issue numbers is enforced on write by
    /// dropping all but the first record of each number, and the
    /// last-refresh time never moves backward.
    pub fn put(&mut self, key: &String, issues: Vec<IssueData>, now: u64)
        requires
            old(self).wf(),
        ensures
            final(self).wf(),
            put_into(old(self)@, final(self)@, key@, issues@, now),
    {
        let deduped = dedup_issues(issues);
        proof {
            lemma_dedup_numbers(issues@);
        }
        match self.find_entry_index(key) {
            Some(i) => {
                proof {
                    lemma_idx_unique(self@, key@, i as int);
                }
                let mut e = self.entries.remove(i);
                let lu = if now >= e.last_updated {
                    now
                } else {
                    e.last_updated
                };
                e.issues = deduped;
                e.last_updated = lu;
                self.entries.insert(i, e);
                proof {
                    assert(self@ =~= old(self)@.update(i as int, self@[i as int]));
                    lemma_update_entry(old(self)@, i as int, self@[i as int]);
                }
            }
            None => {
                let e = CacheEntry { key: key.clone(), issues: deduped, last_updated: now };
                self.entries.push(e);
                proof {
                    lemma_push_entry(old(self)@, self@[self@.len() - 1]);
                }
            }
        }
    }

    /// Patches a single issue without touching the rest of the entry:
    /// replaces the record with the same number in place, or appends
    /// the record if its number is new. Does not bump the last-refresh
    /// time of an existing entry — a single-issue patch must not mask
    /// staleness of the rest of the list. A missing entry is created
    /// with only this record and `now` as its refresh time.
    pub fn upsert_issue(&mut self, key: &String, issue: IssueData, now: u64)
        requires
            old(self).wf(),
        ensures
            final(self).wf(),
            upserted(old(self)@, final(self)@, key@, issue, now),
    {
        match self.find_entry_index(key) {
            Some(i) => {
                proof {
                    lemma_idx_unique(self@, key@, i as int);
                }
                let mut e = self.entries.remove(i);
                let ghost old_issues = e.issues@;
                match find_issue_index(&e.issues, issue.number) {
                    Some(j) => {
                        proof {
                            lemma_number_idx_unique(old_issues, issue.number, j as int);
                        }
                        let ghost n = issue.number;
                        let mut vs = e.issues;
                        vs[j] = issue;
                        proof {
                            assert forall|a: int, b: int|
                                0 <= a < b < vs@.len() implies vs@[a].number
                                != vs@[b].number by {
                                if a != j && b != j {
                                    assert(old_issues[a].number != old_issues[b].number);
                                } else if a == j {
                                    assert(old_issues[j as int].number == n);
                                    assert(old_issues[b].number != n);
                                } else {
                                    assert(old_issues[j as int].number == n);
                                    assert(old_issues[a].number != n);
                                }
                            }
                        }
                        e.issues = vs;
                    }
                    None => {
                        e.issues.push(issue);
                    }
                }
                self.entries.insert(i, e);
                proof {
                    assert(self@ =~= old(self)@.update(i as int, self@[i as int]));
                    lemma_update_entry(old(self)@, i as int, self@[i as int]);
                }
            }
            None => {
                let mut one: Vec<IssueData> = Vec::new();
                one.push(issue);
                proof {
                    assert(one@ =~= seq![issue]);
                }
                let e = CacheEntry { key: key.clone(), issues: one, last_updated: now };
                self.entries.push(e);
                proof {
                    lemma_push_entry(old(self)@, self@[self@.len() - 1]);
                }
            }
        }
    }

    /// Read-only diagnostic: whether this key is cached and when it
    /// was last fully refreshed.
    pub fn status(&self, key: &String) -> (r: CacheStatus)
        requires
            self.wf(),
        ensures
            r.cached == has_key(self@, key@),
            r.last_updated is Some <==> has_key(self@, key@),
            has_key(self@, key@) ==> r.last_updated->0 == entry_for(self@, key@).last_updated,
            r.etag is None,
    {
        match self.find_entry_index(key) {
            Some(i) => {
                proof {
                    lemma_idx_unique(self@, key@, i as int);
                }
                CacheStatus {
                    cached: true,
                    last_updated: Some(self.entries[i].last_updated),
                    etag: None,
                }
            }
            None => CacheStatus { cached: false, last_updated: None, etag: None },
        }
    }

    /// An independent copy of the cached record with this issue
    /// number under this key, if both exist.
    pub fn cached_issue(&self, key: &String, number: i64) -> (r: Option<IssueData>)
        requires
            self.wf(),
        ensures
            r is Some <==> has_key(self@, key@) && has_number(
                entry_for(self@, key@).issues@,
                number,
            ),
            r matches Some(d) ==> issue_like(
                entry_for(self@, key@).issues@[idx_of_number(
                    entry_for(self@, key@).issues@,
                    number,
                )],
                d,
            ),
    {
        match self.find_entry_index(key) {
            Some(i) => {
                proof {
                    lemma_idx_unique(self@, key@, i as int);
                }
                match find_issue_index(&self.entries[i].issues, number) {
                    Some(j) => {
                        proof {
                            lemma_number_idx_unique(
                                self@[i as int].issues@,
                                number,
                                j as int,
                            );
                        }
                        Some(self.entries[i].issues[j].clone())
                    }
                    None => None,
                }
            }
            None => None,
        }
    }
}

/// After any sequence of `put` and `upsert_issue` calls the cache is
/// well formed, since both operations ensure it; well-formedness
/// spells out that no entry holds two records with one issue number.
pub proof fn lemma_wf_no_duplicate_numbers(c: IssuesCache, k: Seq<char>)
    requires
        c.wf(),
        has_key(c@, k),
    ensures
        forall|i: int, j: int|
            0 <= i < j < entry_for(c@, k).issues@.len() ==> entry_for(c@, k).issues@[i].number
                != entry_for(c@, k).issues@[j].number,
{
    let idx = idx_of(c@, k);
    assert(0 <= idx < c@.len());
    assert(unique_numbers(c@[idx].issues@));
}

} // verus!
