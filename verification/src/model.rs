//! Normalized representation of a GitHub issue and its comments,
//! independent of the wire format, together with the raw shapes the
//! fetch layer hands in and the total conversion between the two.

use vstd::prelude::*;

verus! {

/// One comment on an issue, as the cache stores it.
#[derive(Debug, PartialEq, Eq)]
pub struct CommentData {
    pub id: i64,
    pub body: String,
    pub created_at: String,
    pub updated_at: Option<String>,
    pub author: String,
}

/// One issue together with its comments, as the cache stores it.
#[derive(Debug, PartialEq, Eq)]
pub struct IssueData {
    pub number: i64,
    pub title: String,
    pub state: String,
    pub created_at: String,
    pub body: Option<String>,
    pub labels: Vec<String>,
    pub assignees: Vec<String>,
    pub comments: Vec<CommentData>,
    pub creator: String,
}

/// Issue state as the listing endpoint reports it; anything beyond
/// open and closed is normalized to "unknown".
pub enum RawIssueState {
    Open,
    Closed,
    Other,
}

/// A raw comment as fetched: the comment id is unsigned on the wire,
/// the body may be missing, and timestamps are already rendered.
pub struct RawComment {
    pub id: u64,
    pub body: Option<String>,
    pub created_at: String,
    pub updated_at: Option<String>,
    pub author: String,
}

/// A raw issue as fetched, before comments are attached.
pub struct RawIssue {
    pub number: i64,
    pub title: String,
    pub state: RawIssueState,
    pub created_at: String,
    pub body: Option<String>,
    pub labels: Vec<String>,
    pub assignees: Vec<String>,
    pub creator: String,
}

/// How a normalized comment relates to the raw comment it came from:
/// every field is mapped or given a documented default.
pub open spec fn comment_normalized(c: RawComment, d: CommentData) -> bool {
    &&& d.id == (if c.id <= i64::MAX as u64 { c.id as i64 } else { 0 as i64 })
    &&& (c.body is Some ==> d.body == c.body->0)
    &&& (c.body is None ==> d.body@ == Seq::<char>::empty())
    &&& d.created_at == c.created_at
    &&& d.updated_at == c.updated_at
    &&& d.author == c.author
}

/// The fixed state table: open maps to "open", closed to "closed",
/// anything else to "unknown".
pub open spec fn state_normalized(s: RawIssueState, t: Seq<char>) -> bool {
    match s {
        RawIssueState::Open => t == "open"@,
        RawIssueState::Closed => t == "closed"@,
        RawIssueState::Other => t == "unknown"@,
    }
}

/// How a normalized issue relates to the raw issue it came from,
/// leaving the comments aside.
pub open spec fn issue_fields_normalized(raw: RawIssue, d: IssueData) -> bool {
    &&& d.number == raw.number
    &&& d.title == raw.title
    &&& state_normalized(raw.state, d.state@)
    &&& d.created_at == raw.created_at
    &&& d.body == raw.body
    &&& d.labels@ == raw.labels@
    &&& d.assignees@ == raw.assignees@
    &&& d.creator == raw.creator
}

/// How a sequence of normalized comments relates to the raw ones.
pub open spec fn comments_normalized(cs: Seq<RawComment>, ds: Seq<CommentData>) -> bool {
    &&& ds.len() == cs.len()
    &&& forall|i: int| 0 <= i < cs.len() ==> comment_normalized(cs[i], #[trigger] ds[i])
}

/// A fully normalized issue: fields mapped and comments attached.
pub open spec fn issue_normalized(raw: RawIssue, cs: Seq<RawComment>, d: IssueData) -> bool {
    &&& issue_fields_normalized(raw, d)
    &&& comments_normalized(cs, d.comments@)
}

impl Clone for CommentData {
    fn clone(&self) -> (r: Self)
        ensures
            r == *self,
    {
        CommentData {
            id: self.id,
            body: self.body.clone(),
            created_at: self.created_at.clone(),
            updated_at: self.updated_at.clone(),
            author: self.author.clone(),
        }
    }
}

/// Two issue records with the same content: equal in every scalar and
/// string field, and element for element in the owned collections. A
/// copy made by `clone` is like its original in this sense.
pub open spec fn issue_like(a: IssueData, b: IssueData) -> bool {
    &&& b.number == a.number
    &&& b.title == a.title
    &&& b.state == a.state
    &&& b.created_at == a.created_at
    &&& b.body == a.body
    &&& b.labels@ == a.labels@
    &&& b.assignees@ == a.assignees@
    &&& b.comments@ == a.comments@
    &&& b.creator == a.creator
}

/// Two issue lists with the same content, record for record.
pub open spec fn issues_like(a: Seq<IssueData>, b: Seq<IssueData>) -> bool {
    &&& b.len() == a.len()
    &&& forall|i: int| 0 <= i < a.len() ==> issue_like(a[i], #[trigger] b[i])
}

impl Clone for IssueData {
    fn clone(&self) -> (r: Self)
        ensures
            issue_like(*self, r),
    {
        let r = IssueData {
            number: self.number,
            title: self.title.clone(),
            state: self.state.clone(),
            created_at: self.created_at.clone(),
            body: self.body.clone(),
            labels: clone_string_vec(&self.labels),
            assignees: clone_string_vec(&self.assignees),
            comments: clone_comments(&self.comments),
            creator: self.creator.clone(),
        };
        proof {
            if self.body is Some {
                assert(vstd::pervasive::cloned::<String>(self.body->0, r.body->0));
            }
        }
        r
    }
}

/// Copies a vector of strings; the copy holds the same strings.
fn clone_string_vec(v: &Vec<String>) -> (r: Vec<String>)
    ensures
        r@ == v@,
{
    let r = v.clone();
    proof {
        assert forall|i: int| 0 <= i < v@.len() implies r@[i] == v@[i] by {
            assert(vstd::pervasive::cloned::<String>(v@[i], r@[i]));
        }
        assert(r@ =~= v@);
    }
    r
}

/// Copies a vector of comments; the copy holds the same records.
fn clone_comments(v: &Vec<CommentData>) -> (r: Vec<CommentData>)
    ensures
        r@ == v@,
{
    let r = v.clone();
    proof {
        assert forall|i: int| 0 <= i < v@.len() implies r@[i] == v@[i] by {
            assert(vstd::pervasive::cloned::<CommentData>(v@[i], r@[i]));
        }
        assert(r@ =~= v@);
    }
    r
}

/// Copies a vector of issues; the copy holds records with the same
/// content, record for record.
pub fn clone_issues(v: &Vec<IssueData>) -> (r: Vec<IssueData>)
    ensures
        issues_like(v@, r@),
{
    let r = v.clone();
    proof {
        assert forall|i: int| 0 <= i < v@.len() implies issue_like(v@[i], #[trigger] r@[i]) by {
            assert(vstd::pervasive::cloned::<IssueData>(v@[i], r@[i]));
        }
    }
    r
}

/// Normalizes one raw comment: the id falls back to zero when it does
/// not fit a signed integer, a missing body becomes the empty string.
pub fn normalize_comment(c: RawComment) -> (d: CommentData)
    ensures
        comment_normalized(c, d),
{
    let id: i64 = if c.id <= i64::MAX as u64 {
        c.id as i64
    } else {
        0
    };
    let body: String = match c.body {
        Some(b) => b,
        None => String::new(),
    };
    CommentData { id, body, created_at: c.created_at, updated_at: c.updated_at, author: c.author }
}

/// Normalizes a list of raw comments in order.
pub fn normalize_comments(cs: Vec<RawComment>) -> (ds: Vec<CommentData>)
    ensures
        comments_normalized(cs@, ds@),
{
    let ghost original = cs@;
    let mut ds: Vec<CommentData> = Vec::new();
    let mut rest = cs;
    let mut taken: usize = 0;
    let n: usize = rest.len();
    proof {
        assert(original.skip(0) =~= original);
        assert(original.len() == n);
    }
    while rest.len() > 0
        invariant
            original.len() <= usize::MAX,
            taken + rest.len() == original.len(),
            rest@ =~= original.skip(taken as int),
            ds@.len() == taken,
            forall|i: int| 0 <= i < taken ==> comment_normalized(original[i], #[trigger] ds@[i]),
        decreases rest.len(),
    {
        let c = rest.remove(0);
        proof {
            assert(c == original[taken as int]);
            assert(rest@ =~= original.skip(taken + 1));
        }
        let d = normalize_comment(c);
        ds.push(d);
        taken = taken + 1;
    }
    ds
}

/// Normalizes one raw issue through the fixed state table; the comment
/// list starts empty and is attached in a second step.
pub fn normalize_issue(raw: RawIssue) -> (d: IssueData)
    ensures
        issue_fields_normalized(raw, d),
        d.comments@ == Seq::<CommentData>::empty(),
{
    let state: String = match raw.state {
        RawIssueState::Open => "open".to_owned(),
        RawIssueState::Closed => "closed".to_owned(),
        RawIssueState::Other => "unknown".to_owned(),
    };
    IssueData {
        number: raw.number,
        title: raw.title,
        state,
        created_at: raw.created_at,
        body: raw.body,
        labels: raw.labels,
        assignees: raw.assignees,
        comments: Vec::new(),
        creator: raw.creator,
    }
}

} // verus!
