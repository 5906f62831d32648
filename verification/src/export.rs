//! Markdown export of issues to a notes vault: the exact text that is
//! written for a list of issues.

use vstd::prelude::*;
use vstd::string::StringExecFns;

use crate::text::join_strings;
use crate::text::spec_join;
use crate::types::GitHubApiIssue;
use crate::types::Label;

verus! {

/// The names of a list of labels.
pub open spec fn spec_tag_names(tags: Seq<Label>) -> Seq<Seq<char>> {
    tags.map_values(|l: Label| l.name@)
}

/// The tag display text: the names joined by comma and space, or
/// "none" when that comes out empty.
pub open spec fn spec_tags_text(tags: Seq<Label>) -> Seq<char> {
    if spec_join(spec_tag_names(tags), ", "@).len() == 0 {
        "none"@
    } else {
        spec_join(spec_tag_names(tags), ", "@)
    }
}

/// Whether the text holds a line break.
pub open spec fn spec_has_newline(s: Seq<char>) -> bool {
    exists|i: int| 0 <= i < s.len() && s[i] == '\n'
}

/// The text up to its first line break, or all of it.
pub open spec fn spec_line_prefix(s: Seq<char>) -> Seq<char>
    decreases s.len(),
{
    if s.len() == 0 {
        s
    } else if s[0] == '\n' {
        Seq::empty()
    } else {
        seq![s[0]] + spec_line_prefix(s.drop_first())
    }
}

/// The first line of the text: up to the first line break, with a
/// carriage return before that break stripped; text without a break
/// is its own first line.
pub open spec fn spec_first_line(s: Seq<char>) -> Seq<char> {
    if spec_has_newline(s) {
        let p = spec_line_prefix(s);
        if p.len() > 0 && p.last() == '\r' {
            p.drop_last()
        } else {
            p
        }
    } else {
        s
    }
}

/// The description shown for an issue body: its first line, or a
/// placeholder when the body is empty.
pub open spec fn spec_description(body: Seq<char>) -> Seq<char> {
    if body.len() == 0 {
        "No description"@
    } else {
        spec_first_line(body)
    }
}

/// The block written for one issue.
pub open spec fn spec_issue_block(issue: GitHubApiIssue) -> Seq<char> {
    "- [ ] "@ + issue.title@ + "\n  - Created: "@ + issue.created_at@ + "\n  - Tags: "@
        + spec_tags_text(issue.tags@) + "\n  - URL: "@ + issue.html_url@ + "\n  - Author: "@
        + issue.user.login@ + "\n  - State: "@ + issue.state@ + "\n  - Description: "@
        + spec_description(issue.body@) + "\n\n"@
}

/// The full export: the blocks of all issues in order.
pub open spec fn spec_issues_markdown(issues: Seq<GitHubApiIssue>) -> Seq<char>
    decreases issues.len(),
{
    if issues.len() == 0 {
        Seq::empty()
    } else {
        spec_issues_markdown(issues.drop_last()) + spec_issue_block(issues.last())
    }
}

/// Up to the first line break the prefix is exactly the text before
/// that break.
proof fn lemma_line_prefix(s: Seq<char>, i: int)
    requires
        0 <= i < s.len(),
        s[i] == '\n',
        forall|j: int| 0 <= j < i ==> s[j] != '\n',
    ensures
        spec_line_prefix(s) == s.subrange(0, i),
    decreases i,
{
    if i == 0 {
        assert(spec_line_prefix(s) =~= s.subrange(0, 0));
    } else {
        let t = s.drop_first();
        assert(t[i - 1] == '\n');
        assert forall|j: int| 0 <= j < i - 1 implies t[j] != '\n' by {
            assert(t[j] == s[j + 1]);
        }
        lemma_line_prefix(t, i - 1);
        assert(seq![s[0]] + t.subrange(0, i - 1) =~= s.subrange(0, i));
    }
}

/// The first line of the text, as `lines` would hand it out.
fn first_line(s: &str) -> (r: String)
    ensures
        r@ == spec_first_line(s@),
{
    let len = s.unicode_len();
    let mut i: usize = 0;
    while i < len
        invariant
            len == s@.len(),
            i <= len,
            forall|j: int| 0 <= j < i ==> s@[j] != '\n',
        decreases len - i,
    {
        if s.get_char(i) == '\n' {
            proof {
                assert(spec_has_newline(s@));
                lemma_line_prefix(s@, i as int);
            }
            let end: usize = if i > 0 && s.get_char(i - 1) == '\r' {
                i - 1
            } else {
                i
            };
            let r = s.substring_char(0, end).to_owned();
            proof {
                let p = spec_line_prefix(s@);
                if i > 0 && s@[i as int - 1] == '\r' {
                    assert(p.last() == '\r');
                    assert(p.drop_last() =~= s@.subrange(0, i as int - 1));
                } else {
                    if p.len() > 0 && p.last() == '\r' {
                        assert(s@[i as int - 1] == '\r');
                    }
                }
            }
            return r;
        }
        i = i + 1;
    }
    proof {
        assert(!spec_has_newline(s@));
    }
    s.to_owned()
}

/// The names of the issue's labels, in order.
fn tag_names(tags: &Vec<Label>) -> (r: Vec<String>)
    ensures
        r@.len() == tags@.len(),
        forall|k: int| 0 <= k < tags@.len() ==> (#[trigger] r@[k])@ == tags@[k].name@,
{
    let mut names: Vec<String> = Vec::new();
    let mut i: usize = 0;
    while i < tags.len()
        invariant
            i <= tags@.len(),
            names@.len() == i,
            forall|k: int| 0 <= k < i ==> (#[trigger] names@[k])@ == tags@[k].name@,
        decreases tags@.len() - i,
    {
        names.push(tags[i].name.clone());
        i = i + 1;
    }
    names
}

/// Renders the block for one issue.
fn issue_block(issue: &GitHubApiIssue) -> (r: String)
    ensures
        r@ == spec_issue_block(*issue),
{
    let names = tag_names(&issue.tags);
    proof {
        assert(names@.map_values(|p: String| p@) =~= spec_tag_names(issue.tags@));
    }
    let joined = join_strings(&names, ", ");
    let tags_text: String = if joined.as_str().is_empty() {
        "none".to_owned()
    } else {
        joined
    };
    let mut s = "- [ ] ".to_owned();
    s.append(issue.title.as_str());
    s.append("\n  - Created: ");
    s.append(issue.created_at.as_str());
    s.append("\n  - Tags: ");
    s.append(tags_text.as_str());
    s.append("\n  - URL: ");
    s.append(issue.html_url.as_str());
    s.append("\n  - Author: ");
    s.append(issue.user.login.as_str());
    s.append("\n  - State: ");
    s.append(issue.state.as_str());
    s.append("\n  - Description: ");
    if issue.body.as_str().is_empty() {
        s.append("No description");
    } else {
        let fl = first_line(issue.body.as_str());
        s.append(fl.as_str());
    }
    s.append("\n\n");
    proof {
        assert(s@ =~= spec_issue_block(*issue));
    }
    s
}

/// Renders the markdown written to the vault for a list of issues:
/// one block per issue, in order.
pub fn issues_markdown(issues: &Vec<GitHubApiIssue>) -> (r: String)
    ensures
        r@ == spec_issues_markdown(issues@),
{
    let mut s = String::new();
    let mut i: usize = 0;
    proof {
        assert(s@ =~= spec_issues_markdown(issues@.take(0)));
    }
    while i < issues.len()
        invariant
            i <= issues@.len(),
            s@ == spec_issues_markdown(issues@.take(i as int)),
        decreases issues@.len() - i,
    {
        let block = issue_block(&issues[i]);
        s.append(block.as_str());
        proof {
            let prefix = issues@.take(i as int + 1);
            assert(prefix.drop_last() =~= issues@.take(i as int));
            assert(prefix.last() == issues@[i as int]);
            assert(s@ =~= spec_issues_markdown(prefix));
        }
        i = i + 1;
    }
    proof {
        assert(issues@.take(issues@.len() as int) =~= issues@);
    }
    s
}

} // verus!
