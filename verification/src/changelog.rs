//! Changelog generation: the issue shape the UI hands over, the
//! category rule, and the exact markdown entry that is written. The
//! summary text itself comes from an outside summarizer.

use vstd::prelude::*;
use vstd::string::StringExecFns;

use crate::decimal::i32_to_dec;
use crate::decimal::spec_dec_signed;
use crate::text::contains_string;
use crate::text::spec_contains_string;

verus! {

/// An issue as the UI hands it over for changelog generation.
#[derive(Debug, PartialEq, Eq)]
pub struct FrontendIssue {
    pub number: i32,
    pub title: String,
    pub body: Option<String>,
    pub state: String,
    pub created_at: String,
    pub labels: Vec<String>,
    pub creator: String,
}

/// An issue reduced to what a summarization prompt needs.
#[derive(Debug, PartialEq, Eq)]
pub struct IssueInput {
    pub number: u32,
    pub title: String,
    pub body: String,
    pub labels: Vec<String>,
}

/// The category heading an issue files under: bugs first, then
/// features, everything else last.
pub open spec fn spec_changelog_category(labels: Seq<String>) -> Seq<char> {
    if spec_contains_string(labels, "bug"@) {
        "### 🐛 Bug Fixes"@
    } else if spec_contains_string(labels, "feature"@) {
        "### ✨ New Features"@
    } else {
        "### 🔄 Other Changes"@
    }
}

/// Picks the category heading from the issue's labels.
pub fn changelog_category(labels: &Vec<String>) -> (r: &'static str)
    ensures
        r@ == spec_changelog_category(labels@),
{
    if contains_string(labels, "bug") {
        "### 🐛 Bug Fixes"
    } else if contains_string(labels, "feature") {
        "### ✨ New Features"
    } else {
        "### 🔄 Other Changes"
    }
}

/// The full changelog entry for one issue: a dated heading, the
/// category, and the issue line with its summary, closed by a rule.
pub open spec fn spec_changelog_entry(
    number: int,
    title: Seq<char>,
    labels: Seq<String>,
    today: Seq<char>,
    summary: Seq<char>,
) -> Seq<char> {
    "## Changes "@ + today + "\n\n"@ + spec_changelog_category(labels) + "\n\n"@ + "- #"@
        + spec_dec_signed(number) + " "@ + title + "\n  "@ + summary + "\n\n"@ + "---\n\n"@
}

/// Renders the changelog entry for one issue, dated `today`, with the
/// summary the summarizer produced.
pub fn changelog_entry(issue: &FrontendIssue, today: &str, summary: &str) -> (r: String)
    ensures
        r@ == spec_changelog_entry(
            issue.number as int,
            issue.title@,
            issue.labels@,
            today@,
            summary@,
        ),
{
    let mut s = "## Changes ".to_owned();
    s.append(today);
    s.append("\n\n");
    s.append(changelog_category(&issue.labels));
    s.append("\n\n");
    s.append("- #");
    s.append(i32_to_dec(issue.number).as_str());
    s.append(" ");
    s.append(issue.title.as_str());
    s.append("\n  ");
    s.append(summary);
    s.append("\n\n");
    s.append("---\n\n");
    proof {
        assert(s@ =~= spec_changelog_entry(
            issue.number as int,
            issue.title@,
            issue.labels@,
            today@,
            summary@,
        ));
    }
    s
}

/// The prompt handed to the summarizer for one issue; a missing body
/// reads as having no description.
pub open spec fn spec_changelog_prompt(
    number: int,
    title: Seq<char>,
    body: Option<String>,
) -> Seq<char> {
    "Generate a concise changelog entry for this issue. Focus on the changes made and their impact:\n\nIssue #"@
        + spec_dec_signed(number) + ": "@ + title + "\n"@ + (match body {
        Some(b) => b@,
        None => "No description provided"@,
    })
}

/// Builds the summarization prompt for one issue.
pub fn changelog_prompt(issue: &FrontendIssue) -> (r: String)
    ensures
        r@ == spec_changelog_prompt(issue.number as int, issue.title@, issue.body),
{
    let mut s =
        "Generate a concise changelog entry for this issue. Focus on the changes made and their impact:\n\nIssue #".to_owned();
    s.append(i32_to_dec(issue.number).as_str());
    s.append(": ");
    s.append(issue.title.as_str());
    s.append("\n");
    match &issue.body {
        Some(b) => s.append(b.as_str()),
        None => s.append("No description provided"),
    }
    proof {
        assert(s@ =~= spec_changelog_prompt(issue.number as int, issue.title@, issue.body));
    }
    s
}

} // verus!
