//! Issue cache and synchronization layer for a GitHub issue browser.
//!
//! The heart of the crate is an in-memory, time-bounded cache keyed by
//! repository: it mediates between the GitHub REST API and the UI, merges
//! incremental updates into cached records, and decides when data is stale
//! enough to refetch.

pub mod changelog;
pub mod export;
pub mod suggestions;

mod decimal;
mod freshness;
mod model;
mod oauth;
mod recents;
mod repos;
mod settings;
mod store;
mod sync;
mod text;
mod time;
mod types;

pub use decimal::i32_to_dec;
pub use decimal::spec_dec;
pub use decimal::spec_dec_signed;
pub use decimal::spec_digit;
pub use decimal::u64_to_dec;
pub use freshness::MAX_AGE_MILLIS;
pub use freshness::is_fresh;
pub use model::CommentData;
pub use model::IssueData;
pub use model::RawComment;
pub use model::RawIssue;
pub use model::RawIssueState;
pub use model::clone_issues;
pub use model::comment_normalized;
pub use model::comments_normalized;
pub use model::issue_fields_normalized;
pub use model::issue_like;
pub use model::issue_normalized;
pub use model::issues_like;
pub use model::normalize_comment;
pub use model::normalize_comments;
pub use model::normalize_issue;
pub use model::state_normalized;
pub use oauth::AuthState;
pub use oauth::DeviceCodeResponse;
pub use oauth::TokenPollReply;
pub use oauth::UserDetails;
pub use oauth::auth_token;
pub use oauth::auth_username;
pub use oauth::token_poll_outcome;
pub use recents::RecentItem;
pub use recents::Recents;
pub use recents::recents_after_add;
pub use repos::PinnedRepos;
pub use repos::RawRepo;
pub use repos::RepoData;
pub use repos::repo_data_from_raw;
pub use settings::Settings;
pub use settings::default_theme;
pub use settings::merge_settings;
pub use settings::settings_api_key;
pub use store::CacheEntry;
pub use store::CacheStatus;
pub use store::IssuesCache;
pub use store::dedup_numbers;
pub use store::entry_for;
pub use store::has_key;
pub use store::has_number;
pub use store::idx_of;
pub use store::idx_of_number;
pub use store::lemma_dedup_numbers;
pub use store::lemma_idx_unique;
pub use store::lemma_number_idx_unique;
pub use store::lemma_wf_no_duplicate_numbers;
pub use store::max64;
pub use store::put_into;
pub use store::unique_keys;
pub use store::unique_numbers;
pub use store::upserted;
pub use sync::FetchPlan;
pub use sync::check_cache_status;
pub use sync::fetch_issues_plan;
pub use sync::fetch_issues_plan_now;
pub use sync::finish_refresh;
pub use sync::get_cached_issue;
pub use sync::integrate_single_issue;
pub use sync::normalize_refresh;
pub use sync::repo_key;
pub use sync::spec_repo_key;
pub use text::contains_string;
pub use text::join_strings;
pub use text::spec_contains_string;
pub use text::spec_join;
pub use types::Comment;
pub use types::GitHubApiIssue;
pub use types::Label;
pub use types::User;
