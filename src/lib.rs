//! Rate-limited import of hashtag timelines from remote Mastodon servers into
//! a local one: the set logic, the dedup memory, the per-hashtag pass and the
//! scheduler, with the rate limiters and URL parsing behind small wrappers.
mod auth;
mod dedup;
mod engine;
mod host;
mod limiter;
mod requests;
mod scheduler;
mod status_set;

pub use dedup::{
    after_changes, lemma_imported_stays, lemma_retain_bounded, lemma_retain_idempotent,
    DedupTracker, MemoryChange,
};
pub use status_set::{views_of, StatusSet};
pub use host::{host_of, status_host};
pub use limiter::{
    DirectBudget, KeyedBudget, Limiters, LOCAL_IMPORTS_PER_HOUR, PASSES_PER_HOUR,
    QUERIES_PER_MINUTE, UPSTREAM_IMPORTS_PER_HOUR,
};
pub use engine::{
    ask, Failure, Fetch, Hashtag, HashtagPass, LocalServer, Permit, Phase, Stage, Step, LOCAL_PAGE, REMOTE_PAGE,
};
pub use scheduler::{Action, Round, Scheduler, REST_NANOS};
pub use auth::{is_error_status, token, TokenQuery, OOB_URI};
pub use requests::{decimal_u8, search_url, timeline_url, url_with_params};
