//! Line-count analysis of remote git repositories, with an in-memory cache
//! whose freshness is decided by a trust window and by the remote HEAD hash.
pub mod data;
pub mod locator;
pub mod cache;
pub mod freshness;
pub mod job;
pub mod analysis;
pub mod laws;

pub use analysis::{data_from_analysis, head_hash, relative_path, sort_languages};
pub use cache::{init_db, Database};
pub use data::{Data, FileInfo, Info, LanguageInfo};
pub use freshness::{freshness, Freshness, TRUST_WINDOW_SECS};
pub use job::{
    on_analysis, on_head_hash, on_head_hash_at, start_job, start_job_at, Delivery, Failure, Step,
};
pub use locator::{expand_url, PostJobData};
