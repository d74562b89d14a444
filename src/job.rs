//! One job request as a state machine. The caller performs each action that a
//! step asks for (fetch the remote HEAD hash, clone and analyse) and hands the
//! outcome back; every decision and every change to the cache is made here.
use vstd::prelude::*;
use crate::cache::Database;
use crate::data::{current_time, Data};
use crate::freshness::{decide, freshness, Freshness, TRUST_WINDOW_SECS};
use crate::locator::{expand_url, locate, unsupported_provider_message, PostJobData};

verus! {

/// How a successful request was served.
#[derive(Debug, Clone, Copy, PartialEq, Eq, Structural)]
pub enum Delivery {
    /// From the cache, within the trust window, with no remote call.
    CachedRecent,
    /// From the cache, after the remote HEAD hash was found unchanged.
    CachedVerified,
    /// From a new analysis, now stored in the cache.
    Fresh,
}

/// Why a request failed.
#[derive(Debug, Clone, Copy, PartialEq, Eq, Structural)]
pub enum Failure {
    /// The provider is not one that is supported.
    BadProvider,
    /// The remote HEAD hash could not be fetched.
    FetchFailed,
    /// Cloning or analysing the repository failed.
    AnalysisFailed,
}

impl Delivery {
    /// The code that names this outcome to callers of the service.
    pub fn message_code(&self) -> (r: &'static str)
        ensures
            r@ == match self {
                Delivery::CachedRecent => "info_success_cached_recent"@,
                Delivery::CachedVerified => "info_success_cached"@,
                Delivery::Fresh => "info_success_generated"@,
            },
    {
        match self {
            Delivery::CachedRecent => "info_success_cached_recent",
            Delivery::CachedVerified => "info_success_cached",
            Delivery::Fresh => "info_success_generated",
        }
    }

    /// A sentence that tells callers of the service how they were served.
    pub fn message(&self) -> (r: &'static str)
        ensures
            r@ == match self {
                Delivery::Fresh => "The repo was analyzed successfully and result was stored for later reference."@,
                _ => "Your request was satisfied instantly, because it was found in cache."@,
            },
    {
        match self {
            Delivery::Fresh => "The repo was analyzed successfully and result was stored for later reference.",
            _ => "Your request was satisfied instantly, because it was found in cache.",
        }
    }
}

impl Failure {
    /// The code that names this failure to callers of the service.
    pub fn message_code(&self) -> (r: &'static str)
        ensures
            r@ == match self {
                Failure::BadProvider => "err_bad_service"@,
                Failure::FetchFailed => "err_failed_to_fetch_from_repo"@,
                Failure::AnalysisFailed => "err_counter_failed"@,
            },
    {
        match self {
            Failure::BadProvider => "err_bad_service",
            Failure::FetchFailed => "err_failed_to_fetch_from_repo",
            Failure::AnalysisFailed => "err_counter_failed",
        }
    }

    /// The HTTP status of this failure: the caller's fault, or the service's.
    pub fn status(&self) -> (r: u16)
        ensures
            r == match self {
                Failure::AnalysisFailed => 500u16,
                _ => 400u16,
            },
    {
        match self {
            Failure::AnalysisFailed => 500,
            _ => 400,
        }
    }
}

/// Where a request stands after a step.
#[derive(Debug)]
pub enum Step {
    /// Fetch the HEAD hash of `url`, then call `on_head_hash`.
    FetchHead { url: String },
    /// Clone and analyse `url`, then call `on_analysis` with `hash`.
    Analyze { url: String, hash: String },
    /// Done: the cache holds the record for `url` that answers the request.
    Served { url: String, delivery: Delivery },
    /// Done: the request failed, and the cache is as it was.
    Rejected { failure: Failure, message: String },
}

/// A `Step` with its strings seen as sequences of characters.
pub enum StepView {
    FetchHead { url: Seq<char> },
    Analyze { url: Seq<char>, hash: Seq<char> },
    Served { url: Seq<char>, delivery: Delivery },
    Rejected { failure: Failure, message: Seq<char> },
}

impl View for Step {
    type V = StepView;

    open spec fn view(&self) -> StepView {
        match self {
            Step::FetchHead { url } => StepView::FetchHead { url: url@ },
            Step::Analyze { url, hash } => StepView::Analyze { url: url@, hash: hash@ },
            Step::Served { url, delivery } => StepView::Served { url: url@, delivery: *delivery },
            Step::Rejected { failure, message } => StepView::Rejected {
                failure: *failure,
                message: message@,
            },
        }
    }
}

/// The cached record for `url`, if any.
pub open spec fn lookup(m: Map<Seq<char>, Data>, url: Seq<char>) -> Option<Data> {
    if m.contains_key(url) {
        Some(m[url])
    } else {
        None
    }
}

/// A result of an outside action, with its strings seen as sequences.
pub open spec fn outcome_view(r: Result<String, String>) -> Result<Seq<char>, Seq<char>> {
    match r {
        Ok(s) => Ok(s@),
        Err(e) => Err(e@),
    }
}

/// The first step of a request for `user/repo` on `provider` at time `now`.
pub open spec fn start_step(
    m: Map<Seq<char>, Data>,
    provider: Seq<char>,
    user: Seq<char>,
    repo: Seq<char>,
    now: u64,
) -> StepView {
    match locate(provider, user, repo) {
        None => StepView::Rejected {
            failure: Failure::BadProvider,
            message: unsupported_provider_message(provider),
        },
        Some(url) => if decide(lookup(m, url), now, TRUST_WINDOW_SECS) == Freshness::ServeCached {
            StepView::Served { url, delivery: Delivery::CachedRecent }
        } else {
            StepView::FetchHead { url }
        },
    }
}

/// `record`, verified again at time `now` (its verified time never goes back).
pub open spec fn renewed(record: Data, now: u64) -> Data {
    Data {
        verified_time: if now > record.verified_time {
            now
        } else {
            record.verified_time
        },
        ..record
    }
}

/// The cache and the step after the remote HEAD hash of `url` was fetched.
pub open spec fn head_step(
    m: Map<Seq<char>, Data>,
    url: Seq<char>,
    fetched: Result<Seq<char>, Seq<char>>,
    now: u64,
) -> (Map<Seq<char>, Data>, StepView) {
    match fetched {
        Err(message) => (m, StepView::Rejected { failure: Failure::FetchFailed, message }),
        Ok(hash) => if m.contains_key(url) && m[url].hash@ == hash {
            (m.insert(url, renewed(m[url], now)), StepView::Served { url, delivery: Delivery::CachedVerified })
        } else {
            (m, StepView::Analyze { url, hash })
        },
    }
}

/// A new analysis as the cache stores it: with the HEAD hash it was made
/// for, and verified when it was created.
pub open spec fn committed(record: Data, hash: String) -> Data {
    Data { hash: hash, verified_time: record.creation_time, ..record }
}

/// The cache and the step after the analysis of `url` for `hash` ended.
pub open spec fn analysis_step(
    m: Map<Seq<char>, Data>,
    url: Seq<char>,
    hash: String,
    result: Result<Data, String>,
) -> (Map<Seq<char>, Data>, StepView) {
    match result {
        Err(message) => (m, StepView::Rejected { failure: Failure::AnalysisFailed, message: message@ }),
        Ok(record) => (
            m.insert(url, committed(record, hash)),
            StepView::Served { url, delivery: Delivery::Fresh },
        ),
    }
}

/// Starts a request at time `now`: resolves the URL and consults the policy.
pub fn start_job_at(db: &Database, job: &PostJobData, now: u64) -> (r: Step)
    requires
        db.wf(),
    ensures
        r@ == start_step(db@, job.provider@, job.username@, job.reponame@, now),
{
    let url = match expand_url(&job.provider, &job.username, &job.reponame) {
        Ok(url) => url,
        Err(message) => {
            return Step::Rejected { failure: Failure::BadProvider, message };
        },
    };
    let policy = freshness(db.get(&url), now, TRUST_WINDOW_SECS);
    match policy {
        Freshness::ServeCached => Step::Served { url, delivery: Delivery::CachedRecent },
        _ => Step::FetchHead { url },
    }
}

/// Starts a request at the current time.
pub fn start_job(db: &Database, job: &PostJobData) -> (r: Step)
    requires
        db.wf(),
    ensures
        exists|now: u64| r@ == start_step(db@, job.provider@, job.username@, job.reponame@, now),
{
    let now = current_time();
    start_job_at(db, job, now)
}

/// Takes the fetched HEAD hash of `url` (or the failure to fetch it) at time
/// `now`: serves the cached record if its hash matches, renewing its trust
/// window, and asks for an analysis otherwise.
pub fn on_head_hash_at(db: &mut Database, url: String, fetched: Result<String, String>, now: u64) -> (r: Step)
    requires
        old(db).wf(),
    ensures
        final(db).wf(),
        (final(db)@, r@) == head_step(old(db)@, url@, outcome_view(fetched), now),
{
    let hash = match fetched {
        Ok(hash) => hash,
        Err(message) => {
            return Step::Rejected { failure: Failure::FetchFailed, message };
        },
    };
    let (matched, verified) = match db.get(&url) {
        Some(record) => (record.hash == hash, record.verified_time),
        None => (false, 0),
    };
    if !matched {
        return Step::Analyze { url, hash };
    }
    proof {
        db.lemma_records_wf();
    }
    let stamp = if now > verified { now } else { verified };
    db.renew(&url, stamp);
    Step::Served { url, delivery: Delivery::CachedVerified }
}

/// Takes the fetched HEAD hash of `url` at the current time.
pub fn on_head_hash(db: &mut Database, url: String, fetched: Result<String, String>) -> (r: Step)
    requires
        old(db).wf(),
    ensures
        final(db).wf(),
        exists|now: u64| (final(db)@, r@) == head_step(old(db)@, url@, outcome_view(fetched), now),
{
    let now = current_time();
    on_head_hash_at(db, url, fetched, now)
}

/// Takes the outcome of analysing `url` for HEAD `hash`: a new record is
/// stored with that hash, replacing the old one; a failure leaves the cache
/// untouched.
pub fn on_analysis(db: &mut Database, url: String, hash: String, result: Result<Data, String>) -> (r: Step)
    requires
        old(db).wf(),
    ensures
        final(db).wf(),
        (final(db)@, r@) == analysis_step(old(db)@, url@, hash, result),
{
    match result {
        Err(message) => Step::Rejected { failure: Failure::AnalysisFailed, message },
        Ok(record) => {
            let mut record = record;
            record.hash = hash;
            record.verified_time = record.creation_time;
            db.upsert(url.clone(), record);
            Step::Served { url, delivery: Delivery::Fresh }
        },
    }
}

} // verus!
