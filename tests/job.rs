use klocc::{
    init_db, on_analysis, on_head_hash, on_head_hash_at, start_job, start_job_at, Data, Database, Delivery,
    Failure, FileInfo, Info, LanguageInfo, PostJobData, Step,
};

const URL: &str = "https://github.com/alice/demo.git";

fn job(provider: &str) -> PostJobData {
    PostJobData { username: "alice".to_string(), reponame: "demo".to_string(), provider: provider.to_string() }
}

fn analysed(created: u64, code: u32) -> Data {
    let mut lang = LanguageInfo::new("Rust".to_string(), Info::new(code, 2, 1));
    lang.files.push(FileInfo::new("src/main.rs".to_string(), code, 2, 1));
    Data {
        creation_time: created,
        verified_time: created,
        repo: URL.to_string(),
        hash: String::new(),
        total: Info::new(code, 2, 1),
        languages: vec![lang],
    }
}

/// A cache that holds a record for `URL`, analysed at `created` for head `hash`.
fn cache_with(hash: &str, created: u64) -> Database {
    let mut db = init_db();
    let step = on_analysis(&mut db, URL.to_string(), hash.to_string(), Ok(analysed(created, 10)));
    assert!(matches!(step, Step::Served { delivery: Delivery::Fresh, .. }));
    db
}

#[test]
fn empty_cache_takes_recompute_path() {
    let mut db = init_db();
    let step = start_job_at(&db, &job("github"), 1000);
    let url = match step {
        Step::FetchHead { url } => url,
        other => panic!("unexpected step {:?}", other),
    };
    assert_eq!(url, URL);
    let step = on_head_hash_at(&mut db, url.clone(), Ok("c0ffee".to_string()), 1001);
    let hash = match step {
        Step::Analyze { url: u, hash } => {
            assert_eq!(u, URL);
            hash
        },
        other => panic!("unexpected step {:?}", other),
    };
    assert_eq!(hash, "c0ffee");
    let step = on_analysis(&mut db, url.clone(), hash, Ok(analysed(1002, 42)));
    match step {
        Step::Served { url: u, delivery } => {
            assert_eq!(u, URL);
            assert_eq!(delivery, Delivery::Fresh);
        },
        other => panic!("unexpected step {:?}", other),
    }
    let record = db.get(&url).unwrap();
    assert!(record.total.code > 0);
    assert_eq!(record.hash, "c0ffee");
    assert_eq!(db.len(), 1);
}

#[test]
fn second_request_within_window_is_cached() {
    let db = cache_with("c0ffee", 1000);
    let before = db.get(&URL.to_string()).unwrap();
    let (hash, code, created) = (before.hash.clone(), before.total, before.creation_time);
    let step = start_job_at(&db, &job("github"), 1000 + 60);
    match step {
        Step::Served { url, delivery } => {
            assert_eq!(url, URL);
            assert_eq!(delivery, Delivery::CachedRecent);
        },
        other => panic!("unexpected step {:?}", other),
    }
    let after = db.get(&URL.to_string()).unwrap();
    assert_eq!(after.hash, hash);
    assert_eq!(after.total, code);
    assert_eq!(after.creation_time, created);
    assert_eq!(after.languages[0].files[0].path, "src/main.rs");
}

#[test]
fn unsupported_provider_is_rejected() {
    let db = init_db();
    match start_job_at(&db, &job("bitbucket"), 1000) {
        Step::Rejected { failure, message } => {
            assert_eq!(failure, Failure::BadProvider);
            assert_eq!(message, "Service provider for git with a name 'bitbucket' is not supported!");
        },
        other => panic!("unexpected step {:?}", other),
    }
    assert_eq!(db.len(), 0);
}

#[test]
fn stale_record_with_matching_hash_is_served() {
    let mut db = cache_with("c0ffee", 1000);
    let step = start_job_at(&db, &job("github"), 2000);
    assert!(matches!(step, Step::FetchHead { .. }));
    let step = on_head_hash_at(&mut db, URL.to_string(), Ok("c0ffee".to_string()), 2000);
    assert!(matches!(step, Step::Served { delivery: Delivery::CachedVerified, .. }));
    let record = db.get(&URL.to_string()).unwrap();
    assert_eq!(record.verified_time, 2000);
    assert_eq!(record.creation_time, 1000);
    assert_eq!(record.total.code, 10);
    // The renewed trust window now covers the next request.
    let step = start_job_at(&db, &job("github"), 2100);
    assert!(matches!(step, Step::Served { delivery: Delivery::CachedRecent, .. }));
}

#[test]
fn stale_record_with_changed_hash_is_recomputed() {
    let mut db = cache_with("c0ffee", 1000);
    let step = on_head_hash_at(&mut db, URL.to_string(), Ok("beef".to_string()), 2000);
    let hash = match step {
        Step::Analyze { hash, .. } => hash,
        other => panic!("unexpected step {:?}", other),
    };
    assert_eq!(hash, "beef");
    let step = on_analysis(&mut db, URL.to_string(), hash, Ok(analysed(2001, 77)));
    assert!(matches!(step, Step::Served { delivery: Delivery::Fresh, .. }));
    let record = db.get(&URL.to_string()).unwrap();
    assert_eq!(record.hash, "beef");
    assert_eq!(record.total.code, 77);
    assert_eq!(record.verified_time, 2001);
    assert_eq!(db.len(), 1);
}

#[test]
fn failed_analysis_keeps_prior_record() {
    let mut db = cache_with("c0ffee", 1000);
    let step = on_analysis(&mut db, URL.to_string(), "beef".to_string(), Err("clone failed".to_string()));
    match step {
        Step::Rejected { failure, message } => {
            assert_eq!(failure, Failure::AnalysisFailed);
            assert_eq!(message, "clone failed");
        },
        other => panic!("unexpected step {:?}", other),
    }
    let record = db.get(&URL.to_string()).unwrap();
    assert_eq!(record.hash, "c0ffee");
    assert_eq!(record.total.code, 10);
}

#[test]
fn failed_analysis_keeps_cache_empty() {
    let mut db = init_db();
    let step = on_analysis(&mut db, URL.to_string(), "beef".to_string(), Err("scan failed".to_string()));
    assert!(matches!(step, Step::Rejected { failure: Failure::AnalysisFailed, .. }));
    assert!(db.get(&URL.to_string()).is_none());
    assert_eq!(db.len(), 0);
}

#[test]
fn failed_fetch_is_rejected() {
    let mut db = cache_with("c0ffee", 1000);
    match on_head_hash(&mut db, URL.to_string(), Err("network".to_string())) {
        Step::Rejected { failure, message } => {
            assert_eq!(failure, Failure::FetchFailed);
            assert_eq!(message, "network");
        },
        other => panic!("unexpected step {:?}", other),
    }
    assert_eq!(db.get(&URL.to_string()).unwrap().verified_time, 1000);
}

#[test]
fn start_job_reads_the_clock() {
    let mut db = init_db();
    let data = Data::new(URL.to_string(), Info::new(3, 0, 0));
    on_analysis(&mut db, URL.to_string(), "c0ffee".to_string(), Ok(data));
    // Just analysed: well within the trust window by the real clock.
    assert!(matches!(start_job(&db, &job("github")), Step::Served { delivery: Delivery::CachedRecent, .. }));
}

#[test]
fn codes_and_statuses() {
    assert_eq!(Delivery::CachedRecent.message_code(), "info_success_cached_recent");
    assert_eq!(Delivery::CachedVerified.message_code(), "info_success_cached");
    assert_eq!(Delivery::Fresh.message_code(), "info_success_generated");
    assert_eq!(Failure::BadProvider.message_code(), "err_bad_service");
    assert_eq!(Failure::FetchFailed.message_code(), "err_failed_to_fetch_from_repo");
    assert_eq!(Failure::AnalysisFailed.message_code(), "err_counter_failed");
    assert_eq!(Failure::BadProvider.status(), 400);
    assert_eq!(Failure::FetchFailed.status(), 400);
    assert_eq!(Failure::AnalysisFailed.status(), 500);
}
