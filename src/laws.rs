//! Properties of the cache and of the request state machine, proved over the
//! specifications that the executable functions meet.
use vstd::prelude::*;
use crate::analysis::{relative_to, under_root};
use crate::cache::Database;
use crate::data::Data;
use crate::freshness::TRUST_WINDOW_SECS;
use crate::job::{analysis_step, committed, head_step, lookup, renewed, start_step, Delivery, StepView};
use crate::locator::locate;

verus! {

/// The cache after a series of successful analyses, each given as the URL,
/// the HEAD hash and the record, committed in order.
pub open spec fn after_completions(
    m: Map<Seq<char>, Data>,
    completions: Seq<(Seq<char>, String, Data)>,
) -> Map<Seq<char>, Data>
    decreases completions.len(),
{
    if completions.len() == 0 {
        m
    } else {
        let c = completions.last();
        analysis_step(after_completions(m, completions.drop_last()), c.0, c.1, Ok(c.2)).0
    }
}

/// Whatever analyses of any repositories complete, a read of `url` returns
/// exactly the record of the last completion for `url` to commit, with that
/// completion's hash: never fields of two different records.
pub proof fn lemma_last_commit_wins(
    m: Map<Seq<char>, Data>,
    completions: Seq<(Seq<char>, String, Data)>,
    url: Seq<char>,
    last: int,
)
    requires
        0 <= last < completions.len(),
        completions[last].0 == url,
        forall|i: int| last < i < completions.len() ==> (#[trigger] completions[i]).0 != url,
    ensures
        after_completions(m, completions).contains_key(url),
        after_completions(m, completions)[url] == committed(completions[last].2, completions[last].1),
    decreases completions.len(),
{
    let pre = completions.drop_last();
    if last < completions.len() - 1 {
        assert forall|i: int| last < i < pre.len() implies (#[trigger] pre[i]).0 != url by {
            assert(pre[i] == completions[i]);
        }
        lemma_last_commit_wins(m, pre, url, last);
        assert(pre[last] == completions[last]);
        assert(completions[completions.len() - 1].0 != url);
    }
}

/// A request within the trust window of the record's creation is served
/// from the cache, with no remote call and no analysis.
pub proof fn lemma_trust_window_serves_cached(
    db: &Database,
    provider: Seq<char>,
    user: Seq<char>,
    repo: Seq<char>,
    now: u64,
)
    requires
        db.wf(),
        locate(provider, user, repo) is Some,
        db@.contains_key(locate(provider, user, repo)->Some_0),
        now - db@[locate(provider, user, repo)->Some_0].creation_time < TRUST_WINDOW_SECS,
    ensures
        start_step(db@, provider, user, repo, now) == (StepView::Served {
            url: locate(provider, user, repo)->Some_0,
            delivery: Delivery::CachedRecent,
        }),
{
    db.lemma_records_wf();
}

/// A record past its trust window whose hash equals the fetched HEAD hash is
/// served as it is (only its verification time moves), with no analysis.
pub proof fn lemma_matching_hash_serves_cached(
    db: &Database,
    provider: Seq<char>,
    user: Seq<char>,
    repo: Seq<char>,
    now: u64,
    fetched: Seq<char>,
    later: u64,
)
    requires
        db.wf(),
        locate(provider, user, repo) is Some,
        db@.contains_key(locate(provider, user, repo)->Some_0),
        now - db@[locate(provider, user, repo)->Some_0].verified_time >= TRUST_WINDOW_SECS,
        db@[locate(provider, user, repo)->Some_0].hash@ == fetched,
    ensures
        ({
            let url = locate(provider, user, repo)->Some_0;
            let (after, step) = head_step(db@, url, Ok(fetched), later);
            &&& start_step(db@, provider, user, repo, now) == (StepView::FetchHead { url })
            &&& step == (StepView::Served { url, delivery: Delivery::CachedVerified })
            &&& after == db@.insert(url, renewed(db@[url], later))
        }),
{
}

/// A record past its trust window whose hash differs from the fetched HEAD
/// hash leads to an analysis, and the record that it commits carries the
/// fetched hash.
pub proof fn lemma_changed_hash_recomputes(
    db: &Database,
    provider: Seq<char>,
    user: Seq<char>,
    repo: Seq<char>,
    now: u64,
    fetched: String,
    later: u64,
    record: Data,
)
    requires
        db.wf(),
        locate(provider, user, repo) is Some,
        db@.contains_key(locate(provider, user, repo)->Some_0),
        now - db@[locate(provider, user, repo)->Some_0].verified_time >= TRUST_WINDOW_SECS,
        db@[locate(provider, user, repo)->Some_0].hash@ != fetched@,
    ensures
        ({
            let url = locate(provider, user, repo)->Some_0;
            let (checked, step) = head_step(db@, url, Ok(fetched@), later);
            let (stored, done) = analysis_step(checked, url, fetched, Ok(record));
            &&& start_step(db@, provider, user, repo, now) == (StepView::FetchHead { url })
            &&& step == (StepView::Analyze { url, hash: fetched@ })
            &&& done == (StepView::Served { url, delivery: Delivery::Fresh })
            &&& stored.contains_key(url)
            &&& stored[url].hash@ == fetched@
        }),
{
}

/// A failed analysis, or a failed fetch of the HEAD hash, leaves every read
/// as it was: the prior record, or none.
pub proof fn lemma_failure_keeps_cache(
    m: Map<Seq<char>, Data>,
    url: Seq<char>,
    hash: String,
    error: String,
    now: u64,
    key: Seq<char>,
)
    ensures
        lookup(analysis_step(m, url, hash, Err(error)).0, key) == lookup(m, key),
        lookup(head_step(m, url, Err(error@), now).0, key) == lookup(m, key),
{
}

/// A file at `<tmp>/<name>/<rest>` is recorded as `<rest>`, wherever the
/// temporary root `<tmp>` lies.
pub proof fn lemma_paths_relative_to_clone(tmp: Seq<char>, name: Seq<char>, rest: Seq<char>)
    ensures
        ({
            let root = tmp + "/"@ + name;
            let file = root + "/"@ + rest;
            under_root(root, file) && relative_to(root, file) == rest
        }),
{
    reveal_strlit("/");
    let root = tmp + "/"@ + name;
    let file = root + "/"@ + rest;
    assert(file.subrange(0, root.len() as int) =~= root);
    assert(file[root.len() as int] == '/');
    assert(file.subrange(root.len() as int + 1, file.len() as int) =~= rest);
}

} // verus!
