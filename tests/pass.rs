use hashtag_importer::{
    token, is_error_status, Action, DedupTracker, Failure, Hashtag, HashtagPass, LocalServer,
    ask, Limiters, Permit, Phase, Scheduler, Stage, StatusSet, Step, status_host, decimal_u8, search_url, timeline_url, LOCAL_PAGE, OOB_URI, REMOTE_PAGE, REST_NANOS,
};

fn s(x: &str) -> String {
    x.to_string()
}

fn local() -> LocalServer {
    LocalServer { host: s("local.example"), token: s("SECRET-REDACTED") }
}

fn tag(name: &str, sources: &[&str]) -> Hashtag {
    Hashtag { name: s(name), sources: sources.iter().map(|x| s(x)).collect(), any: None }
}

/// Runs the fetches of a pass with every permit granted.
fn fetch_all(pass: &mut HashtagPass, tracker: &mut DedupTracker, remote: Vec<Vec<String>>, local_urls: Vec<String>) {
    let l = local();
    for urls in remote {
        pass.settle(tracker);
        match pass.grant(Ok(()), &l) {
            Some(Step::Fetch(f)) => {
                assert_eq!(f.token, "");
                assert_eq!(f.limit, REMOTE_PAGE);
            }
            _ => panic!("expected a remote fetch"),
        }
        pass.fetched(urls);
    }
    pass.settle(tracker);
    match pass.grant(Ok(()), &l) {
        Some(Step::Fetch(f)) => {
            assert_eq!(f.server, "local.example");
            assert_eq!(f.token, "SECRET-REDACTED");
            assert_eq!(f.limit, LOCAL_PAGE);
        }
        _ => panic!("expected the local fetch"),
    }
    pass.fetched(local_urls);
}

/// Takes the current candidate through every budget; returns the URL handed out.
fn admit_current(pass: &mut HashtagPass, tracker: &mut DedupTracker) -> String {
    let l = local();
    pass.settle(tracker);
    assert!(pass.screen(Some(Ok(()))).is_none());
    assert!(pass.grant(Ok(()), &l).is_none());
    match pass.grant(Ok(()), &l) {
        Some(Step::Import(u)) => u,
        _ => panic!("expected an import"),
    }
}

#[test]
fn two_sources_one_failed_import() {
    let mut tracker = DedupTracker::new();
    let mut pass = HashtagPass::new(&tag("kr2024", &["a.example", "b.example"]));
    fetch_all(
        &mut pass,
        &mut tracker,
        vec![vec![s("https://a.example/u1"), s("https://a.example/u2")], vec![s("https://a.example/u2"), s("https://b.example/u3")]],
        vec![s("https://a.example/u1")],
    );
    assert_eq!(pass.candidate_urls(), &vec![s("https://a.example/u2"), s("https://b.example/u3")]);
    let first = admit_current(&mut pass, &mut tracker);
    assert_eq!(first, "https://a.example/u2");
    pass.imported(true, &mut tracker);
    let second = admit_current(&mut pass, &mut tracker);
    assert_eq!(second, "https://b.example/u3");
    pass.imported(false, &mut tracker);
    pass.settle(&mut tracker);
    assert_eq!(pass.phase_now(), Phase::Finished);
    assert!(tracker.was_imported(&s("https://a.example/u2")));
    assert!(!tracker.was_imported(&s("https://b.example/u3")));
    assert_eq!(tracker.len(), 1);
}

#[test]
fn upstream_quota_skips_without_marking() {
    let mut tracker = DedupTracker::new();
    let mut pass = HashtagPass::new(&tag("kr2024", &["a.example"]));
    fetch_all(&mut pass, &mut tracker, vec![vec![s("https://mastodon.example/x")]], vec![]);
    pass.settle(&mut tracker);
    match pass.screen(Some(Err(1_000))) {
        Some(Step::Skipped(u, why)) => {
            assert_eq!(u, "https://mastodon.example/x");
            assert_eq!(why, Failure::QuotaExceeded);
        }
        _ => panic!("expected a skip"),
    }
    pass.settle(&mut tracker);
    assert_eq!(pass.phase_now(), Phase::Finished);
    assert!(!tracker.was_imported(&s("https://mastodon.example/x")));
    // The next pass offers it again.
    let mut again = HashtagPass::new(&tag("kr2024", &["a.example"]));
    fetch_all(&mut again, &mut tracker, vec![vec![s("https://mastodon.example/x")]], vec![]);
    assert_eq!(admit_current(&mut again, &mut tracker), "https://mastodon.example/x");
}

#[test]
fn unparseable_candidate_is_skipped() {
    let mut pass = HashtagPass::new(&tag("t", &["a.example"]));
    let mut tracker = DedupTracker::new();
    fetch_all(&mut pass, &mut tracker, vec![vec![s("x")]], vec![]);
    pass.settle(&mut tracker);
    match pass.screen(None) {
        Some(Step::Skipped(u, why)) => {
            assert_eq!(u, "x");
            assert_eq!(why, Failure::UnparseableUrl);
        }
        _ => panic!("expected a skip"),
    }
}

#[test]
fn imported_candidate_is_not_offered_again() {
    let mut tracker = DedupTracker::new();
    tracker.mark_imported(s("https://a.example/1"));
    let mut pass = HashtagPass::new(&tag("t", &["a.example"]));
    fetch_all(&mut pass, &mut tracker, vec![vec![s("https://a.example/1"), s("https://a.example/2")]], vec![]);
    assert_eq!(admit_current(&mut pass, &mut tracker), "https://a.example/2");
    pass.imported(true, &mut tracker);
    pass.settle(&mut tracker);
    assert_eq!(pass.phase_now(), Phase::Finished);
    assert_eq!(tracker.len(), 2);
}

#[test]
fn refused_permit_waits_in_place() {
    let mut pass = HashtagPass::new(&tag("t", &["a.example"]));
    match pass.grant(Err(42), &local()) {
        Some(Step::Wait(w)) => assert_eq!(w, 42),
        _ => panic!("expected a wait"),
    }
    assert_eq!(pass.phase_now(), Phase::Source(0));
}

#[test]
fn fetch_failure_aborts_without_prune() {
    let mut tracker = DedupTracker::new();
    tracker.mark_imported(s("https://a.example/old"));
    let mut pass = HashtagPass::new(&tag("t", &["a.example"]));
    pass.settle(&mut tracker);
    assert!(pass.grant(Ok(()), &local()).is_some());
    pass.fetch_failed();
    assert_eq!(pass.phase_now(), Phase::Aborted);
    assert!(tracker.was_imported(&s("https://a.example/old")));
}

#[test]
fn candidate_stages() {
    let mut tracker = DedupTracker::new();
    let mut pass = HashtagPass::new(&tag("t", &[]));
    fetch_all(&mut pass, &mut tracker, vec![], vec![]);
    assert_eq!(pass.phase_now(), Phase::Candidate(0, Stage::Fresh));
    pass.settle(&mut tracker);
    assert_eq!(pass.phase_now(), Phase::Finished);
}

#[test]
fn scheduler_waits_on_the_query_budget() {
    let mut sched = Scheduler::new(vec![tag("t", &["q.example", "q.example"])], local());
    match sched.next() {
        Action::Fetch(0, f) => assert_eq!(f.server, "q.example"),
        _ => panic!("expected a fetch"),
    }
    assert!(sched.is_awaiting());
    sched.fetched(vec![]);
    match sched.next() {
        Action::Wait(w) => assert!(w > 0 && w <= 60_000_000_000),
        _ => panic!("expected a wait on the second query to the same server"),
    }
}

#[test]
fn scheduler_without_hashtags_rests() {
    let mut sched = Scheduler::new(vec![], local());
    match sched.next() {
        Action::Rest(n) => assert_eq!(n, REST_NANOS),
        _ => panic!("expected a rest"),
    }
}

#[test]
fn scheduler_skips_unparseable_url() {
    let mut sched = Scheduler::new(vec![tag("t", &["a.example"])], local());
    assert!(matches!(sched.next(), Action::Fetch(0, _)));
    sched.fetched(vec![s("not a url")]);
    assert!(matches!(sched.next(), Action::Fetch(0, _)));
    sched.fetched(vec![]);
    match sched.next() {
        Action::Skipped(0, u, Failure::UnparseableUrl) => assert_eq!(u, "not a url"),
        _ => panic!("expected a skip"),
    }
    match sched.next() {
        Action::HashtagDone(0, false) => {}
        _ => panic!("expected the end of the pass"),
    }
    match sched.next() {
        Action::Rest(n) => assert_eq!(n, 300_000_000_000),
        _ => panic!("expected a rest"),
    }
}

#[test]
fn status_set_union_and_difference() {
    let mut a = StatusSet::from_vec(vec![s("u1"), s("u2"), s("u1")]);
    assert_eq!(a.len(), 2);
    a.extend(vec![s("u2"), s("u3")]);
    assert_eq!(a.len(), 3);
    let b = StatusSet::from_vec(vec![s("u1")]);
    assert_eq!(a.difference(&b), vec![s("u2"), s("u3")]);
    assert!(a.contains(&s("u3")));
    assert!(!b.contains(&s("u3")));
}

#[test]
fn retain_only_twice_is_retain_once() {
    let mut t = DedupTracker::new();
    t.mark_imported(s("u1"));
    t.mark_imported(s("u2"));
    t.mark_imported(s("u3"));
    let seen = StatusSet::from_vec(vec![s("u2"), s("u3"), s("u4")]);
    t.retain_only(&seen);
    assert_eq!(t.len(), 2);
    t.retain_only(&seen);
    assert_eq!(t.len(), 2);
    assert!(!t.was_imported(&s("u1")));
    assert!(t.was_imported(&s("u2")));
    assert!(t.len() <= seen.len());
}

#[test]
fn token_request() {
    let q = token("m.example", "id", "SECRET-REDACTED", "c0de");
    assert_eq!(q.url, "https://m.example/oauth/token");
    assert_eq!(q.redirect_uri, OOB_URI);
    assert_eq!(q.grant_type, "authorization_code");
    assert_eq!(q.code, "c0de");
    assert_eq!(q.client_id, "id");
    assert_eq!(q.scope, "read");
}

#[test]
fn error_statuses() {
    assert!(!is_error_status(200));
    assert!(!is_error_status(399));
    assert!(is_error_status(400));
    assert!(is_error_status(503));
    assert!(!is_error_status(600));
}

#[test]
fn host_of_status_urls() {
    assert_eq!(status_host(&s("https://mastodon.example/@a/1")), Some(s("mastodon.example")));
    assert_eq!(status_host(&s("https://B.example:8443/x")), Some(s("b.example")));
    assert_eq!(status_host(&s("not a url")), None);
    assert_eq!(status_host(&s("mailto:a@b.example")), None);
}

#[test]
fn decimal_numbers() {
    assert_eq!(decimal_u8(0), "0");
    assert_eq!(decimal_u8(7), "7");
    assert_eq!(decimal_u8(25), "25");
    assert_eq!(decimal_u8(40), "40");
    assert_eq!(decimal_u8(100), "100");
    assert_eq!(decimal_u8(255), "255");
}

#[test]
fn timeline_addresses() {
    assert_eq!(
        timeline_url("a.example", "kr2024", &None, 25).unwrap(),
        "https://a.example/api/v1/timelines/tag/kr2024?limit=25"
    );
    assert_eq!(
        timeline_url("a.example", "kr2024", &Some(vec![s("kr2023"), s("KernelRecipes")]), 40).unwrap(),
        "https://a.example/api/v1/timelines/tag/kr2024?limit=40&any%5B%5D=kr2023&any%5B%5D=KernelRecipes"
    );
    assert_eq!(timeline_url("bad host", "x", &None, 1), None);
}

#[test]
fn search_address() {
    assert_eq!(
        search_url("local.example", "https://a.example/@b/1").unwrap(),
        "https://local.example/api/v2/search?q=https%3A%2F%2Fa.example%2F%40b%2F1&resolve=true&limit=25&type=statuses"
    );
}

#[test]
fn budgets_asked_by_stage() {
    let l = local();
    let mut tracker = DedupTracker::new();
    let mut pass = HashtagPass::new(&tag("t", &["a.example"]));
    assert!(matches!(pass.permit_needed(&l), Permit::Query(k) if k == "a.example"));
    fetch_all(&mut pass, &mut tracker, vec![vec![s("https://up.example/1")]], vec![]);
    pass.settle(&mut tracker);
    assert!(matches!(pass.permit_needed(&l), Permit::Upstream(h) if h == "up.example"));
    assert!(pass.screen(Some(Ok(()))).is_none());
    assert!(matches!(pass.permit_needed(&l), Permit::Import));
    assert!(pass.grant(Ok(()), &l).is_none());
    assert!(matches!(pass.permit_needed(&l), Permit::Query(k) if k == "local.example"));
}

#[test]
fn ask_routes_to_the_named_budget() {
    let mut limiters = Limiters::new();
    assert_eq!(ask(&mut limiters, &Permit::Query(s("q.example"))), Some(Ok(())));
    // The upstream budget of the same key is a different bucket.
    assert_eq!(ask(&mut limiters, &Permit::Upstream(s("q.example"))), Some(Ok(())));
    assert!(matches!(ask(&mut limiters, &Permit::Query(s("q.example"))), Some(Err(w)) if w > 0));
    assert_eq!(ask(&mut limiters, &Permit::Query(s("other.example"))), Some(Ok(())));
    assert_eq!(ask(&mut limiters, &Permit::Import), Some(Ok(())));
    assert_eq!(ask(&mut limiters, &Permit::NoHost), None);
    assert_eq!(ask(&mut limiters, &Permit::NoneNeeded), None);
}
