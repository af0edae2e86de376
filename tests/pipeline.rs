use web_archiver::checker::WebsiteStatus;
use web_archiver::command::{destination_path, is_placeholder, join_path, substitute_url};
use web_archiver::config::{ArchiveConfig, Config, DatabaseConfig, RunnerConfig};
use web_archiver::controller::ArchiveController;
use web_archiver::job::{ArchiveJob, JobAction, JobEvent, JobOutcome, JobPhase};
use web_archiver::website::Website;

fn site(id: &str, url: &str, is_valid: bool) -> Website {
    Website { id: id.to_string(), url: url.to_string(), is_valid }
}

fn strings(words: &[&str]) -> Vec<String> {
    words.iter().map(|w| w.to_string()).collect()
}

fn pool(num_workers: usize) -> ArchiveController {
    ArchiveController::with_run_date(
        "archiver".to_string(),
        strings(&["--save", "{url}"]),
        "/archives".to_string(),
        "2024-03-01".to_string(),
        num_workers,
    )
}

fn spawn_args(action: &JobAction) -> Vec<String> {
    match action {
        JobAction::Spawn { args, .. } => args.clone(),
        other => panic!("expected a spawn, got {:?}", other),
    }
}

#[test]
fn stale_when_flag_differs() {
    let w = site("1", "https://example.com", true);
    assert!(!w.is_stale(true));
    assert!(w.is_stale(false));
}

#[test]
fn status_codes_classify() {
    assert!(matches!(WebsiteStatus::from_response(200, "u".to_string()), WebsiteStatus::Valid(u) if u == "u"));
    assert!(matches!(WebsiteStatus::from_response(299, "u".to_string()), WebsiteStatus::Valid(_)));
    assert!(matches!(WebsiteStatus::from_response(301, "v".to_string()), WebsiteStatus::Redirected(u) if u == "v"));
    assert!(matches!(WebsiteStatus::from_response(399, "v".to_string()), WebsiteStatus::Redirected(_)));
    assert!(matches!(WebsiteStatus::from_response(404, "w".to_string()), WebsiteStatus::Dead(u) if u == "w"));
    assert!(matches!(WebsiteStatus::from_response(199, "w".to_string()), WebsiteStatus::Dead(_)));
    assert!(matches!(WebsiteStatus::from_response(500, "w".to_string()), WebsiteStatus::Dead(_)));
    assert!(WebsiteStatus::failed("timeout".to_string()).is_failed());
}

#[test]
fn placeholder_substitution_is_case_insensitive_and_positional() {
    let template = strings(&["archive", "{UrL}", "--out"]);
    let args = substitute_url(&template, "https://example.com/a");
    assert_eq!(args, strings(&["archive", "https://example.com/a", "--out"]));
    assert!(is_placeholder("{url}"));
    assert!(is_placeholder("{URL}"));
    assert!(!is_placeholder("url"));
    assert!(!is_placeholder("{url}x"));
    assert!(substitute_url(&Vec::new(), "x").is_empty());
}

#[test]
fn destination_path_law() {
    assert_eq!(destination_path("/archives", "42", "2024-03-01"), "/archives/42/2024-03-01");
    assert_eq!(destination_path("/archives/", "42", "2024-03-01"), "/archives/42/2024-03-01");
    assert_eq!(join_path("", "a"), "a");
    assert_eq!(join_path("/base", "/abs"), "/abs");
}

#[test]
fn config_defaults() {
    let mut config = Config {
        database: DatabaseConfig { url: "postgres://localhost".to_string() },
        archive: ArchiveConfig { output_dir: "/out".to_string(), command: Vec::new() },
        runner: None,
    };
    assert_eq!(config.archive.program(), "wget");
    assert!(config.archive.program_args().is_empty());
    assert_eq!(config.num_workers(), 4);
    assert_eq!(config.num_websites(7), 7);
    assert_eq!(config.num_threads(), None);
    config.archive.command = strings(&["monolith", "{url}", "-o", "out.html"]);
    config.runner = Some(RunnerConfig { num_threads: Some(2), num_runs: Some(3), num_workers: Some(5) });
    assert_eq!(config.archive.program(), "monolith");
    assert_eq!(config.archive.program_args(), strings(&["{url}", "-o", "out.html"]));
    assert_eq!(config.num_workers(), 5);
    assert_eq!(config.num_websites(7), 3);
    assert_eq!(config.num_websites(2), 2);
    assert_eq!(config.num_threads(), Some(2));
}

#[test]
fn three_websites_scenario() {
    let mut c = pool(2);
    let (ok, a) = c.archive(site("1", "https://up.example.com/", true));
    assert!(matches!(a, JobAction::Check { ref url } if url == "https://up.example.com/"));
    let (gone, _) = c.archive(site("2", "https://gone.example.com/", true));
    let (slow, _) = c.archive(site("3", "https://slow.example.com/", true));

    let mut store_writes = 0;
    let mut spawns = 0;
    assert!(c.handle(ok, JobEvent::Checked(WebsiteStatus::from_response(200, "https://up.example.com/".to_string()))).is_none());
    let r = c.handle(gone, JobEvent::Checked(WebsiteStatus::from_response(404, "https://gone.example.com/".to_string())));
    match r {
        Some(JobAction::UpdateStore { id, is_valid }) => {
            assert_eq!(id, "2");
            assert!(!is_valid);
            store_writes += 1;
        }
        other => panic!("expected a store update, got {:?}", other),
    }
    assert!(c.handle(slow, JobEvent::Checked(WebsiteStatus::failed("timed out".to_string()))).is_none());
    assert!(c.handle(gone, JobEvent::StoreUpdated(Ok(()))).is_none());
    assert!(!c.is_finished());

    while let Some((job, action)) = c.dispatch() {
        assert_eq!(job, ok);
        assert_eq!(spawn_args(&action), strings(&["--save", "https://up.example.com/"]));
        spawns += 1;
    }
    assert_eq!(c.jobs[ok].source_path, "up.example.com");
    let r = c.handle(ok, JobEvent::ProcessExited(Ok(true)));
    assert!(matches!(r, Some(JobAction::CreateDir { ref path }) if path == "/archives/1/2024-03-01"));
    let r = c.handle(ok, JobEvent::DirCreated(Ok(())));
    assert!(matches!(r, Some(JobAction::Move { ref from, ref to }) if from == "up.example.com" && to == "/archives/1/2024-03-01"));
    assert!(!c.is_finished());
    assert!(c.handle(ok, JobEvent::Moved(Ok(()))).is_none());
    assert!(c.is_finished());

    assert_eq!(spawns, 1);
    assert_eq!(store_writes, 1);
    let total_writes: u32 = c.jobs.iter().map(|j| j.store_writes).sum();
    assert_eq!(total_writes, 1);
    assert_eq!(c.permits_in_use, 0);
    let s = c.summary();
    assert_eq!((s.archived, s.skipped_dead, s.failed), (1, 1, 1));
    assert!(matches!(c.jobs[slow].phase, JobPhase::Finished(JobOutcome::CheckFailed { .. })));
}

#[test]
fn dead_never_spawns_and_redirect_uses_final_url() {
    let mut c = pool(3);
    let (dead, _) = c.archive(site("d", "https://dead.example.com/", false));
    let (moved, _) = c.archive(site("m", "http://old.example.com/", true));
    assert!(c.handle(dead, JobEvent::Checked(WebsiteStatus::Dead("https://dead.example.com/".to_string()))).is_none());
    assert!(c.handle(moved, JobEvent::Checked(WebsiteStatus::Redirected("https://new.example.org/page".to_string()))).is_none());
    let (job, action) = c.dispatch().expect("a spawn");
    assert_eq!(job, moved);
    assert_eq!(spawn_args(&action), strings(&["--save", "https://new.example.org/page"]));
    assert!(c.dispatch().is_none());
    assert_eq!(c.jobs[dead].spawns, 0);
    assert!(matches!(c.jobs[dead].phase, JobPhase::Finished(JobOutcome::SkippedDead)));
    assert_eq!(c.jobs[moved].source_path, "new.example.org");
}

#[test]
fn pool_never_exceeds_workers() {
    let mut c = pool(1);
    let mut ids = Vec::new();
    for k in 0..4 {
        let url = format!("https://site{}.example.com/", k);
        let (id, _) = c.archive(site(&k.to_string(), &url, true));
        assert!(c.handle(id, JobEvent::Checked(WebsiteStatus::Valid(url))).is_none());
        ids.push(id);
    }
    let (first, _) = c.dispatch().expect("a spawn");
    assert_eq!(first, ids[0]);
    assert!(c.dispatch().is_none());
    assert_eq!(c.permits_in_use, 1);
    let mut order = vec![first];
    let mut current = first;
    loop {
        c.handle(current, JobEvent::ProcessExited(Ok(false)));
        c.handle(current, JobEvent::DirCreated(Ok(())));
        c.handle(current, JobEvent::Moved(Ok(())));
        assert_eq!(c.permits_in_use, 0);
        match c.dispatch() {
            Some((next, _)) => {
                assert!(c.dispatch().is_none());
                assert_eq!(c.permits_in_use, 1);
                order.push(next);
                current = next;
            }
            None => break,
        }
    }
    assert_eq!(order, ids);
    assert!(c.is_finished());
    assert!(matches!(c.jobs[0].phase, JobPhase::Finished(JobOutcome::Archived { clean_exit: false })));
}

#[test]
fn permits_released_on_failures() {
    let mut c = pool(2);
    let (a, _) = c.archive(site("a", "https://a.example.com/", true));
    let (b, _) = c.archive(site("b", "https://b.example.com/", true));
    c.handle(a, JobEvent::Checked(WebsiteStatus::Valid("https://a.example.com/".to_string())));
    c.handle(b, JobEvent::Checked(WebsiteStatus::Valid("https://b.example.com/".to_string())));
    assert!(c.dispatch().is_some());
    assert!(c.dispatch().is_some());
    assert_eq!(c.permits_in_use, 2);
    assert!(c.handle(a, JobEvent::ProcessExited(Err("no such program".to_string()))).is_none());
    assert_eq!(c.permits_in_use, 1);
    c.handle(b, JobEvent::ProcessExited(Ok(false)));
    c.handle(b, JobEvent::DirCreated(Ok(())));
    assert!(c.handle(b, JobEvent::Moved(Err("cross-device link".to_string()))).is_none());
    assert_eq!(c.permits_in_use, 0);
    for j in &c.jobs {
        assert_eq!(j.permits_acquired, 1);
        assert_eq!(j.permits_released, 1);
    }
    assert!(matches!(c.jobs[a].phase, JobPhase::Finished(JobOutcome::SpawnFailed { .. })));
    assert!(matches!(c.jobs[b].phase, JobPhase::Finished(JobOutcome::RelocationFailed { .. })));
    let s = c.summary();
    assert_eq!((s.archived, s.skipped_dead, s.failed), (0, 0, 2));
}

#[test]
fn directory_failure_releases_permit() {
    let mut c = pool(1);
    let (a, _) = c.archive(site("a", "https://a.example.com/", true));
    c.handle(a, JobEvent::Checked(WebsiteStatus::Valid("https://a.example.com/".to_string())));
    c.dispatch();
    c.handle(a, JobEvent::ProcessExited(Ok(true)));
    assert!(c.handle(a, JobEvent::DirCreated(Err("read-only".to_string()))).is_none());
    assert_eq!(c.permits_in_use, 0);
    assert_eq!(c.jobs[a].permits_released, 1);
}

#[test]
fn second_outcome_is_ignored() {
    let mut c = pool(1);
    let (a, _) = c.archive(site("a", "https://a.example.com/", true));
    assert!(c.handle(a, JobEvent::Checked(WebsiteStatus::Dead("https://a.example.com/".to_string()))).is_some());
    assert!(c.handle(a, JobEvent::Checked(WebsiteStatus::Valid("https://a.example.com/".to_string()))).is_none());
    assert!(matches!(c.jobs[a].phase, JobPhase::Syncing));
    assert!(!c.jobs[a].is_valid);
    assert!(c.handle(7, JobEvent::Moved(Ok(()))).is_none());
    assert_eq!(c.jobs[a].store_writes, 1);
}

#[test]
fn unchanged_flag_writes_nothing() {
    let mut c = pool(1);
    let (a, _) = c.archive(site("a", "https://a.example.com/", true));
    let (b, _) = c.archive(site("b", "https://b.example.com/", false));
    assert!(c.handle(a, JobEvent::Checked(WebsiteStatus::Valid("https://a.example.com/".to_string()))).is_none());
    assert!(c.handle(b, JobEvent::Checked(WebsiteStatus::Dead("https://b.example.com/".to_string()))).is_none());
    assert_eq!(c.jobs[a].store_writes, 0);
    assert_eq!(c.jobs[b].store_writes, 0);
}

#[test]
fn store_failure_ends_job_only() {
    let mut c = pool(1);
    let (a, _) = c.archive(site("a", "https://a.example.com/", false));
    let r = c.handle(a, JobEvent::Checked(WebsiteStatus::Valid("https://a.example.com/".to_string())));
    assert!(matches!(r, Some(JobAction::UpdateStore { is_valid: true, .. })));
    assert!(c.handle(a, JobEvent::StoreUpdated(Err("connection lost".to_string()))).is_none());
    assert!(matches!(c.jobs[a].phase, JobPhase::Finished(JobOutcome::StoreFailed { .. })));
    assert!(c.dispatch().is_none());
}

#[test]
fn url_without_host_is_skipped() {
    let mut c = pool(1);
    let (a, _) = c.archive(site("a", "data:text/plain,hello", true));
    assert!(c.handle(a, JobEvent::Checked(WebsiteStatus::Valid("data:text/plain,hello".to_string()))).is_none());
    assert!(matches!(c.jobs[a].phase, JobPhase::Finished(JobOutcome::NoHost)));
    assert!(c.dispatch().is_none());
}

#[test]
fn place_with_given_host() {
    let mut job = ArchiveJob::new(site("9", "https://x.example.com/", true));
    job.place(Some("x.example.com".to_string()), "/root/", "2024-01-02");
    assert!(matches!(job.phase, JobPhase::WaitingPermit));
    assert_eq!(job.source_path, "x.example.com");
    assert_eq!(job.dest_path, "/root/9/2024-01-02");
    let mut other = ArchiveJob::new(site("9", "https://x.example.com/", true));
    other.place(None, "/root", "2024-01-02");
    assert!(matches!(other.phase, JobPhase::Finished(JobOutcome::NoHost)));
}

#[test]
fn zero_workers_never_spawn() {
    let mut c = pool(0);
    let (a, _) = c.archive(site("a", "https://a.example.com/", true));
    c.handle(a, JobEvent::Checked(WebsiteStatus::Valid("https://a.example.com/".to_string())));
    assert!(c.dispatch().is_none());
    assert!(matches!(c.jobs[a].phase, JobPhase::WaitingPermit));
}

#[test]
fn new_pool_is_dated_today() {
    let c = ArchiveController::new("wget".to_string(), Vec::new(), "/out".to_string(), 2);
    let date: Vec<char> = c.run_date.chars().collect();
    assert_eq!(date.len(), 10);
    assert_eq!(date[4], '-');
    assert_eq!(date[7], '-');
    assert!(date.iter().enumerate().all(|(k, ch)| k == 4 || k == 7 || ch.is_ascii_digit()));
    assert_eq!(c.num_workers, 2);
    assert_eq!(c.permits_in_use, 0);
    assert!(c.is_finished());
}
