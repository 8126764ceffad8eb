use log_archiver::backfill::plan_backfill;
use log_archiver::errors::ArchiveError;
use log_archiver::frontier::{
    estimate_frontier, frontier_from_listing, Listing, LogEntry, LISTING_LIMIT,
    STALENESS_MARGIN_SECS,
};
use log_archiver::ingest::check_body;
use log_archiver::walk::{
    run_all_success, Action, ArtifactOutcome, Event, RunPhase, RunState, PACE_MILLIS,
    RUN_INTERVAL_SECS,
};

fn entry(id: u64, created_at: i64) -> LogEntry {
    LogEntry { id, created_at }
}

#[test]
fn frontier_scenario_picks_first_stale() {
    // Listing: id 100 is 5000s old, id 99 is 2000s old, id 98 is 4000s old.
    let now: i64 = 10000;
    let entries = vec![entry(100, 5000), entry(99, 8000), entry(98, 6000)];
    assert_eq!(estimate_frontier(&entries, now), Ok(100));
}

#[test]
fn frontier_skips_fresh_head() {
    // The newest entry is within the margin; the first stale one wins.
    let now: i64 = 10000;
    let entries = vec![entry(100, 9000), entry(99, 5000)];
    assert_eq!(estimate_frontier(&entries, now), Ok(99));
}

#[test]
fn frontier_age_exactly_margin_is_fresh() {
    // Staleness is strict: an entry exactly 3600s old does not qualify.
    let now: i64 = 10000;
    let entries = vec![entry(5, now - STALENESS_MARGIN_SECS)];
    assert_eq!(estimate_frontier(&entries, now), Err(ArchiveError::NoFrontier));
    let older = vec![entry(5, now - STALENESS_MARGIN_SECS - 1)];
    assert_eq!(estimate_frontier(&older, now), Ok(5));
}

#[test]
fn frontier_none_when_all_fresh() {
    let now: i64 = 10000;
    let entries = vec![entry(1, 9999), entry(2, 9000), entry(3, 7000)];
    assert_eq!(estimate_frontier(&entries, now), Err(ArchiveError::NoFrontier));
}

#[test]
fn frontier_empty_listing() {
    let entries: Vec<LogEntry> = Vec::new();
    assert_eq!(estimate_frontier(&entries, 10000), Err(ArchiveError::NoFrontier));
}

#[test]
fn listing_failure_flag_is_protocol_error() {
    let listing = Listing { success: false, entries: vec![entry(100, 0)] };
    assert_eq!(frontier_from_listing(&listing, 10000), Err(ArchiveError::Protocol));
}

#[test]
fn listing_success_estimates_frontier() {
    let listing = Listing { success: true, entries: vec![entry(100, 5000), entry(99, 8000)] };
    assert_eq!(frontier_from_listing(&listing, 10000), Ok(100));
}

#[test]
fn scenario_empty_store_walks_to_one_hundred() {
    // Store empty (watermark 0), frontier 100: the walk ingests 1..=100 in
    // order, one body then one artifact each, and completes at watermark 100.
    let mut s = RunState::new(0, 100);
    for id in 1..=100u64 {
        assert_eq!(s.next_action(), Action::IngestBody { id });
        s = s.step(&Event::BodyIngested);
        assert_eq!(s.watermark, id);
        assert_eq!(s.next_action(), Action::HandleArtifact { id });
        s = s.step(&Event::ArtifactHandled { outcome: ArtifactOutcome::Extracted });
    }
    assert_eq!(s.phase, RunPhase::Complete);
    assert_eq!(s.watermark, 100);
    assert_eq!(s.next_action(), Action::Stop);
}

#[test]
fn all_success_run_completes_at_ceiling() {
    let s = run_all_success(0, 100);
    assert_eq!(s.phase, RunPhase::Complete);
    assert_eq!(s.watermark, 100);
    let idle = run_all_success(7, 7);
    assert_eq!(idle.watermark, 7);
    let past = run_all_success(9, 4);
    assert_eq!(past.watermark, 9);
}

#[test]
fn empty_range_is_noop() {
    // Watermark already at the frontier: nothing is fetched or inserted.
    let s = RunState::new(7, 7);
    assert_eq!(s.phase, RunPhase::Complete);
    assert_eq!(s.next_action(), Action::Stop);
    assert_eq!(s.watermark, 7);
}

#[test]
fn watermark_past_ceiling_is_noop() {
    let s = RunState::new(9, 4);
    assert_eq!(s.phase, RunPhase::Complete);
    assert_eq!(s.next_action(), Action::Stop);
}

#[test]
fn abort_keeps_watermark_contiguous() {
    // Ingest ids 11..=13, then fail on 14: the watermark stays at 13 exactly.
    let mut s = RunState::new(10, 20);
    for id in 11..=13u64 {
        assert_eq!(s.next_action(), Action::IngestBody { id });
        s = s.step(&Event::BodyIngested);
        assert_eq!(s.next_action(), Action::HandleArtifact { id });
        s = s.step(&Event::ArtifactHandled { outcome: ArtifactOutcome::Extracted });
    }
    assert_eq!(s.next_action(), Action::IngestBody { id: 14 });
    s = s.step(&Event::BodyFailed { error: ArchiveError::Transport });
    assert_eq!(s.phase, RunPhase::Aborted { error: ArchiveError::Transport });
    assert_eq!(s.watermark, 13);
    assert_eq!(s.next_action(), Action::Stop);
}

#[test]
fn corrupt_artifact_does_not_block_next_id() {
    // A corrupted artifact for id 1 neither unstores its body nor blocks id 2.
    let mut s = RunState::new(0, 2);
    s = s.step(&Event::BodyIngested);
    assert_eq!(s.watermark, 1);
    let skipped = s.step(&Event::ArtifactHandled { outcome: ArtifactOutcome::Skipped });
    let unfetched = s.step(&Event::ArtifactHandled { outcome: ArtifactOutcome::FetchFailed });
    let extracted = s.step(&Event::ArtifactHandled { outcome: ArtifactOutcome::Extracted });
    assert_eq!(skipped, unfetched);
    assert_eq!(skipped, extracted);
    assert_eq!(skipped.watermark, 1);
    assert_eq!(skipped.next_action(), Action::IngestBody { id: 2 });
}

#[test]
fn artifact_attempt_classification_is_never_an_error() {
    assert_eq!(ArtifactOutcome::classify(false, false, false), ArtifactOutcome::FetchFailed);
    assert_eq!(ArtifactOutcome::classify(true, false, false), ArtifactOutcome::Skipped);
    assert_eq!(ArtifactOutcome::classify(true, true, false), ArtifactOutcome::Skipped);
    assert_eq!(ArtifactOutcome::classify(true, true, true), ArtifactOutcome::Extracted);
}

#[test]
fn mismatched_event_leaves_state_unchanged() {
    let s = RunState::new(0, 5);
    let t = s.step(&Event::ArtifactHandled { outcome: ArtifactOutcome::Extracted });
    assert_eq!(s, t);
}

#[test]
fn body_check_accepts_json_document() {
    assert_eq!(check_body("{\"id\": 3, \"players\": []}"), Ok(()));
    assert_eq!(check_body("[1, 2, 3]"), Ok(()));
}

#[test]
fn body_check_rejects_malformed_text() {
    assert_eq!(check_body("not json {"), Err(ArchiveError::Protocol));
    assert_eq!(check_body(""), Err(ArchiveError::Protocol));
}

#[test]
fn backfill_plan_lists_range_ascending() {
    assert_eq!(plan_backfill(5, 8), vec![5, 6, 7, 8]);
    assert_eq!(plan_backfill(3, 3), vec![3]);
}

#[test]
fn backfill_plan_empty_when_inverted() {
    assert_eq!(plan_backfill(9, 2), Vec::<u64>::new());
}

#[test]
fn error_descriptions_are_fixed() {
    assert_eq!(ArchiveError::Transport.describe(), "transport failure");
    assert_eq!(ArchiveError::Protocol.describe(), "protocol failure");
    assert_eq!(ArchiveError::Storage.describe(), "storage failure");
    assert_eq!(ArchiveError::NoFrontier.describe(), "no safe frontier");
}

#[test]
fn pacing_constants_match_policy() {
    assert_eq!(PACE_MILLIS, 200);
    assert_eq!(RUN_INTERVAL_SECS, 60);
    assert_eq!(STALENESS_MARGIN_SECS, 3600);
    assert_eq!(LISTING_LIMIT, 100);
}
