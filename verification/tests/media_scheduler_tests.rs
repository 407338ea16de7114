use at_tui::media_scheduler::{
    retryable_media_error, CompletionResult, MediaJobId, MediaPriority, MediaScheduler,
    SubmitResult,
};

#[test]
fn visible_work_overtakes_prefetch_and_reprioritizes_without_duplication() {
    let mut scheduler = MediaScheduler::new(1, 1, 2);
    scheduler.submit(
        MediaJobId::image("near-1"),
        MediaPriority::NearbyThumbnail,
        1,
    );
    scheduler.submit(
        MediaJobId::image("near-2"),
        MediaPriority::NearbyThumbnail,
        1,
    );
    assert_eq!(
        scheduler.submit(MediaJobId::image("near-2"), MediaPriority::VisibleMedia, 1),
        SubmitResult::Reprioritized
    );
    assert_eq!(scheduler.queued(), 2);
    assert_eq!(scheduler.take_next().unwrap().id.source, "near-2");
}

#[test]
fn active_work_is_bounded_and_old_speculation_is_cancelled() {
    let mut scheduler = MediaScheduler::new(1, 1, 2);
    for index in 0..8 {
        scheduler.submit(
            MediaJobId::image(&format!("image-{index}")),
            MediaPriority::NearbyThumbnail,
            1,
        );
    }
    let first = scheduler.take_next().unwrap();
    let second = scheduler.take_next().unwrap();
    assert!(scheduler.take_next().is_none());
    assert_eq!(scheduler.active(), 2);
    assert_eq!(scheduler.cancel_speculation_before(2).len(), 6);
    // Running work keeps its slot until it completes.
    assert_eq!(scheduler.active(), 2);
    assert_eq!(scheduler.queued(), 0);
    assert_eq!(
        scheduler.complete(&first, true, false),
        CompletionResult::Discarded
    );
    assert_eq!(scheduler.active(), 1);
    assert_eq!(
        scheduler.submit(second.id.clone(), MediaPriority::VisibleMedia, 2),
        SubmitResult::Reprioritized
    );
    assert_eq!(
        scheduler.complete(&second, true, false),
        CompletionResult::Accepted
    );
}

#[test]
fn transient_failure_retries_once_but_permanent_failure_does_not() {
    let mut scheduler = MediaScheduler::new(1, 1, 2);
    let id = MediaJobId::image("image");
    scheduler.submit(id.clone(), MediaPriority::VisibleMedia, 1);
    let first = scheduler.take_next().unwrap();
    assert_eq!(
        scheduler.complete(&first, false, true),
        CompletionResult::Retrying
    );
    let second = scheduler.take_next().unwrap();
    assert_eq!(second.attempt(), 2);
    assert_eq!(
        scheduler.complete(&second, false, true),
        CompletionResult::Accepted
    );
    assert_eq!(scheduler.queued(), 0);

    scheduler.submit(id, MediaPriority::VisibleMedia, 1);
    let permanent = scheduler.take_next().unwrap();
    assert_eq!(
        scheduler.complete(&permanent, false, false),
        CompletionResult::Accepted
    );
}

#[test]
fn failure_classifier_is_conservative() {
    assert!(retryable_media_error("request timed out"));
    assert!(retryable_media_error("image request failed: 503"));
    assert!(!retryable_media_error("could not decode image bytes"));
    assert!(!retryable_media_error("404 not found"));
}

#[test]
fn equal_priority_runs_in_submission_order_and_duplicates_are_merged() {
    let mut scheduler = MediaScheduler::with_default_limits();
    assert_eq!(
        scheduler.submit(MediaJobId::image("a"), MediaPriority::SelectedThumbnail, 1),
        SubmitResult::Queued
    );
    assert_eq!(
        scheduler.submit(MediaJobId::image("b"), MediaPriority::SelectedThumbnail, 1),
        SubmitResult::Queued
    );
    assert_eq!(
        scheduler.submit(MediaJobId::image("a"), MediaPriority::NearbyThumbnail, 1),
        SubmitResult::Deduplicated
    );
    assert_eq!(scheduler.queued(), 2);
    assert_eq!(scheduler.take_next().unwrap().id.source, "a");
    assert_eq!(scheduler.take_next().unwrap().id.source, "b");
    assert!(scheduler.take_next().is_none());
    assert_eq!(scheduler.active(), 2);
}

#[test]
fn visible_work_survives_cancellation_and_unknown_jobs_are_discarded() {
    let mut scheduler = MediaScheduler::new(2, 2, 3);
    scheduler.submit(MediaJobId::image("seen"), MediaPriority::VisibleMedia, 1);
    scheduler.submit(MediaJobId::image("spec"), MediaPriority::FullsizeSpeculation, 1);
    let cancelled = scheduler.cancel_speculation_before(5);
    assert_eq!(cancelled.len(), 1);
    assert_eq!(cancelled[0].source, "spec");
    let job = scheduler.take_next().unwrap();
    assert_eq!(job.id.source, "seen");
    assert_eq!(scheduler.complete(&job, true, true), CompletionResult::Accepted);
    assert_eq!(scheduler.complete(&job, true, true), CompletionResult::Discarded);
    assert_eq!(scheduler.active(), 0);
}

#[test]
fn classifier_is_case_insensitive() {
    assert!(retryable_media_error("Connection REFUSED by host"));
    assert!(retryable_media_error("HTTP 429 Too Many Requests"));
    assert!(retryable_media_error("TIMEOUT"));
    assert!(!retryable_media_error(""));
}

#[test]
fn attempts_count_retries_and_active_counts_jobs_in_flight() {
    let mut scheduler = MediaScheduler::new(1, 1, 4);
    let id = MediaJobId::image("flaky");
    assert_eq!(scheduler.submit(id.clone(), MediaPriority::VisibleMedia, 1), SubmitResult::Queued);
    for retries in 0..3u8 {
        let job = scheduler.take_next().unwrap();
        assert_eq!(job.attempt(), retries + 1);
        assert_eq!(scheduler.active(), 1);
        assert_eq!(scheduler.complete(&job, false, true), CompletionResult::Retrying);
        assert_eq!(scheduler.active(), 0);
        assert_eq!(scheduler.queued(), 1);
    }
    let last = scheduler.take_next().unwrap();
    assert_eq!(last.attempt(), 4);
    assert_eq!(scheduler.complete(&last, false, true), CompletionResult::Accepted);
    assert!(scheduler.take_next().is_none());
}
