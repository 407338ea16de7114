use at_tui::disk_cache::{cleanup_plan, CacheFile, DISK_CACHE_MAX_AGE_MS, DISK_CACHE_MAX_BYTES};

const DAY_MS: u64 = 24 * 60 * 60 * 1000;

fn file(size: u64, modified: u64, preserved: bool) -> CacheFile {
    CacheFile { size, modified, preserved }
}

#[test]
fn disk_cleanup_enforces_size_while_preserving_session_entries() {
    let now = 1_000 * DAY_MS;
    // "a", "b" and the session's "current", five bytes each, written just now.
    let files = vec![file(5, now, false), file(5, now, false), file(5, now, true)];

    let plan = cleanup_plan(&files, now, 365 * DAY_MS, 8);

    assert!(!plan.contains(&2));
    let remaining_bytes: u64 = files
        .iter()
        .enumerate()
        .filter(|(index, _)| !plan.contains(index))
        .map(|(_, file)| file.size)
        .sum();
    assert_eq!(remaining_bytes, 5);
    assert_eq!(plan, vec![0, 1]);
}

#[test]
fn disk_cleanup_removes_expired_entries_but_keeps_session_entry() {
    let written = 1_000 * DAY_MS;
    let files = vec![file(3, written, false), file(7, written, true)];

    let plan = cleanup_plan(&files, written + 31 * DAY_MS, 30 * DAY_MS, u64::MAX);

    assert_eq!(plan, vec![0]);
}

#[test]
fn disk_cleanup_removes_oldest_first_and_stops_once_it_fits() {
    let now = 100 * DAY_MS;
    let files = vec![
        file(4, now - 1, false),
        file(4, now - 3, false),
        file(4, now - 2, false),
        file(4, now - 10 * DAY_MS, false),
    ];
    // The last file is past a nine-day age limit; then the oldest others go until
    // at most 5 bytes are left.
    let plan = cleanup_plan(&files, now, 9 * DAY_MS, 5);
    assert_eq!(plan, vec![3, 1, 2]);

    let nothing = cleanup_plan(&files, now, DISK_CACHE_MAX_AGE_MS, DISK_CACHE_MAX_BYTES);
    assert!(nothing.is_empty());
}

#[test]
fn a_file_from_the_future_is_never_expired() {
    let now = 10 * DAY_MS;
    let files = vec![file(1, now + DAY_MS, false)];
    assert!(cleanup_plan(&files, now, 0, u64::MAX).is_empty());
}
