use stream_recorder::storage::disk_inspector::{
    active_disk, build, clock_seconds, deepest, named_mounts, timestamp, Candidate,
    DiskInspector, Listed, Mount, REFRESH_PERIOD_DURATION,
};
use stream_recorder::storage::error::Error;

fn mount(mount_point: &str, available_space: usize) -> Mount {
    Mount { mount_point: mount_point.to_string(), available_space }
}

#[test]
fn deepest_of_nothing_is_nothing() {
    assert_eq!(deepest(&vec![]), None);
}

#[test]
fn deepest_skips_mounts_that_do_not_cover() {
    let candidates = vec![
        Candidate { covers: false, depth: 40 },
        Candidate { covers: true, depth: 1 },
        Candidate { covers: false, depth: 9 },
    ];
    assert_eq!(deepest(&candidates), Some(1));
}

#[test]
fn deepest_takes_the_longest_mount_path() {
    let candidates = vec![
        Candidate { covers: true, depth: 1 },
        Candidate { covers: true, depth: 5 },
        Candidate { covers: true, depth: 3 },
    ];
    assert_eq!(deepest(&candidates), Some(1));
}

#[test]
fn deepest_takes_the_first_of_equally_long_paths() {
    let candidates = vec![
        Candidate { covers: true, depth: 4 },
        Candidate { covers: true, depth: 7 },
        Candidate { covers: true, depth: 7 },
    ];
    assert_eq!(deepest(&candidates), Some(1));
}

#[test]
fn deepest_finds_none_when_nothing_covers() {
    let candidates =
        vec![Candidate { covers: false, depth: 4 }, Candidate { covers: false, depth: 7 }];
    assert_eq!(deepest(&candidates), None);
}

#[test]
fn active_disk_is_the_longest_prefix() {
    let mounts = vec![mount("/", 1), mount("/data", 2), mount("/data/records", 3), mount("/home", 4)];
    assert_eq!(active_disk(&mounts, "/data/records/today"), Some(2));
    assert_eq!(active_disk(&mounts, "/data/other"), Some(1));
    assert_eq!(active_disk(&mounts, "/var/lib"), Some(0));
    assert_eq!(active_disk(&mounts, "/home"), Some(3));
}

#[test]
fn active_disk_matches_whole_components_only() {
    let mounts = vec![mount("/", 1), mount("/data", 2)];
    assert_eq!(active_disk(&mounts, "/database/records"), Some(0));
    assert_eq!(active_disk(&mounts, "/data/records"), Some(1));
}

#[test]
fn active_disk_does_not_depend_on_the_order_of_the_listing() {
    let mounts = vec![mount("/data/records", 3), mount("/data", 2), mount("/", 1)];
    assert_eq!(active_disk(&mounts, "/data/records/today"), Some(0));
    assert_eq!(active_disk(&mounts, "/data/x"), Some(1));
    assert_eq!(active_disk(&mounts, "/srv"), Some(2));
}

#[test]
fn active_disk_is_none_when_no_mount_covers() {
    let mounts = vec![mount("/mnt/a", 1), mount("/mnt/b", 2)];
    assert_eq!(active_disk(&mounts, "/home/records"), None);
    assert_eq!(active_disk(&vec![], "/home/records"), None);
}

#[test]
fn detect_watches_the_owning_mount() {
    let mounts = vec![mount("/", 10), mount("/data", 20)];
    let inspector = DiskInspector::detect(&mounts, "/data/records", 1_000).unwrap();
    assert_eq!(inspector.cached(), 20);
    assert_eq!(inspector, DiskInspector::new(mount("/data", 20), 1_000));
}

#[test]
fn detect_fails_without_a_covering_mount() {
    let mounts = vec![mount("/mnt", 10)];
    assert_eq!(
        DiskInspector::detect(&mounts, "/home/records", 1_000),
        Err(Error::ActiveDiskDetectionFailed)
    );
}

#[test]
fn refresh_period_is_sixty_seconds() {
    assert_eq!(REFRESH_PERIOD_DURATION, 60);
}

#[test]
fn refresh_is_required_only_after_the_period() {
    let inspector = DiskInspector::new(mount("/", 10), 1_000);
    assert!(!inspector.refresh_required(1_000));
    assert!(!inspector.refresh_required(1_059));
    assert!(!inspector.refresh_required(1_060));
    assert!(inspector.refresh_required(1_061));
    assert!(inspector.refresh_required(5_000));
}

#[test]
fn refresh_is_not_required_when_the_clock_went_back() {
    let inspector = DiskInspector::new(mount("/", 10), 1_000);
    assert!(!inspector.refresh_required(0));
    assert!(!inspector.refresh_required(999));
}

#[test]
fn refresh_is_not_required_near_the_end_of_time() {
    let inspector = DiskInspector::new(mount("/", 10), usize::MAX - 10);
    assert!(!inspector.refresh_required(usize::MAX));
}

#[test]
fn refresh_reads_the_watched_mount() {
    let mut inspector = DiskInspector::new(mount("/data", 20), 1_000);
    inspector.refresh(&vec![mount("/", 7), mount("/data", 15), mount("/data", 99)], 2_000);
    assert_eq!(inspector.cached(), 15);
    assert_eq!(inspector, DiskInspector::new(mount("/data", 15), 2_000));
}

#[test]
fn refresh_keeps_the_reading_of_a_mount_that_is_gone() {
    let mut inspector = DiskInspector::new(mount("/data", 20), 1_000);
    inspector.refresh(&vec![mount("/", 7)], 2_000);
    assert_eq!(inspector.cached(), 20);
    assert!(!inspector.refresh_required(2_060));
    assert!(inspector.refresh_required(2_061));
}

#[test]
fn ensure_refreshed_leaves_a_fresh_sample_alone() {
    let mut inspector = DiskInspector::new(mount("/no/such/mount", 20), 1_000);
    inspector.ensure_refreshed(1_060);
    assert_eq!(inspector, DiskInspector::new(mount("/no/such/mount", 20), 1_000));
}

#[test]
fn ensure_refreshed_replaces_a_stale_sample() {
    let mut inspector = DiskInspector::new(mount("/no/such/mount", 20), 1_000);
    inspector.ensure_refreshed(1_061);
    assert_eq!(inspector, DiskInspector::new(mount("/no/such/mount", 20), 1_061));
}

#[test]
fn queries_within_the_period_agree() {
    let now = timestamp();
    let mut inspector = DiskInspector::new(mount("/", 12_345), now);
    let first = inspector.bytes_available();
    let second = inspector.bytes_available();
    assert_eq!(first, 12_345);
    assert_eq!(second, 12_345);
}

#[test]
fn query_after_the_period_takes_a_new_sample() {
    let mut inspector = DiskInspector::new(mount("/no/such/mount", 20), 0);
    assert_eq!(inspector.bytes_available(), 20);
    assert!(!inspector.refresh_required(timestamp()));
    assert!(inspector != DiskInspector::new(mount("/no/such/mount", 20), 0));
}

#[test]
fn mounts_without_a_path_in_text_are_left_out() {
    let entries = vec![
        Listed { mount_point: Some("/".to_string()), available_space: 1 },
        Listed { mount_point: None, available_space: 2 },
        Listed { mount_point: Some("/data".to_string()), available_space: 3 },
        Listed { mount_point: None, available_space: 4 },
    ];
    assert_eq!(named_mounts(&entries), vec![mount("/", 1), mount("/data", 3)]);
    assert_eq!(named_mounts(&vec![]), vec![]);
    assert_eq!(named_mounts(&vec![Listed { mount_point: None, available_space: 2 }]), vec![]);
}

#[test]
fn clock_before_the_epoch_reads_as_zero() {
    assert_eq!(clock_seconds(None), 0);
}

#[test]
fn clock_seconds_are_the_seconds_of_the_reading() {
    assert_eq!(clock_seconds(Some(0)), 0);
    assert_eq!(clock_seconds(Some(1)), 1);
    assert_eq!(clock_seconds(Some(1_577_836_800)), 1_577_836_800);
}

#[test]
fn clock_seconds_are_held_at_the_largest_value() {
    let largest = u64::try_from(usize::MAX).unwrap_or(u64::MAX);
    assert_eq!(clock_seconds(Some(largest)), usize::MAX);
    assert_eq!(clock_seconds(Some(u64::MAX)), usize::MAX);
}

#[test]
fn timestamp_is_after_the_year_2020() {
    assert!(timestamp() > 1_577_836_800);
}

#[test]
fn build_watches_a_mount_or_reports_that_none_covers() {
    match build("/") {
        Ok(mut inspector) => {
            let first = inspector.bytes_available();
            assert_eq!(inspector.cached(), first);
            assert_eq!(inspector.bytes_available(), first);
        }
        Err(error) => assert_eq!(error, Error::ActiveDiskDetectionFailed),
    }
}

#[test]
fn build_fails_for_a_relative_path() {
    assert_eq!(build("records/of/no/mount"), Err(Error::ActiveDiskDetectionFailed));
}

#[test]
fn storage_error_messages() {
    assert_eq!(
        Error::ActiveDiskDetectionFailed.message(),
        "Could not detect an active disk for the provided path"
    );
    assert_eq!(
        Error::OperationFailed("disk full".to_string()).message(),
        "I/O operation failed: disk full"
    );
}
