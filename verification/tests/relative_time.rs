use ghostgit::clock::relative_time_at;
use ghostgit::relative_time;

#[test]
fn relative_time_formats_buckets_correctly() {
    let now = std::time::SystemTime::now()
        .duration_since(std::time::UNIX_EPOCH)
        .unwrap()
        .as_secs() as i64;

    assert_eq!(relative_time(now), "just now");
    assert_eq!(relative_time(now - 120), "2 minutes ago");
    assert_eq!(relative_time(now - 7200), "2 hours ago");
    assert_eq!(relative_time(now - 172800), "2 days ago");
}

#[test]
fn relative_time_bucket_edges() {
    assert_eq!(relative_time_at(1_000_000, 1_000_000 - 59), "just now");
    assert_eq!(relative_time_at(1_000_000, 1_000_000 - 60), "1 minutes ago");
    assert_eq!(relative_time_at(1_000_000, 1_000_000 - 3599), "59 minutes ago");
    assert_eq!(relative_time_at(1_000_000, 1_000_000 - 3600), "1 hours ago");
    assert_eq!(relative_time_at(1_000_000, 1_000_000 - 86399), "23 hours ago");
    assert_eq!(relative_time_at(1_000_000, 1_000_000 - 86400), "1 days ago");
    assert_eq!(relative_time_at(1_000_000_000, 1_000_000_000 - 86400 * 365), "365 days ago");
}

#[test]
fn relative_time_future_commit_is_just_now() {
    assert_eq!(relative_time_at(100, 5000), "just now");
}

#[test]
fn relative_time_extreme_values_do_not_overflow() {
    assert_eq!(relative_time_at(i64::MIN, i64::MAX), "just now");
    let far = relative_time_at(i64::MAX, i64::MIN);
    assert_eq!(far, format!("{} days ago", (u64::MAX) / 86400));
}
