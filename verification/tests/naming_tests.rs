use solana_archiver::naming::generate_file_name;
use solana_archiver::naming::time_bucket_complete;
use solana_archiver::naming::MAX_ARCHIVE_SECONDS;

#[test]
fn file_name_at_the_epoch() {
    let name = generate_file_name(0, 1, 1, false);
    assert_eq!(
        name,
        "solana_data_archive__from_1970-01-01 00:00:00_to_1970-01-01 00:01_UTC__Volume_1.zstd"
    );
    let temp = generate_file_name(0, 1, 1, true);
    assert_eq!(
        temp,
        "solana_data_archive__from_1970-01-01 00:00:00_to_1970-01-01 00:01_UTC__Volume_1.temp.zstd"
    );
}

#[test]
fn file_name_matches_chrono_rendering() {
    let start: i64 = 1_700_000_000;
    let minutes: i64 = 10;
    let from = chrono::DateTime::<chrono::Utc>::from_timestamp(start, 0)
        .unwrap()
        .format("%Y-%m-%d %H:%M:%S")
        .to_string();
    let to = chrono::DateTime::<chrono::Utc>::from_timestamp(start + 60 * minutes, 0)
        .unwrap()
        .format("%Y-%m-%d %H:%M")
        .to_string();
    let expected = format!(
        "solana_data_archive__from_{}_to_{}_UTC__Volume_37.zstd",
        from, to
    );
    assert_eq!(generate_file_name(start, minutes, 37, false), expected);
}

#[test]
fn file_name_deterministic_and_differs_only_by_suffix() {
    let t: i64 = 1_700_000_000;
    let temp_a = generate_file_name(t, 1, 1, true);
    let temp_b = generate_file_name(t, 1, 1, true);
    assert_eq!(temp_a, temp_b);
    let fin = generate_file_name(t, 1, 1, false);
    let temp_stem = temp_a.strip_suffix(".temp.zstd").unwrap();
    let final_stem = fin.strip_suffix(".zstd").unwrap();
    assert_eq!(temp_stem, final_stem);
    assert_ne!(temp_a, fin);
}

#[test]
fn file_name_distinguishes_volumes_and_buckets() {
    let t: i64 = 1_700_000_000;
    assert_ne!(
        generate_file_name(t, 1, 1, false),
        generate_file_name(t, 1, 2, false)
    );
    assert_ne!(
        generate_file_name(t, 1, 1, false),
        generate_file_name(t + 60, 1, 1, false)
    );
    assert_ne!(
        generate_file_name(t, 1, 12, false),
        generate_file_name(t, 1, 21, false)
    );
}

#[test]
fn large_volume_indices_render_in_full() {
    let name = generate_file_name(0, 1, 1_234_567_890, false);
    assert!(name.contains("_UTC__Volume_1234567890.zstd"));
}

#[test]
fn bucket_completion_boundaries() {
    assert!(!time_bucket_complete(1000, 1, 1000));
    assert!(!time_bucket_complete(1000, 1, 1059));
    assert!(time_bucket_complete(1000, 1, 1060));
    assert!(time_bucket_complete(1000, 1, 2000));
    assert!(!time_bucket_complete(1000, 1, 500));
    assert!(!time_bucket_complete(0, 10, 599));
    assert!(time_bucket_complete(0, 10, 600));
}

#[test]
fn naming_range_covers_far_future() {
    let name = generate_file_name(MAX_ARCHIVE_SECONDS - 60, 1, 1, false);
    assert!(name.contains("9999-12-31"));
}
