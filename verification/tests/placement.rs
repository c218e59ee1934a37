use media_organizer::stats::{Statistics, TransferOutcome};
use media_organizer::transfer::{
    candidate_file_path, duplicate_file_path, handle_media, transfer_outcome, Args, DestCheck,
    MediaPlan, TransferMode,
};

fn config(copy: bool, dry_run: bool) -> Args {
    Args {
        source: String::from("media"),
        destination: String::from("sorted"),
        file_type: String::from("*"),
        copy,
        dry_run,
        log_saved: false,
    }
}

#[test]
fn vacant_destination_is_saved_under_own_name() {
    let plan = handle_media("media/IMG_1.jpg", "sorted/2020/02/01", &DestCheck::NotPresent, &config(true, false));
    assert_eq!(
        plan,
        MediaPlan::Transfer {
            dest_path: String::from("sorted/2020/02/01/IMG_1.jpg"),
            duplicate: false,
            mode: TransferMode::CopyFile,
            mutate: true,
        }
    );
}

#[test]
fn conflicting_content_is_saved_as_dup() {
    let plan = handle_media("media/IMG_1.jpg", "sorted/2020/02/01", &DestCheck::PresentDifferent, &config(false, false));
    assert_eq!(
        plan,
        MediaPlan::Transfer {
            dest_path: String::from("sorted/2020/02/01/dup.IMG_1.jpg"),
            duplicate: true,
            mode: TransferMode::MoveFile,
            mutate: true,
        }
    );
}

#[test]
fn identical_content_is_skipped() {
    let plan = handle_media("media/IMG_1.jpg", "sorted/2020/02/01", &DestCheck::PresentIdentical, &config(true, false));
    assert_eq!(plan, MediaPlan::SkipIdentical);
}

#[test]
fn failed_comparison_leaves_the_file_alone() {
    let plan = handle_media("media/IMG_1.jpg", "sorted/2020/02/01", &DestCheck::PresentCompareFailed, &config(true, false));
    assert_eq!(plan, MediaPlan::CompareFailed);
}

#[test]
fn path_without_file_name_is_refused() {
    let plan = handle_media("media/", "sorted", &DestCheck::NotPresent, &config(true, false));
    assert_eq!(plan, MediaPlan::NoFileName);
}

#[test]
fn paths_are_joined_with_the_separator() {
    assert_eq!(candidate_file_path("sorted/2024/11/10", "a.mp3"), "sorted/2024/11/10/a.mp3");
    assert_eq!(duplicate_file_path("sorted/2024/11/10", "a.mp3"), "sorted/2024/11/10/dup.a.mp3");
}

#[test]
fn dry_run_counts_ten_photos_without_directing_mutation() {
    let mut stats = Statistics::new();
    let cfg = config(true, true);
    for i in 0..10 {
        let file = format!("media/IMG_{}.jpg", i);
        let plan = handle_media(&file, "sorted/2020/02/01", &DestCheck::NotPresent, &cfg);
        match plan {
            MediaPlan::Transfer { duplicate, mutate, .. } => {
                // under dry-run the filesystem must not be touched
                assert!(!mutate);
                let outcome = transfer_outcome(duplicate, true);
                stats.record_outcome(outcome);
            }
            other => panic!("expected a transfer plan, got {:?}", other),
        }
    }
    assert_eq!(stats.get_saved_file_counter(), 10);
    assert_eq!(stats.get_identical_file_counter(), 0);
    assert_eq!(stats.get_ignored_file_counter(), 0);
}

#[test]
fn second_run_skips_what_the_first_saved() {
    // first run: the destination is vacant, the file is saved
    let mut stats = Statistics::new();
    let cfg = config(true, false);
    let plan1 = handle_media("media/a.jpg", "sorted/2024/01/01", &DestCheck::NotPresent, &cfg);
    match plan1 {
        MediaPlan::Transfer { duplicate, .. } => {
            stats.record_outcome(transfer_outcome(duplicate, true));
        }
        other => panic!("expected a transfer plan, got {:?}", other),
    }
    assert_eq!(stats.get_saved_file_counter(), 1);

    // second run: the destination now holds a byte-identical copy
    let plan2 = handle_media("media/a.jpg", "sorted/2024/01/01", &DestCheck::PresentIdentical, &cfg);
    assert_eq!(plan2, MediaPlan::SkipIdentical);
    stats.record_outcome(TransferOutcome::SkippedIdentical);

    // no additional save; the identical count equals the first run's files
    assert_eq!(stats.get_saved_file_counter(), 1);
    assert_eq!(stats.get_identical_file_counter(), 1);
}

#[test]
fn every_outcome_lands_in_exactly_one_bucket() {
    let outcomes = [
        TransferOutcome::Saved,
        TransferOutcome::SkippedIdentical,
        TransferOutcome::SavedAsDuplicate,
        TransferOutcome::Failed,
    ];
    for (i, o) in outcomes.iter().enumerate() {
        let mut stats = Statistics::new();
        stats.record_outcome(*o);
        let buckets = [
            stats.get_saved_file_counter(),
            stats.get_identical_file_counter(),
            stats.get_same_name_diff_content_counter(),
            stats.get_ignored_file_counter(),
        ];
        let total: usize = buckets.iter().sum();
        assert_eq!(total, 1);
        assert_eq!(buckets[i], 1);
        assert_eq!(stats.get_fallback_counter(), 0);
        assert_eq!(stats.get_successfully_compared_file_counter(), 0);
    }
}

#[test]
fn failed_transfer_is_counted_failed() {
    assert_eq!(transfer_outcome(false, false), TransferOutcome::Failed);
    assert_eq!(transfer_outcome(true, false), TransferOutcome::Failed);
    assert_eq!(transfer_outcome(true, true), TransferOutcome::SavedAsDuplicate);
    assert_eq!(transfer_outcome(false, true), TransferOutcome::Saved);
}

#[test]
fn verification_counts_only_matches() {
    let mut stats = Statistics::new();
    stats.record_verification(true);
    stats.record_verification(false);
    stats.record_verification(true);
    assert_eq!(stats.get_successfully_compared_file_counter(), 2);
}

#[test]
fn unsupported_types_are_a_distinct_set() {
    let mut stats = Statistics::new();
    stats.record_unsupported(String::from("txt"));
    stats.record_unsupported(String::from("pdf"));
    stats.record_unsupported(String::from("txt"));
    assert_eq!(stats.get_ignored_file_counter(), 3);
    assert_eq!(stats.get_unsupported_types(), "txt, pdf");
}

#[test]
fn counters_start_at_zero_and_step_by_one() {
    let mut stats = Statistics::new();
    assert_eq!(stats.get_saved_file_counter(), 0);
    assert_eq!(stats.get_unsupported_types(), "");
    stats.increment_saved_file_counter();
    stats.increment_ignored_file_counter();
    stats.increment_identical_file_counter();
    stats.increment_same_name_diff_content_counter();
    stats.increment_successfully_compared_file_counter();
    stats.increment_fallback_counter();
    assert_eq!(stats.get_saved_file_counter(), 1);
    assert_eq!(stats.get_ignored_file_counter(), 1);
    assert_eq!(stats.get_identical_file_counter(), 1);
    assert_eq!(stats.get_same_name_diff_content_counter(), 1);
    assert_eq!(stats.get_successfully_compared_file_counter(), 1);
    assert_eq!(stats.get_fallback_counter(), 1);
}
