use mypaint_rs::smudge::{select_smudge_bucket, smudge_bucket_slot, BucketsUsed};

#[test]
fn no_buckets_selects_nothing() {
    let mut used = BucketsUsed::new();
    assert_eq!(select_smudge_bucket(3, 0, &mut used), None);
    assert_eq!(used, BucketsUsed { min: None, max: None });
}

#[test]
fn selection_clamps_and_records_the_range() {
    let mut used = BucketsUsed::new();
    assert_eq!(select_smudge_bucket(2, 4, &mut used), Some(2));
    assert_eq!(used, BucketsUsed { min: Some(2), max: Some(2) });
    assert_eq!(select_smudge_bucket(9, 4, &mut used), Some(3));
    assert_eq!(used, BucketsUsed { min: Some(2), max: Some(3) });
    assert_eq!(select_smudge_bucket(0, 4, &mut used), Some(0));
    assert_eq!(used, BucketsUsed { min: Some(0), max: Some(3) });
    assert_eq!(select_smudge_bucket(1, 4, &mut used), Some(1));
    assert_eq!(used, BucketsUsed { min: Some(0), max: Some(3) });
}

#[test]
fn bucket_slots_stop_at_the_last_bucket() {
    assert_eq!(smudge_bucket_slot(0, 3), Some(0));
    assert_eq!(smudge_bucket_slot(2, 3), Some(2));
    assert_eq!(smudge_bucket_slot(3, 3), None);
    assert_eq!(smudge_bucket_slot(0, 0), None);
}
