use artist_review::{
    get_last_checked_artist_index, get_small_artist_info, mark_as_checked_up_to_index,
    ArtistQueue, MAX_QUEUE_LEN,
};

fn queue(entries: &[(u32, bool)]) -> ArtistQueue {
    ArtistQueue::from_entries(entries.to_vec()).unwrap()
}

#[test]
fn locate_watermark_gives_first_unreviewed() {
    let q = queue(&[(1, true), (2, true), (3, false), (4, false)]);
    assert_eq!(q.locate_watermark(), 2);
}

#[test]
fn locate_watermark_all_reviewed_gives_last() {
    let q = queue(&[(1, true), (2, true), (3, true)]);
    assert_eq!(q.locate_watermark(), 2);
}

#[test]
fn locate_watermark_none_reviewed_gives_zero() {
    let q = queue(&[(1, false), (2, false)]);
    assert_eq!(q.locate_watermark(), 0);
}

#[test]
fn locate_watermark_empty_gives_zero() {
    let q = queue(&[]);
    assert_eq!(q.locate_watermark(), 0);
}

#[test]
fn locate_watermark_twice_agrees() {
    let q = queue(&[(7, true), (8, false), (9, false)]);
    let first = q.locate_watermark();
    let second = q.locate_watermark();
    assert_eq!(first, second);
    assert_eq!(first, 1);
}

#[test]
fn last_checked_index_of_missing_list_is_zero() {
    assert_eq!(get_last_checked_artist_index(&None), 0);
    let stored = Some(queue(&[(1, true), (2, false)]));
    assert_eq!(get_last_checked_artist_index(&stored), 1);
}

#[test]
fn mark_reviewed_keeps_prefix() {
    let mut q = queue(&[(1, true), (2, false), (3, false)]);
    q.mark_reviewed(1);
    assert_eq!(q.entries, vec![(1, true), (2, true), (3, false)]);
    q.mark_reviewed(1);
    assert_eq!(q.entries, vec![(1, true), (2, true), (3, false)]);
}

#[test]
fn reset_watermark_forward_and_back() {
    let mut q = queue(&[(1, false), (2, false), (3, false), (4, false)]);
    q.reset_watermark_to(3);
    assert_eq!(q.entries, vec![(1, true), (2, true), (3, true), (4, false)]);
    mark_as_checked_up_to_index(&mut q, 1);
    assert_eq!(q.entries, vec![(1, true), (2, false), (3, false), (4, false)]);
}

#[test]
fn reset_watermark_repairs_any_state() {
    let mut q = queue(&[(1, false), (2, true), (3, false), (4, true)]);
    q.reset_watermark_to(2);
    assert_eq!(q.entries, vec![(1, true), (2, true), (3, false), (4, false)]);
    q.reset_watermark_to(10);
    assert_eq!(q.entries, vec![(1, true), (2, true), (3, true), (4, true)]);
}

#[test]
fn small_artist_info_marks_entry() {
    let mut q = queue(&[(11, false), (12, false)]);
    assert_eq!(get_small_artist_info(&mut q, 0), Some((11, false, 2)));
    assert_eq!(q.entries, vec![(11, true), (12, false)]);
    assert_eq!(get_small_artist_info(&mut q, 0), Some((11, true, 2)));
}

#[test]
fn small_artist_info_past_end_changes_nothing() {
    let mut q = queue(&[(11, false), (12, false)]);
    assert_eq!(get_small_artist_info(&mut q, 2), None);
    assert_eq!(q.entries, vec![(11, false), (12, false)]);
    assert_eq!(q.entry_at(2), None);
}

#[test]
fn queue_json_has_compact_form() {
    let q = queue(&[(1, true), (20, false), (4294967295, false)]);
    assert_eq!(q.to_json(), "[[1,true],[20,false],[4294967295,false]]");
    assert_eq!(queue(&[]).to_json(), "[]");
}

#[test]
fn queue_json_round_trip() {
    let q = queue(&[(5, true), (6, true), (7, false)]);
    let text = q.to_json();
    let back = ArtistQueue::from_json(&text).unwrap();
    assert_eq!(back.entries, q.entries);
}

#[test]
fn queue_json_malformed_is_none() {
    assert!(ArtistQueue::from_json("not json").is_none());
    assert!(ArtistQueue::from_json("[[1,2]]").is_none());
}

#[test]
fn from_ids_starts_unreviewed() {
    let q = ArtistQueue::from_ids(&vec![3, 1, 2]).unwrap();
    assert_eq!(q.entries, vec![(3, false), (1, false), (2, false)]);
}

#[test]
fn too_long_list_is_refused() {
    let ids: Vec<u32> = (0..(MAX_QUEUE_LEN as u32 + 1)).collect();
    assert!(ArtistQueue::from_ids(&ids).is_none());
    let ids: Vec<u32> = (0..(MAX_QUEUE_LEN as u32)).collect();
    assert_eq!(ArtistQueue::from_ids(&ids).unwrap().len(), MAX_QUEUE_LEN);
}
