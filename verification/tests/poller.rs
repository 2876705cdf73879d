use sagiri::poller::{PollState, UpdateStream};
use sagiri::telegram::Update;

fn batch(ids: &[i64]) -> Vec<Update> {
    ids.iter().map(|&id| Update::Unsupported { update_id: id }).collect()
}

fn drain(stream: &mut UpdateStream) -> Vec<i64> {
    let mut ids = Vec::new();
    while let Some(u) = stream.next_update() {
        ids.push(u.update_id());
    }
    ids
}

#[test]
fn fresh_poller_starts_at_zero() {
    let mut stream = UpdateStream::new();
    assert_eq!(stream.poll_state(), PollState::Idle);
    assert!(stream.needs_fetch());
    let req = stream.begin_fetch();
    assert_eq!(req.offset, 0);
    assert_eq!(req.timeout, 120);
    assert_eq!(stream.poll_state(), PollState::Fetching);
}

#[test]
fn batch_is_yielded_in_order() {
    let mut stream = UpdateStream::new();
    stream.begin_fetch();
    stream.complete_fetch(batch(&[1, 2, 5]));
    assert_eq!(drain(&mut stream), vec![1, 2, 5]);
}

#[test]
fn offset_echoes_max_yielded_plus_one() {
    let mut stream = UpdateStream::new();
    stream.begin_fetch();
    stream.complete_fetch(batch(&[0, 1]));
    assert_eq!(drain(&mut stream), vec![0, 1]);
    let req = stream.begin_fetch();
    assert_eq!(req.offset, 2);
    stream.complete_fetch(batch(&[1, 2]));
    assert_eq!(drain(&mut stream), vec![2]);
    let req = stream.begin_fetch();
    assert_eq!(req.offset, 3);
}

#[test]
fn stale_updates_are_dropped() {
    let mut stream = UpdateStream::new();
    stream.begin_fetch();
    stream.complete_fetch(batch(&[5, 1, 6]));
    assert_eq!(drain(&mut stream), vec![5, 6]);
    let req = stream.begin_fetch();
    assert_eq!(req.offset, 7);
}

#[test]
fn negative_ids_never_reach_the_consumer() {
    let mut stream = UpdateStream::new();
    stream.begin_fetch();
    stream.complete_fetch(batch(&[-3, -1]));
    assert_eq!(drain(&mut stream), Vec::<i64>::new());
    let req = stream.begin_fetch();
    assert_eq!(req.offset, 0);
}

#[test]
fn equal_ids_within_a_batch_are_yielded_once() {
    let mut stream = UpdateStream::new();
    stream.begin_fetch();
    stream.complete_fetch(batch(&[3, 3]));
    assert_eq!(drain(&mut stream), vec![3]);
    let req = stream.begin_fetch();
    assert_eq!(req.offset, 4);
}

#[test]
fn id_equal_to_the_offset_is_yielded() {
    let mut stream = UpdateStream::new();
    stream.begin_fetch();
    stream.complete_fetch(batch(&[3]));
    assert_eq!(drain(&mut stream), vec![3]);
    stream.begin_fetch();
    stream.complete_fetch(batch(&[4]));
    assert_eq!(drain(&mut stream), vec![4]);
}

#[test]
fn empty_batch_keeps_the_offset() {
    let mut stream = UpdateStream::new();
    stream.begin_fetch();
    stream.complete_fetch(batch(&[6]));
    assert_eq!(drain(&mut stream), vec![6]);
    stream.begin_fetch();
    stream.complete_fetch(Vec::new());
    assert_eq!(drain(&mut stream), Vec::<i64>::new());
    let req = stream.begin_fetch();
    assert_eq!(req.offset, 7);
}

#[test]
fn failed_fetch_ends_the_sequence() {
    let mut stream = UpdateStream::new();
    stream.begin_fetch();
    stream.fail_fetch();
    assert_eq!(stream.poll_state(), PollState::Failed);
    assert!(!stream.needs_fetch());
}

#[test]
fn buffered_updates_defer_the_next_fetch() {
    let mut stream = UpdateStream::new();
    stream.begin_fetch();
    stream.complete_fetch(batch(&[4]));
    assert!(!stream.needs_fetch());
    assert_eq!(drain(&mut stream), vec![4]);
    assert!(stream.needs_fetch());
}
