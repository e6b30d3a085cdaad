use wasm_synth_gui::{SampleQueue, StereoSample};

fn stereo(left: f64, right: f64) -> StereoSample {
    (left.to_bits(), right.to_bits())
}

#[test]
fn fifo_two_samples_come_out_in_push_order() {
    let mut q = SampleQueue::new(256);
    assert_eq!(q.push(stereo(0.1, 0.2)), Ok(()));
    assert_eq!(q.push(stereo(0.3, 0.4)), Ok(()));
    assert_eq!(q.pop(), Some(stereo(0.1, 0.2)));
    assert_eq!(q.pop(), Some(stereo(0.3, 0.4)));
    assert_eq!(q.pop(), None);
}

#[test]
fn fifo_holds_with_pops_between_pushes() {
    let mut q = SampleQueue::new(2);
    assert_eq!(q.push(stereo(0.1, 0.2)), Ok(()));
    assert_eq!(q.pop(), Some(stereo(0.1, 0.2)));
    assert_eq!(q.push(stereo(0.3, 0.4)), Ok(()));
    assert_eq!(q.push(stereo(0.5, 0.6)), Ok(()));
    assert_eq!(q.pop(), Some(stereo(0.3, 0.4)));
    assert_eq!(q.push(stereo(0.7, 0.8)), Ok(()));
    assert_eq!(q.pop(), Some(stereo(0.5, 0.6)));
    assert_eq!(q.pop(), Some(stereo(0.7, 0.8)));
}

#[test]
fn fifo_across_split_halves() {
    let q = SampleQueue::new(4);
    let (mut producer, mut consumer) = q.split();
    assert_eq!(consumer.pop(), None);
    assert_eq!(producer.push(stereo(0.1, 0.2)), Ok(()));
    assert_eq!(producer.push(stereo(0.3, 0.4)), Ok(()));
    assert_eq!(consumer.pop(), Some(stereo(0.1, 0.2)));
    assert_eq!(consumer.pop(), Some(stereo(0.3, 0.4)));
    assert_eq!(consumer.pop(), None);
}

#[test]
fn capacity_law_for_streaming_queue() {
    let mut q = SampleQueue::new(256);
    for i in 0..256u64 {
        assert_eq!(q.push((i, i + 1)), Ok(()));
    }
    assert!(q.is_full());
    assert_eq!(q.len(), 256);
    assert_eq!(q.push((999, 999)), Err((999, 999)));
    assert_eq!(q.len(), 256);
    assert_eq!(q.pop(), Some((0, 1)));
    assert_eq!(q.push((1000, 1000)), Ok(()));
    assert_eq!(q.push((1001, 1001)), Err((1001, 1001)));
    assert_eq!(q.capacity(), 256);
}

#[test]
fn capacity_law_for_single_slot_queue() {
    let mut q = SampleQueue::new(1);
    assert!(q.is_empty());
    assert_eq!(q.push(stereo(0.5, -0.5)), Ok(()));
    assert_eq!(q.push(stereo(0.25, 0.25)), Err(stereo(0.25, 0.25)));
    assert_eq!(q.pop(), Some(stereo(0.5, -0.5)));
    assert_eq!(q.push(stereo(0.25, 0.25)), Ok(()));
    assert_eq!(q.push(stereo(0.75, 0.75)), Err(stereo(0.75, 0.75)));
}

#[test]
fn full_split_producer_hands_sample_back() {
    let q = SampleQueue::new(1);
    let (mut producer, mut consumer) = q.split();
    assert_eq!(producer.push((1, 2)), Ok(()));
    assert_eq!(producer.push((3, 4)), Err((3, 4)));
    assert_eq!(consumer.pop(), Some((1, 2)));
    assert_eq!(producer.push((3, 4)), Ok(()));
    assert_eq!(consumer.pop(), Some((3, 4)));
}

#[test]
fn empty_queue_pops_nothing_at_once() {
    let mut q = SampleQueue::new(8);
    assert!(q.is_empty());
    assert!(!q.is_full());
    assert_eq!(q.len(), 0);
    assert_eq!(q.pop(), None);
    assert_eq!(q.len(), 0);
}
