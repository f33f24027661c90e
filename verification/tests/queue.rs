use ursa_minor_haptics::queue::SampleQueue;

#[test]
fn new_queue_is_empty() {
    let queue = SampleQueue::new(4);
    assert_eq!(queue.capacity(), 4);
    assert_eq!(queue.len(), 0);
}

#[test]
fn queue_keeps_samples_in_their_order() {
    let mut queue = SampleQueue::new(4);
    assert_eq!(queue.push((1, 0, 0)), None);
    assert_eq!(queue.push((2, 0, 0)), None);
    assert_eq!(queue.push((3, 0, 0)), None);
    assert_eq!(queue.len(), 3);
    assert_eq!(queue.drain(), vec![(1, 0, 0), (2, 0, 0), (3, 0, 0)]);
    assert_eq!(queue.len(), 0);
    assert_eq!(queue.drain(), vec![]);
    assert_eq!(queue.capacity(), 4);
}

#[test]
fn full_queue_drops_the_oldest_sample() {
    let mut queue = SampleQueue::new(2);
    assert_eq!(queue.push((1, 1, 1)), None);
    assert_eq!(queue.push((2, 2, 2)), None);
    assert_eq!(queue.push((3, 3, 3)), Some((1, 1, 1)));
    assert_eq!(queue.push((4, 4, 4)), Some((2, 2, 2)));
    assert_eq!(queue.len(), 2);
    assert_eq!(queue.drain(), vec![(3, 3, 3), (4, 4, 4)]);
    assert_eq!(queue.push((5, 5, 5)), None);
    assert_eq!(queue.drain(), vec![(5, 5, 5)]);
}

#[test]
fn queue_of_one_keeps_the_latest_sample() {
    let mut queue = SampleQueue::new(1);
    assert_eq!(queue.push((1, 0, 0)), None);
    assert_eq!(queue.push((2, 0, 0)), Some((1, 0, 0)));
    assert_eq!(queue.push((3, 0, 0)), Some((2, 0, 0)));
    assert_eq!(queue.drain(), vec![(3, 0, 0)]);
}

#[test]
fn queue_without_capacity_keeps_nothing() {
    let mut queue = SampleQueue::new(0);
    assert_eq!(queue.push((7, 8, 9)), Some((7, 8, 9)));
    assert_eq!(queue.len(), 0);
    assert_eq!(queue.drain(), vec![]);
}

#[test]
fn queue_never_exceeds_its_capacity() {
    let mut queue = SampleQueue::new(16);
    let mut n: i32 = 0;
    while n < 1_000 {
        queue.push((n, -n, 0));
        assert!(queue.len() <= 16);
        n += 1;
    }
    let samples = queue.drain();
    assert_eq!(samples.len(), 16);
    assert_eq!(samples[0], (984, -984, 0));
    assert_eq!(samples[15], (999, -999, 0));
}
