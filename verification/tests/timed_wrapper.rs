use mini_redis::timed::{poll_start, TimedWrapper};
use std::time::Instant;

#[test]
fn new_is_not_started() {
    let wrapper = TimedWrapper::new(5u32);
    assert!(wrapper.start.is_none());
    assert_eq!(wrapper.future, 5);
}

#[test]
fn start_is_recorded_once() {
    let before = Instant::now();
    let mut start = None;
    let first = poll_start(&mut start);
    assert!(first >= before);
    assert_eq!(start, Some(first));
    assert_eq!(poll_start(&mut start), first);
    assert_eq!(poll_start(&mut start), first);
    assert_eq!(start, Some(first));
}

#[test]
fn recorded_start_is_kept() {
    let earlier = Instant::now();
    let mut start = Some(earlier);
    assert_eq!(poll_start(&mut start), earlier);
    assert_eq!(start, Some(earlier));
}
