use semaphore::permits::{acquired, must_wait, released};
use semaphore::semaphore::Semaphore;

#[test]
fn must_wait_only_when_full() {
    assert!(!must_wait(0, 4));
    assert!(!must_wait(3, 4));
    assert!(must_wait(4, 4));
    assert!(must_wait(0, 0));
}

#[test]
fn acquired_counts_up() {
    assert_eq!(acquired(0, 4), 1);
    assert_eq!(acquired(3, 4), 4);
}

#[test]
fn released_counts_down_and_stops_at_zero() {
    assert_eq!(released(4), 3);
    assert_eq!(released(1), 0);
    assert_eq!(released(0), 0);
}

#[test]
fn free_permits_do_not_block() {
    let s = Semaphore::new(3);
    s.wait();
    s.wait();
    s.wait();
    s.post();
    s.wait();
    s.post();
    s.post();
    s.post();
}

#[test]
fn balanced_usage_frees_every_permit() {
    let s = Semaphore::new(3);
    for _ in 0..5 {
        s.wait();
        s.wait();
        s.wait();
        s.post();
        s.post();
        s.post();
    }
}

#[test]
fn one_permit_taken_and_returned_in_turn() {
    let s = Semaphore::new(1);
    for _ in 0..1000 {
        s.wait();
        s.post();
    }
}
