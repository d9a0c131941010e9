use block_lighting::driver::AnimationDriver;

#[test]
fn start_records_the_first_request() {
    let mut d = AnimationDriver::new();
    assert_eq!(d.pending, None);
    d.start(11);
    assert_eq!(d.pending, Some(11));
}

#[test]
fn every_tick_leaves_exactly_one_outstanding_request() {
    let mut d = AnimationDriver::new();
    d.start(0);
    for n in 0u64..100 {
        assert!(d.pending.is_some());
        let fired: u64 = d.pending.unwrap();
        d.tick(fired, n + 1);
        assert_eq!(d.pending, Some(n + 1));
    }
}

#[test]
fn cancel_hands_back_the_pending_handle() {
    let mut d = AnimationDriver::new();
    d.start(5);
    d.tick(5, 6);
    let h = d.cancel();
    assert_eq!(h, Some(6));
    assert_eq!(d.pending, None);
    assert_eq!(d.cancel(), None);
}
