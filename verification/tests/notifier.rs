use wallet_enrich::notify::{Notifier, RecvStatus};

#[test]
fn publish_without_subscribers_is_a_no_op() {
    let n = Notifier::new();
    // no error, no block: the call returns at once with a zero count
    assert_eq!(n.publish(), 0);
    assert_eq!(n.publish(), 0);
}

#[test]
fn subscriber_receives_each_event_published_after_subscribing() {
    let n = Notifier::new();
    n.publish();
    let mut rx = n.subscribe();
    // events published before the subscription are not seen
    assert_eq!(Notifier::try_next(&mut rx), RecvStatus::Empty);
    assert_eq!(n.publish(), 1);
    assert_eq!(n.publish(), 1);
    assert_eq!(Notifier::try_next(&mut rx), RecvStatus::Received);
    assert_eq!(Notifier::try_next(&mut rx), RecvStatus::Received);
    assert_eq!(Notifier::try_next(&mut rx), RecvStatus::Empty);
}

#[test]
fn stalled_subscriber_does_not_block_the_publisher() {
    let n = Notifier::new();
    let mut reader = n.subscribe();
    let mut stalled = n.subscribe();
    // far more events than the delivery buffer holds; the publisher must
    // keep returning promptly for the reading subscriber
    for _ in 0..500 {
        assert_eq!(n.publish(), 2);
        assert_eq!(Notifier::try_next(&mut reader), RecvStatus::Received);
    }
    // the stalled subscriber lost events rather than blocking anyone, and
    // stays subscribed from the oldest event still buffered
    assert_eq!(Notifier::try_next(&mut stalled), RecvStatus::Lagged);
    assert_eq!(Notifier::try_next(&mut stalled), RecvStatus::Received);
}

#[test]
fn dropped_notifier_closes_the_stream() {
    let n = Notifier::new();
    let mut rx = n.subscribe();
    n.publish();
    drop(n);
    // the buffered event still arrives, then the stream ends without error
    assert_eq!(Notifier::try_next(&mut rx), RecvStatus::Received);
    assert_eq!(Notifier::try_next(&mut rx), RecvStatus::Closed);
}
