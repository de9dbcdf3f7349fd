use block_verification_stage::utils::oneshot::{self, SendError};

#[test]
fn a_sent_value_is_received() {
    let (sender, receiver) = oneshot::channel::<u32>();
    assert_eq!(sender.send(42), Ok(()));
    assert_eq!(receiver.recv().ok(), Some(42));
}

#[test]
fn a_send_without_a_receiver_hands_the_value_back() {
    let (sender, receiver) = oneshot::channel::<u32>();
    drop(receiver);
    assert_eq!(sender.send(7), Err(SendError(7)));
}

#[test]
fn a_dropped_sender_leaves_the_receiver_with_an_error() {
    let (sender, receiver) = oneshot::channel::<u32>();
    drop(sender);
    assert!(receiver.recv().is_err());
}
