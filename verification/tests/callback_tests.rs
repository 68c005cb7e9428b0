use std::sync::mpsc::channel;
use std::time::Duration;

use steamworks::callback::{
    wait_result, CallResponse, CallResult, CallResultError, ReceiveOutcome, TupleInsert,
};

#[derive(Debug, PartialEq)]
struct Answer(u8);

impl CallResponse for Answer {
    const ID: u32 = 154;

    fn parse(bytes: &[u8]) -> Self {
        Answer(bytes[0])
    }
}

#[test]
fn wait_gives_the_response() {
    let (sender, receiver) = channel::<Answer>();
    let pending = CallResult::new(receiver, "context");
    sender.send(Answer::parse(&[9])).unwrap();
    assert_eq!(pending.wait(Duration::from_millis(100)), Ok(Answer(9)));
}

#[test]
fn wait_times_out() {
    let (_sender, receiver) = channel::<Answer>();
    let pending = CallResult::new(receiver, ());
    assert_eq!(
        pending.wait(Duration::from_millis(10)),
        Err(CallResultError::Timeout)
    );
}

#[test]
fn wait_sees_the_sender_gone() {
    let (sender, receiver) = channel::<Answer>();
    drop(sender);
    let pending = CallResult::new(receiver, ());
    assert_eq!(
        pending.wait(Duration::from_millis(10)),
        Err(CallResultError::Terminated)
    );
}

#[test]
fn wait_results_of_outcomes() {
    assert_eq!(wait_result(ReceiveOutcome::Received(Answer(3))), Ok(Answer(3)));
    assert_eq!(
        wait_result::<Answer>(ReceiveOutcome::TimedOut),
        Err(CallResultError::Timeout)
    );
    assert_eq!(
        wait_result::<Answer>(ReceiveOutcome::Disconnected),
        Err(CallResultError::Terminated)
    );
}

#[test]
fn parts_come_back() {
    let (sender, receiver) = channel::<Answer>();
    let pending = CallResult::new(receiver, 17u32);
    let (receiver, context) = pending.into_parts();
    assert_eq!(context, 17);
    sender.send(Answer(1)).unwrap();
    assert_eq!(receiver.recv().unwrap(), Answer(1));
}

#[test]
fn add_keeps_the_result() {
    let (_sender, receiver) = channel::<Answer>();
    let pending = CallResult::new(receiver, 1u8);
    let _with_vars = pending.add(String::from("user data"));
}

#[test]
fn tuple_insert_front_and_back() {
    assert_eq!(().front_insert(1), (1,));
    assert_eq!(().back_insert(1), (1,));
    assert_eq!((2,).front_insert(1), (1, 2));
    assert_eq!((2,).back_insert(1), (2, 1));
    assert_eq!((1, 2, 3).front_insert(0), (0, 1, 2, 3));
    assert_eq!((1, 2, 3).back_insert(4), (1, 2, 3, 4));
    let sixteen = (1, 2, 3, 4, 5, 6, 7, 8, 9, 10, 11, 12, 13, 14, 15, 16);
    let front = sixteen.front_insert(0);
    assert_eq!(front.0, 0);
    assert_eq!(front.16, 16);
    let back = sixteen.back_insert(17);
    assert_eq!(back.0, 1);
    assert_eq!(back.16, 17);
}
