use rxrs::defer::ConsumableStream;
use rxrs::defer::DeferStream;
use rxrs::poll::into_queue;
use rxrs::poll::Fuse;
use rxrs::stream_controller::StreamController;
use rxrs::Controller;
use rxrs::Event;
use rxrs::EventLite;
use rxrs::Poll;
use std::rc::Rc;

#[test]
fn mailbox_hands_items_out_in_arrival_order() {
    let mut mailbox = Controller::new();

    assert_eq!(mailbox.len(), 0);
    assert!(!mailbox.is_done());
    assert_eq!(mailbox.pop(), Poll::Pending);

    mailbox.push('a');
    mailbox.push('b');

    assert_eq!(mailbox.len(), 2);
    assert_eq!(mailbox.size_hint(), (2, None));
    assert_eq!(mailbox.pop(), Poll::Ready(Some('a')));

    mailbox.mark_completed();
    mailbox.mark_completed();

    assert!(mailbox.is_done());
    assert_eq!(mailbox.size_hint(), (1, Some(1)));
    assert_eq!(mailbox.pop(), Poll::Ready(Some('b')));
    assert_eq!(mailbox.pop(), Poll::Ready(None));
    assert_eq!(mailbox.pop(), Poll::Ready(None));
    assert_eq!(mailbox.size_hint(), (0, Some(0)));
}

#[test]
fn mailbox_can_start_completed() {
    let mut mailbox = Controller::<i32>::with_completed(true);

    assert!(mailbox.is_done());
    assert_eq!(mailbox.pop(), Poll::Ready(None));
    assert!(!Controller::<i32>::with_completed(false).is_done());
}

#[test]
fn stream_controller_hands_handles_out_in_order() {
    let mut mailbox = StreamController::new();

    assert_eq!(mailbox.poll_next(), Poll::Pending);

    mailbox.push(Rc::new(1));
    mailbox.push(Rc::new(2));
    mailbox.mark_completed();

    assert_eq!(mailbox.poll_next(), Poll::Ready(Some(Rc::new(1))));
    assert_eq!(mailbox.poll_next(), Poll::Ready(Some(Rc::new(2))));
    assert_eq!(mailbox.poll_next(), Poll::Ready(None));
}

#[test]
fn deferred_stream_goes_to_its_last_holder() {
    let mut mailbox = Controller::new();
    mailbox.push(Event::from(1));
    mailbox.mark_completed();

    let stream = Rc::new(DeferStream::new(mailbox));
    let other = Rc::clone(&stream);

    assert!(ConsumableStream::new(other).into_stream().is_none());

    let mut taken = ConsumableStream::new(stream)
        .into_stream()
        .expect("the last handle takes the stream over");

    assert_eq!(taken.poll_next(), Poll::Ready(Some(Event::from(1))));
    assert_eq!(taken.poll_next(), Poll::Ready(None));
}

#[test]
fn deferred_stream_is_consumed_once() {
    let stream = Rc::new(DeferStream::new(Controller::<Event<i32>>::new()));
    let other = Rc::clone(&stream);

    assert!(DeferStream::consume(stream).is_none());

    let mut taken = DeferStream::consume(other).expect("the last handle takes the stream over");

    assert_eq!(taken.poll_next(), Poll::Pending);
}

#[test]
fn event_lite_shares_one_value() {
    let event = EventLite::from(String::from("shared"));
    let other = event.clone();

    assert_eq!(event, other);
    assert_eq!(other.borrow_value(), "shared");

    let event = match event.try_unwrap() {
        Ok(_) => panic!("another handle is still held"),
        Err(handle) => handle,
    };

    assert_eq!(*event, "shared");
    assert_eq!(other.unwrap(), "shared");
    assert_eq!(Rc::try_unwrap(event), Ok(String::from("shared")));
}

#[test]
fn event_lite_gives_its_value_to_the_last_holder() {
    assert_eq!(EventLite::new(5).try_unwrap(), Ok(5));
    assert_eq!(EventLite::new(5).unwrap(), 5);
    assert_eq!(Event::new(6).try_unwrap().ok(), Some(6));
    assert_eq!(Event::new(6).unwrap(), 6);
}

#[test]
fn fuse_repeats_the_end() {
    let mut fuse = Fuse::new();

    assert!(!fuse.is_terminated());
    assert_eq!(fuse.poll_next(Poll::Ready(Some(1))), Poll::Ready(Some(1)));
    assert_eq!(fuse.poll_next(Poll::<Option<i32>>::Pending), Poll::Pending);
    assert_eq!(fuse.poll_next(Poll::<Option<i32>>::Ready(None)), Poll::Ready(None));
    assert!(fuse.is_terminated());
    assert_eq!(fuse.poll_next(Poll::Ready(Some(2))), Poll::Ready(None));
}

#[test]
fn queue_keeps_the_order_of_the_list() {
    let mut queue = into_queue(vec![1, 2, 3]);

    assert_eq!(queue.pop_front(), Some(1));
    assert_eq!(queue.pop_front(), Some(2));
    assert_eq!(queue.pop_front(), Some(3));
    assert_eq!(queue.pop_front(), None);
}

#[test]
fn deferred_snapshot_leaves_the_mailbox_alone() {
    let mut mailbox = StreamController::new();
    mailbox.push(Rc::new(1));
    mailbox.push(Rc::new(2));
    mailbox.mark_completed();

    let stream = rxrs::stream_defer::DeferStream::new(mailbox);
    let mut first = stream.as_stream();
    let mut second = stream.as_stream();

    assert_eq!(first.poll_next(), Poll::Ready(Some(Rc::new(1))));
    assert_eq!(first.poll_next(), Poll::Ready(Some(Rc::new(2))));
    assert_eq!(first.poll_next(), Poll::Ready(None));
    assert_eq!(second.poll_next(), Poll::Ready(Some(Rc::new(1))));
    assert_eq!(second.clone().poll_next(), Poll::Ready(Some(Rc::new(2))));
    assert_eq!(second.poll_next(), Poll::Ready(Some(Rc::new(2))));
}
