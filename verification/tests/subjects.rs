use rxrs::stream_ext::start_with::StartWith;
use rxrs::BehaviorSubject;
use rxrs::Event;
use rxrs::Observable;
use rxrs::Poll;
use rxrs::PublishSubject;
use rxrs::ReplaySubject;
use rxrs::Subject;

/// Pulls a subscription until it reports the end or has nothing at hand.
fn drain<S: Subject>(subject: &mut S, sub: &Observable<S::Item>) -> Vec<Event<S::Item>> {
    let mut out = Vec::new();
    while let Poll::Ready(Some(event)) = subject.poll_next(sub) {
        out.push(event);
    }
    out
}

fn values<S: Subject<Item = i32>>(subject: &mut S, sub: &Observable<i32>) -> Vec<i32> {
    drain(subject, sub).into_iter().map(|it| *it).collect()
}

#[test]
fn behavior_subject_can_subscribe_multiple_times() {
    let mut subject = BehaviorSubject::new(0);

    assert_eq!(subject.get_value(), &0);

    let (stream_a, stream_b) = (subject.subscribe(), subject.subscribe());

    subject.next(1);
    subject.close();

    let events_a = values(&mut subject, &stream_a);
    let events_b = values(&mut subject, &stream_b);

    assert_eq!(events_a, [0, 1]);
    assert_eq!(events_b, [0, 1]);
    assert_eq!(subject.poll_next(&stream_a), Poll::Ready(None));
    assert_eq!(subject.poll_next(&stream_b), Poll::Ready(None));
}

#[test]
fn replays_latest_event() {
    let mut subject_a = PublishSubject::new();
    let mut subject_b = BehaviorSubject::new(0);

    subject_a.next(1);
    subject_b.next(1);
    subject_a.close();
    subject_b.close();

    let (stream_a, stream_b) = (subject_a.subscribe(), subject_b.subscribe());
    let events_a = values(&mut subject_a, &stream_a);
    let events_b = values(&mut subject_b, &stream_b);

    assert_eq!(events_a, []);
    assert_eq!(events_b, [1]);
}

#[test]
fn can_get_value() {
    let mut subject = BehaviorSubject::new(0);

    assert_eq!(subject.get_value(), &0);

    subject.next(1);

    assert_eq!(subject.get_value(), &1);
}

#[test]
fn subscribe_before_events() {
    let mut subject = PublishSubject::new();
    let obs = subject.subscribe();

    subject.next(1);
    subject.next(2);
    subject.next(3);
    subject.close();

    let res = values(&mut subject, &obs);

    assert_eq!(res, [1, 2, 3]);
}

#[test]
fn subscribe_after_events() {
    let mut subject = PublishSubject::new();

    subject.next(1);
    subject.next(2);
    subject.next(3);
    subject.close();

    let obs = subject.subscribe();
    let res = values(&mut subject, &obs);

    assert_eq!(res, []);
    assert_eq!(subject.poll_next(&obs), Poll::Ready(None));
}

#[test]
fn ok_event_ownership() {
    let mut subject = PublishSubject::new();
    let obs = subject.subscribe();

    subject.next(1);
    subject.next(2);
    subject.next(3);
    subject.close();

    let res = drain(&mut subject, &obs)
        .into_iter()
        .map(|it| it.try_unwrap())
        .collect::<Vec<_>>();

    assert_eq!(res, [Ok(1), Ok(2), Ok(3)]);
}

#[test]
fn err_event_ownership() {
    let mut subject = PublishSubject::new();
    let obs = subject.subscribe();
    let some_other_obs = subject.subscribe();

    subject.next(1);
    subject.next(2);
    subject.next(3);
    subject.close();

    let res = drain(&mut subject, &obs)
        .into_iter()
        .map(|it| it.try_unwrap())
        .collect::<Vec<_>>();

    assert_eq!(res.len(), 3);
    for it in res {
        assert!(it.is_err(), "Event was not Err()");
    }

    subject.unsubscribe(some_other_obs);
}

#[test]
fn can_create_events() {
    let mut subject = PublishSubject::new();
    let sub = subject.subscribe();
    let mut obs = StartWith::new(vec![Event::from(0), Event::from(1), Event::from(2)]);

    subject.close();

    let mut res = Vec::new();
    loop {
        let polled = if obs.wants_upstream() {
            subject.poll_next(&sub)
        } else {
            Poll::Pending
        };
        match obs.poll_next(polled).into_poll() {
            Poll::Ready(Some(it)) => res.push(*it.borrow_value()),
            Poll::Ready(None) => break,
            Poll::Pending => panic!("a closed subject never makes a subscriber wait"),
        }
    }

    assert_eq!(res, [0, 1, 2]);
}

#[test]
fn replay_subject_can_subscribe_multiple_times() {
    let mut subject = ReplaySubject::new();

    let (stream_a, stream_b) = (subject.subscribe(), subject.subscribe());

    subject.next(1);
    subject.close();

    let events_a = values(&mut subject, &stream_a);
    let events_b = values(&mut subject, &stream_b);

    assert_eq!(events_a, [1]);
    assert_eq!(events_b, [1]);
}

#[test]
fn replays_latest_events() {
    let mut subject_a = PublishSubject::new();
    let mut subject_b = ReplaySubject::new();

    subject_a.next(1);
    subject_a.next(2);
    subject_a.next(3);
    subject_b.next(1);
    subject_b.next(2);
    subject_b.next(3);
    subject_a.close();
    subject_b.close();

    let (stream_a, stream_b) = (subject_a.subscribe(), subject_b.subscribe());
    let events_a = values(&mut subject_a, &stream_a);
    let events_b = values(&mut subject_b, &stream_b);

    assert_eq!(events_a, []);
    assert_eq!(events_b, [1, 2, 3]);
}

#[test]
fn replay_keeps_only_the_most_recent_values() {
    let mut subject = ReplaySubject::buffer_size(2);

    subject.next(1);
    assert_eq!(subject.buffer_len(), 1);
    subject.next(2);
    subject.next(3);
    assert_eq!(subject.buffer_len(), 2);
    subject.close();

    let sub = subject.subscribe();

    assert_eq!(subject.size_hint(&sub), (2, Some(2)));
    assert_eq!(values(&mut subject, &sub), [2, 3]);
    assert_eq!(subject.poll_next(&sub), Poll::Ready(None));
}

#[test]
fn replay_without_room_keeps_nothing() {
    let mut subject = ReplaySubject::buffer_size(0);

    subject.next(1);
    subject.next(2);
    assert_eq!(subject.buffer_len(), 0);

    let sub = subject.subscribe();

    assert_eq!(subject.poll_next(&sub), Poll::Pending);
    subject.next(3);
    assert_eq!(values(&mut subject, &sub), [3]);
}

#[test]
fn open_subject_makes_an_empty_mailbox_wait() {
    let mut subject = PublishSubject::<i32>::new();
    let sub = subject.subscribe();

    assert_eq!(subject.poll_next(&sub), Poll::Pending);
    assert_eq!(subject.size_hint(&sub), (0, None));
    assert!(!subject.is_terminated(&sub));

    subject.next(7);

    assert_eq!(subject.size_hint(&sub), (1, None));
    assert_eq!(subject.poll_next(&sub), Poll::Ready(Some(Event::from(7))));
    assert_eq!(subject.poll_next(&sub), Poll::Pending);

    subject.close();

    assert!(subject.is_terminated(&sub));
    assert_eq!(subject.poll_next(&sub), Poll::Ready(None));
}

#[test]
fn cancelling_one_subscription_leaves_the_other() {
    let mut subject = PublishSubject::new();
    let gone = subject.subscribe();
    let kept = subject.subscribe();

    subject.next(1);
    subject.unsubscribe(gone);
    subject.next(2);
    subject.close();

    assert_eq!(values(&mut subject, &kept), [1, 2]);
    assert_eq!(subject.poll_next(&kept), Poll::Ready(None));
}

#[test]
fn cancelled_subscription_releases_its_payloads() {
    let mut subject = PublishSubject::new();
    let gone = subject.subscribe();
    let kept = subject.subscribe();

    subject.next(5);
    subject.unsubscribe(gone);

    let res = drain(&mut subject, &kept)
        .into_iter()
        .map(|it| it.try_unwrap())
        .collect::<Vec<_>>();

    assert_eq!(res, [Ok(5)]);
}

#[test]
fn slot_of_a_cancelled_subscription_is_taken_again() {
    let mut subject = ReplaySubject::new();
    let first = subject.subscribe();

    subject.next(1);
    subject.unsubscribe(first);
    subject.next(2);

    let second = subject.subscribe();

    subject.next(3);
    subject.close();

    assert_eq!(values(&mut subject, &second), [1, 2, 3]);
}

#[test]
fn closing_twice_is_closing_once() {
    let mut once = BehaviorSubject::new(0);
    let mut twice = BehaviorSubject::new(0);
    let (sub_once, sub_twice) = (once.subscribe(), twice.subscribe());

    once.next(1);
    twice.next(1);
    once.close();
    twice.close();
    twice.close();

    assert_eq!(once.size_hint(&sub_once), twice.size_hint(&sub_twice));
    assert_eq!(values(&mut once, &sub_once), values(&mut twice, &sub_twice));
    assert_eq!(once.poll_next(&sub_once), Poll::Ready(None));
    assert_eq!(twice.poll_next(&sub_twice), Poll::Ready(None));
    assert_eq!(once.get_value(), twice.get_value());
}

#[test]
fn push_after_close_is_dropped() {
    let mut subject = BehaviorSubject::new(0);
    let sub = subject.subscribe();

    subject.close();
    subject.next(1);

    assert_eq!(subject.get_value(), &0);
    assert_eq!(values(&mut subject, &sub), [0]);
    assert_eq!(subject.poll_next(&sub), Poll::Ready(None));
}

#[test]
fn unknown_subscription_has_ended() {
    let mut issuer = PublishSubject::<i32>::new();
    let mut other = PublishSubject::<i32>::new();
    let sub = issuer.subscribe();

    assert_eq!(other.poll_next(&sub), Poll::Ready(None));
    assert_eq!(other.size_hint(&sub), (0, Some(0)));
    assert!(other.is_terminated(&sub));
}

#[test]
fn event_unwrap_falls_back_to_a_clone() {
    let event = Event::from(String::from("shared"));
    let other = event.clone();

    assert_eq!(other.borrow_value(), "shared");
    assert!(event.clone().try_unwrap().is_err());
    assert_eq!(event.unwrap(), "shared");
    assert_eq!(other.try_unwrap(), Ok(String::from("shared")));
}
