use rxrs::rx::combine_latest::CombineLatest;
use rxrs::rx::zip::Zip;
use rxrs::stream_ext::dematerialize::Dematerialize;
use rxrs::stream_ext::distinct::Distinct;
use rxrs::stream_ext::distinct_until_changed::DistinctUntilChanged;
use rxrs::stream_ext::end_with::EndWith;
use rxrs::stream_ext::inspect_done::InspectDone;
use rxrs::stream_ext::into_ref_stream::IntoRefStream;
use rxrs::stream_ext::materialize::Materialize;
use rxrs::stream_ext::pairwise::Pairwise;
use rxrs::stream_ext::race::Race;
use rxrs::stream_ext::share::Shared;
use rxrs::stream_ext::start_with::StartWith;
use rxrs::stream_ext::switch_map::SwitchMap;
use rxrs::BehaviorSubject;
use rxrs::Event;
use rxrs::Notification;
use rxrs::Poll;
use rxrs::PublishSubject;
use rxrs::ReplaySubject;
use rxrs::Step;
use std::collections::hash_map::DefaultHasher;
use std::collections::VecDeque;
use std::hash::Hash;
use std::hash::Hasher;

/// A sequence whose items are all at hand, like an iterator turned into
/// a stream.
struct Ready<T> {
    items: VecDeque<T>,
}

impl<T> Ready<T> {
    fn of<I: IntoIterator<Item = T>>(items: I) -> Self {
        Ready { items: items.into_iter().collect() }
    }

    fn poll(&mut self) -> Poll<Option<T>> {
        Poll::Ready(self.items.pop_front())
    }
}

fn hashed<T: Hash>(item: T) -> (u64, T) {
    let mut hasher = DefaultHasher::new();
    item.hash(&mut hasher);
    (hasher.finish(), item)
}

fn run_distinct(items: Vec<i32>) -> Vec<i32> {
    let mut source = Ready::of(items.into_iter().map(hashed));
    let mut operator = Distinct::new();
    let mut out = Vec::new();
    loop {
        match operator.poll_next(source.poll()) {
            Step::Yield(item) => out.push(item),
            Step::End => break,
            Step::Retry => {}
            Step::Wait => panic!("a ready source never makes the operator wait"),
        }
    }
    out
}

fn run_distinct_until_changed(items: Vec<i32>) -> Vec<i32> {
    let mut source = Ready::of(items.into_iter().map(hashed));
    let mut operator = DistinctUntilChanged::new();
    let mut out = Vec::new();
    loop {
        match operator.poll_next(source.poll()) {
            Step::Yield(item) => out.push(item),
            Step::End => break,
            Step::Retry => {}
            Step::Wait => panic!("a ready source never makes the operator wait"),
        }
    }
    out
}

fn run_combine_latest(inputs: Vec<Vec<i32>>) -> Vec<Vec<i32>> {
    let mut operator = CombineLatest::new(inputs.len());
    let mut sources = inputs.into_iter().map(Ready::of).collect::<Vec<_>>();
    let mut out = Vec::new();
    loop {
        let polled = sources.iter_mut().map(|it| it.poll()).collect::<Vec<_>>();
        match operator.poll_next(polled) {
            Step::Yield(tuple) => out.push(tuple),
            Step::End => break,
            _ => {}
        }
    }
    assert!(operator.is_terminated());
    out
}

fn run_zip(inputs: Vec<Vec<i32>>) -> Vec<Vec<i32>> {
    let mut operator = Zip::new(inputs.len());
    let mut sources = inputs.into_iter().map(Ready::of).collect::<Vec<_>>();
    let mut out = Vec::new();
    loop {
        let mut polled = Vec::new();
        for (i, source) in sources.iter_mut().enumerate() {
            polled.push(if operator.wants(i) { source.poll() } else { Poll::Pending });
        }
        match operator.poll_next(polled) {
            Step::Yield(tuple) => out.push(tuple),
            Step::End => break,
            _ => panic!("ready sources never make the operator wait"),
        }
    }
    out
}

fn run_pairwise(items: Vec<i32>) -> Vec<(i32, i32)> {
    let mut source = Ready::of(items);
    let mut operator = Pairwise::new();
    let mut out = Vec::new();
    loop {
        match operator.poll_next(source.poll()) {
            Ok(Step::Yield((prev, next))) => out.push((prev, *next.borrow_value())),
            Ok(Step::End) => break,
            Ok(_) => {}
            Err(_) => panic!("the handle of the pair before was dropped"),
        }
    }
    out
}

fn run_switch_map(outer: Vec<usize>, f: fn(usize) -> Vec<usize>) -> Vec<usize> {
    let mut source = Ready::of(outer);
    let mut inner: Option<Ready<usize>> = None;
    let mut operator = SwitchMap::new();
    let mut out = Vec::new();
    loop {
        if let Some(item) = operator.switch(source.poll()) {
            inner = Some(Ready::of(f(item)));
        }
        let polled = match inner.as_mut() {
            Some(current) if operator.wants_inner() => current.poll(),
            _ => Poll::Pending,
        };
        match operator.poll_next(polled) {
            Step::Yield(item) => out.push(item),
            Step::End => break,
            _ => panic!("ready sources never make the operator wait"),
        }
    }
    out
}

#[test]
fn combine_latest_test() {
    let res = run_combine_latest(vec![vec![1, 2, 3], vec![6, 7, 8, 9], vec![0]]);

    assert_eq!(res, [[1, 6, 0], [2, 7, 0], [3, 8, 0], [3, 9, 0]]);
}

#[test]
fn zip_test() {
    let res = run_zip(vec![vec![1, 2, 3], vec![6, 7, 8, 9], vec![10, 11, 12]]);

    assert_eq!(res, [[1, 6, 10], [2, 7, 11], [3, 8, 12]]);
}

#[test]
fn dematerialize_smoke() {
    let all_events = Materialize::collect((1..=2).collect::<Vec<i32>>());

    assert_eq!(
        all_events,
        [Notification::Next(1), Notification::Next(2), Notification::Complete]
    );
}

#[test]
fn materialize_smoke() {
    let all_events = Dematerialize::collect(Materialize::collect((1..=2).collect::<Vec<i32>>()));

    assert_eq!(all_events, [1, 2]);
}

#[test]
fn distinct_smoke() {
    let all_events = run_distinct(vec![1, 1, 2, 1, 3, 2, 4, 5]);

    assert_eq!(all_events, [1, 2, 3, 4, 5]);
}

#[test]
fn distinct_until_changed_smoke() {
    let all_events = run_distinct_until_changed(vec![1, 1, 2, 3, 3, 3, 4, 5]);

    assert_eq!(all_events, [1, 2, 3, 4, 5]);
}

#[test]
fn end_with_smoke() {
    let mut source = Ready::of(1..=5);
    let mut operator = EndWith::new(vec![0]);
    let mut all_events = Vec::new();
    while let Step::Yield(item) = operator.poll_next(source.poll()) {
        all_events.push(item);
    }

    assert_eq!(all_events, [1, 2, 3, 4, 5, 0]);
    assert!(operator.is_terminated());
}

#[test]
fn start_with_smoke() {
    let mut source = Ready::of(1..=5);
    let mut operator = StartWith::new(vec![0]);
    let mut all_events = Vec::new();
    loop {
        let polled = if operator.wants_upstream() { source.poll() } else { Poll::Pending };
        match operator.poll_next(polled) {
            Step::Yield(item) => all_events.push(item),
            _ => break,
        }
    }

    assert_eq!(all_events, [0, 1, 2, 3, 4, 5]);
}

#[test]
fn inspect_done_smoke() {
    let mut is_done = false;
    let mut source = Ready::of(0..=3);
    let mut operator = InspectDone::new();
    let mut all_events = Vec::new();
    loop {
        let (step, notify) = operator.poll_next(source.poll());
        if notify {
            is_done = true;
        }
        match step {
            Step::Yield(item) => all_events.push(item),
            _ => break,
        }
    }

    assert_eq!(all_events, [0, 1, 2, 3]);
    assert!(is_done);
}

#[test]
fn pairwise_smoke() {
    let all_events = run_pairwise((0..=5).collect());

    assert_eq!(all_events, [(0, 1), (1, 2), (2, 3), (3, 4), (4, 5)]);
}

#[test]
fn race_smoke() {
    let mut phase = 0usize;
    let mut fast_stream = Ready::of(["fast"]);
    let mut slow_stream = move || {
        phase += 1;
        match phase {
            1 => Poll::Pending,
            2 => Poll::Ready(Some("slow")),
            3 => Poll::Ready(None),
            _ => unreachable!(),
        }
    };
    let mut operator = Race::new();
    let mut all_events = Vec::new();
    loop {
        let left = if operator.wants_left() { slow_stream() } else { Poll::Pending };
        let right = if operator.wants_right() { fast_stream.poll() } else { Poll::Pending };
        match operator.poll_next(left, right) {
            Step::Yield(item) => all_events.push(item),
            Step::End => break,
            _ => {}
        }
    }

    assert_eq!(all_events, ["fast"]);
    assert!(operator.is_terminated());
}

#[test]
fn share_smoke() {
    let mut stream = Ready::of(1usize..=3usize);
    let mut shared = Shared::new(PublishSubject::new());
    let s1 = shared.subscribe();
    let s2 = shared.subscribe();

    let mut a = Vec::new();
    let mut pulls = 0;
    loop {
        let upstream = if shared.wants_upstream() {
            pulls += 1;
            stream.poll()
        } else {
            Poll::Pending
        };
        match shared.poll_next(&s1, upstream) {
            Poll::Ready(Some(event)) => a.push(event),
            Poll::Ready(None) => break,
            Poll::Pending => panic!("a ready source never makes a subscriber wait"),
        }
    }
    let mut b = Vec::new();
    while let Poll::Ready(Some(event)) = shared.poll_next(&s2, Poll::Pending) {
        b.push(event);
    }

    assert_eq!(a, [1.into(), 2.into(), 3.into()]);
    assert_eq!(b, [1.into(), 2.into(), 3.into()]);
    assert_eq!(pulls, 4);
    assert!(shared.is_terminated(&s2));
}

#[test]
fn switch_map_smoke() {
    let all_events = run_switch_map((0usize..=3usize).collect(), |i| {
        vec![i.pow(2), i.pow(3), i.pow(4)]
    });

    assert_eq!(all_events, [0, 1, 4, 9, 27, 81]);
}

#[test]
fn distinct_lets_every_value_through_once() {
    assert_eq!(run_distinct(vec![1, 1, 2, 1, 3, 2, 2, 1, 4]), [1, 2, 3, 4]);
    assert_eq!(run_distinct(vec![]), []);
}

#[test]
fn distinct_until_changed_drops_only_neighbours() {
    assert_eq!(run_distinct_until_changed(vec![1, 1, 1, 2, 2, 2, 3, 1, 1]), [1, 2, 3, 1]);
}

#[test]
fn distinct_goes_by_the_hash_it_is_given() {
    let mut operator = Distinct::new();

    assert_eq!(operator.poll_next(Poll::Ready(Some((7, "a")))), Step::Yield("a"));
    assert_eq!(operator.poll_next(Poll::Ready(Some((7, "b")))), Step::Retry);
    assert_eq!(operator.poll_next(Poll::Ready(Some((8, "a")))), Step::Yield("a"));
    assert_eq!(operator.poll_next(Poll::<Option<(u64, &str)>>::Pending), Step::Wait);
    assert_eq!(operator.size_hint((3, Some(9))), (1, Some(9)));
    assert_eq!(operator.poll_next(Poll::<Option<(u64, &str)>>::Ready(None)), Step::End);
    assert_eq!(operator.poll_next(Poll::Ready(Some((9, "late")))), Step::End);
}

#[test]
fn materialize_of_nothing_is_the_end_marker() {
    assert_eq!(Materialize::collect(Vec::<i32>::new()), [Notification::Complete]);

    let mut operator = Materialize::new();
    assert_eq!(
        operator.poll_next(Poll::<Option<i32>>::Ready(None)),
        Step::Yield(Notification::Complete)
    );
    assert_eq!(operator.poll_next(Poll::<Option<i32>>::Ready(None)), Step::End);
    assert_eq!(operator.size_hint((2, Some(2))), (3, Some(3)));
    assert_eq!(operator.size_hint((usize::MAX, Some(usize::MAX))), (usize::MAX, None));
}

#[test]
fn dematerialize_stops_at_the_first_end_marker() {
    let notes = vec![
        Notification::Next(1),
        Notification::Complete,
        Notification::Next(2),
    ];

    assert_eq!(Dematerialize::collect(notes), [1]);
    assert_eq!(Dematerialize::collect(vec![Notification::Next(4), Notification::Next(5)]), [4, 5]);
    assert_eq!(Dematerialize::new().size_hint((0, Some(3))), (0, Some(2)));
}

#[test]
fn round_trip_gives_the_sequence_back() {
    for items in [vec![], vec![9], vec![3, 3, 1], (0..50).collect::<Vec<i32>>()] {
        assert_eq!(Dematerialize::collect(Materialize::collect(items.clone())), items);
    }
}

#[test]
fn notification_gives_its_value() {
    assert_eq!(Notification::Next(3).inner_value(), Some(3));
    assert_eq!(Notification::<i32>::Complete.inner_value(), None);
}

#[test]
fn pairwise_hands_back_handles_while_the_pair_is_held() {
    let mut operator = Pairwise::new();

    assert_eq!(operator.poll_next(Poll::Ready(Some(1))).ok(), Some(Step::Retry));
    let held = match operator.poll_next(Poll::Ready(Some(2))) {
        Ok(Step::Yield((1, next))) => next,
        _ => panic!("the second item completes the first pair"),
    };
    match operator.poll_next(Poll::Ready(Some(3))) {
        Err(shared) => {
            assert_eq!(*shared.previous.borrow_value(), 2);
            assert_eq!(*shared.next.borrow_value(), 3);
        }
        Ok(_) => panic!("the previous item is still shared"),
    }
    assert_eq!(*held.borrow_value(), 2);
    assert_eq!(operator.size_hint((4, Some(4))), (3, Some(3)));
    assert_eq!(operator.size_hint((0, None)), (0, None));
    assert_eq!(operator.poll_next(Poll::Ready(None)).ok(), Some(Step::End));
}

#[test]
fn combine_latest_waits_for_every_input() {
    let mut operator = CombineLatest::new(2);

    assert_eq!(operator.arity(), 2);
    assert_eq!(
        operator.poll_next(vec![Poll::Ready(Some(1)), Poll::Pending]),
        Step::Wait
    );
    assert_eq!(
        operator.poll_next(vec![Poll::Pending, Poll::Pending]),
        Step::Wait
    );
    assert_eq!(
        operator.poll_next(vec![Poll::Ready(Some(2)), Poll::Ready(Some(5))]),
        Step::Yield(vec![2, 5])
    );
    assert_eq!(
        operator.poll_next(vec![Poll::Ready(None), Poll::Pending]),
        Step::Wait
    );
    assert!(!operator.is_terminated());
    assert_eq!(
        operator.poll_next(vec![Poll::Ready(Some(9)), Poll::Ready(Some(6))]),
        Step::Yield(vec![2, 6])
    );
    assert_eq!(
        operator.poll_next(vec![Poll::Pending, Poll::Ready(None)]),
        Step::End
    );
}

#[test]
fn zip_ends_with_its_shortest_input() {
    assert_eq!(run_zip(vec![vec![1, 2], vec![]]), Vec::<Vec<i32>>::new());
    assert_eq!(run_zip(vec![vec![1, 2], vec![3]]), [[1, 3]]);

    let mut operator = Zip::new(2);
    assert_eq!(operator.poll_next(vec![Poll::Ready(Some(1)), Poll::Pending]), Step::Wait);
    assert!(!operator.wants(0));
    assert!(operator.wants(1));
    assert_eq!(
        operator.poll_next(vec![Poll::Ready(Some(7)), Poll::Ready(Some(2))]),
        Step::Yield(vec![1, 2])
    );
    assert!(!operator.is_terminated());
}

#[test]
fn switch_map_waits_for_the_outer_sequence() {
    let mut operator = SwitchMap::new();

    assert_eq!(operator.switch(Poll::<Option<i32>>::Pending), None);
    assert_eq!(operator.poll_next(Poll::<Option<i32>>::Pending), Step::Wait);
    assert_eq!(operator.switch(Poll::Ready(Some(1))), Some(1));
    assert_eq!(operator.poll_next(Poll::Ready(Some(10))), Step::Yield(10));
    assert_eq!(operator.poll_next(Poll::<Option<i32>>::Ready(None)), Step::Wait);
    assert!(!operator.wants_inner());
    assert_eq!(operator.size_hint((2, Some(2)), Some((0, Some(0)))), (2, None));
    assert_eq!(operator.switch(Poll::<Option<i32>>::Ready(None)), None);
    assert!(operator.is_terminated());
    assert_eq!(operator.size_hint((0, Some(0)), Some((0, Some(0)))), (0, Some(0)));
    assert_eq!(operator.poll_next(Poll::<Option<i32>>::Pending), Step::End);
}

#[test]
fn race_follows_the_left_side_on_a_tie() {
    let mut operator = Race::new();

    assert_eq!(operator.size_hint((3, Some(3)), (1, Some(1))), (1, None));
    assert_eq!(
        operator.poll_next(Poll::Ready(Some("left")), Poll::Ready(Some("right"))),
        Step::Yield("left")
    );
    assert!(operator.wants_left());
    assert!(!operator.wants_right());
    assert_eq!(operator.size_hint((3, Some(3)), (1, Some(1))), (3, Some(3)));
    assert_eq!(operator.poll_next(Poll::Pending, Poll::Ready(Some("right"))), Step::Wait);
    assert_eq!(operator.poll_next(Poll::Ready(None), Poll::Ready(Some("right"))), Step::End);
}

#[test]
fn start_and_end_with_lift_the_bounds() {
    let start = StartWith::new(vec![1, 2]);
    let end = EndWith::new(vec![1, 2, 3]);

    assert_eq!(start.size_hint((4, Some(5))), (6, Some(7)));
    assert_eq!(end.size_hint((4, None)), (7, None));
    assert_eq!(end.size_hint((usize::MAX, Some(usize::MAX))), (usize::MAX, None));
}

#[test]
fn into_ref_stream_wraps_every_item() {
    let mut operator = IntoRefStream::new();

    assert_eq!(operator.poll_next(Poll::Ready(Some(4))), Step::Yield(Event::from(4)));
    assert_eq!(operator.poll_next(Poll::<Option<i32>>::Pending), Step::Wait);
    assert_eq!(operator.poll_next(Poll::<Option<i32>>::Ready(None)), Step::End);
}

#[test]
fn share_behavior_starts_from_the_latest_value() {
    let mut stream = Ready::of(1..=3);
    let mut shared = Shared::new(BehaviorSubject::new(0));
    let first = shared.subscribe();
    let mut seen = Vec::new();
    while let Poll::Ready(Some(event)) = shared.poll_next(&first, stream.poll()) {
        seen.push(*event.borrow_value());
    }
    let late = shared.subscribe();
    let mut replayed = Vec::new();
    while let Poll::Ready(Some(event)) = shared.poll_next(&late, Poll::Pending) {
        replayed.push(*event.borrow_value());
    }

    assert_eq!(seen, [0, 1, 2, 3]);
    assert_eq!(replayed, [3]);
}

#[test]
fn share_replay_repeats_everything() {
    let mut stream = Ready::of(0..=3);
    let mut shared = Shared::new(ReplaySubject::new());
    let first = shared.subscribe();
    while let Poll::Ready(Some(_)) = shared.poll_next(&first, stream.poll()) {}
    shared.unsubscribe(first);
    let late = shared.subscribe();
    let mut replayed = Vec::new();
    while let Poll::Ready(Some(event)) = shared.poll_next(&late, Poll::Pending) {
        replayed.push(*event.borrow_value());
    }

    assert_eq!(replayed, [0, 1, 2, 3]);
    assert_eq!(shared.size_hint(&late), (0, Some(0)));
}

#[test]
fn step_shows_as_a_poll() {
    assert_eq!(Step::Yield(1).into_poll(), Poll::Ready(Some(1)));
    assert_eq!(Step::<i32>::End.into_poll(), Poll::Ready(None));
    assert_eq!(Step::<i32>::Retry.into_poll(), Poll::Pending);
    assert_eq!(Step::<i32>::Wait.into_poll(), Poll::Pending);
    assert!(Step::<i32>::Retry.wants_wake());
    assert!(!Step::<i32>::Wait.wants_wake());
    assert_eq!(Step::from_poll(Poll::Ready(Some(2))), Step::Yield(2));
    assert!(Poll::Ready(1).is_ready());
    assert!(Poll::<i32>::Pending.is_pending());
}

#[test]
fn distinct_collect_keeps_first_occurrences() {
    let items = [1, 1, 2, 1, 3, 2, 2, 1, 4].into_iter().map(hashed).collect();

    assert_eq!(Distinct::collect(items), [1, 2, 3, 4]);
    assert_eq!(Distinct::collect(vec![(1, 'a'), (2, 'b'), (1, 'c')]), ['a', 'b']);
    assert_eq!(Distinct::collect(Vec::<(u64, char)>::new()), []);
}

#[test]
fn distinct_until_changed_collect_keeps_changes() {
    let items = [1, 1, 1, 2, 2, 2, 3, 1, 1].into_iter().map(hashed).collect();

    assert_eq!(DistinctUntilChanged::collect(items), [1, 2, 3, 1]);
    assert_eq!(
        DistinctUntilChanged::collect(vec![(1, 'a'), (1, 'b'), (2, 'c'), (1, 'd')]),
        ['a', 'c', 'd']
    );
}

#[test]
fn start_with_collect_puts_the_prefix_first() {
    assert_eq!(StartWith::collect(vec![0], (1..=5).collect()), [0, 1, 2, 3, 4, 5]);
    assert_eq!(StartWith::collect(vec![], vec![7, 8]), [7, 8]);
    assert_eq!(StartWith::collect(vec![1, 2], vec![]), [1, 2]);
}

#[test]
fn end_with_collect_puts_the_suffix_last() {
    assert_eq!(EndWith::collect((1..=5).collect(), vec![0]), [1, 2, 3, 4, 5, 0]);
    assert_eq!(EndWith::collect(vec![], vec![7, 8]), [7, 8]);
    assert_eq!(EndWith::collect(vec![1, 2], vec![]), [1, 2]);
}

#[test]
fn payloads_give_their_value_on_deref() {
    let event = Event::from(3);
    let lite = rxrs::EventLite::from(4);

    assert_eq!(*event + *lite, 7);
    assert_eq!(event.clone(), event);
}

#[test]
fn combinators_bound_what_is_still_to_come() {
    let hints = vec![(3, Some(3)), (4, Some(6)), (1, None)];
    let known = vec![(3, Some(3)), (4, Some(6))];

    assert_eq!(rxrs::rx::bounds::greatest(&hints), (4, None));
    assert_eq!(rxrs::rx::bounds::greatest(&known), (4, Some(6)));
    assert_eq!(rxrs::rx::bounds::least(&hints), (1, Some(3)));
    assert_eq!(rxrs::rx::bounds::least(&vec![(2, None), (5, None)]), (2, None));
    assert!(rxrs::rx::bounds::upper_is_le(Some(9), None));
    assert!(!rxrs::rx::bounds::upper_is_le(None, Some(9)));

    let mut combine = CombineLatest::<i32>::new(2);
    assert_eq!(combine.size_hint(&known), (4, None));
    assert_eq!(combine.poll_next(vec![Poll::Ready(None), Poll::Ready(None)]), Step::End);
    assert_eq!(combine.size_hint(&known), (4, Some(6)));

    let zip = Zip::<i32>::new(3);
    assert_eq!(zip.arity(), 3);
    assert_eq!(zip.size_hint(&hints), (1, Some(3)));
}

#[test]
fn combine_latest_collect_follows_the_longest_input() {
    let res = CombineLatest::collect(vec![vec![1, 2, 3], vec![6, 7, 8, 9], vec![0]]);

    assert_eq!(res, [[1, 6, 0], [2, 7, 0], [3, 8, 0], [3, 9, 0]]);
    assert_eq!(CombineLatest::collect(vec![vec!['a']]), [['a']]);
    assert_eq!(
        CombineLatest::collect(vec![vec![1], vec![2, 3]]),
        run_combine_latest(vec![vec![1], vec![2, 3]])
    );
}

#[test]
fn zip_collect_follows_the_shortest_input() {
    let res = Zip::collect(vec![vec![1, 2, 3], vec![6, 7, 8, 9], vec![10, 11, 12]]);

    assert_eq!(res, [[1, 6, 10], [2, 7, 11], [3, 8, 12]]);
    assert_eq!(Zip::collect(vec![vec![1, 2], vec![]]), Vec::<Vec<i32>>::new());
    assert_eq!(Zip::collect(vec![vec![5, 6]]), [[5], [6]]);
}

#[test]
fn queues_keep_the_order_of_their_lists() {
    let mut queues = rxrs::poll::into_queues(vec![vec![1, 2], vec![], vec![3]]);

    assert_eq!(queues.len(), 3);
    assert_eq!(queues[0].pop_front(), Some(1));
    assert_eq!(queues[0].pop_front(), Some(2));
    assert_eq!(queues[1].pop_front(), None);
    assert_eq!(queues[2].pop_front(), Some(3));
}

#[test]
fn combine_latest_collect_needs_an_item_of_every_input() {
    assert_eq!(
        CombineLatest::collect(vec![vec![1, 2, 3], vec![]]),
        Vec::<Vec<i32>>::new()
    );
    assert_eq!(
        CombineLatest::collect(vec![vec![], vec![1]]),
        run_combine_latest(vec![vec![], vec![1]])
    );
    assert_eq!(CombineLatest::collect(vec![Vec::<i32>::new()]), Vec::<Vec<i32>>::new());
    assert_eq!(CombineLatest::collect(Vec::<Vec<i32>>::new()), Vec::<Vec<i32>>::new());
}
