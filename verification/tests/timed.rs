use rxrs::stream_ext::buffer::Buffer;
use rxrs::stream_ext::debounce::Debounce;
use rxrs::stream_ext::delay::Delay;
use rxrs::stream_ext::delay_every::DelayEvery;
use rxrs::stream_ext::sample::Sample;
use rxrs::stream_ext::throttle::Throttle;
use rxrs::stream_ext::throttle::ThrottleConfig;
use rxrs::stream_ext::timing::Timed;
use rxrs::stream_ext::timing::Timing;
use rxrs::stream_ext::window::Window;
use rxrs::Poll;
use rxrs::Signal;
use rxrs::Step;
use std::collections::VecDeque;

/// A sequence on a virtual clock, in milliseconds: every item has the
/// time at which it becomes available, and the end follows the last item
/// at once.
struct Clocked<T> {
    items: VecDeque<(u64, T)>,
}

impl<T> Clocked<T> {
    fn of<I: IntoIterator<Item = (u64, T)>>(items: I) -> Self {
        Clocked { items: items.into_iter().collect() }
    }

    fn poll(&mut self, now: u64) -> Poll<Option<T>> {
        match self.items.front() {
            Some((at, _)) if *at <= now => Poll::Ready(self.items.pop_front().map(|it| it.1)),
            Some(_) => Poll::Pending,
            None => Poll::Ready(None),
        }
    }

    fn next_time(&self) -> Option<u64> {
        self.items.front().map(|it| it.0)
    }
}

/// Ten items, the first after 50 ms and each next one 50 ms later, but
/// for the items in `slow`, which take 150 ms.
fn ten_items(slow: &[usize]) -> Clocked<usize> {
    let mut at = 0;
    let mut items = Vec::new();
    for count in 0..10 {
        at += if slow.contains(&count) { 150 } else { 50 };
        items.push((at, count));
    }
    Clocked::of(items)
}

fn earlier(a: Option<u64>, b: Option<u64>) -> Option<u64> {
    match (a, b) {
        (Some(a), Some(b)) => Some(a.min(b)),
        (a, None) => a,
        (None, b) => b,
    }
}

fn run_debounce(mut source: Clocked<usize>, interval: u64) -> Vec<usize> {
    let mut operator = Debounce::new();
    let mut deadline = None;
    let mut now = 0;
    let mut out = Vec::new();
    loop {
        let step = match deadline {
            Some(at) if operator.is_armed() && at <= now => {
                deadline = None;
                operator.poll_next(Signal::Interval(()))
            }
            _ => {
                let polled = source.poll(now);
                if let Poll::Ready(Some(_)) = &polled {
                    deadline = Some(now + interval);
                }
                operator.poll_next(Signal::Upstream(polled))
            }
        };
        match step {
            Step::Yield(item) => out.push(item),
            Step::End => break,
            Step::Retry => {}
            Step::Wait => {
                now = earlier(deadline.filter(|_| operator.is_armed()), source.next_time())
                    .expect("something is still to come");
            }
        }
    }
    out
}

fn run_throttle(mut source: Clocked<usize>, interval: u64, config: ThrottleConfig) -> Vec<usize> {
    let mut operator = Throttle::new(config);
    let mut deadline = None;
    let mut now = 0;
    let mut out = Vec::new();
    loop {
        if let Some(at) = deadline {
            if operator.is_armed() && at <= now {
                deadline = None;
                if let Step::Yield(item) = operator.poll_next(Signal::Interval(())) {
                    out.push(item);
                    continue;
                }
            }
        }
        let was_armed = operator.is_armed();
        let polled = source.poll(now);
        if let Poll::Ready(Some(_)) = &polled {
            if !was_armed {
                deadline = Some(now + interval);
            }
        }
        match operator.poll_next(Signal::Upstream(polled)) {
            Step::Yield(item) => out.push(item),
            Step::End => break,
            Step::Retry => {}
            Step::Wait => {
                now = earlier(deadline.filter(|_| operator.is_armed()), source.next_time())
                    .expect("something is still to come");
            }
        }
    }
    out
}

/// Runs the buffering operator with an interval that elapses at once
/// and asks for a flush when the running count is `size`.
fn run_buffer(items: Vec<i32>, size: usize) -> Vec<Vec<i32>> {
    let mut source = Clocked::of(items.into_iter().map(|it| (0, it)));
    let mut operator = Buffer::new();
    let mut verdict = false;
    let mut out = Vec::new();
    loop {
        let step = if operator.is_armed() {
            operator.poll_next(Signal::Interval(verdict))
        } else {
            let polled = source.poll(0);
            if let Poll::Ready(Some(_)) = &polled {
                verdict = operator.next_count() == size;
            }
            operator.poll_next(Signal::Upstream(polled))
        };
        match step {
            Step::Yield(list) => out.push(list),
            Step::End => break,
            Step::Retry => {}
            Step::Wait => panic!("everything is at hand"),
        }
    }
    out
}

#[test]
fn buffer_smoke() {
    let all_events = run_buffer((0..=8).collect(), 3);

    assert_eq!(all_events, vec![vec![0, 1, 2], vec![3, 4, 5], vec![6, 7, 8]]);
}

#[test]
fn window_smoke() {
    let mut source = Clocked::of((0..=8).map(|it| (0, it)));
    let mut operator = Window::new();
    let mut verdict = false;
    let mut windows = Vec::new();
    loop {
        let step = if operator.is_armed() {
            operator.poll_next(Signal::Interval(verdict))
        } else {
            let polled = source.poll(0);
            if let Poll::Ready(Some(_)) = &polled {
                verdict = operator.next_count() == 3;
            }
            operator.poll_next(Signal::Upstream(polled))
        };
        match step {
            Step::Yield(window) => windows.push(window),
            Step::End => break,
            _ => {}
        }
    }
    let all_events = windows
        .into_iter()
        .enumerate()
        .flat_map(|(index, it)| it.into_iter().map(move |it| (index, it)))
        .collect::<Vec<_>>();

    assert_eq!(
        all_events,
        vec![(0, 0), (0, 1), (0, 2), (1, 3), (1, 4), (1, 5), (2, 6), (2, 7), (2, 8)]
    );
}

#[test]
fn debounce_smoke() {
    let all_events = run_debounce(ten_items(&[3, 7]), 100);

    assert_eq!(all_events, [2, 6, 9]);
}

#[test]
fn throttle_smoke() {
    let all_events = run_throttle(ten_items(&[]), 175, ThrottleConfig::Leading);

    assert_eq!(all_events, [0, 4, 8]);

    let all_events = run_throttle(ten_items(&[]), 175, ThrottleConfig::Trailing);

    assert_eq!(all_events, [3, 7]);

    let all_events = run_throttle(ten_items(&[]), 175, ThrottleConfig::All);

    assert_eq!(all_events, [0, 3, 4, 7, 8]);
}

#[test]
fn delay_smoke() {
    let mut source = Clocked::of((0..=3).map(|it| (0, it)));
    let mut operator = Delay::new();
    let mut deadline = None;
    let mut now = 0;
    let mut all_events = Vec::new();
    loop {
        let step = if operator.wants_upstream() {
            operator.poll_next(Signal::Upstream(source.poll(now)))
        } else if !operator.is_armed() {
            deadline = Some(now + 100);
            operator.poll_next(Signal::<i32, ()>::Upstream(Poll::Pending))
        } else if deadline.is_some_and(|at| at <= now) {
            operator.poll_next(Signal::Interval(()))
        } else {
            assert_eq!(
                operator.poll_next(Signal::<i32, ()>::Upstream(Poll::Pending)),
                Step::Retry
            );
            now = deadline.expect("the interval is running");
            continue;
        };
        match step {
            Step::Yield(item) => all_events.push(item),
            Step::End => break,
            _ => {}
        }
    }

    assert_eq!(all_events, [0, 1, 2, 3]);
    assert!(now >= 100);
}

#[test]
fn delay_every_smoke() {
    let mut source = Clocked::of((0..=3).map(|it| (0, it)));
    let mut operator = DelayEvery::new(None);
    let mut deadline = 0;
    let mut now = 0;
    let mut all_events = Vec::new();
    loop {
        let was_armed = operator.is_armed();
        match operator.poll_next(Signal::Upstream(source.poll(now))) {
            Step::End => break,
            Step::Retry => {}
            _ => panic!("taking an item in hands nothing out"),
        }
        if !was_armed {
            assert!(operator.delayed_event().is_some());
            deadline = now + 50;
        }
        if deadline <= now {
            match operator.poll_next(Signal::Interval(())) {
                Step::Yield(item) => all_events.push(item),
                _ => panic!("an elapsed interval releases its item"),
            }
        } else {
            now = deadline;
        }
    }

    assert_eq!(all_events, [0, 1, 2, 3]);
    assert!(now >= 50 * 4);
}

#[test]
fn sample_smoke() {
    // Six items, 20 ms apart, and six ticks, 50 ms apart, on one clock.
    // Where both fall on the same instant the tick is seen first.
    let mut schedule = Vec::new();
    for index in 0..6usize {
        schedule.push((20 * (index as u64 + 1), 1, Some(index)));
        schedule.push((50 * (index as u64 + 1), 0, None));
    }
    schedule.sort();

    let mut operator = Sample::new();
    let mut items_left = 6;
    let mut ticks_left = 6;
    let mut all_events = Vec::new();
    for (_, _, item) in schedule {
        let (stream, sampler) = match item {
            Some(index) => {
                items_left -= 1;
                (Poll::Ready(Some(index)), Poll::Pending)
            }
            None => {
                ticks_left -= 1;
                (if items_left == 0 { Poll::Ready(None) } else { Poll::Pending }, Poll::Ready(Some(())))
            }
        };
        if let Step::Yield(item) = operator.poll_next(stream, sampler) {
            all_events.push(item);
        }
    }
    assert_eq!(ticks_left, 0);
    assert_eq!(operator.poll_next(Poll::Ready(None), Poll::Ready(None)), Step::End);

    assert_eq!(all_events, [1, 3, 5]);
}

#[test]
fn timing_smoke() {
    let start = 0;
    let mut source = ten_items(&[]);
    let mut operator = Timing::new();
    let mut now = start;
    let mut all_events: Vec<Timed<usize>> = Vec::new();
    loop {
        match operator.poll_next(source.poll(now), now) {
            Step::Yield(timed) => all_events.push(timed),
            Step::End => break,
            _ => now = source.next_time().expect("an item is still to come"),
        }
    }

    assert_eq!(all_events.len(), 10);
    for (index, timed) in all_events.iter().enumerate() {
        assert_eq!(timed.event, index);
        assert!(timed.timestamp - start >= 50 * index as u64);
    }
    for (index, timed) in all_events.iter().enumerate() {
        if index == 0 {
            assert!(timed.interval.is_none());
        } else {
            assert!(timed.interval.expect("interval is None!") >= 50);
        }
    }
}

#[test]
fn timing_gives_the_exact_span() {
    let mut operator = Timing::new();

    assert_eq!(
        operator.poll_next(Poll::Ready(Some('a')), 1_000),
        Step::Yield(Timed { event: 'a', timestamp: 1_000, interval: None })
    );
    assert_eq!(operator.poll_next(Poll::<Option<char>>::Pending, 1_200), Step::Wait);
    assert_eq!(
        operator.poll_next(Poll::Ready(Some('b')), 1_250),
        Step::Yield(Timed { event: 'b', timestamp: 1_250, interval: Some(250) })
    );
    assert_eq!(
        operator.poll_next(Poll::Ready(Some('c')), 1_100),
        Step::Yield(Timed { event: 'c', timestamp: 1_100, interval: Some(0) })
    );
    assert_eq!(operator.poll_next(Poll::<Option<char>>::Ready(None), 1_300), Step::End);
    assert!(operator.is_terminated());
}

#[test]
fn buffer_flushes_what_is_left_at_the_end() {
    assert_eq!(run_buffer((0..5).collect(), 2), vec![vec![0, 1], vec![2, 3], vec![4]]);
    assert_eq!(run_buffer(vec![], 2), Vec::<Vec<i32>>::new());

    let mut operator = Buffer::<i32>::new();
    assert_eq!(operator.next_count(), 1);
    assert_eq!(operator.poll_next(Signal::Interval(true)), Step::Wait);
    assert_eq!(operator.poll_next(Signal::Upstream(Poll::Ready(Some(1)))), Step::Retry);
    assert_eq!(operator.next_count(), 2);
    assert_eq!(operator.poll_next(Signal::Upstream(Poll::Pending)), Step::Wait);
    assert_eq!(operator.poll_next(Signal::Interval(false)), Step::Retry);
    assert!(!operator.is_armed());
    assert_eq!(operator.size_hint((5, Some(5))), (1, Some(5)));
    assert_eq!(operator.poll_next(Signal::Upstream(Poll::Ready(None))), Step::Yield(vec![1]));
    assert_eq!(operator.poll_next(Signal::Upstream(Poll::Ready(None))), Step::End);
    assert!(operator.is_terminated());
}

#[test]
fn debounce_keeps_only_the_latest_candidate() {
    let mut operator = Debounce::new();

    assert_eq!(operator.poll_next(Signal::Upstream(Poll::Ready(Some(1)))), Step::Retry);
    assert_eq!(operator.poll_next(Signal::Upstream(Poll::Ready(Some(2)))), Step::Retry);
    assert_eq!(operator.poll_next(Signal::Interval(())), Step::Yield(2));
    assert_eq!(operator.poll_next(Signal::Interval(())), Step::Wait);
    assert_eq!(operator.poll_next(Signal::Upstream(Poll::Ready(Some(3)))), Step::Retry);
    assert_eq!(operator.poll_next(Signal::Upstream(Poll::Ready(None))), Step::Yield(3));
    assert_eq!(operator.poll_next(Signal::Upstream(Poll::Ready(Some(4)))), Step::End);
}

#[test]
fn delay_every_evicts_the_oldest_when_full() {
    let mut operator = DelayEvery::new(Some(2));

    assert_eq!(operator.poll_next(Signal::Upstream(Poll::Ready(Some(1)))), Step::Retry);
    assert_eq!(operator.delayed_event(), Some(&1));
    assert_eq!(operator.poll_next(Signal::Upstream(Poll::Ready(Some(2)))), Step::Retry);
    assert_eq!(operator.poll_next(Signal::Upstream(Poll::Ready(Some(3)))), Step::Retry);
    assert_eq!(operator.poll_next(Signal::Upstream(Poll::Ready(Some(4)))), Step::Retry);
    assert_eq!(operator.poll_next(Signal::Interval(())), Step::Yield(1));
    assert_eq!(operator.poll_next(Signal::Interval(())), Step::Wait);
    assert_eq!(operator.poll_next(Signal::Upstream(Poll::Ready(None))), Step::Retry);
    assert_eq!(operator.poll_next(Signal::Interval(())), Step::Yield(3));
    assert_eq!(operator.poll_next(Signal::Upstream(Poll::Ready(None))), Step::Retry);
    assert_eq!(operator.poll_next(Signal::Interval(())), Step::Yield(4));
    assert_eq!(operator.poll_next(Signal::Upstream(Poll::Ready(None))), Step::End);
}

#[test]
fn delay_holds_the_upstream_back_for_one_interval() {
    let mut operator = Delay::new();

    assert!(!operator.wants_upstream());
    assert_eq!(operator.poll_next(Signal::Upstream(Poll::Ready(Some(1)))), Step::Retry);
    assert!(operator.is_armed());
    assert_eq!(operator.poll_next(Signal::Upstream(Poll::Ready(Some(2)))), Step::Retry);
    assert_eq!(operator.poll_next(Signal::<i32, ()>::Interval(())), Step::Retry);
    assert!(operator.wants_upstream());
    assert_eq!(operator.poll_next(Signal::Upstream(Poll::Ready(Some(3)))), Step::Yield(3));
    assert_eq!(operator.poll_next(Signal::Upstream(Poll::<Option<i32>>::Pending)), Step::Wait);
    assert_eq!(operator.poll_next(Signal::Upstream(Poll::<Option<i32>>::Ready(None))), Step::End);
}

#[test]
fn sample_without_a_new_item_hands_nothing_out() {
    let mut operator = Sample::new();

    assert_eq!(operator.poll_next(Poll::Pending, Poll::Ready(Some(()))), Step::<i32>::Retry);
    assert_eq!(operator.poll_next(Poll::Ready(Some(1)), Poll::Pending), Step::Retry);
    assert_eq!(operator.poll_next(Poll::Pending, Poll::Pending), Step::Wait);
    assert_eq!(operator.poll_next(Poll::Ready(Some(2)), Poll::Ready(Some(()))), Step::Yield(2));
    assert_eq!(operator.poll_next(Poll::Pending, Poll::Ready(Some(()))), Step::Retry);
    assert_eq!(operator.size_hint((3, Some(4)), (1, None)), (1, Some(4)));
    assert_eq!(operator.poll_next(Poll::Ready(Some(3)), Poll::Ready(None)), Step::Yield(3));
    assert!(operator.is_terminated());
    assert_eq!(operator.poll_next(Poll::Pending, Poll::Pending), Step::End);
}

#[test]
fn throttle_config_says_what_comes_through() {
    assert!(ThrottleConfig::Leading.emits_leading());
    assert!(!ThrottleConfig::Leading.emits_trailing());
    assert!(ThrottleConfig::Trailing.emits_trailing());
    assert!(!ThrottleConfig::Trailing.emits_leading());
    assert!(ThrottleConfig::All.emits_leading() && ThrottleConfig::All.emits_trailing());
}

#[test]
fn delay_every_waits_for_a_pending_upstream() {
    let mut operator = DelayEvery::new(None);

    assert_eq!(operator.poll_next(Signal::Upstream(Poll::Pending)), Step::Wait);
    assert_eq!(operator.poll_next(Signal::Upstream(Poll::Pending)), Step::Wait);
    assert!(!operator.is_armed());
    assert!(!operator.is_terminated());
    assert_eq!(operator.poll_next(Signal::Upstream(Poll::Ready(Some(1)))), Step::Retry);
    assert_eq!(operator.poll_next(Signal::Upstream(Poll::Pending)), Step::Retry);
    assert_eq!(operator.poll_next(Signal::Interval(())), Step::Yield(1));
    assert_eq!(operator.poll_next(Signal::Upstream(Poll::Pending)), Step::Wait);
    assert_eq!(operator.poll_next(Signal::Upstream(Poll::Ready(Some(2)))), Step::Retry);
    assert_eq!(operator.poll_next(Signal::Upstream(Poll::Ready(None))), Step::Retry);
    assert!(operator.is_terminated());
    assert_eq!(operator.poll_next(Signal::Interval(())), Step::Yield(2));
    assert_eq!(operator.poll_next(Signal::Upstream(Poll::Pending)), Step::End);
    assert_eq!(operator.poll_next(Signal::Upstream(Poll::Ready(Some(3)))), Step::End);
}

#[test]
fn delay_every_without_room_holds_the_newest_item() {
    let mut operator = DelayEvery::new(Some(0));

    assert_eq!(operator.poll_next(Signal::Upstream(Poll::Ready(Some(1)))), Step::Retry);
    assert_eq!(operator.delayed_event(), Some(&1));
    assert_eq!(operator.poll_next(Signal::Upstream(Poll::Ready(Some(2)))), Step::Retry);
    assert_eq!(operator.poll_next(Signal::Upstream(Poll::Ready(Some(3)))), Step::Retry);
    assert_eq!(operator.poll_next(Signal::Interval(())), Step::Yield(1));
    assert_eq!(operator.poll_next(Signal::Upstream(Poll::Pending)), Step::Retry);
    assert_eq!(operator.delayed_event(), Some(&3));
    assert_eq!(operator.poll_next(Signal::Interval(())), Step::Yield(3));
    assert_eq!(operator.poll_next(Signal::Upstream(Poll::Ready(None))), Step::End);
}

#[test]
fn delay_every_with_one_place_behaves_as_without_room() {
    let mut operator = DelayEvery::new(Some(1));

    assert_eq!(operator.poll_next(Signal::Upstream(Poll::Ready(Some(1)))), Step::Retry);
    assert_eq!(operator.poll_next(Signal::Upstream(Poll::Ready(Some(2)))), Step::Retry);
    assert_eq!(operator.poll_next(Signal::Upstream(Poll::Ready(Some(3)))), Step::Retry);
    assert_eq!(operator.poll_next(Signal::Interval(())), Step::Yield(1));
    assert_eq!(operator.poll_next(Signal::Upstream(Poll::Ready(None))), Step::Retry);
    assert_eq!(operator.poll_next(Signal::Interval(())), Step::Yield(3));
    assert_eq!(operator.poll_next(Signal::Upstream(Poll::Ready(None))), Step::End);
}

#[test]
fn delay_every_collect_lets_every_item_through() {
    assert_eq!(DelayEvery::collect((0..=3).collect::<Vec<i32>>(), None), [0, 1, 2, 3]);
    assert_eq!(DelayEvery::collect(vec!['a', 'b'], Some(0)), ['a', 'b']);
    assert_eq!(DelayEvery::collect(vec!['a', 'b', 'c'], Some(1)), ['a', 'b', 'c']);
    assert_eq!(DelayEvery::collect(Vec::<i32>::new(), Some(2)), []);
}

#[test]
fn delay_every_without_a_bound_loses_nothing() {
    let mut operator = DelayEvery::new(None);
    let mut out = Vec::new();

    for item in 0..5 {
        assert_eq!(operator.poll_next(Signal::Upstream(Poll::Ready(Some(item)))), Step::Retry);
    }
    loop {
        match operator.poll_next(Signal::Interval(())) {
            Step::Yield(item) => out.push(item),
            _ => match operator.poll_next(Signal::Upstream(Poll::Ready(None))) {
                Step::End => break,
                _ => {}
            },
        }
    }

    assert_eq!(out, [0, 1, 2, 3, 4]);
}

#[test]
fn buffer_lists_laid_end_to_end_are_the_upstream() {
    for size in 1..=4 {
        let lists = run_buffer((0..10).collect(), size);

        assert!(lists.iter().all(|list| !list.is_empty()));
        assert_eq!(lists.concat(), (0..10).collect::<Vec<i32>>());
    }
}
