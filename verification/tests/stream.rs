use futures_timer::DeadlineTimer;
use futures_timer::StreamPoll;
use futures_timer::TimeoutError;
use futures_timer::TimeoutStream;

type Poll = StreamPoll<u64, TimeoutError<u64>>;

#[test]
fn stream_item_within_window_rearms() {
    let mut s = TimeoutStream::timeout(0, 10);
    let r: Poll = s.poll_next(4, StreamPoll::Item(1));
    assert_eq!(r, StreamPoll::Item(1));
    assert_eq!(s.timer.deadline, 14);
    assert!(!s.done);
}

#[test]
fn stream_item_wins_tie_at_deadline() {
    // The per-item deadline has passed in the same tick the item
    // arrives: the real item wins.
    let mut s = TimeoutStream::timeout(0, 10);
    let r: Poll = s.poll_next(10, StreamPoll::Item(3));
    assert_eq!(r, StreamPoll::Item(3));
    assert_eq!(s.timer.deadline, 20);
}

#[test]
fn stream_timeout_keeps_sequence_open() {
    // One slow item yields one deadline-exceeded error; the stream
    // stays open and later items and timeouts are independent.
    let mut s = TimeoutStream::timeout(0, 10);
    let r: Poll = s.poll_next(10, StreamPoll::Pending);
    assert_eq!(r, StreamPoll::Error(TimeoutError::DeadlineExceeded));
    assert!(!s.done);
    assert_eq!(s.timer.deadline, 20);
    let r: Poll = s.poll_next(12, StreamPoll::Item(8));
    assert_eq!(r, StreamPoll::Item(8));
    let r: Poll = s.poll_next(22, StreamPoll::Pending);
    assert_eq!(r, StreamPoll::Error(TimeoutError::DeadlineExceeded));
    assert!(!s.done);
}

#[test]
fn stream_heartbeat_scenario() {
    // Items arriving at 5, 16 and 20 tenths of a unit, with a
    // per-item window of one unit (10 tenths): the first item is on
    // time; the second misses its window, so a timeout error is
    // yielded at 15 and the real item follows at 16; the third then
    // arrives within its fresh window.
    let mut s = TimeoutStream::timeout(0, 10);
    let r: Poll = s.poll_next(5, StreamPoll::Item(1));
    assert_eq!(r, StreamPoll::Item(1));
    assert_eq!(s.timer.deadline, 15);
    let r: Poll = s.poll_next(10, StreamPoll::Pending);
    assert_eq!(r, StreamPoll::Pending);
    let r: Poll = s.poll_next(15, StreamPoll::Pending);
    assert_eq!(r, StreamPoll::Error(TimeoutError::DeadlineExceeded));
    assert_eq!(s.timer.deadline, 25);
    let r: Poll = s.poll_next(16, StreamPoll::Item(2));
    assert_eq!(r, StreamPoll::Item(2));
    assert_eq!(s.timer.deadline, 26);
    let r: Poll = s.poll_next(20, StreamPoll::Item(3));
    assert_eq!(r, StreamPoll::Item(3));
    let r: Poll = s.poll_next(24, StreamPoll::End);
    assert_eq!(r, StreamPoll::End);
    assert!(s.done);
}

#[test]
fn stream_domain_error_passes_through_and_rearms() {
    let mut s = TimeoutStream::timeout(0, 10);
    let r: Poll = s.poll_next(6, StreamPoll::Error(TimeoutError::Inner(5)));
    assert_eq!(r, StreamPoll::Error(TimeoutError::Inner(5)));
    assert_eq!(s.timer.deadline, 16);
    assert!(!s.done);
}

#[test]
fn stream_end_closes_adapter() {
    let mut s = TimeoutStream::timeout(0, 10);
    let r: Poll = s.poll_next(2, StreamPoll::End);
    assert_eq!(r, StreamPoll::End);
    assert!(s.done);
    // The end marker also resets the clock, like any produced item.
    assert_eq!(s.timer.deadline, 12);
}

#[test]
fn dropped_stream_adapter_leaves_others_untouched() {
    let dropped = TimeoutStream::timeout(0, 5);
    let mut kept = TimeoutStream::timeout(0, 10);
    drop(dropped);
    let r: Poll = kept.poll_next(10, StreamPoll::Pending);
    assert_eq!(r, StreamPoll::Error(TimeoutError::DeadlineExceeded));
}

#[test]
fn deadline_timer_fires_exactly_at_deadline() {
    let mut t = DeadlineTimer::new(0, 5);
    assert!(!t.poll(4));
    assert!(t.poll(5));
    assert!(t.poll(6));
    t.reset(6, 5);
    assert_eq!(t.deadline, 11);
    assert!(!t.poll(10));
    let t2 = DeadlineTimer::new_at(42);
    assert!(!t2.poll(41));
    assert!(t2.poll(42));
}
