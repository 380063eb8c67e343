use romio::poll::Poll;
use romio::timer::clock::{Clock, Now};
use romio::timer::delay::{Deadline, Delay, TimerError};
use romio::timer::timeout::{Error, Timeout, TimeoutStep};
use std::time::{Duration, Instant};

#[test]
fn error_kinds() {
    let e = Error::elapsed();
    assert!(e.is_elapsed());
    assert!(!e.is_timer());
    assert_eq!(e.into_timer(), None);
    assert_eq!(e.description(), "deadline has elapsed");
    let t = Error::timer(TimerError::Shutdown);
    assert!(t.is_timer());
    assert!(!t.is_elapsed());
    assert_eq!(t.into_timer(), Some(TimerError::Shutdown));
    assert_eq!(t.description(), "timer is shutdown");
    assert_eq!(Error::from(TimerError::AtCapacity), Error::timer(TimerError::AtCapacity));
    assert_eq!(Error::timer(TimerError::AtCapacity).description(), "timer is at capacity and cannot create a new entry");
}

#[test]
fn timeout_holds_its_value() {
    let mut t = Timeout::new(5u32, Duration::from_millis(10));
    assert_eq!(*t.get_ref(), 5);
    *t.get_mut() = 6;
    assert_eq!(t.delay().get_timeout(), Some(Duration::from_millis(10)));
    assert!(matches!(t.delay().get_deadline(), Deadline::After(_, d) if *d == Duration::from_millis(10)));
    assert_eq!(t.into_inner(), 6);
    let at = Instant::now();
    let t = Timeout::new_at("fut", at);
    assert!(matches!(t.delay().get_deadline(), Deadline::At(i) if *i == at));
    assert_eq!(t.delay().get_timeout(), None);
    assert_eq!(t.into_inner(), "fut");
}

#[test]
fn completed_value_wins_over_the_delay() {
    let t = Timeout::new_at((), Instant::now());
    assert!(matches!(t.poll_value(Poll::Ready(7)), TimeoutStep::Done(Poll::Ready(Ok(7)))));
    assert!(matches!(t.poll_value::<u8>(Poll::Pending), TimeoutStep::PollDelay));
    match t.poll_delay::<u8>(Poll::Ready(Ok(()))) {
        Poll::Ready(Err(e)) => assert!(e.is_elapsed()),
        _ => panic!("expected elapsed"),
    }
    match t.poll_delay::<u8>(Poll::Ready(Err(TimerError::Shutdown))) {
        Poll::Ready(Err(e)) => assert_eq!(e.into_timer(), Some(TimerError::Shutdown)),
        _ => panic!("expected a timer error"),
    }
    assert!(t.poll_delay::<u8>(Poll::Pending).is_pending());
}

#[test]
fn stream_items_restart_the_timeout() {
    let start = Instant::now();
    let mut t = Timeout::new_started((), Duration::from_secs(1), start);
    assert!(matches!(t.delay().get_deadline(), Deadline::After(i, d) if *i == start && *d == Duration::from_secs(1)));
    let item_at = start + Duration::from_millis(700);
    assert!(matches!(
        t.poll_next_value(Poll::Ready(Some(1u8)), item_at),
        TimeoutStep::Done(Poll::Ready(Some(Ok(1))))
    ));
    assert!(matches!(t.delay().get_deadline(), Deadline::After(i, d) if *i == item_at && *d == Duration::from_secs(1)));
    let later = item_at + Duration::from_millis(5);
    assert!(matches!(t.poll_next_value::<u8>(Poll::Ready(None), later), TimeoutStep::Done(Poll::Ready(None))));
    assert!(matches!(t.poll_next_value::<u8>(Poll::Pending, later), TimeoutStep::PollDelay));
    assert!(matches!(t.delay().get_deadline(), Deadline::After(i, _) if *i == item_at));
    assert!(t.poll_next_delay::<u8>(Poll::Pending, later).is_pending());
    let fired_at = item_at + Duration::from_secs(1);
    match t.poll_next_delay::<u8>(Poll::Ready(Ok(())), fired_at) {
        Poll::Ready(Some(Err(e))) => assert!(e.is_elapsed()),
        _ => panic!("expected elapsed"),
    }
    assert!(matches!(t.delay().get_deadline(), Deadline::After(i, _) if *i == fired_at));
    // a failed timer is reported as a timer error
    match t.poll_next_delay::<u8>(Poll::Ready(Err(TimerError::Shutdown)), later) {
        Poll::Ready(Some(Err(e))) => {
            assert!(e.is_timer());
            assert!(!e.is_elapsed());
            assert_eq!(e.into_timer(), Some(TimerError::Shutdown));
        }
        _ => panic!("expected a timer error"),
    }
}

#[test]
fn fixed_deadline_is_not_restarted() {
    let at = Instant::now();
    let mut t = Timeout::new_at((), at);
    t.poll_next_value(Poll::Ready(Some(1u8)), at + Duration::from_secs(3));
    assert!(matches!(t.delay().get_deadline(), Deadline::At(i) if *i == at));
}

#[test]
fn delay_reset() {
    let at = Instant::now();
    let mut d = Delay::new(at);
    d.reset_timeout(Instant::now());
    assert!(matches!(d.get_deadline(), Deadline::At(i) if *i == at));
    let mut d = Delay::new_timeout(at, Duration::from_secs(2));
    let later = at + Duration::from_secs(5);
    d.reset_timeout(later);
    assert!(matches!(d.get_deadline(), Deadline::After(i, t) if *i == later && *t == Duration::from_secs(2)));
}

struct Fixed(Instant);

impl Now for Fixed {
    fn now(&self) -> Instant {
        self.0
    }
}

#[test]
fn clock_sources() {
    let base = Instant::now();
    let fixed = base + Duration::from_secs(100);
    let mut clock: Clock<Fixed> = Clock::system();
    assert!(clock.now() < fixed);
    clock.use_source(Fixed(fixed));
    assert_eq!(clock.now(), fixed);
    let other = base + Duration::from_secs(200);
    let seen = clock.with_source(Fixed(other), |c| c.now());
    assert_eq!(seen, other);
    assert_eq!(clock.now(), fixed);
    clock.use_system_time();
    assert!(clock.now() < fixed);
    let boxed: Clock<Box<dyn Now>> = Clock::from_source(Box::new(Fixed(fixed)));
    assert_eq!(boxed.now(), fixed);
}
