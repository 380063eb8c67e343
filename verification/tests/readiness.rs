use romio::raw::{PollEvented, ReadinessState, ReadyStart};

const READABLE: usize = 1;
const WRITABLE: usize = 2;
const HUP: usize = 8;

#[test]
fn new_state_waits_in_both_directions() {
    let s = ReadinessState::new();
    assert_eq!(s.read_readiness(), 0);
    assert_eq!(s.write_readiness(), 0);
    assert_eq!(s.poll_read_ready_start(), ReadyStart::Await);
    assert_eq!(s.poll_write_ready_start(), ReadyStart::Await);
}

#[test]
fn read_event_without_readable_or_hup_keeps_waiting() {
    let mut s = ReadinessState::new();
    assert_eq!(s.poll_read_ready_event(0), None);
    assert_eq!(s.poll_read_ready_event(WRITABLE), None);
    // the event is cached all the same
    assert_eq!(s.read_readiness(), WRITABLE);
    assert_eq!(s.poll_read_ready_start(), ReadyStart::Await);
}

#[test]
fn read_event_reports_readable_and_hup_only() {
    let mut s = ReadinessState::new();
    assert_eq!(s.poll_read_ready_event(READABLE | WRITABLE | 4), Some(READABLE));
    assert_eq!(s.read_readiness(), READABLE | WRITABLE | 4);
    assert_eq!(s.write_readiness(), 0);
}

#[test]
fn read_readiness_repeats_until_cleared() {
    let mut s = ReadinessState::new();
    assert_eq!(s.poll_read_ready_event(READABLE), Some(READABLE));
    // second poll: the cache already shows readiness
    assert_eq!(s.poll_read_ready_start(), ReadyStart::Probe);
    assert_eq!(s.poll_read_ready_probe(None), READABLE);
    assert_eq!(s.poll_read_ready_start(), ReadyStart::Probe);
    assert_eq!(s.poll_read_ready_probe(Some(HUP)), READABLE | HUP);
    s.clear_read_ready();
    assert_eq!(s.read_readiness(), HUP);
    // a hang-up stays, but readable is gone: the next poll waits
    assert_eq!(s.poll_read_ready_start(), ReadyStart::Await);
    assert_eq!(s.poll_read_ready_event(0), None);
    assert_eq!(s.poll_read_ready_event(READABLE), Some(READABLE));
}

#[test]
fn hup_alone_ends_a_wait() {
    let mut s = ReadinessState::new();
    assert_eq!(s.poll_read_ready_event(HUP), Some(HUP));
    assert_eq!(s.poll_write_ready_event(HUP), Some(HUP));
    // hup alone does not make the cache ready: the next poll waits again
    assert_eq!(s.poll_read_ready_start(), ReadyStart::Await);
    assert_eq!(s.poll_write_ready_start(), ReadyStart::Await);
}

#[test]
fn write_readiness_cycle() {
    let mut s = ReadinessState::new();
    assert_eq!(s.poll_write_ready_event(READABLE), None);
    assert_eq!(s.poll_write_ready_event(WRITABLE | HUP), Some(WRITABLE | HUP));
    assert_eq!(s.poll_write_ready_start(), ReadyStart::Probe);
    assert_eq!(s.poll_write_ready_probe(None), READABLE | WRITABLE | HUP);
    s.clear_write_ready();
    assert_eq!(s.write_readiness(), READABLE | HUP);
    assert_eq!(s.poll_write_ready_start(), ReadyStart::Await);
    assert_eq!(s.read_readiness(), 0);
}

#[test]
fn directions_are_independent() {
    let mut s = ReadinessState::new();
    s.poll_read_ready_event(READABLE);
    s.poll_write_ready_event(WRITABLE);
    s.clear_read_ready();
    assert_eq!(s.read_readiness(), 0);
    assert_eq!(s.write_readiness(), WRITABLE);
    s.clear_write_ready();
    assert_eq!(s.write_readiness(), 0);
}

#[test]
fn poll_evented_wraps_a_resource() {
    let mut p = PollEvented::new(7u32);
    assert_eq!(*p.get_ref(), 7);
    *p.get_mut() = 9;
    assert_eq!(*p.get_ref(), 9);
    assert_eq!(p.readiness_ref().read_readiness(), 0);
    p.readiness_mut().poll_read_ready_event(READABLE);
    assert_eq!(p.readiness_ref().poll_read_ready_start(), ReadyStart::Probe);
    assert_eq!(p.into_inner(), 9);
}
