use keyreader::bridge::Bridge;
use keyreader::bridge::RecvStatus;
use keyreader::bridge::StepStatus;
use keyreader::bridge::DEFAULT_CAPACITY;
use keyreader::event::KeyEvent;
use keyreader::event::ReadOutcome;
use keyreader::event::TermEvent;
use keyreader::shutdown::SignalStatus;

fn key(code: char) -> ReadOutcome {
    ReadOutcome::Event(TermEvent::Key(KeyEvent::press(code)))
}

#[test]
fn ordering_preserved_once_drained() {
    let codes = ['a', 'b', 'c', 'd', 'e', 'f', 'g', 'h', 'i', 'j'];
    let mut b = Bridge::start();
    for c in codes {
        assert_eq!(b.feed(key(c)), StepStatus::Running);
    }
    let mut drained: Vec<char> = Vec::new();
    loop {
        match b.try_receive() {
            RecvStatus::Event(e) => drained.push(e.code),
            RecvStatus::Empty => break,
            RecvStatus::Closed => panic!("bridge stopped unexpectedly"),
        }
    }
    assert_eq!(drained, codes.to_vec());
}

#[test]
fn non_key_events_never_enqueued() {
    let mut b = Bridge::start();
    assert_eq!(b.feed(ReadOutcome::Event(TermEvent::Mouse)), StepStatus::Running);
    assert_eq!(b.feed(key('x')), StepStatus::Running);
    assert_eq!(b.feed(ReadOutcome::Event(TermEvent::Resize)), StepStatus::Running);
    assert_eq!(b.feed(ReadOutcome::Event(TermEvent::FocusGained)), StepStatus::Running);
    assert_eq!(b.feed(key('y')), StepStatus::Running);
    assert_eq!(b.feed(ReadOutcome::Event(TermEvent::FocusLost)), StepStatus::Running);
    assert_eq!(b.try_receive(), RecvStatus::Event(KeyEvent::press('x')));
    assert_eq!(b.try_receive(), RecvStatus::Event(KeyEvent::press('y')));
    assert_eq!(b.try_receive(), RecvStatus::Empty);
}

#[test]
fn read_fault_skips_one_iteration() {
    let mut b = Bridge::start();
    assert_eq!(b.feed(ReadOutcome::Fault), StepStatus::Running);
    assert!(b.is_polling());
    assert_eq!(b.try_receive(), RecvStatus::Empty);
    assert_eq!(b.feed(key('z')), StepStatus::Running);
    assert_eq!(b.try_receive(), RecvStatus::Event(KeyEvent::press('z')));
}

#[test]
fn overflow_is_fatal_and_drops_nothing() {
    let mut b = Bridge::start_with_capacity(2);
    assert_eq!(b.feed(key('1')), StepStatus::Running);
    assert_eq!(b.feed(key('2')), StepStatus::Running);
    assert_eq!(b.feed(key('3')), StepStatus::Overflow);
    assert!(b.has_overflowed());
    assert!(!b.is_polling());
    assert_eq!(b.try_receive(), RecvStatus::Event(KeyEvent::press('1')));
    assert_eq!(b.try_receive(), RecvStatus::Event(KeyEvent::press('2')));
    assert_eq!(b.try_receive(), RecvStatus::Closed);
}

#[test]
fn overflow_counts_only_key_events() {
    let mut b = Bridge::start_with_capacity(1);
    assert_eq!(b.feed(key('a')), StepStatus::Running);
    assert_eq!(b.feed(ReadOutcome::Event(TermEvent::Resize)), StepStatus::Running);
    assert_eq!(b.feed(ReadOutcome::Fault), StepStatus::Running);
    assert!(b.is_polling());
    assert_eq!(b.feed(key('b')), StepStatus::Overflow);
}

#[test]
fn shutdown_is_observed_within_one_iteration() {
    let mut b = Bridge::start();
    assert_eq!(b.feed(key('a')), StepStatus::Running);
    assert_eq!(b.signal_shutdown(), SignalStatus::Accepted);
    assert_eq!(b.feed(key('b')), StepStatus::Stopped);
    assert!(!b.is_polling());
    assert!(!b.has_overflowed());
    assert_eq!(b.try_receive(), RecvStatus::Event(KeyEvent::press('a')));
    assert_eq!(b.try_receive(), RecvStatus::Event(KeyEvent::press('b')));
    assert_eq!(b.try_receive(), RecvStatus::Closed);
}

#[test]
fn shutdown_signal_is_idempotent() {
    let mut b = Bridge::start();
    assert_eq!(b.signal_shutdown(), SignalStatus::Accepted);
    assert_eq!(b.signal_shutdown(), SignalStatus::AlreadySignaled);
    assert_eq!(b.feed(ReadOutcome::Fault), StepStatus::Stopped);
    assert_eq!(b.signal_shutdown(), SignalStatus::AlreadySignaled);
}

#[test]
fn no_shutdown_variant_keeps_polling() {
    let mut b = Bridge::start_without_shutdown(2);
    for round in 0..50 {
        let c = if round % 2 == 0 { 'p' } else { 'q' };
        assert_eq!(b.feed(key(c)), StepStatus::Running);
        assert!(b.is_polling());
        assert_eq!(b.try_receive(), RecvStatus::Event(KeyEvent::press(c)));
    }
    assert!(b.is_polling());
    assert_eq!(b.try_receive(), RecvStatus::Empty);
}

#[test]
fn scenario_key_resize_key() {
    let mut b = Bridge::start();
    assert_eq!(b.feed(key('a')), StepStatus::Running);
    assert_eq!(b.feed(ReadOutcome::Event(TermEvent::Resize)), StepStatus::Running);
    assert_eq!(b.feed(key('q')), StepStatus::Running);
    assert_eq!(b.try_receive(), RecvStatus::Event(KeyEvent::press('a')));
    assert_eq!(b.try_receive(), RecvStatus::Event(KeyEvent::press('q')));
    assert_eq!(b.try_receive(), RecvStatus::Empty);
}

#[test]
fn scenario_capacity_two_three_sends() {
    let mut b = Bridge::start_with_capacity(2);
    assert_eq!(b.feed(key('a')), StepStatus::Running);
    assert_eq!(b.feed(key('b')), StepStatus::Running);
    assert_eq!(b.feed(key('c')), StepStatus::Overflow);
    assert_eq!(b.try_receive(), RecvStatus::Event(KeyEvent::press('a')));
    assert_eq!(b.try_receive(), RecvStatus::Event(KeyEvent::press('b')));
    assert_eq!(b.try_receive(), RecvStatus::Closed);
}

#[test]
fn scenario_shutdown_before_any_event() {
    let mut b = Bridge::start();
    assert_eq!(b.signal_shutdown(), SignalStatus::Accepted);
    assert_eq!(b.feed(ReadOutcome::Fault), StepStatus::Stopped);
    assert_eq!(b.queued_len(), 0);
    assert_eq!(b.try_receive(), RecvStatus::Closed);
}

#[test]
fn feed_all_keeps_exactly_the_keys_in_order() {
    let mut b = Bridge::start();
    let run = vec![
        key('h'),
        ReadOutcome::Event(TermEvent::Mouse),
        key('e'),
        ReadOutcome::Fault,
        key('l'),
        ReadOutcome::Event(TermEvent::Resize),
        key('l'),
        ReadOutcome::Event(TermEvent::FocusGained),
        key('o'),
        ReadOutcome::Event(TermEvent::FocusLost),
    ];
    assert_eq!(b.feed_all(&run), StepStatus::Running);
    let drained: Vec<char> = b.drain().into_iter().map(|e| e.code).collect();
    assert_eq!(drained, vec!['h', 'e', 'l', 'l', 'o']);
    assert_eq!(b.try_receive(), RecvStatus::Empty);
}

#[test]
fn feed_all_stops_on_overflow() {
    let mut b = Bridge::start_with_capacity(2);
    let run = vec![key('a'), key('b'), key('c'), key('d')];
    assert_eq!(b.feed_all(&run), StepStatus::Overflow);
    assert!(b.has_overflowed());
    let drained: Vec<char> = b.drain().into_iter().map(|e| e.code).collect();
    assert_eq!(drained, vec!['a', 'b']);
    assert_eq!(b.try_receive(), RecvStatus::Closed);
}

#[test]
fn feed_all_stops_on_pending_shutdown() {
    let mut b = Bridge::start();
    assert_eq!(b.signal_shutdown(), SignalStatus::Accepted);
    let run = vec![key('a'), key('b')];
    assert_eq!(b.feed_all(&run), StepStatus::Stopped);
    let drained: Vec<char> = b.drain().into_iter().map(|e| e.code).collect();
    assert_eq!(drained, vec!['a']);
    assert_eq!(b.try_receive(), RecvStatus::Closed);
}

#[test]
fn fresh_bridge_is_empty_and_polling() {
    let mut b = Bridge::start();
    assert!(b.is_polling());
    assert!(!b.has_overflowed());
    assert_eq!(b.queued_len(), 0);
    assert_eq!(b.queue_capacity(), DEFAULT_CAPACITY);
    assert_eq!(b.try_receive(), RecvStatus::Empty);
}
