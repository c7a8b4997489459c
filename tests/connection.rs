use lollipop::admission::{Admission, ThreadGuard};
use lollipop::connection::{RequestBuffer, WriteOutcome, WriteProgress, BUFFER_SIZE};

#[test]
fn admission_stops_at_limit() {
    let mut a = Admission::new(2);
    assert!(a.has_room());
    let g1 = a.try_admit();
    let g2 = a.try_admit();
    assert!(g1.is_some() && g2.is_some());
    assert_eq!(a.active(), 2);
    assert!(!a.has_room());
    assert!(a.try_admit().is_none());
    assert_eq!(a.active(), 2);
    assert_eq!(a.limit(), 2);
}

#[test]
fn admission_returns_to_zero() {
    let mut a = Admission::new(3);
    let mut held = Vec::new();
    for _ in 0..10 {
        if let Some(g) = a.try_admit() {
            held.push(g);
        }
    }
    assert_eq!(held.len(), 3);
    assert_eq!(a.active(), 3);
    let g = held.pop().unwrap();
    a.release(g);
    assert_eq!(a.active(), 2);
    let g = a.try_admit().unwrap();
    held.push(g);
    for g in held {
        a.release(g);
    }
    assert_eq!(a.active(), 0);
    assert!(a.has_room());
}

#[test]
fn admission_with_zero_limit_admits_nothing() {
    let mut a = Admission::new(0);
    assert!(a.try_admit().is_none());
    assert_eq!(a.active(), 0);
}

#[test]
fn guard_takes_one_slot() {
    let mut a = Admission::new(8);
    let g = ThreadGuard::new(&mut a);
    assert_eq!(a.active(), 1);
    let h = ThreadGuard::new(&mut a);
    assert_eq!(a.active(), 2);
    a.release(g);
    a.release(h);
    assert_eq!(a.active(), 0);
}

#[test]
fn buffer_stops_when_full() {
    let mut b = RequestBuffer::new(4);
    assert_eq!(b.remaining(), 4);
    assert!(b.receive(b"ab"));
    assert_eq!(b.remaining(), 2);
    assert!(!b.receive(b"cd"));
    assert_eq!(b.bytes(), b"abcd");
    assert_eq!(b.remaining(), 0);
}

#[test]
fn buffer_stops_on_empty_read() {
    let mut b = RequestBuffer::new(BUFFER_SIZE);
    assert!(b.receive(b"GET / HTTP/1.1\r\n"));
    assert!(!b.receive(b""));
    assert_eq!(b.bytes(), b"GET / HTTP/1.1\r\n");
    assert_eq!(BUFFER_SIZE, 8192);
}

#[test]
fn write_progress_completes() {
    let mut w = WriteProgress::new(10);
    assert!(w.pending());
    assert!(w.record(WriteOutcome::Wrote(4)));
    assert_eq!(w.written(), 4);
    assert!(!w.record(WriteOutcome::Wrote(6)));
    assert_eq!(w.written(), 10);
    assert!(!w.pending());
}

#[test]
fn write_progress_stops_on_zero_write() {
    let mut w = WriteProgress::new(10);
    assert!(w.record(WriteOutcome::Wrote(3)));
    assert!(!w.record(WriteOutcome::Wrote(0)));
    assert_eq!(w.written(), 3);
    assert!(!w.pending());
}

#[test]
fn write_progress_stops_on_failure() {
    let mut w = WriteProgress::new(5);
    assert!(!w.record(WriteOutcome::Failed));
    assert_eq!(w.written(), 0);
    assert!(!w.pending());
}

#[test]
fn empty_response_needs_no_write() {
    let w = WriteProgress::new(0);
    assert!(!w.pending());
}
