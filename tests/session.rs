use termedit::guard::{Mode, ModeGuard};
use termedit::key::{Event, KeyCode, KeyPress, Modifiers, Polled, ReadStep, Reader, POLL_INTERVAL_MS};

#[test]
fn reader_delivers_keys_only() {
    let r = Reader;
    let k = KeyPress { code: KeyCode::Char('a'), modifiers: Modifiers::Plain };
    assert_eq!(r.next_step(Polled::Ready(Event::Key(k))), ReadStep::Deliver(k));
    assert_eq!(r.next_step(Polled::Ready(Event::Other)), ReadStep::Poll);
    assert_eq!(r.next_step(Polled::Timeout), ReadStep::Poll);
    assert_eq!(POLL_INTERVAL_MS, 500);
}

#[test]
fn teardown_runs_once_after_stop() {
    let mut g = ModeGuard::new();
    assert_eq!(g.mode, Mode::Cooked);
    assert!(g.enter());
    assert!(!g.enter());
    assert!(g.release());
    assert!(!g.release());
    assert!(!g.release());
    assert_eq!(g.mode, Mode::Restored);
}

#[test]
fn error_mid_frame_still_restores_once() {
    // The loop leaves on an error and the scope's end then asks again.
    let mut g = ModeGuard::new();
    assert!(g.enter());
    let mut runs = 0;
    for _ in 0..3 {
        if g.release() {
            runs += 1;
        }
    }
    assert_eq!(runs, 1);
    assert!(!g.enter());
}

#[test]
fn nothing_to_restore_without_raw_mode() {
    let mut g = ModeGuard::new();
    assert!(!g.release());
    assert_eq!(g.mode, Mode::Cooked);
}
