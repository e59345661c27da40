use ftbltop::session::Phase;
use ftbltop::session::Session;

#[test]
fn fresh_session_is_uninitialized() {
    let s = Session::new();
    assert_eq!(s.current_phase(), Phase::Uninitialized);
}

#[test]
fn acquire_then_release() {
    let mut s = Session::new();
    s.acquire();
    assert_eq!(s.current_phase(), Phase::Acquired);
    s.release();
    assert_eq!(s.current_phase(), Phase::Released);
}

#[test]
fn release_before_acquire_still_releases() {
    let mut s = Session::new();
    s.release();
    assert_eq!(s.current_phase(), Phase::Released);
}

#[test]
fn release_is_idempotent() {
    let mut s = Session::new();
    s.acquire();
    s.release();
    s.release();
    assert_eq!(s.current_phase(), Phase::Released);
}
