use ftbltop::counter::Command;
use ftbltop::counter::Model;
use ftbltop::input::KeyEvent;
use ftbltop::input::handle_event;
use ftbltop::input::handle_key;
use ftbltop::input::loop_step;

fn press(ch: char) -> Option<KeyEvent> {
    Some(KeyEvent { ch, pressed: true })
}

#[test]
fn key_map() {
    assert_eq!(handle_key('j'), Some(Command::Increment));
    assert_eq!(handle_key('k'), Some(Command::Decrement));
    assert_eq!(handle_key('q'), Some(Command::Quit));
    assert_eq!(handle_key('x'), None);
    assert_eq!(handle_key(' '), None);
}

#[test]
fn key_sequence_jjjk_counts_to_two() {
    let mut m = Model::new();
    for ch in ['j', 'j', 'j', 'k'] {
        loop_step(&mut m, press(ch));
    }
    assert_eq!(m.counter, 2);
    assert!(m.running);
}

#[test]
fn quit_key_stops_the_loop_from_any_state() {
    let mut m = Model { counter: 17, running: true };
    loop_step(&mut m, press('q'));
    assert!(!m.running);
    assert_eq!(m.counter, 17);
}

#[test]
fn unmapped_key_changes_nothing() {
    let mut m = Model { counter: 4, running: true };
    loop_step(&mut m, press('x'));
    assert_eq!(m, Model { counter: 4, running: true });
}

#[test]
fn release_events_are_ignored() {
    let mut m = Model { counter: 4, running: true };
    assert_eq!(handle_event(KeyEvent { ch: 'j', pressed: false }), None);
    loop_step(&mut m, Some(KeyEvent { ch: 'j', pressed: false }));
    assert_eq!(m, Model { counter: 4, running: true });
}

#[test]
fn empty_poll_changes_nothing() {
    let mut m = Model { counter: -8, running: true };
    loop_step(&mut m, None);
    assert_eq!(m, Model { counter: -8, running: true });
}
