use fc_link::signal::{Channel, Signal, SignalEmitter, SignalError};

fn channel_with_reader() -> (Channel<u8, 1>, SignalEmitter<u8, 1>, Signal<u8, 1>) {
    let mut channel: Channel<u8, 1> = Channel::new(0);
    let emitter = SignalEmitter::new(&mut channel).unwrap();
    let signal = Signal::new(&mut channel).unwrap();
    (channel, emitter, signal)
}

#[test]
fn signal_next_value_when_none_emitted() {
    let (channel, _emitter, mut signal) = channel_with_reader();
    if signal.next_value(&channel).is_some() {
        panic!("next_value returned a value when not expected to");
    }
}

#[test]
fn signal_next_value() {
    let (mut channel, mut emitter, mut signal) = channel_with_reader();

    emitter.emit(&mut channel, 0);
    assert_eq!(signal.next_value(&channel), Some(0));

    emitter.emit(&mut channel, 1);
    assert_eq!(signal.next_value(&channel), Some(1));

    emitter.emit(&mut channel, 2);
    emitter.emit(&mut channel, 3);
    assert_eq!(signal.next_value(&channel), Some(3));
}

#[test]
fn signal_next_distinct_when_none_emitted() {
    let (channel, _emitter, mut signal) = channel_with_reader();
    if signal.next_distinct(&channel).is_some() {
        panic!("next_distinct returned a value when not expected to");
    }
}

#[test]
fn signal_next_distinct() {
    let (mut channel, mut emitter, mut signal) = channel_with_reader();

    emitter.emit(&mut channel, 5);
    assert_eq!(signal.next_distinct(&channel), Some(5));

    emitter.emit(&mut channel, 5);
    if signal.next_distinct(&channel).is_some() {
        panic!("next_distinct returned a value when not expected to");
    }

    emitter.emit(&mut channel, 6);
    assert_eq!(signal.next_distinct(&channel), Some(6));
}

#[test]
fn get_after_many_emits_sees_the_last() {
    let (mut channel, mut emitter, mut signal) = channel_with_reader();
    for v in [3u8, 9, 1, 200, 42] {
        emitter.emit(&mut channel, v);
    }
    assert_eq!(signal.get(&channel), 42);
}

#[test]
fn get_before_any_emit_sees_the_default() {
    let mut channel: Channel<u8, 2> = Channel::new(17);
    let mut signal = Signal::new(&mut channel).unwrap();
    assert_eq!(signal.get(&channel), 17);
    assert_eq!(signal.next_value(&channel), None);
}

#[test]
fn get_marks_the_value_seen() {
    let (mut channel, mut emitter, mut signal) = channel_with_reader();
    emitter.emit(&mut channel, 8);
    assert_eq!(signal.get(&channel), 8);
    assert_eq!(signal.next_value(&channel), None);
}

#[test]
fn next_value_once_after_one_emit() {
    let (mut channel, mut emitter, mut signal) = channel_with_reader();
    emitter.emit(&mut channel, 77);
    assert_eq!(signal.next_value(&channel), Some(77));
    assert_eq!(signal.next_value(&channel), None);
}

#[test]
fn next_distinct_skips_a_run_of_equal_values() {
    let (mut channel, mut emitter, mut signal) = channel_with_reader();
    let mut returned = Vec::new();
    for v in [1u8, 2, 2, 2, 3, 3, 1] {
        emitter.emit(&mut channel, v);
        if let Some(x) = signal.next_distinct(&channel) {
            returned.push(x);
        }
    }
    assert_eq!(returned, vec![1, 2, 3, 1]);
    for pair in returned.windows(2) {
        assert_ne!(pair[0], pair[1]);
    }
}

#[test]
fn emit_if_changed_twice_wakes_once() {
    let (mut channel, mut emitter, mut signal) = channel_with_reader();
    emitter.emit_if_changed(&mut channel, 4);
    emitter.emit_if_changed(&mut channel, 4);
    assert_eq!(signal.next_value(&channel), Some(4));
    assert_eq!(signal.next_value(&channel), None);
}

#[test]
fn emit_if_changed_with_the_default_does_nothing() {
    let (mut channel, mut emitter, mut signal) = channel_with_reader();
    emitter.emit_if_changed(&mut channel, 0);
    assert_eq!(signal.next_value(&channel), None);
}

#[test]
fn second_reader_on_one_slot_fails() {
    let mut channel: Channel<u8, 1> = Channel::new(0);
    let mut emitter = SignalEmitter::new(&mut channel).unwrap();
    let mut first = Signal::new(&mut channel).unwrap();
    let second = Signal::new(&mut channel);
    assert!(matches!(second, Err(SignalError::ReaderSlotsExhausted)));
    emitter.emit(&mut channel, 5);
    assert_eq!(first.next_value(&channel), Some(5));
}

#[test]
fn second_emitter_fails() {
    let mut channel: Channel<bool, 1> = Channel::new(false);
    let _emitter = SignalEmitter::new(&mut channel).unwrap();
    assert!(matches!(SignalEmitter::new(&mut channel), Err(SignalError::EmitterTaken)));
}

#[test]
fn readers_progress_independently() {
    let mut channel: Channel<u8, 2> = Channel::new(0);
    let mut emitter = SignalEmitter::new(&mut channel).unwrap();
    let mut fast = Signal::new(&mut channel).unwrap();
    let mut slow = Signal::new(&mut channel).unwrap();
    emitter.emit(&mut channel, 1);
    assert_eq!(fast.next_value(&channel), Some(1));
    emitter.emit(&mut channel, 2);
    assert_eq!(fast.next_value(&channel), Some(2));
    assert_eq!(slow.next_value(&channel), Some(2));
    assert_eq!(slow.next_value(&channel), None);
}
