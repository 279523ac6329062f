use evdev_absinfo::events::{
    EventCode, InputEvent, JoystickEvents, ReadFlag, ReadStatus, Step, TimeVal, EAGAIN,
};

fn event(value: i32) -> InputEvent {
    InputEvent {
        time: TimeVal { tv_sec: 1, tv_usec: value as i64 },
        event_code: EventCode { event_type: 3, event_code: 2 },
        value,
    }
}

#[test]
fn resync_then_two_events_then_a_fatal_error_yields_two_events() {
    let script = vec![
        Ok((ReadStatus::Sync, event(0))),
        Ok((ReadStatus::Success, event(1))),
        Ok((ReadStatus::Success, event(2))),
        Err(Some(19)),
    ];
    assert_eq!(JoystickEvents::replay(&script), vec![event(1), event(2)]);

    let mut events = JoystickEvents::new();
    let mut flags = Vec::new();
    let mut yielded = Vec::new();
    let mut stopped = None;
    for outcome in script {
        flags.push(events.read_flag());
        match events.step(outcome) {
            Step::Yield(e) => yielded.push(e),
            Step::Retry => {}
            Step::Stop(code) => stopped = Some(code),
        }
    }
    assert_eq!(yielded, vec![event(1), event(2)]);
    assert_eq!(stopped, Some(Some(19)));
    assert_eq!(flags, vec![ReadFlag::Normal, ReadFlag::Sync, ReadFlag::Normal, ReadFlag::Normal]);
}

#[test]
fn would_block_is_retried_with_an_ordinary_read() {
    let mut events = JoystickEvents::new();
    assert_eq!(events.step(Err(Some(EAGAIN))), Step::Retry);
    assert_eq!(events.read_flag(), ReadFlag::Normal);
    assert_eq!(events.step(Ok((ReadStatus::Sync, event(0)))), Step::Retry);
    assert_eq!(events.read_flag(), ReadFlag::Sync);
    assert_eq!(events.step(Ok((ReadStatus::Sync, event(0)))), Step::Retry);
    assert_eq!(events.read_flag(), ReadFlag::Sync);
    assert_eq!(events.step(Err(Some(EAGAIN))), Step::Retry);
    assert_eq!(events.read_flag(), ReadFlag::Normal);
}

#[test]
fn any_other_error_ends_the_sequence() {
    let mut events = JoystickEvents::new();
    assert_eq!(events.step(Err(Some(5))), Step::Stop(Some(5)));
    assert_eq!(events.step(Err(None)), Step::Stop(None));
    assert_eq!(events.read_flag(), ReadFlag::Normal);
}

#[test]
fn replay_keeps_the_order_and_stops_at_the_first_fatal_error() {
    let script = vec![
        Ok((ReadStatus::Success, event(7))),
        Err(Some(EAGAIN)),
        Ok((ReadStatus::Success, event(3))),
        Err(None),
        Ok((ReadStatus::Success, event(9))),
    ];
    assert_eq!(JoystickEvents::replay(&script), vec![event(7), event(3)]);
    assert_eq!(JoystickEvents::replay(&Vec::new()), Vec::new());
}
