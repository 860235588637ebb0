use modbus_rtu::master::{LinkTimer, ReadAction, ReadEvent, ResponseReader, RESPONSE_BUFFER_LEN};

#[test]
fn link_timer_waits_one_silent_interval() {
    let mut timer = LinkTimer::new(9_600, 10_000);
    assert_eq!(timer.idle_us(), 3_646);
    assert!(timer.may_transmit(10_001));
    timer.record_transmit(20_000);
    assert!(!timer.may_transmit(20_000));
    assert!(!timer.may_transmit(23_646));
    assert!(timer.may_transmit(23_647));
    timer.set_baud_rate(115_200, 30_000);
    assert_eq!(timer.idle_us(), 304);
    assert!(!timer.may_transmit(30_304));
    assert!(timer.may_transmit(30_305));
    let early = LinkTimer::new(9_600, 100);
    assert!(!early.may_transmit(100));
}

#[test]
fn reader_completes_on_idle_after_data() {
    let mut reader = ResponseReader::new();
    assert_eq!(reader.step(ReadEvent::Received(0)), ReadAction::Continue);
    assert_eq!(reader.step(ReadEvent::Received(5)), ReadAction::Continue);
    assert_eq!(reader.step(ReadEvent::Received(3)), ReadAction::Continue);
    assert_eq!(reader.step(ReadEvent::Received(0)), ReadAction::Complete);
    assert_eq!(reader.len(), 8);
}

#[test]
fn reader_completes_when_full_and_times_out_when_empty() {
    let mut reader = ResponseReader::new();
    assert_eq!(reader.step(ReadEvent::Received(RESPONSE_BUFFER_LEN)), ReadAction::Complete);
    let mut idle = ResponseReader::new();
    assert_eq!(idle.step(ReadEvent::DeadlinePassed), ReadAction::TimedOut);
    let mut partial = ResponseReader::new();
    assert_eq!(partial.step(ReadEvent::Received(2)), ReadAction::Continue);
    assert_eq!(partial.step(ReadEvent::DeadlinePassed), ReadAction::Complete);
    assert_eq!(partial.len(), 2);
}
