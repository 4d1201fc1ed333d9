use tcp_relay::loop_step;
use tcp_relay::relay_direction;
use tcp_relay::LoopAction;
use tcp_relay::LoopEnd;
use tcp_relay::LoopEvent;
use tcp_relay::LoopState;

#[test]
fn reading_zero_bytes_is_clean_end_of_stream() {
    let (state, action) = loop_step(LoopState::Reading, LoopEvent::ReadOk(0));
    assert_eq!(state, LoopState::Terminated(LoopEnd::EndOfStream));
    assert_eq!(action, LoopAction::Stop);
}

#[test]
fn reading_bytes_demands_writing_exactly_them() {
    let (state, action) = loop_step(LoopState::Reading, LoopEvent::ReadOk(17));
    assert_eq!(state, LoopState::Writing(17));
    assert_eq!(action, LoopAction::Write(17));
}

#[test]
fn completed_write_resumes_reading() {
    let (state, action) = loop_step(LoopState::Writing(17), LoopEvent::WriteOk);
    assert_eq!(state, LoopState::Reading);
    assert_eq!(action, LoopAction::Read);
}

#[test]
fn read_failure_terminates_immediately() {
    let (state, action) = loop_step(LoopState::Reading, LoopEvent::ReadFailed);
    assert_eq!(state, LoopState::Terminated(LoopEnd::ReadError));
    assert_eq!(action, LoopAction::Stop);
}

#[test]
fn write_failure_terminates_immediately() {
    let (state, action) = loop_step(LoopState::Writing(8), LoopEvent::WriteFailed);
    assert_eq!(state, LoopState::Terminated(LoopEnd::WriteError));
    assert_eq!(action, LoopAction::Stop);
}

#[test]
fn no_event_leaves_a_terminated_loop() {
    let events = [
        LoopEvent::ReadOk(0),
        LoopEvent::ReadOk(9),
        LoopEvent::ReadFailed,
        LoopEvent::WriteOk,
        LoopEvent::WriteFailed,
    ];
    for reason in [LoopEnd::EndOfStream, LoopEnd::ReadError, LoopEnd::WriteError] {
        for event in events {
            let (state, action) = loop_step(LoopState::Terminated(reason), event);
            assert_eq!(state, LoopState::Terminated(reason));
            assert_eq!(action, LoopAction::Stop);
        }
    }
}

#[test]
fn relay_delivers_ping_intact_through_buffer_two() {
    let sent: Vec<u8> = b"PING\n".to_vec();
    let received = relay_direction(&sent, 2);
    assert_eq!(received, sent);
}

#[test]
fn relay_delivers_pong_reply_intact() {
    let reply: Vec<u8> = b"PONG\n".to_vec();
    let received = relay_direction(&reply, 2);
    assert_eq!(received, b"PONG\n".to_vec());
}

#[test]
fn relay_of_empty_stream_is_empty() {
    let sent: Vec<u8> = Vec::new();
    let received = relay_direction(&sent, 1);
    assert!(received.is_empty());
}
