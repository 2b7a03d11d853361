use pn532::command::{check_response, BusAction, BusEvent, Call, CallPhase};
use pn532::frame::encode_command;
use pn532::reader::{
    configure_security_module, detect_target, page_data, read_page_group, target_data,
    target_uid,
};
use pn532::transport::{swap_bit_order, write_transfer};

fn event(rx: Vec<u8>, took_ms: u64) -> BusEvent {
    BusEvent { rx, took_ms }
}

fn ready() -> Vec<u8> {
    vec![0x00, 0x80]
}

fn busy() -> Vec<u8> {
    vec![0x00, 0x00]
}

fn received(reply: &[u8]) -> Vec<u8> {
    let mut plain = vec![0x00u8];
    plain.extend_from_slice(reply);
    swap_bit_order(&plain)
}

fn expect_transfer(a: BusAction) -> (u64, Vec<u8>) {
    match a {
        BusAction::Transfer { pause_ms, tx } => (pause_ms, tx),
        other => panic!("expected a transfer, got {:?}", other),
    }
}

fn expect_finish(a: BusAction) -> Option<Vec<u8>> {
    match a {
        BusAction::Finish { response } => response,
        other => panic!("expected the end, got {:?}", other),
    }
}

#[test]
fn call_happy_path() {
    let (mut call, first) = Call::start(0x14, &[0x01, 0x14, 0x01], 0, 1000);
    let (pause, tx) = expect_transfer(first);
    assert_eq!(pause, 0);
    assert_eq!(tx, write_transfer(&encode_command(0x14, &[0x01, 0x14, 0x01])));
    let (pause, tx) = expect_transfer(call.step(event(tx, 2)));
    assert_eq!((pause, tx), (10, vec![0x40, 0x00]));
    let (pause, tx) = expect_transfer(call.step(event(ready(), 11)));
    assert_eq!(pause, 5);
    assert_eq!(tx.len(), 7);
    assert_eq!(call.phase, CallPhase::ReadingAck);
    let ack = received(&[0x00, 0x00, 0xFF, 0x00, 0xFF, 0x00]);
    let (pause, _) = expect_transfer(call.step(event(ack, 6)));
    assert_eq!(pause, 10);
    assert_eq!(call.phase, CallPhase::Polling { for_response: true });
    let (_, tx) = expect_transfer(call.step(event(ready(), 11)));
    assert_eq!(tx.len(), 10);
    let resp = received(&[0x00, 0x00, 0xFF, 0x02, 0xFE, 0xD5, 0x15, 0x16, 0x00]);
    assert_eq!(expect_finish(call.step(event(resp, 6))), Some(vec![]));
    assert_eq!(call.phase, CallPhase::Finished);
    assert_eq!(expect_finish(call.step(event(vec![], 0))), None);
}

#[test]
fn call_times_out_waiting_for_ready() {
    let (mut call, _) = Call::start(0x4A, &[0x01, 0x00], 19, 20);
    expect_transfer(call.step(event(vec![], 1)));
    match call.step(event(busy(), 12)) {
        BusAction::Pause { ms } => assert_eq!(ms, 5),
        other => panic!("expected a pause, got {:?}", other),
    }
    expect_transfer(call.step(event(vec![], 5)));
    assert!(matches!(call.step(event(busy(), 12)), BusAction::Pause { .. }));
    assert_eq!(expect_finish(call.step(event(vec![], 5))), None);
    assert_eq!(call.waited_ms, 34);
}

#[test]
fn call_with_zero_timeout_never_polls() {
    let (mut call, _) = Call::start(0x4A, &[0x01, 0x00], 19, 0);
    assert_eq!(expect_finish(call.step(event(vec![], 1))), None);
}

#[test]
fn call_rejects_bad_ack() {
    let (mut call, _) = Call::start(0x14, &[0x01, 0x14, 0x01], 0, 1000);
    call.step(event(vec![], 1));
    call.step(event(ready(), 11));
    let nack = received(&[0x00, 0x00, 0xFF, 0xFF, 0x00, 0x00]);
    assert_eq!(expect_finish(call.step(event(nack, 6))), None);
}

#[test]
fn response_must_echo_command() {
    let frame = [0x00u8, 0x00, 0xFF, 0x03, 0xFD, 0xD5, 0x41, 0x00, 0xEA, 0x00];
    assert_eq!(check_response(0x40, &frame), Some(vec![0x00]));
    assert_eq!(check_response(0x4A, &frame), None);
    let from_host = [0x00u8, 0x00, 0xFF, 0x03, 0xFD, 0xD4, 0x41, 0x00, 0xEB, 0x00];
    assert_eq!(check_response(0x40, &from_host), None);
}

#[test]
fn operations_send_their_commands() {
    let (call, first) = configure_security_module();
    assert_eq!((call.cmd, call.response_len, call.timeout_ms), (0x14, 0, 1000));
    assert_eq!(expect_transfer(first).1, write_transfer(&encode_command(0x14, &[1, 0x14, 1])));
    let (call, first) = detect_target(500);
    assert_eq!((call.cmd, call.response_len, call.timeout_ms), (0x4A, 19, 500));
    assert_eq!(expect_transfer(first).1, write_transfer(&encode_command(0x4A, &[1, 0])));
    let (call, first) = read_page_group(8);
    assert_eq!((call.cmd, call.response_len, call.timeout_ms), (0x40, 17, 500));
    assert_eq!(expect_transfer(first).1, write_transfer(&encode_command(0x40, &[1, 0x30, 8])));
}

#[test]
fn uid_of_detected_target() {
    let payload = [0x01u8, 0x01, 0x00, 0x44, 0x00, 0x04, 0xDE, 0xAD, 0xBE, 0xEF];
    assert_eq!(target_uid(&payload), Some(vec![0xDE, 0xAD, 0xBE, 0xEF]));
    assert_eq!(target_uid(&[0x00]), None);
    assert_eq!(target_uid(&[]), None);
    assert_eq!(target_uid(&[0x01, 0x01, 0x00, 0x44, 0x00]), None);
    assert_eq!(target_uid(&[0x01, 0x01, 0x00, 0x44, 0x00, 0x07, 0x01, 0x02]), None);
}

#[test]
fn data_of_target_exchange() {
    assert_eq!(target_data(&[0x00, 0x65, 0x6E, 0x33]), Some(vec![0x65, 0x6E, 0x33]));
    assert_eq!(target_data(&[0x01, 0x65]), None);
    assert_eq!(target_data(&[]), None);
}

#[test]
fn page_read_gives_sixteen_bytes() {
    let mut payload = vec![0x00u8];
    payload.extend(1..=16u8);
    assert_eq!(page_data(&payload), Some((1..=16u8).collect::<Vec<u8>>()));
    assert_eq!(page_data(&[0x00, 0x01]), None);
    let mut long = payload.clone();
    long.push(17);
    assert_eq!(page_data(&long), None);
    payload[0] = 0x01;
    assert_eq!(page_data(&payload), None);
    assert_eq!(page_data(&[]), None);
}

#[test]
fn wait_ends_even_when_no_time_is_reported() {
    let (mut call, _) = Call::start(0x4A, &[0x01, 0x00], 19, 100);
    let mut action = call.step(event(vec![], 0));
    let mut steps = 0;
    loop {
        action = match action {
            BusAction::Transfer { .. } => call.step(event(busy(), 0)),
            BusAction::Pause { .. } => call.step(event(vec![], 0)),
            BusAction::Finish { response } => {
                assert_eq!(response, None);
                break;
            }
        };
        steps += 1;
        assert!(steps < 100);
    }
    assert_eq!(steps, 14);
}
