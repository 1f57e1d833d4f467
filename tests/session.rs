use car_utils::buffer::RingBuffer;
use car_utils::client::{enqueue_command, next_response};
use car_utils::command::{Command, Navigate};
use car_utils::session::{request_handler, servo_pulse_width_us, servo_rotated, Action, Session, MIN_DISTANCE, PUSH_INTERVAL_MS};
use car_utils::{Climate, ResponseType, Statistics};

fn receive(session: &mut Session, bytes: &[u8]) {
    let mut rest = bytes;
    while !rest.is_empty() {
        let n = session
            .rx_buffer
            .enqueue_with(|w| {
                let n = usize::min(w.len(), rest.len());
                w[..n].copy_from_slice(&rest[..n]);
                (n, n)
            })
            .unwrap();
        rest = &rest[n..];
    }
}

fn drain(buffer: &mut RingBuffer<1024>) -> Vec<u8> {
    let mut out = Vec::new();
    while let Some(b) = buffer.dequeue_one() {
        out.push(b);
    }
    out
}

fn snapshot_payload(statistics: &Statistics) -> Vec<u8> {
    format!("{{\"speed_percent\":{}}}", statistics.to_response().speed_percent).into_bytes()
}

#[test]
fn navigate_forward_updates_speed_and_responds() {
    let mut statistics = Statistics::default();
    let mut session = Session::new(0);
    receive(&mut session, &[3, 2, 3, 80]);

    let command = session.next_request().unwrap();
    assert_eq!(command, Command::Navigate { navigate: Navigate::Forward, speed: 80 });
    let action = request_handler(&mut statistics, command);
    assert_eq!(action, Action::Navigate { navigate: Navigate::Forward, speed: 80 });
    assert_eq!(statistics.speed(), 80);
    assert_eq!(statistics.to_response().speed_percent, 80);

    let payload = snapshot_payload(&statistics);
    assert!(session.send_statistics(&payload, 5));
    let mut expected = vec![payload.len() as u8, 0];
    expected.extend_from_slice(&payload);
    assert_eq!(drain(&mut session.tx_buffer), expected);
    assert_eq!(session.next_request(), None);
}

#[test]
fn obstacle_ahead_turns_forward_into_brake() {
    let mut statistics = Statistics::default();
    statistics.set_ultrasonic(true);
    statistics.set_distance(MIN_DISTANCE);
    statistics.set_servos(90);
    let action = request_handler(&mut statistics, Command::Navigate { navigate: Navigate::Forward, speed: 50 });
    assert_eq!(action, Action::Navigate { navigate: Navigate::Brake, speed: 50 });
    assert_eq!(statistics.speed(), 50);

    // not straight ahead, or farther away, or not forward: no override
    statistics.set_servos(45);
    let action = request_handler(&mut statistics, Command::Navigate { navigate: Navigate::Forward, speed: 50 });
    assert_eq!(action, Action::Navigate { navigate: Navigate::Forward, speed: 50 });
    statistics.set_servos(90);
    statistics.set_distance(MIN_DISTANCE + 1);
    let action = request_handler(&mut statistics, Command::Navigate { navigate: Navigate::Forward, speed: 50 });
    assert_eq!(action, Action::Navigate { navigate: Navigate::Forward, speed: 50 });
    statistics.set_distance(3);
    let action = request_handler(&mut statistics, Command::Navigate { navigate: Navigate::BackWard, speed: 30 });
    assert_eq!(action, Action::Navigate { navigate: Navigate::BackWard, speed: 30 });
}

#[test]
fn frame_split_across_two_reads_is_dispatched_once() {
    let mut session = Session::new(0);
    receive(&mut session, &[1]);
    assert_eq!(session.next_request(), None);
    receive(&mut session, &[1]);
    assert_eq!(session.next_request(), Some(Command::Statistics));
    assert_eq!(session.next_request(), None);
    assert!(session.rx_buffer.is_empty());
}

#[test]
fn response_without_room_is_dropped() {
    let mut session = Session::new(0);
    for _ in 0..1022 {
        session.tx_buffer.enqueue_one(0).unwrap();
    }
    assert_eq!(session.tx_buffer.free_len(), 2);
    let payload = [7u8; 8];
    assert!(!session.send_response(ResponseType::Statistics, &payload));
    assert_eq!(session.tx_buffer.len(), 1022);
}

#[test]
fn oversized_payload_is_never_sent() {
    let mut session = Session::new(0);
    let payload = vec![1u8; 256];
    assert!(!session.send_response(ResponseType::Statistics, &payload));
    assert!(session.tx_buffer.is_empty());
    let payload = vec![1u8; 255];
    assert!(session.send_response(ResponseType::Statistics, &payload));
    assert_eq!(session.tx_buffer.len(), 257);
    assert_eq!(session.tx_buffer.peek_one(), Some(255));
}

#[test]
fn malformed_frames_become_nop() {
    let mut session = Session::new(0);
    receive(&mut session, &[1, 9, 1, 2, 0, 3, 2, 1, 60]);
    assert_eq!(session.next_request(), Some(Command::NOP));
    assert_eq!(session.next_request(), Some(Command::NOP));
    assert_eq!(session.next_request(), Some(Command::NOP));
    assert_eq!(session.next_request(), Some(Command::Navigate { navigate: Navigate::Left, speed: 60 }));
    assert_eq!(session.next_request(), None);
}

#[test]
fn frames_wrapping_the_storage_end_are_assembled() {
    let mut session = Session::new(0);
    session.rx_buffer.offset = 1020;
    session.rx_buffer.len = 2;
    session.rx_buffer.buf[1020] = 1;
    session.rx_buffer.buf[1021] = 1;
    receive(&mut session, &[3, 2, 4, 9]);
    assert_eq!(session.next_request(), Some(Command::Statistics));
    assert_eq!(session.next_request(), Some(Command::Navigate { navigate: Navigate::BackWard, speed: 9 }));
}

#[test]
fn push_schedule() {
    let mut session = Session::new(100);
    assert!(!session.push_due(99));
    assert!(session.push_due(100));
    assert!(session.send_statistics(b"{}", 100));
    assert_eq!(session.next_push_ms, 100 + PUSH_INTERVAL_MS);
    assert!(!session.push_due(1099));
    assert!(session.push_due(1100));
    session.send_statistics(b"{}", u64::MAX - 1);
    assert_eq!(session.next_push_ms, u64::MAX);
}

#[test]
fn dispatch_sets_each_field() {
    let mut statistics = Statistics::default();
    assert_eq!(request_handler(&mut statistics, Command::TH { enabled: true }), Action::Idle);
    assert!(statistics.th());
    request_handler(&mut statistics, Command::Nixie { enabled: true, brightness: 6 });
    assert!(statistics.nixie());
    assert_eq!(statistics.nixie_brightness(), 6);
    request_handler(&mut statistics, Command::Nixie { enabled: false, brightness: 2 });
    assert!(!statistics.nixie());
    assert_eq!(statistics.nixie_brightness(), 6);
    request_handler(&mut statistics, Command::Trace { enabled: true });
    assert!(statistics.trace());
    request_handler(&mut statistics, Command::Ultrasonic { enabled: true });
    assert!(statistics.ultrasonic());
    request_handler(&mut statistics, Command::Led { enabled: true });
    assert!(statistics.led());
    assert_eq!(request_handler(&mut statistics, Command::Servos { angle: 45 }), Action::Rotate { angle: 45 });
    assert_eq!(statistics.servos(), 0);
    servo_rotated(&mut statistics, 45, true);
    assert_eq!(statistics.servos(), 45);
    servo_rotated(&mut statistics, 30, false);
    assert_eq!(statistics.servos(), 45);
    assert_eq!(request_handler(&mut statistics, Command::NOP), Action::Idle);
    assert_eq!(request_handler(&mut statistics, Command::Statistics), Action::Idle);
}

#[test]
fn snapshot_reflects_latest_set_per_field() {
    let mut statistics = Statistics::default();
    statistics.set_speed(10);
    statistics.set_speed(30);
    statistics.set_servos(135);
    statistics.set_led(true);
    let r = statistics.to_response();
    assert_eq!(r.speed_percent, 30);
    assert_eq!(r.servos, 135);
    assert!(r.led);
    assert_eq!(r.time_brightness, None);
    assert_eq!(r.distance, None);
    assert_eq!(r.th, None);
    assert!(!r.trace);

    statistics.set_nixie_brightness(3);
    statistics.set_nixie(true);
    statistics.set_ultrasonic(true);
    statistics.set_distance(42);
    statistics.set_th(true);
    statistics.set_temperature(2550);
    statistics.set_humidity(4812);
    statistics.set_temperature(-125);
    statistics.set_trace(true);
    let r = statistics.to_response();
    assert_eq!(r.time_brightness, Some(3));
    assert_eq!(r.distance, Some(42));
    assert_eq!(r.th, Some(Climate { temperature: -125, humidity: 4812 }));
    assert!(r.trace);
    assert_eq!(statistics.temperature(), -125);
    assert_eq!(statistics.humidity(), 4812);
}

#[test]
fn client_frames_commands_and_responses() {
    let mut tx = RingBuffer::<1024>::new();
    assert!(enqueue_command(&mut tx, &Command::Navigate { navigate: Navigate::Forward, speed: 80 }));
    assert!(enqueue_command(&mut tx, &Command::Statistics));
    assert_eq!(drain(&mut tx), vec![3, 2, 3, 80, 1, 1]);

    let mut small = RingBuffer::<3>::new();
    assert!(!enqueue_command(&mut small, &Command::Nixie { enabled: true, brightness: 1 }));
    assert!(small.is_empty());
    assert!(enqueue_command(&mut small, &Command::Led { enabled: true }));
    assert_eq!(small.len(), 3);

    let mut rx = RingBuffer::<16>::new();
    for b in [3u8, 0, 10] {
        rx.enqueue_one(b).unwrap();
    }
    assert_eq!(next_response(&mut rx), None);
    for b in [11u8, 12, 1] {
        rx.enqueue_one(b).unwrap();
    }
    assert_eq!(next_response(&mut rx), Some((0, vec![10, 11, 12])));
    assert_eq!(rx.len(), 1);
    assert_eq!(next_response(&mut rx), None);
}

#[test]
fn response_type_codes() {
    assert_eq!(ResponseType::Statistics.to_u8(), 0);
    assert_eq!(ResponseType::from_u8(0), Some(ResponseType::Statistics));
    assert_eq!(ResponseType::from_u8(1), None);
}

#[test]
fn servo_holds_five_angles() {
    assert_eq!(servo_pulse_width_us(0), Some(500));
    assert_eq!(servo_pulse_width_us(45), Some(1000));
    assert_eq!(servo_pulse_width_us(90), Some(1500));
    assert_eq!(servo_pulse_width_us(135), Some(2000));
    assert_eq!(servo_pulse_width_us(180), Some(2500));
    for angle in [1u8, 44, 46, 89, 100, 179, 181, 225, 255] {
        assert_eq!(servo_pulse_width_us(angle), None);
    }
}
