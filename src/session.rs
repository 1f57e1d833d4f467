use crate::buffer::RingBuffer;
use crate::command::{decoding, Command, Navigate};
use crate::telemetry::{ResponseType, Statistics, REQUEST_HEADER_LEN, RESPONSE_HEADER_LEN};
use vstd::prelude::*;

verus! {

/// Nearest an obstacle may be, in centimetres, while driving straight ahead.
pub const MIN_DISTANCE: u16 = 20;

/// Milliseconds between two telemetry pushes.
pub const PUSH_INTERVAL_MS: u64 = 1000;

/// Largest payload that a one-byte length can announce.
pub const MAX_PAYLOAD_LEN: usize = 255;

/// What the motor and servo drivers are asked to do after a request.
#[derive(Debug, Clone, Copy, PartialEq, Eq, Structural)]
pub enum Action {
    Idle,
    Navigate { navigate: Navigate, speed: u8 },
    Rotate { angle: u8 },
}

/// One connection's protocol state: bytes received and not yet framed, bytes framed
/// and not yet sent, and when the next telemetry push is due.
pub struct Session {
    pub rx_buffer: RingBuffer<1024>,
    pub tx_buffer: RingBuffer<1024>,
    pub next_push_ms: u64,
}

/// A complete request frame (its length byte and that many payload bytes) is queued.
pub open spec fn request_ready(q: Seq<u8>) -> bool {
    q.len() > 0 && q.len() >= q[0] + REQUEST_HEADER_LEN
}

/// The payload of the request frame at the head of `q`.
pub open spec fn request_payload(q: Seq<u8>) -> Seq<u8> {
    q.subrange(1, 1 + q[0])
}

/// The command a request payload stands for; one that does not decode counts as `NOP`.
pub open spec fn command_of(payload: Seq<u8>) -> Command {
    match decoding(payload) {
        Ok(c) => c,
        Err(_) => Command::NOP,
    }
}

/// The direction actually driven: forward travel becomes `Brake` while ranging is on,
/// the obstacle is at most `MIN_DISTANCE` away and the servo looks straight ahead.
pub open spec fn guarded_navigate(s: Statistics, n: Navigate) -> Navigate {
    if s.ultrasonic && s.distance <= MIN_DISTANCE && n == Navigate::Forward && s.servos == 90 {
        Navigate::Brake
    } else {
        n
    }
}

/// The status after a command is applied.
pub open spec fn dispatched(s: Statistics, c: Command) -> Statistics {
    match c {
        Command::Navigate { navigate, speed } => Statistics { speed, ..s },
        Command::TH { enabled } => Statistics { th: enabled, ..s },
        Command::Nixie { enabled, brightness } => if enabled {
            Statistics { nixie: true, nixie_brightness: brightness, ..s }
        } else {
            Statistics { nixie: false, ..s }
        },
        Command::Trace { enabled } => Statistics { trace: enabled, ..s },
        Command::Ultrasonic { enabled } => Statistics { ultrasonic: enabled, ..s },
        Command::Led { enabled } => Statistics { led: enabled, ..s },
        _ => s,
    }
}

/// What the drivers are asked to do for a command.
pub open spec fn action_of(s: Statistics, c: Command) -> Action {
    match c {
        Command::Navigate { navigate, speed } => Action::Navigate {
            navigate: guarded_navigate(s, navigate),
            speed,
        },
        Command::Servos { angle } => Action::Rotate { angle },
        _ => Action::Idle,
    }
}

/// Applies a command to the status and says what the drivers must do.
pub fn request_handler(statistics: &mut Statistics, command: Command) -> (a: Action)
    ensures
        *final(statistics) == dispatched(*old(statistics), command),
        a == action_of(*old(statistics), command),
{
    match command {
        Command::NOP => Action::Idle,
        Command::Statistics => Action::Idle,
        Command::Navigate { navigate, speed } => {
            let mut navigate = navigate;
            if statistics.ultrasonic() && statistics.distance() <= MIN_DISTANCE && navigate
                == Navigate::Forward && statistics.servos() == 90 {
                navigate = Navigate::Brake;
            }
            statistics.set_speed(speed);
            Action::Navigate { navigate, speed }
        },
        Command::TH { enabled } => {
            statistics.set_th(enabled);
            Action::Idle
        },
        Command::Nixie { enabled, brightness } => {
            statistics.set_nixie(enabled);
            if enabled {
                statistics.set_nixie_brightness(brightness);
            }
            Action::Idle
        },
        Command::Servos { angle } => Action::Rotate { angle },
        Command::Trace { enabled } => {
            statistics.set_trace(enabled);
            Action::Idle
        },
        Command::Ultrasonic { enabled } => {
            statistics.set_ultrasonic(enabled);
            Action::Idle
        },
        Command::Led { enabled } => {
            statistics.set_led(enabled);
            Action::Idle
        },
    }
}

/// Whether the servo can hold `angle`: 0, 45, 90, 135 or 180 degrees.
pub open spec fn servo_angle_supported(angle: u8) -> bool {
    angle % 45 == 0 && angle <= 180
}

/// Pulse width, in microseconds, that holds the servo at `angle` within its 20 ms
/// period; `None` for an angle the servo cannot hold.
pub fn servo_pulse_width_us(angle: u8) -> (r: Option<u64>)
    ensures
        servo_angle_supported(angle) ==> r == Some((500 + (angle / 45) * 500) as u64),
        !servo_angle_supported(angle) ==> r is None,
{
    match angle {
        0 => Some(500),
        45 => Some(1000),
        90 => Some(1500),
        135 => Some(2000),
        180 => Some(2500),
        _ => None,
    }
}

/// Records the servo's new angle when the servo driver accepted it.
pub fn servo_rotated(statistics: &mut Statistics, angle: u8, accepted: bool)
    ensures
        accepted ==> *final(statistics) == (Statistics { servos: angle, ..*old(statistics) }),
        !accepted ==> *final(statistics) == *old(statistics),
{
    if accepted {
        statistics.set_servos(angle);
    }
}

impl Session {
    /// A session with nothing buffered, whose first telemetry push is due at `now_ms`.
    pub fn new(now_ms: u64) -> (r: Session)
        ensures
            r.rx_buffer.wf(),
            r.tx_buffer.wf(),
            r.rx_buffer@ == Seq::<u8>::empty(),
            r.tx_buffer@ == Seq::<u8>::empty(),
            r.next_push_ms == now_ms,
    {
        Session { rx_buffer: RingBuffer::new(), tx_buffer: RingBuffer::new(), next_push_ms: now_ms }
    }

    /// Takes the next complete request frame off the inbound bytes and decodes it;
    /// a frame that does not decode yields `NOP`. `None` while no complete frame is queued.
    pub fn next_request(&mut self) -> (r: Option<Command>)
        requires
            old(self).rx_buffer.wf(),
        ensures
            final(self).rx_buffer.wf(),
            final(self).tx_buffer == old(self).tx_buffer,
            final(self).next_push_ms == old(self).next_push_ms,
            request_ready(old(self).rx_buffer@) ==> r == Some(command_of(request_payload(old(self).rx_buffer@)))
                && final(self).rx_buffer@ == old(self).rx_buffer@.subrange(
                1 + old(self).rx_buffer@[0],
                old(self).rx_buffer@.len() as int,
            ),
            !request_ready(old(self).rx_buffer@) ==> r is None && final(self).rx_buffer@ == old(
                self,
            ).rx_buffer@,
    {
        match self.rx_buffer.peek_one() {
            None => None,
            Some(len) => {
                if self.rx_buffer.len() >= len as usize + REQUEST_HEADER_LEN {
                    let ghost q = self.rx_buffer@;
                    let _ = self.rx_buffer.dequeue_one();
                    self.rx_buffer.congestion_alloced(len as usize);
                    let decoded = self.rx_buffer.dequeue_with(len as usize, Command::parse);
                    proof {
                        assert(q.drop_first().subrange(0, len as int) =~= request_payload(q));
                        assert(q.drop_first().subrange(len as int, q.len() - 1) =~= q.subrange(
                            1 + len,
                            q.len() as int,
                        ));
                    }
                    match decoded {
                        Ok(command) => Some(command),
                        Err(_) => Some(Command::NOP),
                    }
                } else {
                    None
                }
            },
        }
    }

    /// Frames a response (`[length][type][payload]`) into the outbound bytes. A payload
    /// longer than a length byte can announce, or one that does not fit in the free
    /// space, is dropped whole and nothing changes. Returns whether it was queued.
    pub fn send_response(&mut self, response_type: ResponseType, payload: &[u8]) -> (sent: bool)
        requires
            old(self).tx_buffer.wf(),
        ensures
            final(self).tx_buffer.wf(),
            final(self).rx_buffer == old(self).rx_buffer,
            final(self).next_push_ms == old(self).next_push_ms,
            sent == (payload@.len() <= MAX_PAYLOAD_LEN && payload@.len() + RESPONSE_HEADER_LEN <= 1024
                - old(self).tx_buffer@.len()),
            sent ==> final(self).tx_buffer@ == old(self).tx_buffer@ + seq![payload@.len() as u8, 0u8]
                + payload@,
            !sent ==> final(self).tx_buffer@ == old(self).tx_buffer@,
    {
        if payload.len() > MAX_PAYLOAD_LEN {
            return false;
        }
        if self.tx_buffer.free_len() < payload.len() + RESPONSE_HEADER_LEN {
            return false;
        }
        let ghost start = self.tx_buffer@;
        let _ = self.tx_buffer.enqueue_one(payload.len() as u8);
        let _ = self.tx_buffer.enqueue_one(response_type.to_u8());
        let mut i: usize = 0;
        while i < payload.len()
            invariant
                self.tx_buffer.wf(),
                self.rx_buffer == old(self).rx_buffer,
                self.next_push_ms == old(self).next_push_ms,
                i <= payload@.len(),
                start.len() + RESPONSE_HEADER_LEN + payload@.len() <= 1024,
                self.tx_buffer@ == start + seq![payload@.len() as u8, 0u8] + payload@.subrange(
                    0,
                    i as int,
                ),
            decreases payload@.len() - i,
        {
            let _ = self.tx_buffer.enqueue_one(payload[i]);
            proof {
                assert(payload@.subrange(0, i as int).push(payload@[i as int]) =~= payload@.subrange(
                    0,
                    i + 1,
                ));
            }
            i = i + 1;
        }
        proof {
            assert(payload@.subrange(0, i as int) =~= payload@);
        }
        true
    }

    /// Whether the periodic telemetry push is due at `now_ms`.
    pub fn push_due(&self, now_ms: u64) -> (r: bool)
        ensures
            r == (self.next_push_ms <= now_ms),
    {
        self.next_push_ms <= now_ms
    }

    /// Frames a telemetry payload like `send_response` and schedules the next push one
    /// interval after `now_ms`, whether or not the payload was queued.
    pub fn send_statistics(&mut self, payload: &[u8], now_ms: u64) -> (sent: bool)
        requires
            old(self).tx_buffer.wf(),
        ensures
            final(self).tx_buffer.wf(),
            final(self).rx_buffer == old(self).rx_buffer,
            final(self).next_push_ms == if now_ms <= u64::MAX - PUSH_INTERVAL_MS {
                (now_ms + PUSH_INTERVAL_MS) as u64
            } else {
                u64::MAX
            },
            sent == (payload@.len() <= MAX_PAYLOAD_LEN && payload@.len() + RESPONSE_HEADER_LEN <= 1024
                - old(self).tx_buffer@.len()),
            sent ==> final(self).tx_buffer@ == old(self).tx_buffer@ + seq![payload@.len() as u8, 0u8]
                + payload@,
            !sent ==> final(self).tx_buffer@ == old(self).tx_buffer@,
    {
        let sent = self.send_response(ResponseType::Statistics, payload);
        self.next_push_ms = now_ms.saturating_add(PUSH_INTERVAL_MS);
        sent
    }
}

} // verus!
