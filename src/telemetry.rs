use vstd::prelude::*;

verus! {

/// Length of a response header: payload length, then response type.
pub const RESPONSE_HEADER_LEN: usize = 2;

/// Length of a request header: payload length.
pub const REQUEST_HEADER_LEN: usize = 1;

/// The kinds of request, by tag.
#[derive(Debug, Clone, Copy, PartialEq, Eq, Structural)]
pub enum CommandType {
    NOP,
    Statistics,
    Navigate,
    TH,
    Nixie,
    Servos,
    Trace,
    Ultrasonic,
}

/// The kinds of response; the wire byte of each is its position.
#[derive(Debug, Clone, Copy, PartialEq, Eq, Structural)]
pub enum ResponseType {
    Statistics,
}

impl ResponseType {
    /// The wire byte of this response type.
    pub fn to_u8(&self) -> (r: u8)
        ensures
            r == 0,
    {
        match self {
            ResponseType::Statistics => 0,
        }
    }

    /// The response type with wire byte `code`, if there is one.
    pub fn from_u8(code: u8) -> (r: Option<ResponseType>)
        ensures
            code == 0 ==> r == Some(ResponseType::Statistics),
            code != 0 ==> r is None,
    {
        if code == 0 {
            Some(ResponseType::Statistics)
        } else {
            None
        }
    }
}

/// Temperature and humidity as read together from the sensor, in hundredths of a unit.
#[derive(Debug, Clone, Copy, PartialEq, Eq, Structural)]
pub struct Climate {
    pub temperature: i16,
    pub humidity: u16,
}

/// A point-in-time copy of the device status. Temperature and humidity are in
/// hundredths of a unit; a disabled part reads as `None`.
#[derive(Debug, Clone, Copy, PartialEq, Eq, Structural)]
pub struct Response {
    /// Display brightness, when the display is on.
    pub time_brightness: Option<u8>,
    pub speed_percent: u8,
    /// Last measured distance, when ranging is on.
    pub distance: Option<u16>,
    pub servos: u8,
    pub led: bool,
    /// Temperature and humidity, when the sensor is on.
    pub th: Option<Climate>,
    pub trace: bool,
}

/// The current device status, one field per part. Each field is read and written on
/// its own; nothing spans two fields.
#[derive(Debug)]
pub struct Statistics {
    pub nixie: bool,
    pub nixie_brightness: u8,
    pub speed: u8,
    pub ultrasonic: bool,
    pub distance: u16,
    pub servos: u8,
    pub led: bool,
    pub th: bool,
    /// Hundredths of a degree.
    pub temperature: i16,
    /// Hundredths of a percent.
    pub humidity: u16,
    pub trace: bool,
}

/// The snapshot of a status.
pub open spec fn response_of(s: Statistics) -> Response {
    Response {
        time_brightness: if s.nixie { Some(s.nixie_brightness) } else { None },
        speed_percent: s.speed,
        distance: if s.ultrasonic { Some(s.distance) } else { None },
        servos: s.servos,
        led: s.led,
        th: if s.th { Some(Climate { temperature: s.temperature, humidity: s.humidity }) } else { None },
        trace: s.trace,
    }
}

/// A snapshot taken after one setter differs from one taken before only in the part
/// that the setter's field feeds; each field is seen on its own, as last set.
pub proof fn lemma_snapshot_follows_setters(s: Statistics, b: bool, x: u8, d: u16, t: i16, h: u16)
    ensures
        response_of(Statistics { nixie: b, ..s }) == (Response {
            time_brightness: if b { Some(s.nixie_brightness) } else { None },
            ..response_of(s)
        }),
        response_of(Statistics { nixie_brightness: x, ..s }) == (Response {
            time_brightness: if s.nixie { Some(x) } else { None },
            ..response_of(s)
        }),
        response_of(Statistics { speed: x, ..s }) == (Response { speed_percent: x, ..response_of(s) }),
        response_of(Statistics { ultrasonic: b, ..s }) == (Response {
            distance: if b { Some(s.distance) } else { None },
            ..response_of(s)
        }),
        response_of(Statistics { distance: d, ..s }) == (Response {
            distance: if s.ultrasonic { Some(d) } else { None },
            ..response_of(s)
        }),
        response_of(Statistics { servos: x, ..s }) == (Response { servos: x, ..response_of(s) }),
        response_of(Statistics { led: b, ..s }) == (Response { led: b, ..response_of(s) }),
        response_of(Statistics { th: b, ..s }) == (Response {
            th: if b { Some(Climate { temperature: s.temperature, humidity: s.humidity }) } else { None },
            ..response_of(s)
        }),
        response_of(Statistics { temperature: t, ..s }) == (Response {
            th: if s.th { Some(Climate { temperature: t, humidity: s.humidity }) } else { None },
            ..response_of(s)
        }),
        response_of(Statistics { humidity: h, ..s }) == (Response {
            th: if s.th { Some(Climate { temperature: s.temperature, humidity: h }) } else { None },
            ..response_of(s)
        }),
        response_of(Statistics { trace: b, ..s }) == (Response { trace: b, ..response_of(s) }),
{
}

impl Default for Statistics {
    fn default() -> (r: Statistics)
        ensures
            r == (Statistics {
                nixie: false,
                nixie_brightness: 0,
                speed: 0,
                ultrasonic: false,
                distance: 0,
                servos: 0,
                led: false,
                th: false,
                temperature: 0,
                humidity: 0,
                trace: false,
            }),
    {
        Statistics {
            nixie: false,
            nixie_brightness: 0,
            speed: 0,
            ultrasonic: false,
            distance: 0,
            servos: 0,
            led: false,
            th: false,
            temperature: 0,
            humidity: 0,
            trace: false,
        }
    }
}

impl Statistics {
    pub fn nixie(&self) -> (r: bool)
        ensures
            r == self.nixie,
    {
        self.nixie
    }

    pub fn set_nixie(&mut self, value: bool)
        ensures
            *final(self) == (Statistics { nixie: value, ..*old(self) }),
    {
        self.nixie = value;
    }

    pub fn nixie_brightness(&self) -> (r: u8)
        ensures
            r == self.nixie_brightness,
    {
        self.nixie_brightness
    }

    pub fn set_nixie_brightness(&mut self, value: u8)
        ensures
            *final(self) == (Statistics { nixie_brightness: value, ..*old(self) }),
    {
        self.nixie_brightness = value;
    }

    pub fn speed(&self) -> (r: u8)
        ensures
            r == self.speed,
    {
        self.speed
    }

    pub fn set_speed(&mut self, value: u8)
        ensures
            *final(self) == (Statistics { speed: value, ..*old(self) }),
    {
        self.speed = value;
    }

    pub fn ultrasonic(&self) -> (r: bool)
        ensures
            r == self.ultrasonic,
    {
        self.ultrasonic
    }

    pub fn set_ultrasonic(&mut self, value: bool)
        ensures
            *final(self) == (Statistics { ultrasonic: value, ..*old(self) }),
    {
        self.ultrasonic = value;
    }

    pub fn distance(&self) -> (r: u16)
        ensures
            r == self.distance,
    {
        self.distance
    }

    pub fn set_distance(&mut self, value: u16)
        ensures
            *final(self) == (Statistics { distance: value, ..*old(self) }),
    {
        self.distance = value;
    }

    pub fn servos(&self) -> (r: u8)
        ensures
            r == self.servos,
    {
        self.servos
    }

    pub fn set_servos(&mut self, value: u8)
        ensures
            *final(self) == (Statistics { servos: value, ..*old(self) }),
    {
        self.servos = value;
    }

    pub fn led(&self) -> (r: bool)
        ensures
            r == self.led,
    {
        self.led
    }

    pub fn set_led(&mut self, value: bool)
        ensures
            *final(self) == (Statistics { led: value, ..*old(self) }),
    {
        self.led = value;
    }

    pub fn th(&self) -> (r: bool)
        ensures
            r == self.th,
    {
        self.th
    }

    pub fn set_th(&mut self, value: bool)
        ensures
            *final(self) == (Statistics { th: value, ..*old(self) }),
    {
        self.th = value;
    }

    pub fn trace(&self) -> (r: bool)
        ensures
            r == self.trace,
    {
        self.trace
    }

    pub fn set_trace(&mut self, value: bool)
        ensures
            *final(self) == (Statistics { trace: value, ..*old(self) }),
    {
        self.trace = value;
    }

    /// Temperature in hundredths of a degree.
    pub fn temperature(&self) -> (r: i16)
        ensures
            r == self.temperature,
    {
        self.temperature
    }

    pub fn set_temperature(&mut self, value: i16)
        ensures
            *final(self) == (Statistics { temperature: value, ..*old(self) }),
    {
        self.temperature = value;
    }

    /// Humidity in hundredths of a percent.
    pub fn humidity(&self) -> (r: u16)
        ensures
            r == self.humidity,
    {
        self.humidity
    }

    pub fn set_humidity(&mut self, value: u16)
        ensures
            *final(self) == (Statistics { humidity: value, ..*old(self) }),
    {
        self.humidity = value;
    }

    /// A snapshot of every field, each read once.
    pub fn to_response(&self) -> (r: Response)
        ensures
            r == response_of(*self),
    {
        Response {
            time_brightness: if self.nixie() { Some(self.nixie_brightness()) } else { None },
            speed_percent: self.speed(),
            distance: if self.ultrasonic() { Some(self.distance()) } else { None },
            servos: self.servos(),
            led: self.led(),
            th: if self.th() {
                Some(Climate { temperature: self.temperature(), humidity: self.humidity() })
            } else {
                None
            },
            trace: self.trace(),
        }
    }
}

} // verus!
