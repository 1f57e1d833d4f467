use vstd::prelude::*;

verus! {

/// Direction of travel, with its wire code.
#[derive(Debug, Clone, Copy, PartialEq, Eq, Structural)]
pub enum Navigate {
    Brake,
    Left,
    Right,
    Forward,
    BackWard,
}

/// Servo positions.
#[derive(Debug, Clone, Copy, PartialEq, Eq, Structural, Default)]
pub enum Angle {
    #[default]
    Normal,
    Left45,
    Left90,
    Right45,
    Right90,
}

/// A request from the client; the tag byte of each variant is its position.
#[derive(Debug, Clone, Copy, PartialEq, Eq, Structural)]
pub enum Command {
    NOP,
    Statistics,
    Navigate { navigate: Navigate, speed: u8 },
    TH { enabled: bool },
    Nixie { enabled: bool, brightness: u8 },
    Servos { angle: u8 },
    Trace { enabled: bool },
    Ultrasonic { enabled: bool },
    Led { enabled: bool },
}

/// Why bytes did not decode into a command.
#[derive(Debug, Clone, Copy, PartialEq, Eq, Structural)]
pub enum CommandError {
    /// Fewer bytes than the tag requires.
    ParserError,
    /// A tag outside 0..=8.
    UnknownCommand,
}

/// Wire code of a direction.
pub open spec fn navigate_code(n: Navigate) -> u8 {
    match n {
        Navigate::Brake => 0,
        Navigate::Left => 1,
        Navigate::Right => 2,
        Navigate::Forward => 3,
        Navigate::BackWard => 4,
    }
}

/// Direction of a wire code; unknown codes mean `Brake`.
pub open spec fn navigate_of(code: u8) -> Navigate {
    if code == 1 {
        Navigate::Left
    } else if code == 2 {
        Navigate::Right
    } else if code == 3 {
        Navigate::Forward
    } else if code == 4 {
        Navigate::BackWard
    } else {
        Navigate::Brake
    }
}

pub open spec fn bool_byte(b: bool) -> u8 {
    if b {
        1
    } else {
        0
    }
}

/// Total encoded length (tag and extra bytes) of the command a tag names.
pub open spec fn tag_len(tag: u8) -> nat {
    if tag == 2 || tag == 4 {
        3
    } else if tag <= 1 {
        1
    } else {
        2
    }
}

/// The bytes of a command on the wire.
pub open spec fn encoding(c: Command) -> Seq<u8> {
    match c {
        Command::NOP => seq![0u8],
        Command::Statistics => seq![1u8],
        Command::Navigate { navigate, speed } => seq![2u8, navigate_code(navigate), speed],
        Command::TH { enabled } => seq![3u8, bool_byte(enabled)],
        Command::Nixie { enabled, brightness } => seq![4u8, bool_byte(enabled), brightness],
        Command::Servos { angle } => seq![5u8, angle],
        Command::Trace { enabled } => seq![6u8, bool_byte(enabled)],
        Command::Ultrasonic { enabled } => seq![7u8, bool_byte(enabled)],
        Command::Led { enabled } => seq![8u8, bool_byte(enabled)],
    }
}

/// The command that bytes on the wire stand for.
pub open spec fn decoding(b: Seq<u8>) -> Result<Command, CommandError> {
    if b.len() == 0 {
        Err(CommandError::ParserError)
    } else if b[0] > 8 {
        Err(CommandError::UnknownCommand)
    } else if b.len() < tag_len(b[0]) {
        Err(CommandError::ParserError)
    } else {
        let tag = b[0];
        Ok(
            if tag == 0 {
                Command::NOP
            } else if tag == 1 {
                Command::Statistics
            } else if tag == 2 {
                Command::Navigate { navigate: navigate_of(b[1]), speed: b[2] }
            } else if tag == 3 {
                Command::TH { enabled: b[1] != 0 }
            } else if tag == 4 {
                Command::Nixie { enabled: b[1] != 0, brightness: b[2] }
            } else if tag == 5 {
                Command::Servos { angle: b[1] }
            } else if tag == 6 {
                Command::Trace { enabled: b[1] != 0 }
            } else if tag == 7 {
                Command::Ultrasonic { enabled: b[1] != 0 }
            } else {
                Command::Led { enabled: b[1] != 0 }
            },
        )
    }
}

impl Navigate {
    /// The direction with wire code `code`, if there is one.
    pub fn from_u8(code: u8) -> (r: Option<Navigate>)
        ensures
            code <= 4 ==> r == Some(navigate_of(code)),
            code > 4 ==> r is None,
    {
        match code {
            0 => Some(Navigate::Brake),
            1 => Some(Navigate::Left),
            2 => Some(Navigate::Right),
            3 => Some(Navigate::Forward),
            4 => Some(Navigate::BackWard),
            _ => None,
        }
    }

    /// The wire code of this direction.
    pub fn to_u8(&self) -> (r: u8)
        ensures
            r == navigate_code(*self),
    {
        match self {
            Navigate::Brake => 0,
            Navigate::Left => 1,
            Navigate::Right => 2,
            Navigate::Forward => 3,
            Navigate::BackWard => 4,
        }
    }
}

impl Command {
    /// Total encoded length: tag byte plus extra bytes.
    pub fn buf_len(&self) -> (r: usize)
        ensures
            r == encoding(*self).len(),
    {
        match self {
            Command::NOP => 1,
            Command::Statistics => 1,
            Command::Navigate { .. } => 3,
            Command::TH { .. } => 2,
            Command::Nixie { .. } => 3,
            Command::Servos { .. } => 2,
            Command::Trace { .. } => 2,
            Command::Ultrasonic { .. } => 2,
            Command::Led { .. } => 2,
        }
    }

    /// Writes the command's bytes: the tag, then its extra bytes.
    pub fn write(&self, buf: &mut [u8])
        requires
            old(buf)@.len() == encoding(*self).len(),
        ensures
            final(buf)@ == encoding(*self),
    {
        match *self {
            Command::NOP => {
                buf[0] = 0;
            },
            Command::Statistics => {
                buf[0] = 1;
            },
            Command::Navigate { navigate, speed } => {
                buf[0] = 2;
                buf[1] = navigate.to_u8();
                buf[2] = speed;
            },
            Command::TH { enabled } => {
                buf[0] = 3;
                buf[1] = enabled as u8;
            },
            Command::Nixie { enabled, brightness } => {
                buf[0] = 4;
                buf[1] = enabled as u8;
                buf[2] = brightness;
            },
            Command::Servos { angle } => {
                buf[0] = 5;
                buf[1] = angle;
            },
            Command::Trace { enabled } => {
                buf[0] = 6;
                buf[1] = enabled as u8;
            },
            Command::Ultrasonic { enabled } => {
                buf[0] = 7;
                buf[1] = enabled as u8;
            },
            Command::Led { enabled } => {
                buf[0] = 8;
                buf[1] = enabled as u8;
            },
        }
        proof {
            assert(final(buf)@ =~= encoding(*self));
        }
    }

    /// Decodes a command from its bytes. Extra bytes after the command are ignored;
    /// an unknown direction code decodes as `Brake`.
    pub fn parse(buf: &[u8]) -> (r: Result<Command, CommandError>)
        ensures
            r == decoding(buf@),
    {
        let len = buf.len();
        if len == 0 {
            return Err(CommandError::ParserError);
        }
        let tag = buf[0];
        let needed: usize = if tag == 2 || tag == 4 {
            3
        } else if tag <= 1 {
            1
        } else {
            2
        };
        if tag > 8 {
            Err(CommandError::UnknownCommand)
        } else if len < needed {
            Err(CommandError::ParserError)
        } else if tag == 0 {
            Ok(Command::NOP)
        } else if tag == 1 {
            Ok(Command::Statistics)
        } else if tag == 2 {
            let navigate = match Navigate::from_u8(buf[1]) {
                Some(n) => n,
                None => Navigate::Brake,
            };
            Ok(Command::Navigate { navigate, speed: buf[2] })
        } else if tag == 3 {
            Ok(Command::TH { enabled: buf[1] != 0 })
        } else if tag == 4 {
            Ok(Command::Nixie { enabled: buf[1] != 0, brightness: buf[2] })
        } else if tag == 5 {
            Ok(Command::Servos { angle: buf[1] })
        } else if tag == 6 {
            Ok(Command::Trace { enabled: buf[1] != 0 })
        } else if tag == 7 {
            Ok(Command::Ultrasonic { enabled: buf[1] != 0 })
        } else {
            Ok(Command::Led { enabled: buf[1] != 0 })
        }
    }
}

/// Decoding a command's encoding gives the command back.
pub proof fn lemma_round_trip(c: Command)
    ensures
        decoding(encoding(c)) == Ok::<Command, CommandError>(c),
{
    match c {
        Command::Navigate { navigate, speed } => {
            assert(navigate_of(navigate_code(navigate)) == navigate);
        },
        _ => {},
    }
}

/// Bytes shorter than their tag requires fail with `ParserError` for tags 2 to 8, and
/// any tag from 9 up fails with `UnknownCommand`, whatever follows it.
pub proof fn lemma_decode_errors(b: Seq<u8>)
    requires
        b.len() > 0,
    ensures
        2 <= b[0] <= 8 && b.len() < tag_len(b[0]) ==> decoding(b) == Err::<Command, CommandError>(
            CommandError::ParserError,
        ),
        b[0] >= 9 ==> decoding(b) == Err::<Command, CommandError>(CommandError::UnknownCommand),
{
}

} // verus!
