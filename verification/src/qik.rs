//! Driver for the dual serial motor controller: the wire protocol is
//! computed and checked here, and only the raw byte transport over the
//! serial port is trusted.

use vstd::prelude::*;

verus! {

/// The two motor channels.
#[derive(Debug, Clone, Copy, PartialEq, Eq, Structural)]
pub enum Motor {
    M0,
    M1,
}

/// The controller's configuration parameters.
#[allow(non_camel_case_types)]
#[derive(Debug, Clone, Copy, PartialEq, Eq, Structural)]
pub enum ConfigParam {
    DEVICE_ID,
    PWM_PARAMETER,
    SHUT_DOWN_MOTORS_ON_ERROR,
    SERIAL_TIMEOUT,
    MOTOR_M0_ACCELERATION,
    MOTOR_M1_ACCELERATION,
    MOTOR_M0_BRAKE_DURATION,
    MOTOR_M1_BRAKE_DURATION,
    MOTOR_M0_CURRENT_LIMIT_DIV_2,
    MOTOR_M1_CURRENT_LIMIT_DIV_2,
    MOTOR_M0_CURRENT_LIMIT_RESPONSE,
    MOTOR_M1_CURRENT_LIMIT_RESPONSE,
}

/// The controller's command set. The coast commands belong to the 2s9v1
/// variant and the brake and current/speed queries to the 2s12v10 variant,
/// which is why two of the code points coincide.
#[allow(non_camel_case_types)]
#[derive(Debug, Clone, Copy, PartialEq, Eq, Structural)]
pub enum Command {
    GET_FIRMWARE_VERSION,
    GET_ERROR_BYTE,
    GET_CONFIGURATION_PARAMETER,
    SET_CONFIGURATION_PARAMETER,
    MOTOR_M0_FORWARD,
    MOTOR_M0_FORWARD_8_BIT,
    MOTOR_M0_REVERSE,
    MOTOR_M0_REVERSE_8_BIT,
    MOTOR_M1_FORWARD,
    MOTOR_M1_FORWARD_8_BIT,
    MOTOR_M1_REVERSE,
    MOTOR_M1_REVERSE_8_BIT,
    MOTOR_M0_COAST,
    MOTOR_M1_COAST,
    MOTOR_M0_BRAKE,
    MOTOR_M1_BRAKE,
    GET_MOTOR_M0_CURRENT,
    GET_MOTOR_M1_CURRENT,
    GET_MOTOR_M0_SPEED,
    GET_MOTOR_M1_SPEED,
}

/// The wire byte of each command.
pub open spec fn cmd_byte_spec(cmd: Command) -> u8 {
    match cmd {
        Command::GET_FIRMWARE_VERSION => 0x81,
        Command::GET_ERROR_BYTE => 0x82,
        Command::GET_CONFIGURATION_PARAMETER => 0x83,
        Command::SET_CONFIGURATION_PARAMETER => 0x84,
        Command::MOTOR_M0_FORWARD => 0x88,
        Command::MOTOR_M0_FORWARD_8_BIT => 0x89,
        Command::MOTOR_M0_REVERSE => 0x8A,
        Command::MOTOR_M0_REVERSE_8_BIT => 0x8B,
        Command::MOTOR_M1_FORWARD => 0x8C,
        Command::MOTOR_M1_FORWARD_8_BIT => 0x8D,
        Command::MOTOR_M1_REVERSE => 0x8E,
        Command::MOTOR_M1_REVERSE_8_BIT => 0x8F,
        Command::MOTOR_M0_COAST => 0x86,
        Command::MOTOR_M1_COAST => 0x87,
        Command::MOTOR_M0_BRAKE => 0x86,
        Command::MOTOR_M1_BRAKE => 0x87,
        Command::GET_MOTOR_M0_CURRENT => 0x90,
        Command::GET_MOTOR_M1_CURRENT => 0x91,
        Command::GET_MOTOR_M0_SPEED => 0x92,
        Command::GET_MOTOR_M1_SPEED => 0x93,
    }
}

/// Look up the wire byte of a command.
pub fn get_cmd_byte(cmd: Command) -> (r: u8)
    ensures
        r == cmd_byte_spec(cmd),
{
    match cmd {
        Command::GET_FIRMWARE_VERSION => 0x81,
        Command::GET_ERROR_BYTE => 0x82,
        Command::GET_CONFIGURATION_PARAMETER => 0x83,
        Command::SET_CONFIGURATION_PARAMETER => 0x84,
        Command::MOTOR_M0_FORWARD => 0x88,
        Command::MOTOR_M0_FORWARD_8_BIT => 0x89,
        Command::MOTOR_M0_REVERSE => 0x8A,
        Command::MOTOR_M0_REVERSE_8_BIT => 0x8B,
        Command::MOTOR_M1_FORWARD => 0x8C,
        Command::MOTOR_M1_FORWARD_8_BIT => 0x8D,
        Command::MOTOR_M1_REVERSE => 0x8E,
        Command::MOTOR_M1_REVERSE_8_BIT => 0x8F,
        Command::MOTOR_M0_COAST => 0x86,
        Command::MOTOR_M1_COAST => 0x87,
        Command::MOTOR_M0_BRAKE => 0x86,
        Command::MOTOR_M1_BRAKE => 0x87,
        Command::GET_MOTOR_M0_CURRENT => 0x90,
        Command::GET_MOTOR_M1_CURRENT => 0x91,
        Command::GET_MOTOR_M0_SPEED => 0x92,
        Command::GET_MOTOR_M1_SPEED => 0x93,
    }
}

/// The wire byte of each configuration parameter.
pub open spec fn config_param_byte_spec(p: ConfigParam) -> u8 {
    match p {
        ConfigParam::DEVICE_ID => 0,
        ConfigParam::PWM_PARAMETER => 1,
        ConfigParam::SHUT_DOWN_MOTORS_ON_ERROR => 2,
        ConfigParam::SERIAL_TIMEOUT => 3,
        ConfigParam::MOTOR_M0_ACCELERATION => 4,
        ConfigParam::MOTOR_M1_ACCELERATION => 5,
        ConfigParam::MOTOR_M0_BRAKE_DURATION => 6,
        ConfigParam::MOTOR_M1_BRAKE_DURATION => 7,
        ConfigParam::MOTOR_M0_CURRENT_LIMIT_DIV_2 => 8,
        ConfigParam::MOTOR_M1_CURRENT_LIMIT_DIV_2 => 9,
        ConfigParam::MOTOR_M0_CURRENT_LIMIT_RESPONSE => 10,
        ConfigParam::MOTOR_M1_CURRENT_LIMIT_RESPONSE => 11,
    }
}

/// Look up the wire byte of a configuration parameter.
pub fn get_config_param_byte(p: ConfigParam) -> (r: u8)
    ensures
        r == config_param_byte_spec(p),
{
    match p {
        ConfigParam::DEVICE_ID => 0,
        ConfigParam::PWM_PARAMETER => 1,
        ConfigParam::SHUT_DOWN_MOTORS_ON_ERROR => 2,
        ConfigParam::SERIAL_TIMEOUT => 3,
        ConfigParam::MOTOR_M0_ACCELERATION => 4,
        ConfigParam::MOTOR_M1_ACCELERATION => 5,
        ConfigParam::MOTOR_M0_BRAKE_DURATION => 6,
        ConfigParam::MOTOR_M1_BRAKE_DURATION => 7,
        ConfigParam::MOTOR_M0_CURRENT_LIMIT_DIV_2 => 8,
        ConfigParam::MOTOR_M1_CURRENT_LIMIT_DIV_2 => 9,
        ConfigParam::MOTOR_M0_CURRENT_LIMIT_RESPONSE => 10,
        ConfigParam::MOTOR_M1_CURRENT_LIMIT_RESPONSE => 11,
    }
}

/// A failure of the serial transport under a controller exchange.
#[derive(Debug, Clone, Copy, PartialEq, Eq, Structural)]
pub enum QikError {
    /// The port rejected a read or write.
    Serial,
}

/// The two command-and-magnitude bytes a signed speed maps to: the 8-bit
/// forward or reverse command for the channel, and the clamped magnitude.
pub open spec fn speed_command_spec(m: Motor, speed: i8) -> (u8, u8) {
    let cmd = match m {
        Motor::M0 => if speed >= 0 {
            Command::MOTOR_M0_FORWARD_8_BIT
        } else {
            Command::MOTOR_M0_REVERSE_8_BIT
        },
        Motor::M1 => if speed >= 0 {
            Command::MOTOR_M1_FORWARD_8_BIT
        } else {
            Command::MOTOR_M1_REVERSE_8_BIT
        },
    };
    let magnitude: int = if speed >= 0 {
        speed as int
    } else if -(speed as int) > 127 {
        127
    } else {
        -(speed as int)
    };
    (cmd_byte_spec(cmd), magnitude as u8)
}

/// Compute the wire bytes of a signed speed command.
pub fn speed_command_bytes(m: Motor, speed: i8) -> (r: (u8, u8))
    ensures
        r == speed_command_spec(m, speed),
{
    if speed >= 0 {
        let cmd = get_cmd_byte(
            match m {
                Motor::M0 => Command::MOTOR_M0_FORWARD_8_BIT,
                Motor::M1 => Command::MOTOR_M1_FORWARD_8_BIT,
            },
        );
        (cmd, speed as u8)
    } else {
        let cmd = get_cmd_byte(
            match m {
                Motor::M0 => Command::MOTOR_M0_REVERSE_8_BIT,
                Motor::M1 => Command::MOTOR_M1_REVERSE_8_BIT,
            },
        );
        let wide: i16 = -(speed as i16);
        let magnitude: u8 = if wide > 127 {
            127
        } else {
            wide as u8
        };
        (cmd, magnitude)
    }
}

/// Declares serial_unix::TTYPort, the open serial device handle, as an
/// opaque outside type so it can sit in a field.
#[verifier::external_type_specification]
#[verifier::external_body]
pub struct ExTTYPort(serial::unix::TTYPort);

/// Declares std::io::Error, the transport error the port reports, as an
/// opaque outside type so wrappers can return it.
#[verifier::external_type_specification]
#[verifier::external_body]
pub struct ExIoError(std::io::Error);

/// Relies on std::io::Write::write_all over serial_unix::TTYPort: transmits
/// the whole buffer to the port, or reports the first transport error.
#[verifier::external_body]
fn port_write_all(port: &mut serial::unix::TTYPort, buf: &[u8]) -> (r: Result<(), std::io::Error>) {
    std::io::Write::write_all(port, buf)
}

/// Relies on std::io::Read::read_exact over serial_unix::TTYPort: fills the
/// buffer completely from the port, or reports the first transport error.
/// The buffer keeps its length either way.
#[verifier::external_body]
fn port_read_exact(port: &mut serial::unix::TTYPort, buf: &mut Vec<u8>) -> (r: Result<
    (),
    std::io::Error,
>)
    ensures
        final(buf)@.len() == old(buf)@.len(),
{
    std::io::Read::read_exact(port, buf.as_mut_slice())
}

/// A dual motor controller on a serial port. The bytes handed to the port
/// are mirrored in a ghost transmission log, so each protocol method can
/// state exactly what it put on the wire.
pub struct Qik {
    /// The device path the port was opened from.
    pub device: String,
    port: serial::unix::TTYPort,
    sent: Ghost<Seq<u8>>,
}

impl Qik {
    /// Every byte this controller handle has successfully handed to the
    /// port, in order.
    pub closed spec fn sent_log(self) -> Seq<u8> {
        self.sent@
    }

    /// Wrap an already opened and configured serial port. Opening and
    /// configuring the port is device set-up, done by the embedding program.
    pub fn from_port(device: String, port: serial::unix::TTYPort) -> (r: Qik)
        ensures
            r.sent_log() == Seq::<u8>::empty(),
    {
        Qik { device, port, sent: Ghost(Seq::empty()) }
    }

    /// Write a byte buffer to the serial port.
    fn write(&mut self, buf: &[u8]) -> (r: Result<(), QikError>)
        ensures
            r is Ok ==> final(self).sent_log() == old(self).sent_log() + buf@,
            r is Err ==> final(self).sent_log() == old(self).sent_log(),
    {
        match port_write_all(&mut self.port, buf) {
            Ok(()) => {
                proof {
                    self.sent@ = self.sent@ + buf@;
                }
                Ok(())
            },
            Err(_) => Err(QikError::Serial),
        }
    }

    /// Write a single byte to the serial port.
    fn write_byte(&mut self, b: u8) -> (r: Result<(), QikError>)
        ensures
            r is Ok ==> final(self).sent_log() == old(self).sent_log() + seq![b],
            r is Err ==> final(self).sent_log() == old(self).sent_log(),
    {
        let buf: [u8; 1] = [b];
        proof {
            assert(buf@ =~= seq![b]);
        }
        self.write(buf.as_slice())
    }

    /// Read a fixed number of bytes from the serial port.
    fn read(&mut self, n: usize) -> (r: Result<Vec<u8>, QikError>)
        ensures
            r matches Ok(v) ==> v@.len() == n,
            final(self).sent_log() == old(self).sent_log(),
    {
        let mut buf: Vec<u8> = Vec::new();
        let mut i: usize = 0;
        while i < n
            invariant
                buf@.len() == i,
                i <= n,
            decreases n - i,
        {
            buf.push(0);
            i = i + 1;
        }
        match port_read_exact(&mut self.port, &mut buf) {
            Ok(()) => Ok(buf),
            Err(_) => Err(QikError::Serial),
        }
    }

    /// Read a single byte from the serial port.
    fn read_byte(&mut self) -> (r: Result<u8, QikError>)
        ensures
            final(self).sent_log() == old(self).sent_log(),
    {
        let buf = self.read(1)?;
        Ok(buf[0])
    }

    /// Wake the controller's automatic baud detection.
    pub fn init(&mut self) -> (r: Result<(), QikError>)
        ensures
            r is Ok ==> final(self).sent_log() == old(self).sent_log() + seq![0xAAu8],
            r is Err ==> final(self).sent_log() == old(self).sent_log(),
    {
        self.write_byte(0xAA)
    }

    /// Query the controller's firmware version byte.
    pub fn get_firmware_version(&mut self) -> (r: Result<u8, QikError>)
        ensures
            r is Ok ==> final(self).sent_log() == old(self).sent_log() + seq![
                cmd_byte_spec(Command::GET_FIRMWARE_VERSION),
            ],
    {
        self.write_byte(get_cmd_byte(Command::GET_FIRMWARE_VERSION))?;
        self.read_byte()
    }

    /// Query one configuration parameter.
    pub fn get_config(&mut self, p: ConfigParam) -> (r: Result<u8, QikError>)
        ensures
            r is Ok ==> final(self).sent_log() == old(self).sent_log() + seq![
                cmd_byte_spec(Command::GET_CONFIGURATION_PARAMETER),
                config_param_byte_spec(p),
            ],
    {
        let cmd: [u8; 2] = [
            get_cmd_byte(Command::GET_CONFIGURATION_PARAMETER),
            get_config_param_byte(p),
        ];
        proof {
            assert(cmd@ =~= seq![
                cmd_byte_spec(Command::GET_CONFIGURATION_PARAMETER),
                config_param_byte_spec(p),
            ]);
        }
        self.write(cmd.as_slice())?;
        self.read_byte()
    }

    /// Set one configuration parameter; the controller answers with a
    /// status byte.
    pub fn set_config(&mut self, p: ConfigParam, v: u8) -> (r: Result<u8, QikError>)
        ensures
            r is Ok ==> final(self).sent_log() == old(self).sent_log() + seq![
                cmd_byte_spec(Command::SET_CONFIGURATION_PARAMETER),
                config_param_byte_spec(p),
                v,
                0x55u8,
                0x2Au8,
            ],
    {
        let cmd: [u8; 5] = [
            get_cmd_byte(Command::SET_CONFIGURATION_PARAMETER),
            get_config_param_byte(p),
            v,
            0x55,
            0x2A,
        ];
        proof {
            assert(cmd@ =~= seq![
                cmd_byte_spec(Command::SET_CONFIGURATION_PARAMETER),
                config_param_byte_spec(p),
                v,
                0x55u8,
                0x2Au8,
            ]);
        }
        self.write(cmd.as_slice())?;
        self.read_byte()
    }

    /// Read and clear the controller's error byte.
    pub fn get_error(&mut self) -> (r: Result<u8, QikError>)
        ensures
            r is Ok ==> final(self).sent_log() == old(self).sent_log() + seq![
                cmd_byte_spec(Command::GET_ERROR_BYTE),
            ],
    {
        self.write_byte(get_cmd_byte(Command::GET_ERROR_BYTE))?;
        self.read_byte()
    }

    /// Query the magnitude of a channel's current speed.
    pub fn get_speed(&mut self, m: Motor) -> (r: Result<u8, QikError>)
        ensures
            r is Ok ==> final(self).sent_log() == old(self).sent_log() + seq![
                cmd_byte_spec(
                    match m {
                        Motor::M0 => Command::GET_MOTOR_M0_SPEED,
                        Motor::M1 => Command::GET_MOTOR_M1_SPEED,
                    },
                ),
            ],
    {
        self.write_byte(
            get_cmd_byte(
                match m {
                    Motor::M0 => Command::GET_MOTOR_M0_SPEED,
                    Motor::M1 => Command::GET_MOTOR_M1_SPEED,
                },
            ),
        )?;
        self.read_byte()
    }

    /// Drive a channel at a signed speed, reverse for negative values.
    pub fn set_speed(&mut self, m: Motor, speed: i8) -> (r: Result<(), QikError>)
        ensures
            r is Ok ==> final(self).sent_log() == old(self).sent_log() + seq![
                speed_command_spec(m, speed).0,
                speed_command_spec(m, speed).1,
            ],
            r is Err ==> final(self).sent_log() == old(self).sent_log(),
    {
        let bytes = speed_command_bytes(m, speed);
        let cmd: [u8; 2] = [bytes.0, bytes.1];
        proof {
            assert(cmd@ =~= seq![speed_command_spec(m, speed).0, speed_command_spec(m, speed).1]);
        }
        self.write(cmd.as_slice())
    }

    /// Brake a channel with the given intensity, clamped to the
    /// controller's maximum of 127.
    pub fn set_brake(&mut self, m: Motor, brake: u8) -> (r: Result<(), QikError>)
        ensures
            r is Ok ==> final(self).sent_log() == old(self).sent_log() + seq![
                cmd_byte_spec(
                    match m {
                        Motor::M0 => Command::MOTOR_M0_BRAKE,
                        Motor::M1 => Command::MOTOR_M1_BRAKE,
                    },
                ),
                (if brake > 127 {
                    127u8
                } else {
                    brake
                }),
            ],
            r is Err ==> final(self).sent_log() == old(self).sent_log(),
    {
        let clamped: u8 = if brake > 127 {
            127
        } else {
            brake
        };
        let cmd_byte = get_cmd_byte(
            match m {
                Motor::M0 => Command::MOTOR_M0_BRAKE,
                Motor::M1 => Command::MOTOR_M1_BRAKE,
            },
        );
        let cmd: [u8; 2] = [cmd_byte, clamped];
        proof {
            assert(cmd@ =~= seq![cmd_byte, clamped]);
        }
        self.write(cmd.as_slice())
    }

    /// Let a channel coast freely.
    pub fn set_coast(&mut self, m: Motor) -> (r: Result<(), QikError>)
        ensures
            r is Ok ==> final(self).sent_log() == old(self).sent_log() + seq![
                cmd_byte_spec(
                    match m {
                        Motor::M0 => Command::MOTOR_M0_COAST,
                        Motor::M1 => Command::MOTOR_M1_COAST,
                    },
                ),
            ],
            r is Err ==> final(self).sent_log() == old(self).sent_log(),
    {
        self.write_byte(
            get_cmd_byte(
                match m {
                    Motor::M0 => Command::MOTOR_M0_COAST,
                    Motor::M1 => Command::MOTOR_M1_COAST,
                },
            ),
        )
    }
}

} // verus!
