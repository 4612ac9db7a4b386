//! The command of a proxy request.
use crate::error::Error;
use vstd::prelude::*;

verus! {

/// The wire value of Connect.
pub const CONNECT: u8 = 1;

/// The wire value of Bind.
pub const BIND: u8 = 2;

/// The wire value of Udp.
pub const UDP: u8 = 3;

/// What the client asks the proxy to do. Bind can be read off the wire and
/// is refused when the request is dispatched.
#[derive(Copy, Clone, Debug, PartialEq, Eq, Structural)]
pub enum Command {
    Connect,
    Bind,
    Udp,
}

impl Command {
    /// The wire value of this command: 1, 2 or 3.
    pub open spec fn spec_to_byte(&self) -> u8 {
        match *self {
            Command::Connect => CONNECT,
            Command::Bind => BIND,
            Command::Udp => UDP,
        }
    }

    /// The command that a wire byte stands for, if any.
    pub open spec fn spec_from(command: u8) -> Option<Command> {
        if command == CONNECT {
            Some(Command::Connect)
        } else if command == BIND {
            Some(Command::Bind)
        } else if command == UDP {
            Some(Command::Udp)
        } else {
            None
        }
    }

    /// Reads a command from its wire value. Any byte but 1, 2, 3 is
    /// refused as an unsupported command.
    pub fn from(command: u8) -> (parsed: Result<Command, Error>)
        ensures
            parsed == match Self::spec_from(command) {
                Some(c) => Ok::<Command, Error>(c),
                None => Err(Error::UnsupportedCommand),
            },
    {
        if command == CONNECT {
            Ok(Command::Connect)
        } else if command == BIND {
            Ok(Command::Bind)
        } else if command == UDP {
            Ok(Command::Udp)
        } else {
            Err(Error::UnsupportedCommand)
        }
    }

    /// The wire value of this command.
    #[verifier::when_used_as_spec(spec_to_byte)]
    pub fn to_byte(&self) -> (byte: u8)
        ensures
            byte == self.spec_to_byte(),
    {
        match self {
            Command::Connect => CONNECT,
            Command::Bind => BIND,
            Command::Udp => UDP,
        }
    }

    /// The name of this command.
    pub fn name(&self) -> (text: &'static str)
        ensures
            text@ == match *self {
                Command::Connect => "Connect"@,
                Command::Bind => "Bind"@,
                Command::Udp => "Udp"@,
            },
    {
        match self {
            Command::Connect => "Connect",
            Command::Bind => "Bind",
            Command::Udp => "Udp",
        }
    }
}

/// Writing a command and reading it back gives the same command, and the
/// only bytes that read as a command are the ones a command writes.
pub proof fn lemma_command_round_trip(command: Command, byte: u8)
    ensures
        Command::spec_from(command.spec_to_byte()) == Some(command),
        Command::spec_from(byte) == Some(command) <==> byte == command.spec_to_byte(),
{
}

} // verus!
