//! What a request is answered with: a status, or the reason it was refused.

use vstd::prelude::*;

verus! {

/// The answer to a request that was accepted.
#[derive(Clone, Copy, Debug, PartialEq, Eq, Structural)]
pub enum Status {
    /// The member has no active expiration now.
    NoActiveExpiration,
    /// An expiration was set, or the member was removed at once.
    Acted,
}

/// Why a request was refused. A refused request changes nothing.
#[derive(Clone, Copy, Debug, PartialEq, Eq, Structural)]
pub enum CommandError {
    /// The command came with too few or too many arguments.
    WrongArity,
    /// The time unit is neither seconds nor milliseconds.
    InvalidUnit,
    /// The key holds a value whose members cannot be removed.
    UnsupportedType,
}

/// The number of arguments of a command without a time unit: its name, the
/// collection key, the member and the time-to-live.
pub const ARGS_WITHOUT_UNIT: usize = 4;

impl Status {
    /// The integer sent to the caller: 0 for no active expiration, 1 for a
    /// request acted upon.
    pub fn code(self) -> (code: i64)
        ensures
            code == (if self == Status::Acted { 1int } else { 0int }),
    {
        match self {
            Status::NoActiveExpiration => 0,
            Status::Acted => 1,
        }
    }
}

impl CommandError {
    /// The text sent to the caller.
    pub fn message(self) -> (text: &'static str)
        ensures
            self == CommandError::WrongArity ==> text@
                == "ERR wrong number of arguments for 'expiremember' command"@,
            self == CommandError::InvalidUnit ==> text@
                == "ERR invalid time unit for 'expiremember' command"@,
            self == CommandError::UnsupportedType ==> text@
                == "ERR key type not supported for 'expiremember' command"@,
    {
        match self {
            CommandError::WrongArity => "ERR wrong number of arguments for 'expiremember' command",
            CommandError::InvalidUnit => "ERR invalid time unit for 'expiremember' command",
            CommandError::UnsupportedType =>
                "ERR key type not supported for 'expiremember' command",
        }
    }
}

/// Tells from the number of arguments whether a time unit was given: it is
/// the one argument that may follow the time-to-live.
pub fn unit_given(argc: usize) -> (given: Result<bool, CommandError>)
    ensures
        argc == ARGS_WITHOUT_UNIT ==> given == Ok::<bool, CommandError>(false),
        argc == ARGS_WITHOUT_UNIT + 1 ==> given == Ok::<bool, CommandError>(true),
        argc != ARGS_WITHOUT_UNIT && argc != ARGS_WITHOUT_UNIT + 1 ==> given == Err::<
            bool,
            CommandError,
        >(CommandError::WrongArity),
{
    if argc == ARGS_WITHOUT_UNIT {
        Ok(false)
    } else if argc == ARGS_WITHOUT_UNIT + 1 {
        Ok(true)
    } else {
        Err(CommandError::WrongArity)
    }
}

} // verus!
