//! The ways an operation on a session can fail.

use vstd::prelude::*;

verus! {

/// Why an operation failed. Where the engine reported a status code, the
/// error carries it unchanged.
#[derive(Clone, Copy, Debug, PartialEq, Eq, Structural)]
pub enum MediaError {
    /// The session holds no engine yet: initialize it first.
    NotInitialized,
    /// The engine could not create an instance.
    EngineCreation,
    /// The created instance could not be brought up; it has been destroyed.
    EngineInit { status: i32 },
    /// Reading a property failed.
    PropertyRead { status: i32 },
    /// Writing a property failed.
    PropertyWrite { status: i32 },
    /// The engine rejected a command.
    CommandFailed { status: i32 },
}

/// The character of the decimal digit `digit`.
pub open spec fn digit_char(digit: int) -> char {
    if digit == 0 {
        '0'
    } else if digit == 1 {
        '1'
    } else if digit == 2 {
        '2'
    } else if digit == 3 {
        '3'
    } else if digit == 4 {
        '4'
    } else if digit == 5 {
        '5'
    } else if digit == 6 {
        '6'
    } else if digit == 7 {
        '7'
    } else if digit == 8 {
        '8'
    } else {
        '9'
    }
}

/// The decimal digits of `value`, most significant first, without leading
/// zeros.
pub open spec fn natural_digits(value: nat) -> Seq<char>
    decreases value,
{
    if value < 10 {
        seq![digit_char(value as int)]
    } else {
        natural_digits(value / 10) + seq![digit_char((value % 10) as int)]
    }
}

/// The decimal text of `value`: its digits, after a minus sign where it is
/// negative.
pub open spec fn decimal(value: int) -> Seq<char> {
    if value < 0 {
        seq!['-'] + natural_digits((-value) as nat)
    } else {
        natural_digits(value as nat)
    }
}

/// The text of one decimal digit.
fn digit_text(digit: u32) -> (text: &'static str)
    requires
        digit < 10,
    ensures
        text@ == seq![digit_char(digit as int)],
{
    proof {
        reveal_strlit("0");
        reveal_strlit("1");
        reveal_strlit("2");
        reveal_strlit("3");
        reveal_strlit("4");
        reveal_strlit("5");
        reveal_strlit("6");
        reveal_strlit("7");
        reveal_strlit("8");
        reveal_strlit("9");
    }
    if digit == 0 {
        "0"
    } else if digit == 1 {
        "1"
    } else if digit == 2 {
        "2"
    } else if digit == 3 {
        "3"
    } else if digit == 4 {
        "4"
    } else if digit == 5 {
        "5"
    } else if digit == 6 {
        "6"
    } else if digit == 7 {
        "7"
    } else if digit == 8 {
        "8"
    } else {
        "9"
    }
}

/// Appends the decimal digits of `value` to `text`.
fn push_digits(text: &mut String, value: u32)
    ensures
        final(text)@ == old(text)@ + natural_digits(value as nat),
    decreases value,
{
    if value >= 10 {
        push_digits(text, value / 10);
    }
    text.append(digit_text(value % 10));
}

/// Appends the decimal text of `value` to `text`.
fn push_decimal(text: &mut String, value: i32)
    ensures
        final(text)@ == old(text)@ + decimal(value as int),
{
    if value < 0 {
        proof {
            reveal_strlit("-");
        }
        text.append("-");
        let magnitude: u32 = (-(value as i64)) as u32;
        push_digits(text, magnitude);
    } else {
        push_digits(text, value as u32);
    }
}

impl MediaError {
    /// The failure in words, with the engine's status in decimal where it
    /// has one.
    pub open spec fn spec_message(&self) -> Seq<char> {
        match *self {
            MediaError::NotInitialized => "mpv not initialized"@,
            MediaError::EngineCreation => "Failed to create mpv instance"@,
            MediaError::EngineInit { status } => "Failed to initialize mpv: "@ + decimal(
                status as int,
            ),
            MediaError::PropertyRead { status } => "Failed to get pause state: "@ + decimal(
                status as int,
            ),
            MediaError::PropertyWrite { status } => "Failed to seek: "@ + decimal(status as int),
            MediaError::CommandFailed { status } => "Failed to load video: "@ + decimal(
                status as int,
            ),
        }
    }

    /// The failure in words, with the engine's status in decimal where it
    /// has one.
    pub fn message(&self) -> (message: String)
        ensures
            message@ == self.spec_message(),
    {
        match self {
            MediaError::NotInitialized => String::from_str("mpv not initialized"),
            MediaError::EngineCreation => String::from_str("Failed to create mpv instance"),
            MediaError::EngineInit { status } => {
                let mut message = String::from_str("Failed to initialize mpv: ");
                push_decimal(&mut message, *status);
                message
            },
            MediaError::PropertyRead { status } => {
                let mut message = String::from_str("Failed to get pause state: ");
                push_decimal(&mut message, *status);
                message
            },
            MediaError::PropertyWrite { status } => {
                let mut message = String::from_str("Failed to seek: ");
                push_decimal(&mut message, *status);
                message
            },
            MediaError::CommandFailed { status } => {
                let mut message = String::from_str("Failed to load video: ");
                push_decimal(&mut message, *status);
                message
            },
        }
    }

    /// The status code the engine reported, where the failure has one.
    pub open spec fn spec_status(&self) -> Option<i32> {
        match *self {
            MediaError::NotInitialized => None,
            MediaError::EngineCreation => None,
            MediaError::EngineInit { status } => Some(status),
            MediaError::PropertyRead { status } => Some(status),
            MediaError::PropertyWrite { status } => Some(status),
            MediaError::CommandFailed { status } => Some(status),
        }
    }

    /// The status code the engine reported, where the failure has one.
    #[verifier::when_used_as_spec(spec_status)]
    pub fn status(&self) -> (status: Option<i32>)
        ensures
            status == self.spec_status(),
    {
        match self {
            MediaError::NotInitialized => None,
            MediaError::EngineCreation => None,
            MediaError::EngineInit { status } => Some(*status),
            MediaError::PropertyRead { status } => Some(*status),
            MediaError::PropertyWrite { status } => Some(*status),
            MediaError::CommandFailed { status } => Some(*status),
        }
    }
}

} // verus!
