//! The vocabulary spoken between a session and the playback engine.
//!
//! The engine is reached through three primitives (read a property, write a
//! property, run a command) and four lifecycle calls. This module names the
//! calls a session may ask for and the reply each one brings back. Nothing
//! here touches an engine: a call is a value that the embedding program
//! carries out, and a reply is the value it hands back.

use vstd::prelude::*;

verus! {

/// Bit pattern of the number zero.
pub const ZERO_BITS: u64 = 0;

/// Bit pattern of the number one.
pub const ONE_BITS: u64 = 0x3FF0_0000_0000_0000;

/// Bit pattern of the number one hundred.
pub const HUNDRED_BITS: u64 = 0x4059_0000_0000_0000;

/// The address of an engine instance. Zero is the null handle, which
/// stands for "no engine".
#[derive(Clone, Copy, Debug, PartialEq, Eq, Structural)]
pub struct EngineHandle {
    pub addr: u64,
}

/// A double-precision number of the engine, carried by its IEEE-754 bit
/// pattern. The session never computes with such a number: it passes
/// positions through and fills in a few fixed values.
#[derive(Clone, Copy, Debug, PartialEq, Eq, Structural)]
pub struct Double {
    pub bits: u64,
}

impl Double {
    /// The number zero.
    pub open spec fn spec_zero() -> Double {
        Double { bits: ZERO_BITS }
    }

    /// The number one.
    pub open spec fn spec_one() -> Double {
        Double { bits: ONE_BITS }
    }

    /// The number one hundred.
    pub open spec fn spec_hundred() -> Double {
        Double { bits: HUNDRED_BITS }
    }

    /// The number zero.
    #[verifier::when_used_as_spec(spec_zero)]
    pub fn zero() -> (number: Double)
        ensures
            number == Double::spec_zero(),
    {
        Double { bits: ZERO_BITS }
    }

    /// The number one.
    #[verifier::when_used_as_spec(spec_one)]
    pub fn one() -> (number: Double)
        ensures
            number == Double::spec_one(),
    {
        Double { bits: ONE_BITS }
    }

    /// The number one hundred.
    #[verifier::when_used_as_spec(spec_hundred)]
    pub fn hundred() -> (number: Double)
        ensures
            number == Double::spec_hundred(),
    {
        Double { bits: HUNDRED_BITS }
    }
}

/// The engine properties a session reads or writes.
#[derive(Clone, Copy, Debug, PartialEq, Eq, Structural)]
pub enum Property {
    /// Whether playback is paused (a flag).
    Pause,
    /// The playback position in seconds.
    TimePos,
    /// The length of the loaded media in seconds.
    Duration,
    /// The volume in percent.
    Volume,
    /// The playback speed as a multiplier.
    Speed,
}

impl Property {
    /// The name by which the engine knows the property.
    pub open spec fn spec_name(self) -> Seq<char> {
        match self {
            Property::Pause => "pause"@,
            Property::TimePos => "time-pos"@,
            Property::Duration => "duration"@,
            Property::Volume => "volume"@,
            Property::Speed => "speed"@,
        }
    }

    /// The name by which the engine knows the property.
    pub fn name(&self) -> (name: &'static str)
        ensures
            name@ == self.spec_name(),
    {
        match self {
            Property::Pause => "pause",
            Property::TimePos => "time-pos",
            Property::Duration => "duration",
            Property::Volume => "volume",
            Property::Speed => "speed",
        }
    }
}

/// The options fixed on an engine before it is brought up. Both are always
/// switched on.
#[derive(Clone, Copy, Debug, PartialEq, Eq, Structural)]
pub enum StartupOption {
    /// Stay resident while no media is loaded.
    Idle,
    /// Do not close at the end of the file.
    KeepOpen,
}

impl StartupOption {
    /// The name by which the engine knows the option.
    pub open spec fn spec_name(self) -> Seq<char> {
        match self {
            StartupOption::Idle => "idle"@,
            StartupOption::KeepOpen => "keep-open"@,
        }
    }

    /// The name by which the engine knows the option.
    pub fn name(&self) -> (name: &'static str)
        ensures
            name@ == self.spec_name(),
    {
        match self {
            StartupOption::Idle => "idle",
            StartupOption::KeepOpen => "keep-open",
        }
    }

    /// The value the option is set to: every startup option is switched on.
    pub fn value(&self) -> (value: &'static str)
        ensures
            value@ == "yes"@,
    {
        "yes"
    }
}

/// The name of the engine command that loads a file.
pub fn load_file_verb() -> (verb: &'static str)
    ensures
        verb@ == "loadfile"@,
{
    "loadfile"
}

/// One call for the embedding program to make on the engine.
#[derive(Debug, PartialEq, Eq)]
pub enum EngineCall {
    /// Create an engine instance.
    Create,
    /// Switch a startup option on, before the instance is brought up.
    SetOption { handle: EngineHandle, option: StartupOption },
    /// Bring a created instance up.
    Initialize { handle: EngineHandle },
    /// Destroy an instance.
    Destroy { handle: EngineHandle },
    /// Read a flag property.
    GetFlag { handle: EngineHandle, property: Property },
    /// Write a flag property.
    SetFlag { handle: EngineHandle, property: Property, on: bool },
    /// Read a number property.
    GetDouble { handle: EngineHandle, property: Property },
    /// Write a number property.
    SetDouble { handle: EngineHandle, property: Property, number: Double },
    /// Run the command that loads a file, with the path as its one argument.
    LoadFile { handle: EngineHandle, path: String },
}

/// What the engine answered to one call.
///
/// `status` is the engine's status code: zero for success, negative for a
/// failure, and zero for the calls that report none (creating and destroying
/// an instance). `word` is the machine word the call produced: the address
/// of the new instance for a creation (zero if none was created), the flag
/// for a flag read (zero for off), the bit pattern for a number read. Other
/// calls produce no word, and the session reads none from their replies.
#[derive(Clone, Copy, Debug, PartialEq, Eq, Structural)]
pub struct EngineReply {
    pub status: i32,
    pub word: u64,
}

} // verus!
