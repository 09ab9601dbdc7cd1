//! The snapshot a state query returns.

use vstd::prelude::*;
use crate::engine::{Double, EngineReply, Property};

verus! {

/// A best-effort snapshot of the engine's playback state.
///
/// Each field is what the engine reported for one property at the moment
/// that property was read; the five reads are separate calls, so the fields
/// are not sampled at one instant. A field whose read failed holds its
/// default.
#[derive(Clone, Copy, Debug, PartialEq, Eq, Structural)]
pub struct PlaybackState {
    /// Whether playback is running: the negation of the engine's pause flag.
    pub playing: bool,
    /// The playback position in seconds.
    pub current_time: Double,
    /// The length of the loaded media in seconds.
    pub duration: Double,
    /// The volume in percent.
    pub volume: Double,
    /// The playback speed as a multiplier.
    pub speed: Double,
}

/// The number a read of `property` yields: the word the engine produced
/// where the read succeeded, else the property's default, which is one
/// hundred for the volume, one for the speed and zero for the rest.
pub open spec fn spec_number_read(property: Property, reply: EngineReply) -> Double {
    if reply.status == 0 {
        Double { bits: reply.word }
    } else {
        match property {
            Property::Volume => Double::spec_hundred(),
            Property::Speed => Double::spec_one(),
            _ => Double::spec_zero(),
        }
    }
}

/// Whether playback runs according to a read of the pause flag: it does
/// where the read succeeded and the flag is off. A failed read counts as
/// paused.
pub open spec fn spec_playing_read(reply: EngineReply) -> bool {
    reply.status == 0 && reply.word == 0
}

/// The number a read of `property` yields, with the property's default in
/// place of a failed read.
#[verifier::when_used_as_spec(spec_number_read)]
pub fn number_read(property: Property, reply: EngineReply) -> (number: Double)
    ensures
        number == spec_number_read(property, reply),
{
    if reply.status == 0 {
        Double { bits: reply.word }
    } else {
        match property {
            Property::Volume => Double::hundred(),
            Property::Speed => Double::one(),
            _ => Double::zero(),
        }
    }
}

/// Whether playback runs according to a read of the pause flag.
#[verifier::when_used_as_spec(spec_playing_read)]
pub fn playing_read(reply: EngineReply) -> (playing: bool)
    ensures
        playing == spec_playing_read(reply),
{
    reply.status == 0 && reply.word == 0
}

impl PlaybackState {
    /// The snapshot in which every read failed: paused, at position zero of
    /// a medium of length zero, at full volume and normal speed.
    pub open spec fn spec_defaults() -> PlaybackState {
        PlaybackState {
            playing: false,
            current_time: Double::spec_zero(),
            duration: Double::spec_zero(),
            volume: Double::spec_hundred(),
            speed: Double::spec_one(),
        }
    }

    /// The snapshot that five reads add up to, one reply for each property.
    pub open spec fn from_reads(
        pause: EngineReply,
        time_pos: EngineReply,
        duration: EngineReply,
        volume: EngineReply,
        speed: EngineReply,
    ) -> PlaybackState {
        PlaybackState {
            playing: spec_playing_read(pause),
            current_time: spec_number_read(Property::TimePos, time_pos),
            duration: spec_number_read(Property::Duration, duration),
            volume: spec_number_read(Property::Volume, volume),
            speed: spec_number_read(Property::Speed, speed),
        }
    }

    /// This snapshot with the field of `property` replaced by what `reply`
    /// yields for it. The other fields stay.
    pub open spec fn spec_with_read(self, property: Property, reply: EngineReply) -> PlaybackState {
        match property {
            Property::Pause => PlaybackState { playing: spec_playing_read(reply), ..self },
            Property::TimePos => PlaybackState {
                current_time: spec_number_read(property, reply),
                ..self
            },
            Property::Duration => PlaybackState {
                duration: spec_number_read(property, reply),
                ..self
            },
            Property::Volume => PlaybackState { volume: spec_number_read(property, reply), ..self },
            Property::Speed => PlaybackState { speed: spec_number_read(property, reply), ..self },
        }
    }

    /// The snapshot in which every read failed.
    #[verifier::when_used_as_spec(spec_defaults)]
    pub fn defaults() -> (state: PlaybackState)
        ensures
            state == PlaybackState::spec_defaults(),
    {
        PlaybackState {
            playing: false,
            current_time: Double::zero(),
            duration: Double::zero(),
            volume: Double::hundred(),
            speed: Double::one(),
        }
    }

    /// This snapshot with the field of `property` replaced by what `reply`
    /// yields for it.
    #[verifier::when_used_as_spec(spec_with_read)]
    pub fn with_read(self, property: Property, reply: EngineReply) -> (state: PlaybackState)
        ensures
            state == self.spec_with_read(property, reply),
    {
        let mut state = self;
        match property {
            Property::Pause => {
                state.playing = playing_read(reply);
            },
            Property::TimePos => {
                state.current_time = number_read(property, reply);
            },
            Property::Duration => {
                state.duration = number_read(property, reply);
            },
            Property::Volume => {
                state.volume = number_read(property, reply);
            },
            Property::Speed => {
                state.speed = number_read(property, reply);
            },
        }
        state
    }
}

/// The property a state query reads after `property`, if any: the pause
/// flag comes first, then position, duration, volume and speed.
pub open spec fn spec_sampled_after(property: Property) -> Option<Property> {
    match property {
        Property::Pause => Some(Property::TimePos),
        Property::TimePos => Some(Property::Duration),
        Property::Duration => Some(Property::Volume),
        Property::Volume => Some(Property::Speed),
        Property::Speed => None,
    }
}

/// The property a state query reads after `property`, if any.
#[verifier::when_used_as_spec(spec_sampled_after)]
pub fn sampled_after(property: Property) -> (next: Option<Property>)
    ensures
        next == spec_sampled_after(property),
{
    match property {
        Property::Pause => Some(Property::TimePos),
        Property::TimePos => Some(Property::Duration),
        Property::Duration => Some(Property::Volume),
        Property::Volume => Some(Property::Speed),
        Property::Speed => None,
    }
}

} // verus!
