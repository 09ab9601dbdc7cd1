//! The session: the one owner of an engine instance, and the decisions each
//! operation takes between two calls on the engine.
//!
//! An operation is played in steps. `Session::begin` looks at the session and
//! the command and either finishes at once or names the first call to make
//! on the engine. `Session::resume` takes the engine's reply to the call
//! that is outstanding and either finishes or names the next call. The
//! session itself never reaches the engine, so every call it wants made is
//! in plain sight, with its arguments.
//!
//! The steps of one operation belong together. `Session::resume` takes a
//! `Pending` only where the session, as it stands, can have issued it (see
//! `Pending::issued_to`): a step of an initialization goes to an empty
//! session only and names an instance that is not null, and a step of any
//! other operation goes to the session that holds the instance it names.
//! So a session that holds an instance never comes to hold another.
//! `crate::operations::run` plays an operation from beginning to end under
//! one exclusive borrow of the session.

use vstd::prelude::*;
use crate::engine::{Double, EngineCall, EngineHandle, EngineReply, Property, StartupOption};
use crate::error::MediaError;
use crate::state::{sampled_after, spec_sampled_after, PlaybackState};

verus! {

/// The owner of at most one engine instance.
///
/// A session starts empty, comes to hold an instance when an initialization
/// succeeds, and holds that same instance from then on.
#[derive(Debug)]
pub struct Session {
    engine: Option<EngineHandle>,
}

impl View for Session {
    type V = Option<EngineHandle>;

    /// The instance the session holds, if any.
    closed spec fn view(&self) -> Option<EngineHandle> {
        self.engine
    }
}

/// What a caller can ask of a session.
#[derive(Debug, PartialEq, Eq)]
pub enum Command {
    /// Create and bring up the engine, unless the session holds one already.
    Initialize,
    /// Toggle between playing and paused.
    PlayPause,
    /// Load the file at `path`. The path is not looked at: any string,
    /// the empty one included, goes to the engine as it is.
    LoadVideo { path: String },
    /// Take a snapshot of the playback state.
    GetState,
    /// Jump to the absolute position `position`, in seconds. The position is
    /// not looked at: the engine decides what a negative or too large one
    /// means.
    Seek { position: Double },
}

/// What a finished operation hands to the caller.
#[derive(Clone, Copy, Debug, PartialEq, Eq, Structural)]
pub enum Answer {
    /// The outcome of an operation that changes something.
    Success(bool),
    /// The outcome of a state query.
    State(PlaybackState),
}

/// Where an operation stands while one call on the engine is outstanding.
#[derive(Clone, Copy, Debug, PartialEq, Eq, Structural)]
pub enum Pending {
    /// Initialization: an instance is being created.
    Creating,
    /// Initialization: the first startup option is being set on `handle`.
    SettingIdle { handle: EngineHandle },
    /// Initialization: the second startup option is being set on `handle`.
    SettingKeepOpen { handle: EngineHandle },
    /// Initialization: `handle` is being brought up.
    BringingUp { handle: EngineHandle },
    /// Initialization: bring-up failed with `status`, and the instance is
    /// being destroyed.
    TearingDown { status: i32 },
    /// Toggle: the pause flag of `handle` is being read.
    ReadingPause { handle: EngineHandle },
    /// Toggle: the negated pause flag is being written.
    WritingPause,
    /// Load: the command is running.
    Loading,
    /// Seek: the position is being written.
    Seeking,
    /// State query: `property` is being read from `handle`; `partial` holds
    /// what the reads before it yielded.
    Sampling { handle: EngineHandle, property: Property, partial: PlaybackState },
}

/// What comes next in an operation.
#[derive(Debug, PartialEq, Eq)]
pub enum Step {
    /// Make `call` on the engine and come back with its reply and `pending`.
    Call { call: EngineCall, pending: Pending },
    /// The operation is over.
    Finished { outcome: Result<Answer, MediaError> },
}

impl Pending {
    /// Whether a session that holds `held` can have issued this.
    ///
    /// The steps of an initialization are issued by an empty session, and
    /// the instance they name is not null. The steps of the other operations
    /// are issued by a session that holds an instance, the one they name
    /// where they name one.
    pub open spec fn issued_to(self, held: Option<EngineHandle>) -> bool {
        match self {
            Pending::Creating => held is None,
            Pending::SettingIdle { handle } => held is None && handle.addr != 0,
            Pending::SettingKeepOpen { handle } => held is None && handle.addr != 0,
            Pending::BringingUp { handle } => held is None && handle.addr != 0,
            Pending::TearingDown { .. } => held is None,
            Pending::ReadingPause { handle } => held == Some(handle),
            Pending::WritingPause => held is Some,
            Pending::Loading => held is Some,
            Pending::Seeking => held is Some,
            Pending::Sampling { handle, .. } => held == Some(handle),
        }
    }

    /// An upper bound on the calls still to be answered before the operation
    /// ends, the outstanding one included.
    pub open spec fn calls_left(self) -> nat {
        match self {
            Pending::Creating => 5,
            Pending::SettingIdle { .. } => 4,
            Pending::SettingKeepOpen { .. } => 3,
            Pending::BringingUp { .. } => 2,
            Pending::TearingDown { .. } => 1,
            Pending::ReadingPause { .. } => 2,
            Pending::WritingPause => 1,
            Pending::Loading => 1,
            Pending::Seeking => 1,
            Pending::Sampling { property, .. } => match property {
                Property::Pause => 5,
                Property::TimePos => 4,
                Property::Duration => 3,
                Property::Volume => 2,
                Property::Speed => 1,
            },
        }
    }
}

impl Step {
    /// Whether a session that holds `held` can have issued this: it has
    /// finished, or what it waits with was issued to such a session.
    pub open spec fn issued_to(self, held: Option<EngineHandle>) -> bool {
        self matches Step::Call { pending, .. } ==> pending.issued_to(held)
    }

    /// An upper bound on the calls still to be answered before the operation
    /// ends: none once it has finished.
    pub open spec fn calls_left(self) -> nat {
        match self {
            Step::Call { pending, .. } => pending.calls_left(),
            Step::Finished { .. } => 0,
        }
    }
}

/// The step that finishes an operation with `outcome`.
pub open spec fn finished(outcome: Result<Answer, MediaError>) -> Step {
    Step::Finished { outcome }
}

/// The first step of `command` on a session that holds `held`.
///
/// Initialization finishes at once with success where an instance is held,
/// and otherwise asks for one to be created. Every other command fails at
/// once where no instance is held, and otherwise asks for its first call on
/// the held instance.
pub open spec fn spec_begin(held: Option<EngineHandle>, command: Command) -> Step {
    match command {
        Command::Initialize => match held {
            Some(_) => finished(Ok(Answer::Success(true))),
            None => Step::Call { call: EngineCall::Create, pending: Pending::Creating },
        },
        Command::PlayPause => match held {
            None => finished(Err(MediaError::NotInitialized)),
            Some(handle) => Step::Call {
                call: EngineCall::GetFlag { handle, property: Property::Pause },
                pending: Pending::ReadingPause { handle },
            },
        },
        Command::LoadVideo { path } => match held {
            None => finished(Err(MediaError::NotInitialized)),
            Some(handle) => Step::Call {
                call: EngineCall::LoadFile { handle, path },
                pending: Pending::Loading,
            },
        },
        Command::GetState => match held {
            None => finished(Err(MediaError::NotInitialized)),
            Some(handle) => Step::Call {
                call: EngineCall::GetFlag { handle, property: Property::Pause },
                pending: Pending::Sampling {
                    handle,
                    property: Property::Pause,
                    partial: PlaybackState::spec_defaults(),
                },
            },
        },
        Command::Seek { position } => match held {
            None => finished(Err(MediaError::NotInitialized)),
            Some(handle) => Step::Call {
                call: EngineCall::SetDouble { handle, property: Property::TimePos, number: position },
                pending: Pending::Seeking,
            },
        },
    }
}

/// The instance held and the next step, once `reply` has answered the call
/// that `pending` was waiting for on a session that held `held`.
///
/// Only a successful bring-up changes what the session holds.
pub open spec fn spec_resume(held: Option<EngineHandle>, pending: Pending, reply: EngineReply) -> (
    Option<EngineHandle>,
    Step,
) {
    match pending {
        Pending::Creating => if reply.word == 0 {
            (held, finished(Err(MediaError::EngineCreation)))
        } else {
            let handle = EngineHandle { addr: reply.word };
            (
                held,
                Step::Call {
                    call: EngineCall::SetOption { handle, option: StartupOption::Idle },
                    pending: Pending::SettingIdle { handle },
                },
            )
        },
        Pending::SettingIdle { handle } => (
            held,
            Step::Call {
                call: EngineCall::SetOption { handle, option: StartupOption::KeepOpen },
                pending: Pending::SettingKeepOpen { handle },
            },
        ),
        Pending::SettingKeepOpen { handle } => (
            held,
            Step::Call {
                call: EngineCall::Initialize { handle },
                pending: Pending::BringingUp { handle },
            },
        ),
        Pending::BringingUp { handle } => if reply.status < 0 {
            (
                held,
                Step::Call {
                    call: EngineCall::Destroy { handle },
                    pending: Pending::TearingDown { status: reply.status },
                },
            )
        } else {
            (Some(handle), finished(Ok(Answer::Success(true))))
        },
        Pending::TearingDown { status } => (held, finished(Err(MediaError::EngineInit { status }))),
        Pending::ReadingPause { handle } => if reply.status != 0 {
            (held, finished(Err(MediaError::PropertyRead { status: reply.status })))
        } else {
            (
                held,
                Step::Call {
                    call: EngineCall::SetFlag {
                        handle,
                        property: Property::Pause,
                        on: reply.word == 0,
                    },
                    pending: Pending::WritingPause,
                },
            )
        },
        Pending::WritingPause => (held, finished(Ok(Answer::Success(reply.status == 0)))),
        Pending::Loading => if reply.status == 0 {
            (held, finished(Ok(Answer::Success(true))))
        } else {
            (held, finished(Err(MediaError::CommandFailed { status: reply.status })))
        },
        Pending::Seeking => if reply.status == 0 {
            (held, finished(Ok(Answer::Success(true))))
        } else {
            (held, finished(Err(MediaError::PropertyWrite { status: reply.status })))
        },
        Pending::Sampling { handle, property, partial } => {
            let sampled = partial.spec_with_read(property, reply);
            match spec_sampled_after(property) {
                Some(next) => (
                    held,
                    Step::Call {
                        call: EngineCall::GetDouble { handle, property: next },
                        pending: Pending::Sampling { handle, property: next, partial: sampled },
                    },
                ),
                None => (held, finished(Ok(Answer::State(sampled)))),
            }
        },
    }
}

impl Session {
    /// A session that holds no engine.
    pub fn new() -> (session: Session)
        ensures
            session@ is None,
    {
        Session { engine: None }
    }

    /// Whether the session holds an engine.
    pub fn is_initialized(&self) -> (held: bool)
        ensures
            held == (self@ is Some),
    {
        self.engine.is_some()
    }

    /// The first step of `command`. The session is left as it is, and is
    /// the one that the step was issued to.
    pub fn begin(&self, command: Command) -> (step: Step)
        ensures
            step == spec_begin(self@, command),
            step.issued_to(self@),
    {
        match command {
            Command::Initialize => match self.engine {
                Some(_) => Step::Finished { outcome: Ok(Answer::Success(true)) },
                None => Step::Call { call: EngineCall::Create, pending: Pending::Creating },
            },
            Command::PlayPause => match self.engine {
                None => Step::Finished { outcome: Err(MediaError::NotInitialized) },
                Some(handle) => Step::Call {
                    call: EngineCall::GetFlag { handle, property: Property::Pause },
                    pending: Pending::ReadingPause { handle },
                },
            },
            Command::LoadVideo { path } => match self.engine {
                None => Step::Finished { outcome: Err(MediaError::NotInitialized) },
                Some(handle) => Step::Call {
                    call: EngineCall::LoadFile { handle, path },
                    pending: Pending::Loading,
                },
            },
            Command::GetState => match self.engine {
                None => Step::Finished { outcome: Err(MediaError::NotInitialized) },
                Some(handle) => Step::Call {
                    call: EngineCall::GetFlag { handle, property: Property::Pause },
                    pending: Pending::Sampling {
                        handle,
                        property: Property::Pause,
                        partial: PlaybackState::defaults(),
                    },
                },
            },
            Command::Seek { position } => match self.engine {
                None => Step::Finished { outcome: Err(MediaError::NotInitialized) },
                Some(handle) => Step::Call {
                    call: EngineCall::SetDouble {
                        handle,
                        property: Property::TimePos,
                        number: position,
                    },
                    pending: Pending::Seeking,
                },
            },
        }
    }

    /// The step after the engine has answered the outstanding call with
    /// `reply`, for a `pending` that this session issued. The session comes
    /// to hold the new instance where this ends a successful initialization,
    /// and is left as it is otherwise: an instance that it holds, it keeps.
    pub fn resume(&mut self, pending: Pending, reply: EngineReply) -> (step: Step)
        requires
            pending.issued_to(old(self)@),
        ensures
            (final(self)@, step) == spec_resume(old(self)@, pending, reply),
            step.issued_to(final(self)@),
            old(self)@ is Some ==> final(self)@ == old(self)@,
            step.calls_left() < pending.calls_left(),
    {
        match pending {
            Pending::Creating => {
                if reply.word == 0 {
                    Step::Finished { outcome: Err(MediaError::EngineCreation) }
                } else {
                    let handle = EngineHandle { addr: reply.word };
                    Step::Call {
                        call: EngineCall::SetOption { handle, option: StartupOption::Idle },
                        pending: Pending::SettingIdle { handle },
                    }
                }
            },
            Pending::SettingIdle { handle } => Step::Call {
                call: EngineCall::SetOption { handle, option: StartupOption::KeepOpen },
                pending: Pending::SettingKeepOpen { handle },
            },
            Pending::SettingKeepOpen { handle } => Step::Call {
                call: EngineCall::Initialize { handle },
                pending: Pending::BringingUp { handle },
            },
            Pending::BringingUp { handle } => {
                if reply.status < 0 {
                    Step::Call {
                        call: EngineCall::Destroy { handle },
                        pending: Pending::TearingDown { status: reply.status },
                    }
                } else {
                    self.engine = Some(handle);
                    Step::Finished { outcome: Ok(Answer::Success(true)) }
                }
            },
            Pending::TearingDown { status } => Step::Finished {
                outcome: Err(MediaError::EngineInit { status }),
            },
            Pending::ReadingPause { handle } => {
                if reply.status != 0 {
                    Step::Finished { outcome: Err(MediaError::PropertyRead { status: reply.status }) }
                } else {
                    let paused = reply.word != 0;
                    Step::Call {
                        call: EngineCall::SetFlag { handle, property: Property::Pause, on: !paused },
                        pending: Pending::WritingPause,
                    }
                }
            },
            Pending::WritingPause => Step::Finished {
                outcome: Ok(Answer::Success(reply.status == 0)),
            },
            Pending::Loading => {
                if reply.status == 0 {
                    Step::Finished { outcome: Ok(Answer::Success(true)) }
                } else {
                    Step::Finished {
                        outcome: Err(MediaError::CommandFailed { status: reply.status }),
                    }
                }
            },
            Pending::Seeking => {
                if reply.status == 0 {
                    Step::Finished { outcome: Ok(Answer::Success(true)) }
                } else {
                    Step::Finished {
                        outcome: Err(MediaError::PropertyWrite { status: reply.status }),
                    }
                }
            },
            Pending::Sampling { handle, property, partial } => {
                let sampled = partial.with_read(property, reply);
                match sampled_after(property) {
                    Some(next) => Step::Call {
                        call: EngineCall::GetDouble { handle, property: next },
                        pending: Pending::Sampling { handle, property: next, partial: sampled },
                    },
                    None => Step::Finished { outcome: Ok(Answer::State(sampled)) },
                }
            },
        }
    }
}

} // verus!
