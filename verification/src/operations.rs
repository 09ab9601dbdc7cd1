//! Whole operations on a session, played against an engine.
//!
//! The engine comes as a function from a call to its reply. Each operation
//! holds the session exclusively from its first step to its last, so the
//! calls of two operations on one session never interleave.
//!
//! Of the engine an operation asks only that it take the calls of that
//! operation, each with the arguments that the operation fixes: an engine
//! that refuses every other call is as good as one that takes them all.
//! What an operation returns is stated in terms of the replies the engine
//! gave.

use vstd::prelude::*;
use vstd::pervasive::unreached;
use crate::engine::{Double, EngineCall, EngineHandle, EngineReply, Property, StartupOption};
use crate::error::MediaError;
use crate::session::{spec_begin, spec_resume, Answer, Command, Pending, Session, Step};
use crate::state::{spec_sampled_after, PlaybackState};
use crate::trace::{
    after_replies,
    answers,
    lemma_after_one_more,
    lemma_answers_one_more,
    lemma_play_ends,
    lemma_play_starts,
    lemma_takes_call,
    lemma_takes_finished,
    plays,
    takes,
};

verus! {

/// Plays `command` on `session` from its first step to its last, handing
/// each call to `engine` and each reply back to the session.
///
/// Of `engine` this asks that it take the calls that a play of the command
/// can reach, and no others: an engine that refuses every other call will
/// do, so no other call is made.
///
/// There is a sequence of at most five replies, each one a possible answer
/// of `engine` to the call that was outstanding when it came, that leads
/// step by step from the beginning of the command to the outcome returned
/// and to what the session holds afterwards.
pub fn run<F: Fn(EngineCall) -> EngineReply>(session: &mut Session, command: Command, engine: F) -> (outcome:
    Result<Answer, MediaError>)
    requires
        takes(engine, old(session)@, spec_begin(old(session)@, command)),
    ensures
        exists|replies: Seq<EngineReply>|
            replies.len() <= 5 && #[trigger] plays(
                engine,
                old(session)@,
                spec_begin(old(session)@, command),
                replies,
                final(session)@,
                outcome,
            ),
{
    let ghost held = session@;
    let ghost first = spec_begin(held, command);
    let ghost mut replies = Seq::<EngineReply>::empty();
    let mut step = session.begin(command);
    loop
        invariant
            takes(engine, held, first),
            held == old(session)@,
            first == spec_begin(held, command),
            answers(engine, held, first, replies),
            after_replies(held, first, replies) == (session@, step),
            step.issued_to(session@),
            replies.len() + step.calls_left() <= 5,
        decreases step.calls_left(),
    {
        match step {
            Step::Finished { outcome } => {
                assert(plays(engine, held, first, replies, session@, outcome));
                return outcome;
            },
            Step::Call { call, pending } => {
                let reply = engine(call);
                step = session.resume(pending, reply);
                proof {
                    lemma_after_one_more(held, first, replies, reply);
                    lemma_answers_one_more(engine, held, first, replies, reply);
                    replies = replies.push(reply);
                }
            },
        }
    }
}

/// The success flag of an outcome that is not a snapshot.
fn success_of(outcome: Result<Answer, MediaError>) -> (result: Result<bool, MediaError>)
    requires
        !(outcome matches Ok(Answer::State(_))),
    ensures
        outcome == lifted(result),
{
    match outcome {
        Ok(Answer::Success(done)) => Ok(done),
        Ok(Answer::State(_)) => unreached(),
        Err(error) => Err(error),
    }
}

/// The outcome of a step machine that stands for `result`.
pub open spec fn lifted(result: Result<bool, MediaError>) -> Result<Answer, MediaError> {
    match result {
        Ok(done) => Ok(Answer::Success(done)),
        Err(error) => Err(error),
    }
}

/// An engine takes what a play can reach from a step that is finished or
/// whose call is the last of its operation, where it takes that call.
pub proof fn lemma_takes_last_call<F: Fn(EngineCall) -> EngineReply>(
    engine: F,
    held: Option<EngineHandle>,
    step: Step,
)
    requires
        step matches Step::Call { call, pending } ==> engine.requires((call,))
            && pending.calls_left() == 1,
    ensures
        takes(engine, held, step),
{
    if step is Call {
        assert forall|reply: EngineReply| #[trigger]
            engine.ensures((step->call,), reply) implies takes(
            engine,
            spec_resume(held, step->pending, reply).0,
            spec_resume(held, step->pending, reply).1,
        ) by {
            let next = spec_resume(held, step->pending, reply);
            lemma_takes_finished(engine, next.0, next.1);
        }
        lemma_takes_call(engine, held, step);
    } else {
        lemma_takes_finished(engine, held, step);
    }
}

/// Whether `engine` takes the calls of a toggle on `handle`: the read of the
/// pause flag and, for each successful reply it could give to that read,
/// the write of the negated flag.
pub open spec fn takes_toggle<F: Fn(EngineCall) -> EngineReply>(
    engine: F,
    handle: EngineHandle,
) -> bool {
    &&& engine.requires((EngineCall::GetFlag { handle, property: Property::Pause },))
    &&& forall|read: EngineReply| #[trigger]
        engine.ensures((EngineCall::GetFlag { handle, property: Property::Pause },), read)
            && read.status == 0 ==> engine.requires(
            (EngineCall::SetFlag { handle, property: Property::Pause, on: read.word == 0 },),
        )
}

/// An engine that takes the calls of a toggle on the held instance takes
/// what a play of a toggle can reach.
pub proof fn lemma_takes_toggle<F: Fn(EngineCall) -> EngineReply>(
    engine: F,
    held: Option<EngineHandle>,
)
    requires
        held matches Some(handle) ==> takes_toggle(engine, handle),
    ensures
        takes(engine, held, spec_begin(held, Command::PlayPause)),
{
    let first = spec_begin(held, Command::PlayPause);
    if held is Some {
        assert forall|read: EngineReply| #[trigger]
            engine.ensures((first->call,), read) implies takes(
            engine,
            spec_resume(held, first->pending, read).0,
            spec_resume(held, first->pending, read).1,
        ) by {
            let second = spec_resume(held, first->pending, read);
            lemma_takes_last_call(engine, second.0, second.1);
        }
        lemma_takes_call(engine, held, first);
    } else {
        lemma_takes_finished(engine, held, first);
    }
}

/// Whether `engine` takes the five reads of a state query on `handle`.
pub open spec fn takes_state_query<F: Fn(EngineCall) -> EngineReply>(
    engine: F,
    handle: EngineHandle,
) -> bool {
    &&& engine.requires((EngineCall::GetFlag { handle, property: Property::Pause },))
    &&& engine.requires((EngineCall::GetDouble { handle, property: Property::TimePos },))
    &&& engine.requires((EngineCall::GetDouble { handle, property: Property::Duration },))
    &&& engine.requires((EngineCall::GetDouble { handle, property: Property::Volume },))
    &&& engine.requires((EngineCall::GetDouble { handle, property: Property::Speed },))
}

/// The read of `property` in a state query: a flag read for the pause flag,
/// a number read for the rest.
pub open spec fn read_of(handle: EngineHandle, property: Property) -> EngineCall {
    if property == Property::Pause {
        EngineCall::GetFlag { handle, property }
    } else {
        EngineCall::GetDouble { handle, property }
    }
}

/// An engine that takes the five reads of a state query takes what can be
/// reached from any of them, whatever the reads before it yielded.
pub proof fn lemma_takes_reads_from<F: Fn(EngineCall) -> EngineReply>(
    engine: F,
    held: Option<EngineHandle>,
    handle: EngineHandle,
    property: Property,
    partial: PlaybackState,
)
    requires
        takes_state_query(engine, handle),
    ensures
        takes(
            engine,
            held,
            Step::Call {
                call: read_of(handle, property),
                pending: Pending::Sampling { handle, property, partial },
            },
        ),
    decreases (Pending::Sampling { handle, property, partial }).calls_left(),
{
    let step = Step::Call {
        call: read_of(handle, property),
        pending: Pending::Sampling { handle, property, partial },
    };
    assert forall|reply: EngineReply| #[trigger]
        engine.ensures((step->call,), reply) implies takes(
        engine,
        spec_resume(held, step->pending, reply).0,
        spec_resume(held, step->pending, reply).1,
    ) by {
        let next = spec_resume(held, step->pending, reply);
        match spec_sampled_after(property) {
            Some(after) => {
                lemma_takes_reads_from(
                    engine,
                    held,
                    handle,
                    after,
                    partial.spec_with_read(property, reply),
                );
            },
            None => {
                lemma_takes_finished(engine, next.0, next.1);
            },
        }
    }
    lemma_takes_call(engine, held, step);
}

/// An engine that takes the five reads of a state query on the held
/// instance takes what a play of a state query can reach.
pub proof fn lemma_takes_state_query<F: Fn(EngineCall) -> EngineReply>(
    engine: F,
    held: Option<EngineHandle>,
)
    requires
        held matches Some(handle) ==> takes_state_query(engine, handle),
    ensures
        takes(engine, held, spec_begin(held, Command::GetState)),
{
    match held {
        Some(handle) => {
            lemma_takes_reads_from(
                engine,
                held,
                handle,
                Property::Pause,
                PlaybackState::spec_defaults(),
            );
        },
        None => {
            lemma_takes_finished(engine, held, spec_begin(held, Command::GetState));
        },
    }
}

/// Whether `engine` takes the calls that follow the creation of `handle`:
/// the two startup options, the bring-up and, for each reply with a
/// negative status that it could give to the bring-up, the destruction.
pub open spec fn takes_bring_up<F: Fn(EngineCall) -> EngineReply>(
    engine: F,
    handle: EngineHandle,
) -> bool {
    &&& engine.requires((EngineCall::SetOption { handle, option: StartupOption::Idle },))
    &&& engine.requires((EngineCall::SetOption { handle, option: StartupOption::KeepOpen },))
    &&& engine.requires((EngineCall::Initialize { handle },))
    &&& forall|up: EngineReply| #[trigger]
        engine.ensures((EngineCall::Initialize { handle },), up) && up.status < 0
            ==> engine.requires((EngineCall::Destroy { handle },))
}

/// Whether `engine` takes the calls of an initialization: the creation of
/// an instance and, for each instance that it could hand back, the calls
/// that follow on it.
pub open spec fn takes_initialization<F: Fn(EngineCall) -> EngineReply>(engine: F) -> bool {
    &&& engine.requires((EngineCall::Create,))
    &&& forall|created: EngineReply| #[trigger]
        engine.ensures((EngineCall::Create,), created) && created.word != 0 ==> takes_bring_up(
            engine,
            EngineHandle { addr: created.word },
        )
}

/// An engine that takes the calls that follow the creation of `handle`
/// takes what can be reached once the first startup option is being set.
pub proof fn lemma_takes_bring_up<F: Fn(EngineCall) -> EngineReply>(
    engine: F,
    held: Option<EngineHandle>,
    handle: EngineHandle,
)
    requires
        takes_bring_up(engine, handle),
    ensures
        takes(
            engine,
            held,
            Step::Call {
                call: EngineCall::SetOption { handle, option: StartupOption::Idle },
                pending: Pending::SettingIdle { handle },
            },
        ),
{
    let setting_idle = Step::Call {
        call: EngineCall::SetOption { handle, option: StartupOption::Idle },
        pending: Pending::SettingIdle { handle },
    };
    assert forall|idle: EngineReply| #[trigger]
        engine.ensures((setting_idle->call,), idle) implies takes(
        engine,
        spec_resume(held, setting_idle->pending, idle).0,
        spec_resume(held, setting_idle->pending, idle).1,
    ) by {
        let setting_keep_open = spec_resume(held, setting_idle->pending, idle).1;
        assert forall|keep_open: EngineReply| #[trigger]
            engine.ensures((setting_keep_open->call,), keep_open) implies takes(
            engine,
            spec_resume(held, setting_keep_open->pending, keep_open).0,
            spec_resume(held, setting_keep_open->pending, keep_open).1,
        ) by {
            let bringing_up = spec_resume(held, setting_keep_open->pending, keep_open).1;
            assert forall|up: EngineReply| #[trigger]
                engine.ensures((bringing_up->call,), up) implies takes(
                engine,
                spec_resume(held, bringing_up->pending, up).0,
                spec_resume(held, bringing_up->pending, up).1,
            ) by {
                let after_up = spec_resume(held, bringing_up->pending, up);
                lemma_takes_last_call(engine, after_up.0, after_up.1);
            }
            lemma_takes_call(engine, held, bringing_up);
        }
        lemma_takes_call(engine, held, setting_keep_open);
    }
    lemma_takes_call(engine, held, setting_idle);
}

/// An engine that takes the calls of an initialization, where the session
/// is empty, takes what a play of an initialization can reach.
pub proof fn lemma_takes_initialization<F: Fn(EngineCall) -> EngineReply>(
    engine: F,
    held: Option<EngineHandle>,
)
    requires
        held is None ==> takes_initialization(engine),
    ensures
        takes(engine, held, spec_begin(held, Command::Initialize)),
{
    let first = spec_begin(held, Command::Initialize);
    if held is None {
        assert forall|created: EngineReply| #[trigger]
            engine.ensures((first->call,), created) implies takes(
            engine,
            spec_resume(held, first->pending, created).0,
            spec_resume(held, first->pending, created).1,
        ) by {
            let next = spec_resume(held, first->pending, created);
            if created.word == 0 {
                lemma_takes_finished(engine, next.0, next.1);
            } else {
                lemma_takes_bring_up(engine, held, EngineHandle { addr: created.word });
            }
        }
        lemma_takes_call(engine, held, first);
    } else {
        lemma_takes_finished(engine, held, first);
    }
}

/// What a seek returns when the engine answered the write of the position
/// with `reply`.
pub open spec fn seek_outcome(reply: EngineReply) -> Result<bool, MediaError> {
    if reply.status == 0 {
        Ok(true)
    } else {
        Err(MediaError::PropertyWrite { status: reply.status })
    }
}

/// Seeks to the absolute position `position`, in seconds.
///
/// Fails with `NotInitialized` where the session holds no engine. Otherwise
/// the position is written to the engine's time position as it is, and the
/// result is success where the write reported success, and
/// `PropertyWrite` with the engine's status where it did not. The session
/// is left as it is.
///
/// Of the engine this asks that it take that one write, and on an empty
/// session nothing.
pub fn media_seek<F: Fn(EngineCall) -> EngineReply>(
    session: &mut Session,
    position: Double,
    engine: F,
) -> (result: Result<bool, MediaError>)
    requires
        old(session)@ matches Some(handle) ==> engine.requires(
            (EngineCall::SetDouble { handle, property: Property::TimePos, number: position },),
        ),
    ensures
        final(session)@ == old(session)@,
        old(session)@ is None ==> result == Err::<bool, MediaError>(MediaError::NotInitialized),
        old(session)@ matches Some(handle) ==> exists|reply: EngineReply|
            #[trigger] engine.ensures(
                (EngineCall::SetDouble { handle, property: Property::TimePos, number: position },),
                reply,
            ) && result == seek_outcome(reply),
{
    proof {
        lemma_takes_last_call(engine, session@, spec_begin(session@, Command::Seek { position }));
    }
    let outcome = run(session, Command::Seek { position }, engine);
    proof {
        let held = old(session)@;
        let first = spec_begin(held, Command::Seek { position });
        let replies = choose|replies: Seq<EngineReply>|
            replies.len() <= 5 && #[trigger] plays(engine, held, first, replies, session@, outcome);
        if held is Some {
            lemma_play_starts(engine, held, first, replies, session@, outcome);
            let next = spec_resume(held, first->pending, replies.first());
            lemma_play_ends(engine, next.0, next.1, replies.drop_first(), session@, outcome);
        } else {
            lemma_play_ends(engine, held, first, replies, session@, outcome);
        }
    }
    success_of(outcome)
}

/// What loading a file returns when the engine answered the command with
/// `reply`.
pub open spec fn load_outcome(reply: EngineReply) -> Result<bool, MediaError> {
    if reply.status == 0 {
        Ok(true)
    } else {
        Err(MediaError::CommandFailed { status: reply.status })
    }
}

/// Loads the file at `path`.
///
/// Fails with `NotInitialized` where the session holds no engine. Otherwise
/// the engine's load command runs with `path` as its one argument, whatever
/// the path is, and the result is success where the command reported
/// success, and `CommandFailed` with the engine's status where it did not.
/// The session is left as it is.
///
/// Of the engine this asks that it take that one command, and on an empty
/// session nothing.
pub fn media_load_video<F: Fn(EngineCall) -> EngineReply>(
    session: &mut Session,
    file_path: String,
    engine: F,
) -> (result: Result<bool, MediaError>)
    requires
        old(session)@ matches Some(handle) ==> engine.requires(
            (EngineCall::LoadFile { handle, path: file_path },),
        ),
    ensures
        final(session)@ == old(session)@,
        old(session)@ is None ==> result == Err::<bool, MediaError>(MediaError::NotInitialized),
        old(session)@ matches Some(handle) ==> exists|reply: EngineReply|
            #[trigger] engine.ensures((EngineCall::LoadFile { handle, path: file_path },), reply)
                && result == load_outcome(reply),
{
    proof {
        lemma_takes_last_call(
            engine,
            session@,
            spec_begin(session@, Command::LoadVideo { path: file_path }),
        );
    }
    let ghost first = spec_begin(session@, Command::LoadVideo { path: file_path });
    let outcome = run(session, Command::LoadVideo { path: file_path }, engine);
    proof {
        let held = old(session)@;
        let replies = choose|replies: Seq<EngineReply>|
            replies.len() <= 5 && #[trigger] plays(engine, held, first, replies, session@, outcome);
        if held is Some {
            lemma_play_starts(engine, held, first, replies, session@, outcome);
            let next = spec_resume(held, first->pending, replies.first());
            lemma_play_ends(engine, next.0, next.1, replies.drop_first(), session@, outcome);
        } else {
            lemma_play_ends(engine, held, first, replies, session@, outcome);
        }
    }
    success_of(outcome)
}

/// What a toggle returns when the engine answered the read of the pause
/// flag with `read` and, where that read succeeded, the write of the negated
/// flag with `write`.
pub open spec fn toggle_outcome(read: EngineReply, write: EngineReply) -> Result<bool, MediaError> {
    if read.status != 0 {
        Err(MediaError::PropertyRead { status: read.status })
    } else {
        Ok(write.status == 0)
    }
}

/// Whether `engine` could have answered a toggle on `handle` with `read` and
/// `write`: `read` answers the read of the pause flag, and where that read
/// succeeded, `write` answers the write of the negated flag.
pub open spec fn toggled<F: Fn(EngineCall) -> EngineReply>(
    engine: F,
    handle: EngineHandle,
    read: EngineReply,
    write: EngineReply,
) -> bool {
    &&& engine.ensures((EngineCall::GetFlag { handle, property: Property::Pause },), read)
    &&& read.status == 0 ==> engine.ensures(
        (EngineCall::SetFlag { handle, property: Property::Pause, on: read.word == 0 },),
        write,
    )
}

/// Toggles between playing and paused.
///
/// Fails with `NotInitialized` where the session holds no engine. Otherwise
/// the engine's pause flag is read. Where the read fails, the result is
/// `PropertyRead` with the engine's status and nothing is written. Where it
/// succeeds, the negation of the flag is written back, and the result says
/// whether that write reported success. The session is left as it is.
///
/// Of the engine this asks that it take the read and, after a read that
/// succeeded, the write of the negation; on an empty session nothing.
pub fn media_play_pause<F: Fn(EngineCall) -> EngineReply>(session: &mut Session, engine: F) -> (result:
    Result<bool, MediaError>)
    requires
        old(session)@ matches Some(handle) ==> takes_toggle(engine, handle),
    ensures
        final(session)@ == old(session)@,
        old(session)@ is None ==> result == Err::<bool, MediaError>(MediaError::NotInitialized),
        old(session)@ matches Some(handle) ==> exists|read: EngineReply, write: EngineReply|
            #[trigger] toggled(engine, handle, read, write) && result == toggle_outcome(
                read,
                write,
            ),
{
    proof {
        lemma_takes_toggle(engine, session@);
    }
    let outcome = run(session, Command::PlayPause, engine);
    proof {
        let held = old(session)@;
        let first = spec_begin(held, Command::PlayPause);
        let replies = choose|replies: Seq<EngineReply>|
            replies.len() <= 5 && #[trigger] plays(engine, held, first, replies, session@, outcome);
        if held is Some {
            lemma_play_starts(engine, held, first, replies, session@, outcome);
            let read = replies.first();
            let second = spec_resume(held, first->pending, read);
            let rest = replies.drop_first();
            if read.status != 0 {
                lemma_play_ends(engine, second.0, second.1, rest, session@, outcome);
                assert(toggled(engine, held->0, read, read));
            } else {
                lemma_play_starts(engine, second.0, second.1, rest, session@, outcome);
                let write = rest.first();
                let third = spec_resume(second.0, second.1->pending, write);
                lemma_play_ends(engine, third.0, third.1, rest.drop_first(), session@, outcome);
                assert(toggled(engine, held->0, read, write));
            }
        } else {
            lemma_play_ends(engine, held, first, replies, session@, outcome);
        }
    }
    success_of(outcome)
}

/// Whether `engine` could have answered the five reads of a state query on
/// `handle` with these replies: the pause flag first, then the position,
/// the duration, the volume and the speed.
pub open spec fn sampled<F: Fn(EngineCall) -> EngineReply>(
    engine: F,
    handle: EngineHandle,
    pause: EngineReply,
    time_pos: EngineReply,
    duration: EngineReply,
    volume: EngineReply,
    speed: EngineReply,
) -> bool {
    &&& engine.ensures((EngineCall::GetFlag { handle, property: Property::Pause },), pause)
    &&& engine.ensures((EngineCall::GetDouble { handle, property: Property::TimePos },), time_pos)
    &&& engine.ensures((EngineCall::GetDouble { handle, property: Property::Duration },), duration)
    &&& engine.ensures((EngineCall::GetDouble { handle, property: Property::Volume },), volume)
    &&& engine.ensures((EngineCall::GetDouble { handle, property: Property::Speed },), speed)
}

/// Takes a snapshot of the playback state.
///
/// Fails with `NotInitialized` where the session holds no engine, and in no
/// other way. Otherwise five properties are read, one after the other, and
/// each field of the snapshot is what its read yielded, or its default where
/// that read failed. The session is left as it is.
///
/// Of the engine this asks that it take the five reads, and on an empty
/// session nothing.
pub fn media_get_state<F: Fn(EngineCall) -> EngineReply>(session: &mut Session, engine: F) -> (result:
    Result<PlaybackState, MediaError>)
    requires
        old(session)@ matches Some(handle) ==> takes_state_query(engine, handle),
    ensures
        final(session)@ == old(session)@,
        old(session)@ is None ==> result == Err::<PlaybackState, MediaError>(
            MediaError::NotInitialized,
        ),
        old(session)@ matches Some(handle) ==> exists|
            pause: EngineReply,
            time_pos: EngineReply,
            duration: EngineReply,
            volume: EngineReply,
            speed: EngineReply,
        |
            #[trigger] sampled(engine, handle, pause, time_pos, duration, volume, speed) && result
                == Ok::<PlaybackState, MediaError>(
                PlaybackState::from_reads(pause, time_pos, duration, volume, speed),
            ),
{
    proof {
        lemma_takes_state_query(engine, session@);
    }
    let outcome = run(session, Command::GetState, engine);
    proof {
        let held = old(session)@;
        let first = spec_begin(held, Command::GetState);
        let replies = choose|replies: Seq<EngineReply>|
            replies.len() <= 5 && #[trigger] plays(engine, held, first, replies, session@, outcome);
        if held is Some {
            lemma_play_starts(engine, held, first, replies, session@, outcome);
            let pause = replies.first();
            let second = spec_resume(held, first->pending, pause);
            let rest1 = replies.drop_first();
            lemma_play_starts(engine, second.0, second.1, rest1, session@, outcome);
            let time_pos = rest1.first();
            let third = spec_resume(second.0, second.1->pending, time_pos);
            let rest2 = rest1.drop_first();
            lemma_play_starts(engine, third.0, third.1, rest2, session@, outcome);
            let duration = rest2.first();
            let fourth = spec_resume(third.0, third.1->pending, duration);
            let rest3 = rest2.drop_first();
            lemma_play_starts(engine, fourth.0, fourth.1, rest3, session@, outcome);
            let volume = rest3.first();
            let fifth = spec_resume(fourth.0, fourth.1->pending, volume);
            let rest4 = rest3.drop_first();
            lemma_play_starts(engine, fifth.0, fifth.1, rest4, session@, outcome);
            let speed = rest4.first();
            let last = spec_resume(fifth.0, fifth.1->pending, speed);
            lemma_play_ends(engine, last.0, last.1, rest4.drop_first(), session@, outcome);
            assert(sampled(engine, held->0, pause, time_pos, duration, volume, speed));
            assert(outcome == Ok::<Answer, MediaError>(
                Answer::State(PlaybackState::from_reads(pause, time_pos, duration, volume, speed)),
            ));
        } else {
            lemma_play_ends(engine, held, first, replies, session@, outcome);
        }
    }
    match outcome {
        Ok(Answer::State(state)) => Ok(state),
        Ok(Answer::Success(_)) => unreached(),
        Err(error) => Err(error),
    }
}

/// Whether `engine` could have answered the creation of an instance with
/// `created`, with an instance in it, and then the setting of the two
/// startup options on that instance, in their order, and its bring-up with
/// `up`.
pub open spec fn stood_up<F: Fn(EngineCall) -> EngineReply>(
    engine: F,
    created: EngineReply,
    up: EngineReply,
) -> bool {
    let handle = EngineHandle { addr: created.word };
    &&& engine.ensures((EngineCall::Create,), created)
    &&& created.word != 0
    &&& exists|idle: EngineReply| #[trigger]
        engine.ensures((EngineCall::SetOption { handle, option: StartupOption::Idle },), idle)
    &&& exists|keep_open: EngineReply| #[trigger]
        engine.ensures(
            (EngineCall::SetOption { handle, option: StartupOption::KeepOpen },),
            keep_open,
        )
    &&& engine.ensures((EngineCall::Initialize { handle },), up)
}

/// Whether `engine` could have answered the destruction of `handle`.
pub open spec fn torn_down<F: Fn(EngineCall) -> EngineReply>(engine: F, handle: EngineHandle) -> bool {
    exists|gone: EngineReply| #[trigger] engine.ensures((EngineCall::Destroy { handle },), gone)
}

/// Makes the session hold an engine.
///
/// Where the session holds one already, the result is success and nothing
/// else happens. Otherwise an instance is created. Where the engine hands
/// back none, the result is `EngineCreation`. Where it hands one back, its
/// two startup options are switched on and it is brought up. Where the
/// bring-up reports a negative status, the instance is destroyed and the
/// result is `EngineInit` with that status. Otherwise the session holds the
/// instance from now on and the result is success. After a failure the
/// session is as empty as before.
///
/// Of the engine this asks, on an empty session, that it take the creation,
/// then the options and the bring-up on an instance it created, and the
/// destruction after a bring-up that failed; on a session that holds an
/// instance, nothing.
pub fn media_init<F: Fn(EngineCall) -> EngineReply>(session: &mut Session, engine: F) -> (result:
    Result<bool, MediaError>)
    requires
        old(session)@ is None ==> takes_initialization(engine),
    ensures
        old(session)@ is Some ==> result == Ok::<bool, MediaError>(true) && final(session)@ == old(
            session,
        )@,
        old(session)@ is None ==> {
            ||| {
                &&& exists|created: EngineReply| #[trigger]
                    engine.ensures((EngineCall::Create,), created) && created.word == 0
                &&& result == Err::<bool, MediaError>(MediaError::EngineCreation)
                &&& final(session)@ is None
            }
            ||| exists|created: EngineReply, up: EngineReply|
                {
                    &&& #[trigger] stood_up(engine, created, up)
                    &&& up.status < 0 ==> {
                        &&& torn_down(engine, EngineHandle { addr: created.word })
                        &&& result == Err::<bool, MediaError>(
                            MediaError::EngineInit { status: up.status },
                        )
                        &&& final(session)@ is None
                    }
                    &&& up.status >= 0 ==> {
                        &&& result == Ok::<bool, MediaError>(true)
                        &&& final(session)@ == Some(EngineHandle { addr: created.word })
                    }
                }
        },
{
    proof {
        lemma_takes_initialization(engine, session@);
    }
    let outcome = run(session, Command::Initialize, engine);
    proof {
        let held = old(session)@;
        let first = spec_begin(held, Command::Initialize);
        let replies = choose|replies: Seq<EngineReply>|
            replies.len() <= 5 && #[trigger] plays(engine, held, first, replies, session@, outcome);
        if held is None {
            lemma_play_starts(engine, held, first, replies, session@, outcome);
            let created = replies.first();
            let second = spec_resume(held, first->pending, created);
            let rest1 = replies.drop_first();
            if created.word == 0 {
                lemma_play_ends(engine, second.0, second.1, rest1, session@, outcome);
            } else {
                let handle = EngineHandle { addr: created.word };
                lemma_play_starts(engine, second.0, second.1, rest1, session@, outcome);
                let idle = rest1.first();
                let third = spec_resume(second.0, second.1->pending, idle);
                let rest2 = rest1.drop_first();
                lemma_play_starts(engine, third.0, third.1, rest2, session@, outcome);
                let keep_open = rest2.first();
                let fourth = spec_resume(third.0, third.1->pending, keep_open);
                let rest3 = rest2.drop_first();
                lemma_play_starts(engine, fourth.0, fourth.1, rest3, session@, outcome);
                let up = rest3.first();
                let fifth = spec_resume(fourth.0, fourth.1->pending, up);
                let rest4 = rest3.drop_first();
                assert(stood_up(engine, created, up));
                if up.status < 0 {
                    lemma_play_starts(engine, fifth.0, fifth.1, rest4, session@, outcome);
                    let gone = rest4.first();
                    let last = spec_resume(fifth.0, fifth.1->pending, gone);
                    lemma_play_ends(engine, last.0, last.1, rest4.drop_first(), session@, outcome);
                    assert(torn_down(engine, handle));
                } else {
                    lemma_play_ends(engine, fifth.0, fifth.1, rest4, session@, outcome);
                }
            }
        } else {
            lemma_play_ends(engine, held, first, replies, session@, outcome);
        }
    }
    success_of(outcome)
}

} // verus!
