//! What holds of the operations taken together.
//!
//! Each statement is about the steps of `crate::session` and the plays of
//! `crate::trace`, which are what the operations of `crate::operations` are
//! stated in.

use vstd::prelude::*;
use crate::engine::{Double, EngineCall, EngineHandle, EngineReply, Property, StartupOption};
use crate::error::MediaError;
use crate::session::{finished, spec_begin, spec_resume, Answer, Command, Pending, Step};
use crate::state::PlaybackState;
use crate::trace::{after_replies, after_reply, calls_answered, lemma_finished_stays};

verus! {

/// Whether an operation at `step` leaves the session's engine alone: it has
/// finished, or it is no initialization.
pub open spec fn keeps_engine(step: Step) -> bool {
    step matches Step::Call { call, pending } ==> {
        ||| pending is ReadingPause
        ||| pending is WritingPause
        ||| pending is Loading
        ||| pending is Seeking
        ||| pending is Sampling
    }
}

/// Only the first step of an initialization on an empty session asks for an
/// instance to be created. No later step of any operation does.
pub proof fn only_an_empty_session_creates(
    held: Option<EngineHandle>,
    command: Command,
    pending: Pending,
    reply: EngineReply,
)
    ensures
        (spec_begin(held, command) matches Step::Call { call: EngineCall::Create, .. }) <==> (
        command is Initialize && held is None),
        !(spec_resume(held, pending, reply).1 matches Step::Call { call: EngineCall::Create, .. }),
{
}

/// The calls of an initialization that got as far as bringing `handle` up.
pub open spec fn calls_up_to_bring_up(handle: EngineHandle) -> Seq<EngineCall> {
    seq![
        EngineCall::Create,
        EngineCall::SetOption { handle, option: StartupOption::Idle },
        EngineCall::SetOption { handle, option: StartupOption::KeepOpen },
        EngineCall::Initialize { handle },
    ]
}

/// An initialization of an empty session runs one of three courses.
///
/// Where the engine creates no instance, it fails with `EngineCreation`
/// after that one call. Where the bring-up reports a negative status, it
/// destroys the instance it created, as its fifth and last call, and fails
/// with `EngineInit` and that status. In both cases the session stays
/// empty, so nothing is left behind and the initialization can be tried
/// again. Otherwise it succeeds after four calls, and the session holds the
/// instance that the engine created, which is not null.
pub proof fn initialization_runs_its_course(replies: Seq<EngineReply>)
    requires
        after_replies(None, spec_begin(None, Command::Initialize), replies).1 is Finished,
    ensures
        ({
            let end = after_replies(None, spec_begin(None, Command::Initialize), replies);
            let calls = calls_answered(None, spec_begin(None, Command::Initialize), replies);
            let handle = EngineHandle { addr: replies[0].word };
            &&& replies.len() >= 1
            &&& handle.addr == 0 ==> {
                &&& end == (None::<EngineHandle>, finished(Err(MediaError::EngineCreation)))
                &&& calls == seq![EngineCall::Create]
            }
            &&& handle.addr != 0 ==> replies.len() >= 4
            &&& handle.addr != 0 && replies[3].status < 0 ==> {
                &&& replies.len() >= 5
                &&& end == (
                    None::<EngineHandle>,
                    finished(Err(MediaError::EngineInit { status: replies[3].status })),
                )
                &&& calls == calls_up_to_bring_up(handle).push(EngineCall::Destroy { handle })
            }
            &&& handle.addr != 0 && replies[3].status >= 0 ==> {
                &&& end == (Some(handle), finished(Ok(Answer::Success(true))))
                &&& calls == calls_up_to_bring_up(handle)
            }
        }),
{
    let none: Option<EngineHandle> = None;
    let begun = spec_begin(none, Command::Initialize);
    assert(replies.len() > 0);
    let created = replies.first();
    let handle = EngineHandle { addr: created.word };
    let step1 = after_reply(none, begun, created);
    let rest1 = replies.drop_first();
    let calls1 = calls_answered(step1.0, step1.1, rest1);
    assert(after_replies(none, begun, replies) == after_replies(step1.0, step1.1, rest1));
    assert(calls_answered(none, begun, replies) == seq![EngineCall::Create] + calls1);
    if created.word == 0 {
        lemma_finished_stays(step1.0, step1.1, rest1);
        assert(calls1 == Seq::<EngineCall>::empty());
    } else {
        assert(rest1.len() > 0);
        let step2 = after_reply(step1.0, step1.1, rest1.first());
        let rest2 = rest1.drop_first();
        let calls2 = calls_answered(step2.0, step2.1, rest2);
        assert(after_replies(step1.0, step1.1, rest1) == after_replies(step2.0, step2.1, rest2));
        assert(calls1 == seq![EngineCall::SetOption { handle, option: StartupOption::Idle }]
            + calls2);
        assert(rest2.len() > 0);
        let step3 = after_reply(step2.0, step2.1, rest2.first());
        let rest3 = rest2.drop_first();
        let calls3 = calls_answered(step3.0, step3.1, rest3);
        assert(after_replies(step2.0, step2.1, rest2) == after_replies(step3.0, step3.1, rest3));
        assert(calls2 == seq![EngineCall::SetOption { handle, option: StartupOption::KeepOpen }]
            + calls3);
        assert(rest3.len() > 0);
        let up = rest3.first();
        assert(up == replies[3]);
        let step4 = after_reply(step3.0, step3.1, up);
        let rest4 = rest3.drop_first();
        let calls4 = calls_answered(step4.0, step4.1, rest4);
        assert(after_replies(step3.0, step3.1, rest3) == after_replies(step4.0, step4.1, rest4));
        assert(calls3 == seq![EngineCall::Initialize { handle }] + calls4);
        if up.status < 0 {
            assert(rest4.len() > 0);
            let step5 = after_reply(step4.0, step4.1, rest4.first());
            let rest5 = rest4.drop_first();
            assert(after_replies(step4.0, step4.1, rest4) == after_replies(
                step5.0,
                step5.1,
                rest5,
            ));
            lemma_finished_stays(step5.0, step5.1, rest5);
            assert(calls_answered(step5.0, step5.1, rest5) == Seq::<EngineCall>::empty());
            assert(calls4 == seq![EngineCall::Destroy { handle }] + calls_answered(
                step5.0,
                step5.1,
                rest5,
            ));
        } else {
            lemma_finished_stays(step4.0, step4.1, rest4);
            assert(calls4 == Seq::<EngineCall>::empty());
        }
    }
}

/// Initializing twice in a row succeeds both times and creates exactly one
/// engine instance. Where the first initialization of an empty session
/// succeeds, one of its calls creates an instance, and the session holds
/// that instance afterwards. The second initialization succeeds at once,
/// calls nothing and leaves the session as it is.
pub proof fn initializing_twice_creates_one_engine(
    first: Seq<EngineReply>,
    second: Seq<EngineReply>,
)
    requires
        after_replies(None, spec_begin(None, Command::Initialize), first).1 == finished(
            Ok(Answer::Success(true)),
        ),
    ensures
        ({
            let handle = EngineHandle { addr: first[0].word };
            let held = Some(handle);
            &&& handle.addr != 0
            &&& after_replies(None, spec_begin(None, Command::Initialize), first).0 == held
            &&& calls_answered(None, spec_begin(None, Command::Initialize), first)
                == calls_up_to_bring_up(handle)
            &&& after_replies(held, spec_begin(held, Command::Initialize), second) == (
                held,
                finished(Ok(Answer::Success(true))),
            )
            &&& calls_answered(held, spec_begin(held, Command::Initialize), second)
                == Seq::<EngineCall>::empty()
        }),
{
    initialization_runs_its_course(first);
    let held = Some(EngineHandle { addr: first[0].word });
    let again = spec_begin(held, Command::Initialize);
    lemma_finished_stays(held, again, second);
    assert(calls_answered(held, again, second) == Seq::<EngineCall>::empty());
}

/// Steps stay with their session. The first step of a command was issued
/// to the session it was begun on. Where a step was issued to a session,
/// the step after any reply was issued to the session as it then stands,
/// and a session that held an instance holds it still.
pub proof fn steps_stay_with_their_session(
    held: Option<EngineHandle>,
    command: Command,
    pending: Pending,
    reply: EngineReply,
)
    ensures
        spec_begin(held, command).issued_to(held),
        pending.issued_to(held) ==> {
            let next = spec_resume(held, pending, reply);
            &&& next.1.issued_to(next.0)
            &&& held is Some ==> next.0 == held
            &&& next.0 matches Some(handle) ==> held == Some(handle) || handle.addr != 0
        },
{
}

/// On a session that holds no engine, every operation but initialization
/// fails with `NotInitialized`, at once and without a call on the engine.
pub proof fn empty_session_refuses(command: Command, replies: Seq<EngineReply>)
    requires
        !(command is Initialize),
    ensures
        spec_begin(None, command) == finished(Err(MediaError::NotInitialized)),
        after_replies(None, spec_begin(None, command), replies) == (
            None::<EngineHandle>,
            finished(Err(MediaError::NotInitialized)),
        ),
{
    lemma_finished_stays(None, spec_begin(None, command), replies);
}

/// A session that holds an engine holds that same engine after any
/// operation begun on it, whatever the engine replies.
pub proof fn held_engine_stays(handle: EngineHandle, command: Command, replies: Seq<EngineReply>)
    ensures
        after_replies(Some(handle), spec_begin(Some(handle), command), replies).0 == Some(handle),
{
    later_steps_keep_engine(Some(handle), spec_begin(Some(handle), command), replies);
}

/// An operation that is no initialization never changes what the session
/// holds.
pub proof fn later_steps_keep_engine(
    held: Option<EngineHandle>,
    step: Step,
    replies: Seq<EngineReply>,
)
    requires
        keeps_engine(step),
    ensures
        after_replies(held, step, replies).0 == held,
        keeps_engine(after_replies(held, step, replies).1),
    decreases replies.len(),
{
    if replies.len() > 0 {
        let next = after_reply(held, step, replies.first());
        later_steps_keep_engine(next.0, next.1, replies.drop_first());
    }
}

/// Toggling twice restores the pause flag: where both reads succeed and the
/// second one reports the flag as the first toggle wrote it, the second
/// toggle writes the flag that the first one read.
pub proof fn toggling_twice_restores(
    handle: EngineHandle,
    first_read: EngineReply,
    second_read: EngineReply,
)
    requires
        first_read.status == 0,
        second_read.status == 0,
        after_reply(
            Some(handle),
            spec_begin(Some(handle), Command::PlayPause),
            first_read,
        ).1 matches Step::Call { call: EngineCall::SetFlag { on, .. }, .. } && on == (
        second_read.word != 0),
    ensures
        after_reply(Some(handle), spec_begin(Some(handle), Command::PlayPause), second_read).1
            == (Step::Call {
            call: EngineCall::SetFlag {
                handle,
                property: Property::Pause,
                on: first_read.word != 0,
            },
            pending: Pending::WritingPause,
        }),
{
}

/// A toggle is one read of the pause flag and, where that read succeeds,
/// one write of the negated flag after it, both on the held engine; it
/// calls nothing else. Toggles that follow one another therefore reach the
/// engine as whole pairs of a read and a write.
pub proof fn toggle_is_a_read_then_a_write(handle: EngineHandle, replies: Seq<EngineReply>)
    requires
        after_replies(Some(handle), spec_begin(Some(handle), Command::PlayPause), replies).1
            is Finished,
    ensures
        replies.len() >= 1,
        replies[0].status != 0 ==> calls_answered(
            Some(handle),
            spec_begin(Some(handle), Command::PlayPause),
            replies,
        ) == seq![EngineCall::GetFlag { handle, property: Property::Pause }],
        replies[0].status == 0 ==> replies.len() >= 2 && calls_answered(
            Some(handle),
            spec_begin(Some(handle), Command::PlayPause),
            replies,
        ) == seq![
            EngineCall::GetFlag { handle, property: Property::Pause },
            EngineCall::SetFlag { handle, property: Property::Pause, on: replies[0].word == 0 },
        ],
{
    let held = Some(handle);
    let begun = spec_begin(held, Command::PlayPause);
    assert(replies.len() > 0);
    let step1 = after_reply(held, begun, replies.first());
    let rest1 = replies.drop_first();
    assert(after_replies(held, begun, replies) == after_replies(step1.0, step1.1, rest1));
    let calls1 = calls_answered(step1.0, step1.1, rest1);
    assert(calls_answered(held, begun, replies) == seq![
        EngineCall::GetFlag { handle, property: Property::Pause },
    ] + calls1);
    if replies[0].status == 0 {
        assert(rest1.len() > 0);
        let step2 = after_reply(step1.0, step1.1, rest1.first());
        let rest2 = rest1.drop_first();
        assert(calls_answered(step2.0, step2.1, rest2) == Seq::<EngineCall>::empty());
        assert(calls1 == seq![
            EngineCall::SetFlag { handle, property: Property::Pause, on: replies[0].word == 0 },
        ] + calls_answered(step2.0, step2.1, rest2));
    } else {
        assert(calls1 == Seq::<EngineCall>::empty());
    }
}

/// The five reads of a state query on `handle`, in their order.
pub open spec fn reads_of_state_query(handle: EngineHandle) -> Seq<EngineCall> {
    seq![
        EngineCall::GetFlag { handle, property: Property::Pause },
        EngineCall::GetDouble { handle, property: Property::TimePos },
        EngineCall::GetDouble { handle, property: Property::Duration },
        EngineCall::GetDouble { handle, property: Property::Volume },
        EngineCall::GetDouble { handle, property: Property::Speed },
    ]
}

/// A state query on a session that holds an engine reads the pause flag,
/// the position, the duration, the volume and the speed, in that order,
/// whatever the replies are, and returns the snapshot that the five replies
/// add up to. It never fails.
pub proof fn state_query_adds_up_reads(handle: EngineHandle, replies: Seq<EngineReply>)
    requires
        replies.len() == 5,
    ensures
        calls_answered(Some(handle), spec_begin(Some(handle), Command::GetState), replies)
            == reads_of_state_query(handle),
        after_replies(Some(handle), spec_begin(Some(handle), Command::GetState), replies) == (
            Some(handle),
            finished(
                Ok(
                    Answer::State(
                        PlaybackState::from_reads(
                            replies[0],
                            replies[1],
                            replies[2],
                            replies[3],
                            replies[4],
                        ),
                    ),
                ),
            ),
        ),
{
    let held = Some(handle);
    let step0 = spec_begin(held, Command::GetState);
    let step1 = after_reply(held, step0, replies[0]);
    let rest1 = replies.drop_first();
    assert(after_replies(held, step0, replies) == after_replies(step1.0, step1.1, rest1));
    let step2 = after_reply(step1.0, step1.1, rest1.first());
    let rest2 = rest1.drop_first();
    assert(after_replies(step1.0, step1.1, rest1) == after_replies(step2.0, step2.1, rest2));
    let step3 = after_reply(step2.0, step2.1, rest2.first());
    let rest3 = rest2.drop_first();
    assert(after_replies(step2.0, step2.1, rest2) == after_replies(step3.0, step3.1, rest3));
    let step4 = after_reply(step3.0, step3.1, rest3.first());
    let rest4 = rest3.drop_first();
    assert(after_replies(step3.0, step3.1, rest3) == after_replies(step4.0, step4.1, rest4));
    let step5 = after_reply(step4.0, step4.1, rest4.first());
    let rest5 = rest4.drop_first();
    assert(after_replies(step4.0, step4.1, rest4) == after_replies(step5.0, step5.1, rest5));
    assert(after_replies(step5.0, step5.1, rest5) == step5);
    let calls5 = calls_answered(step5.0, step5.1, rest5);
    assert(calls5 == Seq::<EngineCall>::empty());
    let calls4 = calls_answered(step4.0, step4.1, rest4);
    assert(calls4 == seq![EngineCall::GetDouble { handle, property: Property::Speed }] + calls5);
    let calls3 = calls_answered(step3.0, step3.1, rest3);
    assert(calls3 == seq![EngineCall::GetDouble { handle, property: Property::Volume }] + calls4);
    let calls2 = calls_answered(step2.0, step2.1, rest2);
    assert(calls2 == seq![EngineCall::GetDouble { handle, property: Property::Duration }]
        + calls3);
    let calls1 = calls_answered(step1.0, step1.1, rest1);
    assert(calls1 == seq![EngineCall::GetDouble { handle, property: Property::TimePos }]
        + calls2);
    assert(calls_answered(held, step0, replies) == seq![
        EngineCall::GetFlag { handle, property: Property::Pause },
    ] + calls1);
}

/// A state query whose five reads all fail returns the default snapshot:
/// not playing, position and duration zero, volume one hundred, speed one.
pub proof fn state_of_failed_reads_is_default(handle: EngineHandle, replies: Seq<EngineReply>)
    requires
        replies.len() == 5,
        forall|i: int| 0 <= i < 5 ==> (#[trigger] replies[i]).status != 0,
    ensures
        after_replies(Some(handle), spec_begin(Some(handle), Command::GetState), replies) == (
            Some(handle),
            finished(Ok(Answer::State(PlaybackState::spec_defaults()))),
        ),
        PlaybackState::spec_defaults() == (PlaybackState {
            playing: false,
            current_time: Double { bits: 0 },
            duration: Double { bits: 0 },
            volume: Double { bits: 0x4059_0000_0000_0000 },
            speed: Double { bits: 0x3FF0_0000_0000_0000 },
        }),
{
    state_query_adds_up_reads(handle, replies);
}

/// A seek writes the position it was given, and a state query whose read of
/// the position succeeds with that same number reports it: the session
/// alters a position neither on its way in nor on its way out.
pub proof fn seek_position_is_reported(
    handle: EngineHandle,
    position: Double,
    replies: Seq<EngineReply>,
)
    requires
        replies.len() == 5,
        replies[1].status == 0,
        replies[1].word == position.bits,
    ensures
        spec_begin(Some(handle), Command::Seek { position }) == (Step::Call {
            call: EngineCall::SetDouble { handle, property: Property::TimePos, number: position },
            pending: Pending::Seeking,
        }),
        after_replies(
            Some(handle),
            spec_begin(Some(handle), Command::GetState),
            replies,
        ).1 matches Step::Finished { outcome: Ok(Answer::State(state)) } && state.current_time
            == position,
{
    state_query_adds_up_reads(handle, replies);
}

/// Loading hands the path to the engine as it is, for every path, and
/// reports what the engine made of it: success where the command's status is
/// zero, `CommandFailed` with the status where it is not.
pub proof fn load_passes_path_through(handle: EngineHandle, path: String, reply: EngineReply)
    ensures
        spec_begin(Some(handle), Command::LoadVideo { path }) == (Step::Call {
            call: EngineCall::LoadFile { handle, path },
            pending: Pending::Loading,
        }),
        after_reply(Some(handle), spec_begin(Some(handle), Command::LoadVideo { path }), reply)
            == (
            Some(handle),
            finished(
                if reply.status == 0 {
                    Ok(Answer::Success(true))
                } else {
                    Err(MediaError::CommandFailed { status: reply.status })
                },
            ),
        ),
{
}

} // verus!
