//! Whole operations, seen as the sequence of replies the engine gave.
//!
//! An operation consumes one reply for each call it asks for. The functions
//! here say where a session and an operation stand after a sequence of
//! replies, and when such a sequence is one that a given engine could have
//! produced.

use vstd::prelude::*;
use crate::engine::{EngineCall, EngineHandle, EngineReply};
use crate::error::MediaError;
use crate::session::{finished, spec_resume, Answer, Step};

verus! {

/// Where things stand after one reply: the operation takes its next step
/// where a call was outstanding, and nothing changes where it had finished.
pub open spec fn after_reply(held: Option<EngineHandle>, step: Step, reply: EngineReply) -> (
    Option<EngineHandle>,
    Step,
) {
    match step {
        Step::Call { pending, .. } => spec_resume(held, pending, reply),
        Step::Finished { .. } => (held, step),
    }
}

/// Where things stand after the replies of `replies`, taken in order.
pub open spec fn after_replies(held: Option<EngineHandle>, step: Step, replies: Seq<EngineReply>) -> (
    Option<EngineHandle>,
    Step,
)
    decreases replies.len(),
{
    if replies.len() == 0 {
        (held, step)
    } else {
        let next = after_reply(held, step, replies.first());
        after_replies(next.0, next.1, replies.drop_first())
    }
}

/// Whether `replies` is what `engine` could have answered to the calls of
/// the operation, one after the other: each reply meets a call that is
/// outstanding, and is a possible result of handing that call to `engine`.
pub open spec fn answers<F: Fn(EngineCall) -> EngineReply>(
    engine: F,
    held: Option<EngineHandle>,
    step: Step,
    replies: Seq<EngineReply>,
) -> bool
    decreases replies.len(),
{
    if replies.len() == 0 {
        true
    } else {
        let next = after_reply(held, step, replies.first());
        &&& step matches Step::Call { call, .. }
        &&& engine.ensures((call,), replies.first())
        &&& answers(engine, next.0, next.1, replies.drop_first())
    }
}

/// Whether `engine` takes every call that a play against it can reach from
/// `step`: whenever replies that it could have given leave a call
/// outstanding, it takes that call. Of calls that no play reaches nothing
/// is asked.
pub open spec fn takes<F: Fn(EngineCall) -> EngineReply>(
    engine: F,
    held: Option<EngineHandle>,
    step: Step,
) -> bool {
    forall|replies: Seq<EngineReply>|
        #[trigger] answers(engine, held, step, replies) && after_replies(held, step, replies).1
            is Call ==> engine.requires((after_replies(held, step, replies).1->call,))
}

/// The calls that the replies of `replies` answer, in order. Replies that
/// come after the operation has finished answer no call.
pub open spec fn calls_answered(
    held: Option<EngineHandle>,
    step: Step,
    replies: Seq<EngineReply>,
) -> Seq<EngineCall>
    decreases replies.len(),
{
    if replies.len() == 0 {
        Seq::empty()
    } else {
        let next = after_reply(held, step, replies.first());
        match step {
            Step::Call { call, .. } => seq![call] + calls_answered(
                next.0,
                next.1,
                replies.drop_first(),
            ),
            Step::Finished { .. } => Seq::empty(),
        }
    }
}

/// Whether `replies` is a complete play of an operation against `engine`:
/// the engine could have given them, and they lead from `step` on a session
/// that held `held` to the end of the operation, with `outcome` and a
/// session that holds `held_after`.
pub open spec fn plays<F: Fn(EngineCall) -> EngineReply>(
    engine: F,
    held: Option<EngineHandle>,
    step: Step,
    replies: Seq<EngineReply>,
    held_after: Option<EngineHandle>,
    outcome: Result<Answer, MediaError>,
) -> bool {
    &&& answers(engine, held, step, replies)
    &&& after_replies(held, step, replies) == (held_after, finished(outcome))
}

/// One more reply at the end is one more step from where the others led.
pub proof fn lemma_after_one_more(
    held: Option<EngineHandle>,
    step: Step,
    replies: Seq<EngineReply>,
    reply: EngineReply,
)
    ensures
        after_replies(held, step, replies.push(reply)) == after_reply(
            after_replies(held, step, replies).0,
            after_replies(held, step, replies).1,
            reply,
        ),
    decreases replies.len(),
{
    let longer = replies.push(reply);
    if replies.len() == 0 {
        assert(longer.drop_first() =~= Seq::<EngineReply>::empty());
        assert(longer.first() == reply);
        let next = after_reply(held, step, reply);
        assert(after_replies(next.0, next.1, longer.drop_first()) == next);
    } else {
        let next = after_reply(held, step, replies.first());
        assert(longer.first() == replies.first());
        assert(longer.drop_first() =~= replies.drop_first().push(reply));
        lemma_after_one_more(next.0, next.1, replies.drop_first(), reply);
    }
}

/// Replies that an engine could have given stay so with one more at the
/// end, where that one answers the call then outstanding.
pub proof fn lemma_answers_one_more<F: Fn(EngineCall) -> EngineReply>(
    engine: F,
    held: Option<EngineHandle>,
    step: Step,
    replies: Seq<EngineReply>,
    reply: EngineReply,
)
    requires
        answers(engine, held, step, replies),
        after_replies(held, step, replies).1 matches Step::Call { call, .. } && engine.ensures(
            (call,),
            reply,
        ),
    ensures
        answers(engine, held, step, replies.push(reply)),
    decreases replies.len(),
{
    let longer = replies.push(reply);
    if replies.len() == 0 {
        assert(longer.drop_first() =~= Seq::<EngineReply>::empty());
        assert(longer.first() == reply);
        let next = after_reply(held, step, reply);
        assert(answers(engine, next.0, next.1, longer.drop_first()));
    } else {
        let next = after_reply(held, step, replies.first());
        assert(longer.first() == replies.first());
        assert(longer.drop_first() =~= replies.drop_first().push(reply));
        lemma_answers_one_more(engine, next.0, next.1, replies.drop_first(), reply);
    }
}

/// An engine takes every call that can be reached from a finished
/// operation: there is none.
pub proof fn lemma_takes_finished<F: Fn(EngineCall) -> EngineReply>(
    engine: F,
    held: Option<EngineHandle>,
    step: Step,
)
    requires
        step is Finished,
    ensures
        takes(engine, held, step),
{
    assert forall|replies: Seq<EngineReply>|
        #[trigger] answers(engine, held, step, replies) && after_replies(held, step, replies).1
            is Call implies engine.requires((after_replies(held, step, replies).1->call,)) by {
        lemma_finished_stays(held, step, replies);
    }
}

/// An engine takes every call that can be reached from an outstanding call
/// where it takes that call and, for each reply it could give to it, every
/// call that can be reached from the step after that reply.
pub proof fn lemma_takes_call<F: Fn(EngineCall) -> EngineReply>(
    engine: F,
    held: Option<EngineHandle>,
    step: Step,
)
    requires
        step is Call,
        engine.requires((step->call,)),
        forall|reply: EngineReply| #[trigger]
            engine.ensures((step->call,), reply) ==> takes(
                engine,
                spec_resume(held, step->pending, reply).0,
                spec_resume(held, step->pending, reply).1,
            ),
    ensures
        takes(engine, held, step),
{
    assert forall|replies: Seq<EngineReply>|
        #[trigger] answers(engine, held, step, replies) && after_replies(held, step, replies).1
            is Call implies engine.requires((after_replies(held, step, replies).1->call,)) by {
        if replies.len() > 0 {
            let reply = replies.first();
            let next = spec_resume(held, step->pending, reply);
            assert(engine.ensures((step->call,), reply));
            assert(takes(engine, next.0, next.1));
            assert(answers(engine, next.0, next.1, replies.drop_first()));
            assert(after_replies(held, step, replies) == after_replies(
                next.0,
                next.1,
                replies.drop_first(),
            ));
        }
    }
}

/// A play of an operation that has a call outstanding starts with a reply
/// to that call and goes on as a play of what follows.
pub proof fn lemma_play_starts<F: Fn(EngineCall) -> EngineReply>(
    engine: F,
    held: Option<EngineHandle>,
    step: Step,
    replies: Seq<EngineReply>,
    held_after: Option<EngineHandle>,
    outcome: Result<Answer, MediaError>,
)
    requires
        plays(engine, held, step, replies, held_after, outcome),
        step is Call,
    ensures
        replies.len() > 0,
        engine.ensures((step->call,), replies.first()),
        plays(
            engine,
            spec_resume(held, step->pending, replies.first()).0,
            spec_resume(held, step->pending, replies.first()).1,
            replies.drop_first(),
            held_after,
            outcome,
        ),
{
}

/// A play of an operation that has finished is over: its outcome and the
/// session stand.
pub proof fn lemma_play_ends<F: Fn(EngineCall) -> EngineReply>(
    engine: F,
    held: Option<EngineHandle>,
    step: Step,
    replies: Seq<EngineReply>,
    held_after: Option<EngineHandle>,
    outcome: Result<Answer, MediaError>,
)
    requires
        plays(engine, held, step, replies, held_after, outcome),
        step is Finished,
    ensures
        held_after == held,
        step == finished(outcome),
{
    lemma_finished_stays(held, step, replies);
}

/// A finished operation takes no notice of further replies.
pub proof fn lemma_finished_stays(held: Option<EngineHandle>, step: Step, replies: Seq<EngineReply>)
    requires
        step is Finished,
    ensures
        after_replies(held, step, replies) == (held, step),
    decreases replies.len(),
{
    if replies.len() > 0 {
        lemma_finished_stays(held, step, replies.drop_first());
    }
}

} // verus!
