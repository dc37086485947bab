//! The subscription engine: from raw deliveries to decoded values.
//!
//! For each delivery of a raw channel the engine decides, step by step,
//! what is done with it: whether it is acknowledged, whether its payload
//! is decoded, and what is handed to the consumer. The engine performs
//! none of this itself. Its driver holds the payload and the
//! acknowledgment handle, carries each step out, and reports how it went;
//! what it hands on with a decoded value is the handle that came with the
//! payload.

use crate::errors::{AckError, DecodeError, SubError, UnSubError};
use crate::format::Format;
use crate::traits::SubOptTrait;
use vstd::prelude::*;
use vstd::std_specs::convert::FromSpec;

verus! {

/// How far the engine has come with the delivery at hand.
#[derive(Debug, Clone, Copy, PartialEq, Eq, Structural)]
pub enum Stage {
    /// No delivery is at hand.
    Idle,
    /// The engine waits to hear how the acknowledgment went.
    Acking,
    /// The engine waits to hear how the decoding went.
    Decoding,
}

/// What the driver reports to the engine.
#[derive(Debug)]
pub enum Event<T> {
    /// The raw channel delivered a payload with its handle.
    Arrived,
    /// The acknowledgment that the engine asked for ended like this.
    Acked(Result<(), AckError>),
    /// The decoding that the engine asked for ended like this.
    Decoded(Result<T, DecodeError>),
}

/// What the engine asks of the driver.
#[derive(Debug)]
pub enum Step<T> {
    /// Acknowledge the delivery through its handle, and report with
    /// [`Event::Acked`].
    Ack,
    /// Decode the payload under the subscription's format, and report with
    /// [`Event::Decoded`].
    Decode,
    /// Hand this to the consumer, a value together with the delivery's
    /// handle. The engine is done with the delivery.
    Yield(Result<T, SubError>),
}

/// How acknowledging and decoding one delivery would end, if they were
/// asked for.
pub struct Replies<T> {
    pub ack: Result<(), AckError>,
    pub decode: Result<T, DecodeError>,
}

/// The engine's rule: the stage that follows, and the step asked for, when
/// `event` is reported in `stage`.
///
/// A delivery that arrives is acknowledged first where `auto_ack` is set,
/// and decoded at once where it is not. A failed acknowledgment is handed
/// on as the delivery's result, and the payload is not decoded. After a
/// successful one the payload is decoded, and what the decoding gives is
/// handed on, value or failure. An event that the stage does not wait for
/// changes nothing and asks for nothing.
pub open spec fn next_step<T>(auto_ack: bool, stage: Stage, event: Event<T>) -> (
    Stage,
    Option<Step<T>>,
) {
    match (stage, event) {
        (Stage::Idle, Event::Arrived) => if auto_ack {
            (Stage::Acking, Some(Step::Ack))
        } else {
            (Stage::Decoding, Some(Step::Decode))
        },
        (Stage::Acking, Event::Acked(Ok(()))) => (Stage::Decoding, Some(Step::Decode)),
        (Stage::Acking, Event::Acked(Err(err))) => (
            Stage::Idle,
            Some(Step::Yield(Err(SubError::AckError(err)))),
        ),
        (Stage::Decoding, Event::Decoded(Ok(value))) => (Stage::Idle, Some(Step::Yield(Ok(value)))),
        (Stage::Decoding, Event::Decoded(Err(err))) => (
            Stage::Idle,
            Some(Step::Yield(Err(SubError::from_spec(err)))),
        ),
        _ => (stage, None),
    }
}

/// The steps that the engine asks for, one after the other, from the
/// report of `event` in `stage` on, when each step is carried out and ends
/// as `replies` says; and the stage in which the engine is left. The run
/// ends with the first step that hands something to the consumer, or with
/// an event that the engine does not wait for. `more` bounds the number of
/// steps that are carried out; no run from an arrival needs more than two.
pub open spec fn run<T>(
    auto_ack: bool,
    stage: Stage,
    event: Event<T>,
    replies: Replies<T>,
    more: nat,
) -> (Seq<Step<T>>, Stage)
    decreases more,
{
    let (after, step) = next_step(auto_ack, stage, event);
    match step {
        None => (Seq::empty(), after),
        Some(Step::Ack) if more > 0 => {
            let (rest, end) = run(
                auto_ack,
                after,
                Event::Acked(replies.ack),
                replies,
                (more - 1) as nat,
            );
            (seq![Step::Ack] + rest, end)
        },
        Some(Step::Decode) if more > 0 => {
            let (rest, end) = run(
                auto_ack,
                after,
                Event::Decoded(replies.decode),
                replies,
                (more - 1) as nat,
            );
            (seq![Step::Decode] + rest, end)
        },
        Some(last) => (seq![last], after),
    }
}

/// The steps taken for one delivery, from its arrival at an idle engine.
pub open spec fn trace<T>(auto_ack: bool, replies: Replies<T>) -> Seq<Step<T>> {
    run(auto_ack, Stage::Idle, Event::Arrived, replies, 2).0
}

/// What a delivery's decoding gives to the consumer.
pub open spec fn decoded<T>(replies: Replies<T>) -> Result<T, SubError> {
    match replies.decode {
        Ok(value) => Ok(value),
        Err(err) => Err(SubError::from_spec(err)),
    }
}

/// The steps taken for each delivery of a subscription in turn, by an
/// engine that starts in `stage` and takes up each delivery in the stage
/// in which the one before left it.
pub open spec fn session<T>(auto_ack: bool, stage: Stage, deliveries: Seq<Replies<T>>) -> Seq<
    Seq<Step<T>>,
>
    decreases deliveries.len(),
{
    if deliveries.len() == 0 {
        Seq::empty()
    } else {
        let (steps, after) = run(auto_ack, stage, Event::Arrived, deliveries.first(), 2);
        seq![steps] + session(auto_ack, after, deliveries.drop_first())
    }
}

/// The number of acknowledgments among the steps.
pub open spec fn acks<T>(steps: Seq<Step<T>>) -> nat {
    steps.filter(|step: Step<T>| step is Ack).len()
}

/// The steps of one delivery, spelled out: without automatic
/// acknowledgment the payload is decoded and the result handed on; with it
/// the delivery is acknowledged first, and decoded only if that went
/// well. Either way the engine is idle again afterwards.
pub proof fn lemma_trace<T>(auto_ack: bool, replies: Replies<T>)
    ensures
        run(auto_ack, Stage::Idle, Event::Arrived, replies, 2).1 == Stage::Idle,
        !auto_ack ==> trace(auto_ack, replies) == seq![
            Step::<T>::Decode,
            Step::Yield(decoded(replies)),
        ],
        auto_ack && replies.ack is Ok ==> trace(auto_ack, replies) == seq![
            Step::<T>::Ack,
            Step::Decode,
            Step::Yield(decoded(replies)),
        ],
        auto_ack && replies.ack is Err ==> trace(auto_ack, replies) == seq![
            Step::<T>::Ack,
            Step::Yield(Err(SubError::AckError(replies.ack->Err_0))),
        ],
{
    reveal_with_fuel(run, 3);
    if !auto_ack {
        assert(trace(auto_ack, replies) =~= seq![Step::<T>::Decode, Step::Yield(decoded(replies))]);
    } else if replies.ack is Ok {
        assert(trace(auto_ack, replies) =~= seq![
            Step::<T>::Ack,
            Step::Decode,
            Step::Yield(decoded(replies)),
        ]);
    } else {
        assert(trace(auto_ack, replies) =~= seq![
            Step::<T>::Ack,
            Step::Yield(Err(SubError::AckError(replies.ack->Err_0))),
        ]);
    }
}

/// A session takes steps for each of its deliveries.
proof fn lemma_session_len<T>(auto_ack: bool, deliveries: Seq<Replies<T>>)
    ensures
        session(auto_ack, Stage::Idle, deliveries).len() == deliveries.len(),
    decreases deliveries.len(),
{
    if deliveries.len() > 0 {
        lemma_trace(auto_ack, deliveries.first());
        lemma_session_len(auto_ack, deliveries.drop_first());
    }
}

/// No delivery weighs on another: whatever came before, the steps taken
/// for the delivery at `at` are those of that delivery alone. A delivery
/// whose acknowledgment or decoding failed does not end the subscription,
/// and does not change what the later ones give.
pub proof fn lemma_deliveries_are_independent<T>(
    auto_ack: bool,
    deliveries: Seq<Replies<T>>,
    at: int,
)
    requires
        0 <= at < deliveries.len(),
    ensures
        session(auto_ack, Stage::Idle, deliveries).len() == deliveries.len(),
        session(auto_ack, Stage::Idle, deliveries)[at] == trace(auto_ack, deliveries[at]),
    decreases deliveries.len(),
{
    lemma_trace(auto_ack, deliveries.first());
    lemma_session_len(auto_ack, deliveries.drop_first());
    if at > 0 {
        lemma_deliveries_are_independent(auto_ack, deliveries.drop_first(), at - 1);
    }
}

/// With automatic acknowledgment, a value is handed on only after exactly
/// one acknowledgment of its delivery, and that acknowledgment succeeded:
/// wherever a step of a subscription hands on a value, the steps of that
/// delivery before it hold one acknowledgment, and the reply to it was a
/// success.
pub proof fn lemma_value_follows_one_ack<T>(deliveries: Seq<Replies<T>>, at: int, step: int)
    requires
        0 <= at < deliveries.len(),
        0 <= step < session(true, Stage::Idle, deliveries)[at].len(),
        session(true, Stage::Idle, deliveries)[at][step] matches Step::Yield(Ok(_)),
    ensures
        deliveries[at].ack is Ok,
        acks(session(true, Stage::Idle, deliveries)[at].take(step)) == 1,
{
    lemma_deliveries_are_independent(true, deliveries, at);
    lemma_trace(true, deliveries[at]);
    let steps = trace(true, deliveries[at]);
    assert(steps.take(step) =~= seq![Step::<T>::Ack, Step::Decode]);
    reveal_with_fuel(Seq::filter, 3);
}

/// Without automatic acknowledgment the engine never asks for an
/// acknowledgment: no step of a subscription is one.
pub proof fn lemma_no_ack_without_auto_ack<T>(deliveries: Seq<Replies<T>>, at: int, step: int)
    requires
        0 <= at < deliveries.len(),
        0 <= step < session(false, Stage::Idle, deliveries)[at].len(),
    ensures
        !(session(false, Stage::Idle, deliveries)[at][step] is Ack),
{
    lemma_deliveries_are_independent(false, deliveries, at);
    lemma_trace(false, deliveries[at]);
}

/// A delivery whose acknowledgment fails gives that failure and nothing
/// else: its last step hands the failure on, and none of its steps decodes
/// the payload or hands on a value.
pub proof fn lemma_failed_ack_yields_no_value<T>(deliveries: Seq<Replies<T>>, at: int, step: int)
    requires
        0 <= at < deliveries.len(),
        deliveries[at].ack is Err,
        0 <= step < session(true, Stage::Idle, deliveries)[at].len(),
    ensures
        session(true, Stage::Idle, deliveries)[at].last() == Step::<T>::Yield(
            Err(SubError::AckError(deliveries[at].ack->Err_0)),
        ),
        !(session(true, Stage::Idle, deliveries)[at][step] is Decode),
        !(session(true, Stage::Idle, deliveries)[at][step] matches Step::Yield(Ok(_))),
{
    lemma_deliveries_are_independent(true, deliveries, at);
    lemma_trace(true, deliveries[at]);
}

/// Every delivery gives exactly one result, and gives it last: the steps
/// of a delivery end with the one step among them that hands something to
/// the consumer.
pub proof fn lemma_one_result_per_delivery<T>(
    auto_ack: bool,
    deliveries: Seq<Replies<T>>,
    at: int,
    step: int,
)
    requires
        0 <= at < deliveries.len(),
        0 <= step < session(auto_ack, Stage::Idle, deliveries)[at].len(),
    ensures
        session(auto_ack, Stage::Idle, deliveries)[at][step] is Yield <==> step + 1 == session(
            auto_ack,
            Stage::Idle,
            deliveries,
        )[at].len(),
{
    lemma_deliveries_are_independent(auto_ack, deliveries, at);
    lemma_trace(auto_ack, deliveries[at]);
}

/// Applies the engine's rule: the stage that follows, and the step asked
/// for, when `event` is reported in `stage` to an engine that acknowledges
/// by itself if and only if `auto_ack` is set.
pub fn advance<T>(auto_ack: bool, stage: Stage, event: Event<T>) -> (next: (
    Stage,
    Option<Step<T>>,
))
    ensures
        next == next_step(auto_ack, stage, event),
{
    match (stage, event) {
        (Stage::Idle, Event::Arrived) => {
            if auto_ack {
                (Stage::Acking, Some(Step::Ack))
            } else {
                (Stage::Decoding, Some(Step::Decode))
            }
        },
        (Stage::Acking, Event::Acked(Ok(()))) => (Stage::Decoding, Some(Step::Decode)),
        (Stage::Acking, Event::Acked(Err(err))) => (
            Stage::Idle,
            Some(Step::Yield(Err(SubError::AckError(err)))),
        ),
        (Stage::Decoding, Event::Decoded(Ok(value))) => (Stage::Idle, Some(Step::Yield(Ok(value)))),
        (Stage::Decoding, Event::Decoded(Err(err))) => (
            Stage::Idle,
            Some(Step::Yield(Err(SubError::from(err)))),
        ),
        (stage, _) => (stage, None),
    }
}

/// The decode-and-acknowledge engine of a subscription.
#[derive(Debug)]
pub struct Sub<O: SubOptTrait> {
    options: O,
}

impl<O: SubOptTrait> Sub<O> {
    /// The options the engine works by.
    pub closed spec fn options(&self) -> O {
        self.options
    }

    /// An engine that works by the given options.
    pub fn new(options: O) -> (sub: Self)
        ensures
            sub.options() == options,
    {
        Sub { options }
    }

    /// Takes the driver's report and says what follows: the engine's next
    /// stage, and the step the driver is to carry out, if any.
    ///
    /// The step follows the engine's rule, [`next_step`]. Whether the
    /// engine acknowledges by itself is asked of the options each time a
    /// delivery arrives, and at no other time; the rule is applied to what
    /// they answer.
    pub fn step<T>(&self, stage: Stage, event: Event<T>) -> (next: (Stage, Option<Step<T>>))
        ensures
            exists|auto_ack: bool|
                {
                    &&& next == next_step(auto_ack, stage, event)
                    &&& stage == Stage::Idle && event is Arrived ==> call_ensures(
                        O::get_auto_ack,
                        (&self.options(),),
                        auto_ack,
                    )
                },
    {
        let auto_ack = matches!((stage, &event), (Stage::Idle, Event::Arrived))
            && self.options.get_auto_ack();
        advance(auto_ack, stage, event)
    }

    /// The format under which the payload of the delivery at hand is to
    /// be decoded: what the options answer when they are asked for it.
    pub fn format(&self) -> (format: Format)
        ensures
            call_ensures(O::get_format, (&self.options(),), format),
    {
        self.options.get_format()
    }

    /// What an unsubscribe comes to: what the unsubscribe handler made of
    /// it, where the subscription has one, and success without anything
    /// done, where it has none (`handled` is `None`).
    pub fn unsubscribe(&self, handled: Option<Result<(), UnSubError>>) -> (done: Result<
        (),
        UnSubError,
    >)
        ensures
            done == match handled {
                Some(outcome) => outcome,
                None => Ok::<(), UnSubError>(()),
            },
    {
        match handled {
            Some(outcome) => outcome,
            None => Ok(()),
        }
    }
}

} // verus!
