//! Reads that take several calls.
//!
//! A read whose size is not known beforehand is a bounded conversation: make a
//! call, look at the reply, make another call with a larger buffer or stop. Each
//! such read is a state that says what the next call is, and a step that takes
//! the reply. [`Exchange`] is what they have in common; [`converse`] conducts
//! one, and what holds of all of them is proved here once.
use crate::error::Result;
use vstd::prelude::*;

verus! {

/// What follows a reply.
#[derive(Debug)]
pub enum Step<S, T> {
    /// Make the call that this state describes.
    Call(S),
    /// The read is over, with this outcome.
    Done(Result<T>),
}

/// An outcome with the value of a success mapped by `f`.
pub open spec fn map_ok<T, U>(r: Result<T>, f: spec_fn(T) -> U) -> Result<U> {
    match r {
        Ok(t) => Ok(f(t)),
        Err(e) => Err(e),
    }
}

impl<S, T> Step<S, T> {
    /// The same step, with the value of a success mapped by `f`.
    pub open spec fn map<U>(self, f: spec_fn(T) -> U) -> Step<S, U> {
        match self {
            Step::Call(s) => Step::Call(s),
            Step::Done(r) => Step::Done(map_ok(r, f)),
        }
    }
}

/// A bounded conversation of calls and replies.
pub trait Exchange: Sized + Copy {
    /// One reply.
    type Reply;

    /// One reply, as values.
    type ReplyModel;

    /// What a successful conversation yields.
    type Out;

    /// What a successful conversation yields, as values.
    type OutModel;

    /// A reply as values.
    spec fn reply_model(reply: Self::Reply) -> Self::ReplyModel;

    /// A yield as values.
    spec fn out_model(out: Self::Out) -> Self::OutModel;

    /// What holds of every state that a conversation reaches.
    spec fn inv(self) -> bool;

    /// What follows a reply.
    spec fn step(self, reply: Self::ReplyModel) -> Step<Self, Self::OutModel>;

    /// How many calls are left at most.
    spec fn budget(self) -> nat;

    /// Every step keeps the invariant and spends at least one call.
    proof fn step_spends(self, reply: Self::ReplyModel)
        requires
            self.inv(),
        ensures
            self.budget() > 0,
            self.step(reply) matches Step::Call(next) ==> next.inv() && next.budget()
                < self.budget(),
    ;

    /// Take the reply to the call that this state describes.
    fn reply(self, reply: Self::Reply) -> (next: Step<Self, Self::Out>)
        requires
            self.inv(),
        ensures
            next.map(|out: Self::Out| Self::out_model(out)) == self.step(Self::reply_model(reply)),
            next matches Step::Call(state) ==> state.inv() && state.budget() < self.budget(),
    ;
}

/// Replies as values.
pub open spec fn reply_models<M: Exchange>(replies: Seq<M::Reply>) -> Seq<M::ReplyModel> {
    replies.map_values(|r: M::Reply| M::reply_model(r))
}

/// The outcome of the conversation that starts in `state` and gets `replies`, or
/// `None` where it would make another call after them.
pub open spec fn run<M: Exchange>(state: M, replies: Seq<M::ReplyModel>) -> Option<
    Result<M::OutModel>,
>
    decreases replies.len(),
{
    if replies.len() == 0 {
        None
    } else {
        match state.step(replies[0]) {
            Step::Done(out) => Some(out),
            Step::Call(next) => run(next, replies.drop_first()),
        }
    }
}

/// Whether `replies` are those of a whole conversation from `state` with `call`:
/// each is one that `call` may give in the state that the ones before it lead
/// to, and the last one ends it.
pub open spec fn conducted<M: Exchange, F: Fn(M) -> M::Reply>(
    state: M,
    call: F,
    replies: Seq<M::Reply>,
) -> bool
    decreases replies.len(),
{
    &&& replies.len() > 0
    &&& call.ensures((state,), replies[0])
    &&& match state.step(M::reply_model(replies[0])) {
        Step::Done(_) => replies.len() == 1,
        Step::Call(next) => conducted(next, call, replies.drop_first()),
    }
}

/// Conduct the conversation that starts in `state`: make the calls that its
/// states describe until one ends it.
///
/// The outcome is that of the replies that were given, of which there are no
/// more than the budget.
pub fn converse<M: Exchange, F: Fn(M) -> M::Reply>(state: M, call: &F) -> (out: Result<M::Out>)
    requires
        state.inv(),
        forall|s: M| s.inv() ==> #[trigger] call.requires((s,)),
    ensures
        exists|replies: Seq<M::Reply>|
            {
                &&& #[trigger] conducted(state, *call, replies)
                &&& replies.len() <= state.budget()
                &&& run(state, reply_models::<M>(replies)) == Some(
                    map_ok(out, |o: M::Out| M::out_model(o)),
                )
            },
    decreases state.budget(),
{
    let reply = call(state);
    let ghost given = reply;
    let ghost model = M::reply_model(given);
    proof {
        state.step_spends(model);  // there is a call to spend
    }
    match state.reply(reply) {
        Step::Done(out) => {
            proof {
                let replies = seq![given];
                assert(reply_models::<M>(replies)[0] == model);
                assert(conducted(state, *call, replies));
            }
            out
        },
        Step::Call(next) => {
            let out = converse(next, call);
            proof {
                let tail = choose|replies: Seq<M::Reply>|
                    {
                        &&& #[trigger] conducted(next, *call, replies)
                        &&& replies.len() <= next.budget()
                        &&& run(next, reply_models::<M>(replies)) == Some(
                            map_ok(out, |o: M::Out| M::out_model(o)),
                        )
                    };
                let replies = seq![given] + tail;
                assert(replies.drop_first() =~= tail);
                assert(reply_models::<M>(replies).drop_first() =~= reply_models::<M>(tail));
                assert(reply_models::<M>(replies)[0] == model);
                assert(conducted(state, *call, replies));
            }
            out
        },
    }
}

/// The replies that the first five calls of a conversation get, one after the
/// other.
pub proof fn lemma_leading_replies<T>(replies: Seq<T>)
    ensures
        replies.len() > 1 ==> replies.drop_first()[0] == replies[1],
        replies.len() > 2 ==> replies.drop_first().drop_first()[0] == replies[2],
        replies.len() > 3 ==> replies.drop_first().drop_first().drop_first()[0] == replies[3],
        replies.len() > 4 ==> replies.drop_first().drop_first().drop_first().drop_first()[0]
            == replies[4],
{
}

/// A conversation ends within its budget, whatever the replies are.
pub proof fn law_exchange_ends<M: Exchange>(state: M, replies: Seq<M::ReplyModel>)
    requires
        state.inv(),
        replies.len() >= state.budget(),
    ensures
        run(state, replies) is Some,
    decreases replies.len(),
{
    state.step_spends(replies[0]);
    match state.step(replies[0]) {
        Step::Done(_) => {},
        Step::Call(next) => law_exchange_ends(next, replies.drop_first()),
    }
}

/// Replies after the one that ended a conversation change nothing.
pub proof fn law_exchange_stops<M: Exchange>(
    state: M,
    replies: Seq<M::ReplyModel>,
    later: Seq<M::ReplyModel>,
)
    requires
        run(state, replies) is Some,
    ensures
        run(state, replies + later) == run(state, replies),
    decreases replies.len(),
{
    assert((replies + later)[0] == replies[0]);
    match state.step(replies[0]) {
        Step::Done(_) => {},
        Step::Call(next) => {
            assert((replies + later).drop_first() =~= replies.drop_first() + later);
            law_exchange_stops(next, replies.drop_first(), later);
        },
    }
}

/// The outcome of a conversation is the one that its last reply gives, in a
/// state that the conversation can be in.
pub proof fn law_outcome_of_last_reply<M: Exchange>(
    state: M,
    replies: Seq<M::ReplyModel>,
) -> (last: (int, M))
    requires
        state.inv(),
        run(state, replies) is Some,
    ensures
        0 <= last.0 < replies.len(),
        last.1.inv(),
        last.1.budget() <= state.budget(),
        last.1.step(replies[last.0]) == Step::<M, M::OutModel>::Done(run(state, replies)->0),
    decreases replies.len(),
{
    state.step_spends(replies[0]);
    match state.step(replies[0]) {
        Step::Done(_) => (0, state),
        Step::Call(next) => {
            let tail = law_outcome_of_last_reply(next, replies.drop_first());
            (tail.0 + 1, tail.1)
        },
    }
}

/// How a conversation goes on: after a first reply it is over with the outcome
/// that the reply gives, or it is the conversation from the next state with the
/// replies that are left. Without a reply it has no outcome.
pub proof fn law_run_goes_by_steps<M: Exchange>(
    state: M,
    first: M::ReplyModel,
    rest: Seq<M::ReplyModel>,
)
    ensures
        run(state, Seq::empty()) is None,
        state.step(first) matches Step::Done(out) ==> run(state, seq![first] + rest) == Some(out),
        state.step(first) matches Step::Call(next) ==> run(state, seq![first] + rest) == run(
            next,
            rest,
        ),
{
    assert((seq![first] + rest).drop_first() =~= rest);
}

/// Which replies a conversation consists of: the first is one that the call may
/// give in the first state, nothing follows one that ends it, and behind one that
/// does not the rest is a conversation from the next state. There is always one.
pub proof fn law_conducted_goes_by_steps<M: Exchange, F: Fn(M) -> M::Reply>(
    state: M,
    call: F,
    first: M::Reply,
    rest: Seq<M::Reply>,
)
    ensures
        !conducted(state, call, Seq::empty()),
        conducted(state, call, seq![first] + rest) ==> call.ensures((state,), first),
        state.step(M::reply_model(first)) is Done ==> (conducted(state, call, seq![first] + rest)
            <==> call.ensures((state,), first) && rest.len() == 0),
        state.step(M::reply_model(first)) matches Step::Call(next) ==> (conducted(
            state,
            call,
            seq![first] + rest,
        ) <==> call.ensures((state,), first) && conducted(next, call, rest)),
{
    assert((seq![first] + rest).drop_first() =~= rest);
}

/// Mapping an outcome or a step touches the value of a success and nothing else:
/// errors and next calls stay.
pub proof fn law_mapping_touches_success<S, T, U>(
    t: T,
    e: crate::error::Error,
    s: S,
    f: spec_fn(T) -> U,
)
    ensures
        map_ok(Ok::<T, crate::error::Error>(t), f) == Ok::<U, crate::error::Error>(f(t)),
        map_ok(Err::<T, crate::error::Error>(e), f) == Err::<U, crate::error::Error>(e),
        Step::<S, T>::Call(s).map(f) == Step::<S, U>::Call(s),
        Step::<S, T>::Done(Ok(t)).map(f) == Step::<S, U>::Done(Ok(f(t))),
        Step::<S, T>::Done(Err(e)).map(f) == Step::<S, U>::Done(Err(e)),
{
}

/// Replies as values are one for one and in order.
pub proof fn law_reply_models_one_for_one<M: Exchange>(replies: Seq<M::Reply>)
    ensures
        reply_models::<M>(replies).len() == replies.len(),
        forall|i: int|
            0 <= i < replies.len() ==> #[trigger] reply_models::<M>(replies)[i] == M::reply_model(
                replies[i],
            ),
{
}

} // verus!
