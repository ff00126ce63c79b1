//! The size probe: ask for the size, allocate, fill.
//!
//! A call that fills a buffer follows one convention. With no buffer it returns
//! the size it needs. With a buffer it returns how much it wrote, or fails with
//! `ERANGE` where the buffer is too small, because the object grew since it was
//! sized. Then the size is asked for again, and the fill is tried again, four
//! times at most.
use crate::error::{Error, Result, ERANGE};
use crate::exchange::{converse, Exchange, Step};
use crate::util::truncate;
use vstd::prelude::*;

verus! {

/// How many fills are tried before giving up.
pub const MAX_FILLS: u8 = 4;

/// The next call of a size probe.
#[derive(Debug, Clone, Copy, PartialEq, Eq, Structural)]
pub struct Probe {
    /// Whether the call asks for the size (no buffer) rather than fills one.
    pub sizing: bool,
    /// The size of the buffer to hand to a fill; `0` while sizing.
    pub cap: usize,
    /// The fills made so far.
    pub fills: u8,
}

/// The reply to a call of a size probe.
#[derive(Debug)]
pub struct ProbeReply {
    /// What the call returned.
    pub ret: isize,
    /// The errno, where `ret` is negative.
    pub errno: i32,
    /// The buffer that was handed to it, as the call left it.
    pub buf: Vec<u8>,
}

/// A [`ProbeReply`] as values.
pub struct ProbeReplyModel {
    /// What the call returned.
    pub ret: isize,
    /// The errno.
    pub errno: i32,
    /// The buffer.
    pub buf: Seq<u8>,
}

impl View for ProbeReply {
    type V = ProbeReplyModel;

    open spec fn view(&self) -> ProbeReplyModel {
        ProbeReplyModel { ret: self.ret, errno: self.errno, buf: self.buf@ }
    }
}

impl Exchange for Probe {
    type Reply = ProbeReply;

    type ReplyModel = ProbeReplyModel;

    type Out = Vec<u8>;

    type OutModel = Seq<u8>;

    open spec fn reply_model(reply: ProbeReply) -> ProbeReplyModel {
        reply@
    }

    open spec fn out_model(out: Vec<u8>) -> Seq<u8> {
        out@
    }

    open spec fn inv(self) -> bool {
        &&& self.fills <= MAX_FILLS
        &&& !self.sizing ==> self.fills < MAX_FILLS
        &&& self.sizing ==> self.cap == 0
    }

    open spec fn step(self, reply: ProbeReplyModel) -> Step<Probe, Seq<u8>> {
        if self.sizing {
            if reply.ret < 0 {
                Step::Done(Err(Error { errno: reply.errno }))
            } else if self.fills < MAX_FILLS {
                Step::Call(
                    Probe { sizing: false, cap: reply.ret as usize, fills: self.fills },
                )
            } else {
                Step::Done(Err(Error { errno: ERANGE }))
            }
        } else if reply.ret >= 0 {
            Step::Done(Ok(crate::util::truncated(reply.buf, reply.ret as int)))
        } else if reply.errno == ERANGE {
            Step::Call(Probe { sizing: true, cap: 0, fills: (self.fills + 1) as u8 })
        } else {
            Step::Done(Err(Error { errno: reply.errno }))
        }
    }

    open spec fn budget(self) -> nat {
        let full = (2 * (MAX_FILLS - self.fills)) as nat;
        if self.sizing {
            full + 1
        } else {
            full
        }
    }

    proof fn step_spends(self, reply: ProbeReplyModel) {
    }

    /// Take the reply to the call that this state describes.
    fn reply(self, reply: ProbeReply) -> (next: Step<Probe, Vec<u8>>)
    {
        if self.sizing {
            if reply.ret < 0 {
                Step::Done(Err(Error { errno: reply.errno }))
            } else if self.fills < MAX_FILLS {
                Step::Call(Probe { sizing: false, cap: reply.ret as usize, fills: self.fills })
            } else {
                Step::Done(Err(Error { errno: ERANGE }))
            }
        } else if reply.ret >= 0 {
            let buf = truncate(reply.buf, reply.ret as usize);
            Step::Done(Ok(buf))
        } else if reply.errno == ERANGE {
            Step::Call(Probe { sizing: true, cap: 0, fills: self.fills + 1 })
        } else {
            Step::Done(Err(Error { errno: reply.errno }))
        }
    }
}

impl Probe {
    /// Where a probe starts.
    pub open spec fn start() -> Probe {
        Probe { sizing: true, cap: 0, fills: 0 }
    }

    /// Begin a probe: the first call asks for the size.
    pub fn new() -> (p: Probe)
        ensures
            p == Probe::start(),
            p.inv(),
            p.budget() == 9,
    {
        Probe { sizing: true, cap: 0, fills: 0 }
    }
}

/// Drive a size probe to completion, returning an owned buffer: what one
/// conversation with `call` yields, of no more than nine calls.
///
/// `call` makes the call that a state describes: with no buffer while sizing,
/// and otherwise with a zeroed one of the capacity in the state.
pub fn probe<F: Fn(Probe) -> ProbeReply>(call: &F) -> (out: Result<Vec<u8>>)
    requires
        forall|p: Probe| p.inv() ==> #[trigger] call.requires((p,)),
    ensures
        exists|replies: Seq<ProbeReply>|
            {
                &&& #[trigger] crate::exchange::conducted(Probe::start(), *call, replies)
                &&& replies.len() <= 9
                &&& crate::exchange::run(
                    Probe::start(),
                    crate::exchange::reply_models::<Probe>(replies),
                ) == Some(crate::exchange::map_ok(out, |v: Vec<u8>| v@))
            },
{
    let out = converse(Probe::new(), call);
    proof {
        let replies = choose|replies: Seq<ProbeReply>|
            {
                &&& #[trigger] crate::exchange::conducted(Probe::start(), *call, replies)
                &&& replies.len() <= Probe::start().budget()
                &&& crate::exchange::run(
                    Probe::start(),
                    crate::exchange::reply_models::<Probe>(replies),
                ) == Some(
                    crate::exchange::map_ok(
                        out,
                        |o: Vec<u8>| <Probe as Exchange>::out_model(o),
                    ),
                )
            };
        assert(crate::exchange::map_ok(out, |o: Vec<u8>| <Probe as Exchange>::out_model(o))
            == crate::exchange::map_ok(out, |v: Vec<u8>| v@));
    }
    out
}

/// A probe makes at most nine calls: it sizes, fills at most four times, and
/// sizes again after each fill that was too small.
pub proof fn law_probe_ends(replies: Seq<ProbeReplyModel>)
    requires
        replies.len() >= 9,
    ensures
        crate::exchange::run(Probe::start(), replies) is Some,
{
    crate::exchange::law_exchange_ends(Probe::start(), replies);
}

/// What a probe yields is what one of its fills, which are its calls at odd
/// positions, wrote: the buffer of a fill that succeeded, cut to the length that
/// fill reported. Where it fails, it fails with the errno of a failed call, or
/// with `ERANGE` after the sizing call behind the fourth fill.
pub proof fn law_probe_outcome(replies: Seq<ProbeReplyModel>)
    requires
        crate::exchange::run(Probe::start(), replies) is Some,
    ensures
        match crate::exchange::run(Probe::start(), replies)->0 {
            Ok(bytes) => exists|i: int|
                0 <= i < replies.len() && i % 2 == 1 && (#[trigger] replies[i]).ret >= 0 && bytes
                    == crate::util::truncated(replies[i].buf, replies[i].ret as int),
            Err(e) => e.errno == ERANGE && replies.len() >= 9 || exists|i: int|
                0 <= i < replies.len() && (#[trigger] replies[i]).ret < 0 && e.errno
                    == replies[i].errno,
        },
{
    let i = lemma_probe_last(Probe::start(), replies);
    assert(0 <= i < replies.len());
    let reply = replies[i];
}

/// The position of the reply that ends a probe: that of a fill where the probe
/// succeeds, and with nothing left to spend where it gives up.
proof fn lemma_probe_last(p: Probe, replies: Seq<ProbeReplyModel>) -> (i: int)
    requires
        p.inv(),
        crate::exchange::run(p, replies) is Some,
    ensures
        0 <= i < replies.len(),
        match crate::exchange::run(p, replies)->0 {
            Ok(bytes) => {
                &&& i % 2 == (if p.sizing {
                    1int
                } else {
                    0int
                })
                &&& replies[i].ret >= 0
                &&& bytes == crate::util::truncated(replies[i].buf, replies[i].ret as int)
            },
            Err(e) => {
                ||| replies[i].ret < 0 && e.errno == replies[i].errno
                ||| e.errno == ERANGE && replies.len() >= p.budget()
            },
        },
    decreases replies.len(),
{
    match p.step(replies[0]) {
        Step::Done(_) => 0,
        Step::Call(next) => {
            let i = lemma_probe_last(next, replies.drop_first());
            assert(replies.drop_first()[i] == replies[i + 1]);
            i + 1
        },
    }
}

/// Where nothing changes between the two calls, two calls are enough: the size
/// that the first reports is the capacity of the second, and the bytes that the
/// second writes are the result.
pub proof fn law_probe_settled(size: ProbeReplyModel, fill: ProbeReplyModel)
    requires
        size.ret >= 0,
        fill.ret == size.ret,
        fill.buf.len() == size.ret,
    ensures
        Probe::start().step(size) matches Step::Call(p) && p.cap == size.ret && !p.sizing,
        crate::exchange::run(Probe::start(), seq![size, fill]) == Some(
            Ok::<Seq<u8>, Error>(fill.buf),
        ),
{
    reveal_with_fuel(crate::exchange::run, 3);
    assert(seq![size, fill].drop_first() =~= seq![fill]);
}

/// An object that outgrows every buffer is given up on with `ERANGE` after the
/// fourth fill and the sizing call behind it.
pub proof fn law_probe_gives_up(p: Probe, replies: Seq<ProbeReplyModel>)
    requires
        p.inv(),
        p.sizing,
        replies.len() == p.budget(),
        forall|i: int| 0 <= i < replies.len() && i % 2 == 0 ==> (#[trigger] replies[i]).ret >= 0,
        forall|i: int|
            0 <= i < replies.len() && i % 2 == 1 ==> (#[trigger] replies[i]).ret < 0
                && replies[i].errno == ERANGE,
    ensures
        crate::exchange::run(p, replies) == Some(Err::<Seq<u8>, Error>(Error { errno: ERANGE })),
    decreases p.budget(),
{
    assert(replies[0].ret >= 0);
    if p.fills < MAX_FILLS {
        let filling = Probe { sizing: false, cap: replies[0].ret as usize, fills: p.fills };
        let again = Probe { sizing: true, cap: 0, fills: (p.fills + 1) as u8 };
        let after_size = replies.drop_first();
        let rest = after_size.drop_first();
        assert(replies[1].ret < 0 && replies[1].errno == ERANGE);
        assert(after_size[0] == replies[1]);
        assert forall|i: int| 0 <= i < rest.len() && i % 2 == 0 implies (
        #[trigger] rest[i]).ret >= 0 by {
            assert(rest[i] == replies[i + 2]);
        }
        assert forall|i: int| 0 <= i < rest.len() && i % 2 == 1 implies (#[trigger] rest[i]).ret < 0
            && rest[i].errno == ERANGE by {
            assert(rest[i] == replies[i + 2]);
        }
        law_probe_gives_up(again, rest);
        assert(crate::exchange::run(p, replies) == crate::exchange::run(filling, after_size));
        assert(crate::exchange::run(filling, after_size) == crate::exchange::run(again, rest));
    }
}

/// What follows each reply of a probe. A sizing call that succeeds is followed by
/// a fill with a buffer of exactly that size, but for the one behind the fourth
/// fill; a fill that was too small is followed by a sizing call; a fill that
/// succeeds ends the probe with the leading bytes of its buffer, as many as it
/// reported; any other failure ends it with its errno.
pub proof fn law_probe_follows_replies(p: Probe, reply: ProbeReply, out: Vec<u8>)
    requires
        p.fills <= 4,
    ensures
        Probe::start().sizing && Probe::start().cap == 0 && Probe::start().fills == 0,
        ({
            let next = p.step(<Probe as Exchange>::reply_model(reply));
            &&& p.sizing && reply.ret >= 0 && p.fills < 4 ==> (next matches Step::Call(q)
                && !q.sizing && q.cap == reply.ret && q.fills == p.fills)
            &&& p.sizing && reply.ret >= 0 && p.fills >= 4 ==> (next matches Step::Done(Err(e))
                && e.errno == 34)
            &&& !p.sizing && reply.ret < 0 && reply.errno == 34 ==> (next matches Step::Call(q)
                && q.sizing && q.cap == 0 && q.fills == p.fills + 1)
            &&& reply.ret < 0 && (p.sizing || reply.errno != 34) ==> (next matches Step::Done(
                Err(e),
            ) && e.errno == reply.errno)
            &&& !p.sizing && reply.ret >= 0 ==> next is Done && next->Done_0 is Ok
        }),
        p.step(<Probe as Exchange>::reply_model(reply)) == Step::<Probe, Seq<u8>>::Done(
            Ok(<Probe as Exchange>::out_model(out)),
        ) ==> {
            &&& out@.len() == (if reply.ret < reply.buf@.len() {
                reply.ret as nat
            } else {
                reply.buf@.len()
            })
            &&& forall|i: int| 0 <= i < out@.len() ==> #[trigger] out@[i] == reply.buf@[i]
        },
{
}

} // verus!
