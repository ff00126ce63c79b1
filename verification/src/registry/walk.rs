//! Walking an enumeration by index.
//!
//! Values and subkeys are enumerated by asking for dense positions from `0`
//! until there is no entry. [`Walk`] is the cursor behind both iterators: which
//! position to ask for next, and what the answer makes of the walk.
use crate::error::{Error, Result};
use vstd::prelude::*;

verus! {

/// The cursor of an enumeration.
#[derive(Debug, Clone, Copy, PartialEq, Eq, Structural)]
pub struct Walk {
    /// The position to ask for next.
    pub index: u32,
    /// Whether the walk is over.
    pub done: bool,
}

/// What the iterator hands out for one answer.
pub open spec fn yielded<T>(answer: Result<Option<T>>) -> Option<Result<T>> {
    match answer {
        Ok(Some(v)) => Some(Ok(v)),
        Ok(None) => None,
        Err(e) => Some(Err(e)),
    }
}

/// What a walk that gets `answers`, one per question, hands out: the values up
/// to the first answer without one, and that answer's error, if it is one.
pub open spec fn items<T>(answers: Seq<Result<Option<T>>>) -> Seq<Result<T>>
    decreases answers.len(),
{
    if answers.len() == 0 {
        Seq::empty()
    } else {
        match answers[0] {
            Ok(Some(v)) => seq![Ok::<T, Error>(v)] + items(answers.drop_first()),
            Ok(None) => Seq::empty(),
            Err(e) => seq![Err::<T, Error>(e)],
        }
    }
}

impl Walk {
    /// Where a walk starts.
    pub open spec fn start() -> Walk {
        Walk { index: 0, done: false }
    }

    /// The cursor after an answer.
    pub open spec fn after<T>(self, answer: Result<Option<T>>) -> Walk {
        match answer {
            Ok(Some(_)) => Walk { index: (self.index + 1) as u32, done: false },
            _ => Walk { index: self.index, done: true },
        }
    }

    /// The cursor after several answers; one that is done asks no more.
    pub open spec fn after_all<T>(self, answers: Seq<Result<Option<T>>>) -> Walk
        decreases answers.len(),
    {
        if self.done || answers.len() == 0 {
            self
        } else {
            self.after(answers[0]).after_all(answers.drop_first())
        }
    }

    /// What a cursor hands out for `answers`.
    pub open spec fn hands_out<T>(self, answers: Seq<Result<Option<T>>>) -> Seq<Result<T>>
        decreases answers.len(),
    {
        if self.done || answers.len() == 0 {
            Seq::empty()
        } else {
            let rest = self.after(answers[0]).hands_out(answers.drop_first());
            match yielded(answers[0]) {
                Some(item) => seq![item] + rest,
                None => rest,
            }
        }
    }

    /// Begin a walk at position `0`.
    pub fn new() -> (w: Walk)
        ensures
            w == Walk::start(),
    {
        Walk { index: 0, done: false }
    }

    /// The position to ask for, or `None` once the walk is over.
    pub fn ask(&self) -> (index: Option<u32>)
        ensures
            index == (if self.done {
                None::<u32>
            } else {
                Some(self.index)
            }),
    {
        if self.done {
            None
        } else {
            Some(self.index)
        }
    }

    /// Take the answer to the question, and say what the iterator hands out.
    ///
    /// A value moves the walk on; the end or an error ends it. Positions are 32
    /// bits wide, so a value at the last of them cannot be moved past.
    pub fn advance<T>(&mut self, answer: Result<Option<T>>) -> (item: Option<Result<T>>)
        requires
            !old(self).done,
            answer matches Ok(Some(_)) ==> old(self).index < u32::MAX,
        ensures
            item == yielded(answer),
            *final(self) == old(self).after(answer),
    {
        match answer {
            Ok(Some(v)) => {
                self.index = self.index + 1;
                Some(Ok(v))
            },
            Ok(None) => {
                self.done = true;
                None
            },
            Err(e) => {
                self.done = true;
                Some(Err(e))
            },
        }
    }
}

/// A walk hands out exactly the values up to the first answer without one, and
/// that answer's error, if it is one.
pub proof fn law_walk_yields<T>(w: Walk, answers: Seq<Result<Option<T>>>)
    requires
        !w.done,
    ensures
        w.hands_out(answers) == items(answers),
    decreases answers.len(),
{
    if answers.len() > 0 {
        let next = w.after(answers[0]);
        match answers[0] {
            Ok(Some(_)) => law_walk_yields(next, answers.drop_first()),
            Ok(None) => {
                assert(next.hands_out(answers.drop_first()) =~= Seq::empty());
            },
            Err(e) => {
                assert(next.hands_out(answers.drop_first()) =~= Seq::empty());
                assert(seq![Err::<T, Error>(e)] + Seq::<Result<T>>::empty() =~= seq![
                    Err::<T, Error>(e),
                ]);
            },
        }
    }
}

/// A walk that has ended stays ended: it asks no more and hands out nothing,
/// whatever it might have been answered.
pub proof fn law_walk_is_fused<T>(
    w: Walk,
    answers: Seq<Result<Option<T>>>,
    later: Seq<Result<Option<T>>>,
)
    requires
        w.after_all(answers).done,
    ensures
        w.after_all(answers).hands_out(later) == Seq::<Result<T>>::empty(),
        w.after_all(answers).after_all(later) == w.after_all(answers),
        w.hands_out(answers + later) == w.hands_out(answers),
    decreases answers.len(),
{
    if !w.done && answers.len() > 0 {
        let next = w.after(answers[0]);
        assert((answers + later)[0] == answers[0]);
        assert((answers + later).drop_first() =~= answers.drop_first() + later);
        law_walk_is_fused(next, answers.drop_first(), later);
    }
}

/// While values keep coming, the position asked for is the number of values so
/// far.
pub proof fn law_walk_counts<T>(w: Walk, answers: Seq<Result<Option<T>>>)
    requires
        !w.done,
        forall|i: int| 0 <= i < answers.len() ==> (#[trigger] answers[i]) matches Ok(Some(_)),
        w.index + answers.len() <= u32::MAX,
    ensures
        w.after_all(answers) == (Walk { index: (w.index + answers.len()) as u32, done: false }),
    decreases answers.len(),
{
    if answers.len() > 0 {
        assert(answers[0] matches Ok(Some(_)));
        let next = w.after(answers[0]);
        assert forall|i: int| 0 <= i < answers.drop_first().len() implies (
        #[trigger] answers.drop_first()[i]) matches Ok(Some(_)) by {
            assert(answers[i + 1] matches Ok(Some(_)));
        }
        law_walk_counts(next, answers.drop_first());
    }
}

/// What one answer makes of a walk: a value is handed out and moves it one
/// position on, the end hands out nothing and ends it, an error is handed out and
/// ends it.
pub proof fn law_walk_takes_answers<T>(w: Walk, v: T, e: Error)
    ensures
        yielded(Ok::<Option<T>, Error>(Some(v))) == Some(Ok::<T, Error>(v)),
        yielded(Ok::<Option<T>, Error>(None)) is None,
        yielded(Err::<Option<T>, Error>(e)) == Some(Err::<T, Error>(e)),
        w.index < u32::MAX ==> w.after(Ok::<Option<T>, Error>(Some(v))).index == w.index + 1,
        !w.after(Ok::<Option<T>, Error>(Some(v))).done,
        w.after(Ok::<Option<T>, Error>(None)).done,
        w.after(Ok::<Option<T>, Error>(None)).index == w.index,
        w.after(Err::<Option<T>, Error>(e)).done,
        w.after(Err::<Option<T>, Error>(e)).index == w.index,
        Walk::start().index == 0,
        !Walk::start().done,
{
}

/// A walk that is answered with `values`, then with the end or an error, and then
/// with whatever else, hands out exactly those values in order and the error, if
/// that is what ended it.
pub proof fn law_walk_items<T>(
    w: Walk,
    values: Seq<T>,
    end: Result<Option<T>>,
    later: Seq<Result<Option<T>>>,
)
    requires
        !w.done,
        !(end matches Ok(Some(_))),
    ensures
        ({
            let answers = values.map_values(|v: T| Ok::<Option<T>, Error>(Some(v))) + seq![end]
                + later;
            let given = w.hands_out(answers);
            &&& given == items(answers)
            &&& given.len() == values.len() + (if end is Err {
                1int
            } else {
                0int
            })
            &&& forall|i: int|
                0 <= i < values.len() ==> #[trigger] given[i] == Ok::<T, Error>(values[i])
            &&& end matches Err(e) ==> given[values.len() as int] == Err::<T, Error>(e)
        }),
    decreases values.len(),
{
    let told = values.map_values(|v: T| Ok::<Option<T>, Error>(Some(v)));
    let answers = told + seq![end] + later;
    law_walk_yields(w, answers);
    if values.len() == 0 {
        assert(answers[0] == end);
    } else {
        let rest = values.drop_first();
        let rest_told = rest.map_values(|v: T| Ok::<Option<T>, Error>(Some(v)));
        let rest_answers = rest_told + seq![end] + later;
        assert(answers[0] == Ok::<Option<T>, Error>(Some(values[0])));
        assert(answers.drop_first() =~= rest_answers);
        let next = Walk { index: 0, done: false };
        law_walk_items(next, rest, end, later);
        let given = items(answers);
        assert(given == seq![Ok::<T, Error>(values[0])] + items(rest_answers));
        assert forall|i: int| 0 <= i < values.len() implies #[trigger] given[i] == Ok::<T, Error>(
            values[i],
        ) by {
            if i > 0 {
                assert(given[i] == items(rest_answers)[i - 1]);
                assert(rest[i - 1] == values[i]);
            }
        }
    }
}

/// After `values` and then the end or an error a walk is over, whatever else it
/// might be answered, and it has moved on by the number of values.
pub proof fn law_walk_stops<T>(
    w: Walk,
    values: Seq<T>,
    end: Result<Option<T>>,
    later: Seq<Result<Option<T>>>,
)
    requires
        !w.done,
        !(end matches Ok(Some(_))),
        w.index + values.len() <= u32::MAX,
    ensures
        ({
            let answers = values.map_values(|v: T| Ok::<Option<T>, Error>(Some(v))) + seq![end]
                + later;
            &&& w.after_all(answers).done
            &&& w.after_all(answers).index == w.index + values.len()
        }),
    decreases values.len(),
{
    let told = values.map_values(|v: T| Ok::<Option<T>, Error>(Some(v)));
    let answers = told + seq![end] + later;
    let next = w.after(answers[0]);
    reveal_with_fuel(Walk::after_all, 2);
    if values.len() == 0 {
        assert(answers[0] == end);
    } else {
        let rest = values.drop_first();
        let rest_told = rest.map_values(|v: T| Ok::<Option<T>, Error>(Some(v)));
        assert(answers[0] == Ok::<Option<T>, Error>(Some(values[0])));
        assert(answers.drop_first() =~= rest_told + seq![end] + later);
        law_walk_stops(next, rest, end, later);
    }
}

} // verus!
