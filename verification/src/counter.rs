//! Counters: named, append-only update logs replayed in document order.
//!
//! A counter's state is the ordered history of its updates; its value at
//! a document position is the per-level integer vector obtained by
//! replaying the history up to that position. Stepping level `n` resets
//! every deeper level and increments level `n`, so the vector's length is
//! always the level last stepped (or the length last assigned).

use vstd::prelude::*;

use crate::numbering::{spec_apply, Numbering, NumberingPatternModel};

verus! {

/// The identity a counter is shared under: all figures of the figure
/// kind share one counter unless a user picks a distinct key.
#[derive(Clone, Copy, PartialEq, Eq, Structural, Debug)]
pub enum CounterKey {
    Figure,
    Custom(u64),
}

/// One update recorded in a counter's history.
pub enum CounterUpdate {
    /// Step the given 1-based nesting level.
    Step(usize),
    /// Assign the whole value vector.
    SetTo(Vec<u64>),
}

/// The mathematical shape of a [`CounterUpdate`].
pub enum CounterUpdateModel {
    Step(usize),
    SetTo(Seq<u64>),
}

impl View for CounterUpdate {
    type V = CounterUpdateModel;

    open spec fn view(&self) -> CounterUpdateModel {
        match self {
            CounterUpdate::Step(level) => CounterUpdateModel::Step(*level),
            CounterUpdate::SetTo(v) => CounterUpdateModel::SetTo(v@),
        }
    }
}

/// The value at 1-based level `level` of a value vector; levels beyond
/// the vector's length count as zero.
pub open spec fn spec_level_value(v: Seq<u64>, level: int) -> u64 {
    if 0 <= level - 1 < v.len() {
        v[level - 1]
    } else {
        0
    }
}

/// One more than `v`, staying put at the type's ceiling.
pub open spec fn spec_increment(v: u64) -> u64 {
    if v == u64::MAX {
        u64::MAX
    } else {
        (v + 1) as u64
    }
}

/// The value vector after stepping `level`: levels above it keep their
/// value (zero where the vector did not reach them), level `level` is
/// incremented, and every deeper level is dropped.
pub open spec fn spec_step_vec(v: Seq<u64>, level: usize) -> Seq<u64> {
    Seq::new(
        level as nat,
        |i: int|
            if i == level - 1 {
                spec_increment(spec_level_value(v, level as int))
            } else {
                spec_level_value(v, i + 1)
            },
    )
}

/// The value vector a history replays to, the zero-length vector when
/// nothing was recorded.
pub open spec fn spec_replay(log: Seq<CounterUpdateModel>) -> Seq<u64>
    decreases log.len(),
{
    if log.len() == 0 {
        Seq::empty()
    } else {
        match log.last() {
            CounterUpdateModel::Step(level) => spec_step_vec(spec_replay(log.drop_last()), level),
            CounterUpdateModel::SetTo(v) => v,
        }
    }
}

/// What a counter displays through a numbering: the replayed value
/// vector, most-significant level first unless `reversed`, rendered by
/// the pattern.
pub open spec fn spec_display(
    log: Seq<CounterUpdateModel>,
    pat: NumberingPatternModel,
    reversed: bool,
) -> Seq<char> {
    if reversed {
        spec_apply(pat, spec_replay(log).reverse())
    } else {
        spec_apply(pat, spec_replay(log))
    }
}

/// Law: one level-1 step takes any history to the single-level vector
/// holding one more than the history's first-level value.
pub proof fn lemma_step_one(log: Seq<CounterUpdateModel>)
    ensures
        spec_replay(log.push(CounterUpdateModel::Step(1))) == seq![
            spec_increment(spec_level_value(spec_replay(log), 1)),
        ],
{
    let stepped = log.push(CounterUpdateModel::Step(1));
    assert(stepped.drop_last() =~= log);
    assert(spec_replay(stepped) =~= seq![spec_increment(spec_level_value(spec_replay(log), 1))]);
}

/// Law: on a fresh counter, `n` sequential level-1 steps in document
/// order replay to the one-level vector holding exactly `n`.
pub proof fn lemma_fresh_step_one_sequence(n: nat)
    requires
        n <= u64::MAX,
    ensures
        spec_replay(Seq::new(n, |i: int| CounterUpdateModel::Step(1))) == (if n == 0 {
            Seq::<u64>::empty()
        } else {
            seq![n as u64]
        }),
    decreases n,
{
    let steps = Seq::new(n, |i: int| CounterUpdateModel::Step(1));
    if n == 0 {
        assert(steps =~= Seq::<CounterUpdateModel>::empty());
    } else {
        let prev = Seq::new((n - 1) as nat, |i: int| CounterUpdateModel::Step(1));
        lemma_fresh_step_one_sequence((n - 1) as nat);
        assert(steps.drop_last() =~= prev);
        assert(steps.last() == CounterUpdateModel::Step(1));
        assert(spec_replay(steps) =~= seq![n as u64]);
    }
}

/// Law: stepping one level deeper keeps the shallower value and starts
/// the new level at one; a following shallower step drops the deeper
/// level again and increments — `[k]` becomes `[k, 1]`, then `[k + 1]`.
pub proof fn lemma_step_deeper_then_reset(log: Seq<CounterUpdateModel>, k: u64)
    requires
        spec_replay(log) == seq![k],
        k < u64::MAX,
    ensures
        spec_replay(log.push(CounterUpdateModel::Step(2))) == seq![k, 1u64],
        spec_replay(log.push(CounterUpdateModel::Step(2)).push(CounterUpdateModel::Step(1)))
            == seq![(k + 1) as u64],
{
    let deeper = log.push(CounterUpdateModel::Step(2));
    assert(deeper.drop_last() =~= log);
    assert(spec_replay(deeper) =~= seq![k, 1u64]);
    let reset = deeper.push(CounterUpdateModel::Step(1));
    assert(reset.drop_last() =~= deeper);
    assert(spec_replay(reset) =~= seq![(k + 1) as u64]);
}

/// Applies one step update to a concrete value vector.
fn apply_step(cur: &mut Vec<u64>, level: usize)
    ensures
        final(cur)@ == spec_step_vec(old(cur)@, level),
{
    if level == 0 {
        cur.truncate(0);
        proof {
            assert(cur@ =~= spec_step_vec(old(cur)@, 0));
        }
        return ;
    }
    while cur.len() < level
        invariant
            level >= 1,
            old(cur)@.len() <= cur@.len(),
            forall|i: int| 0 <= i < cur@.len() ==> cur@[i] == spec_level_value(old(cur)@, i + 1),
        decreases level - cur.len(),
    {
        cur.push(0);
    }
    cur.truncate(level);
    let last = cur.pop();
    match last {
        Some(v) => {
            let stepped = if v == u64::MAX {
                u64::MAX
            } else {
                v + 1
            };
            cur.push(stepped);
            proof {
                assert(cur@ =~= spec_step_vec(old(cur)@, level));
            }
        },
        None => {
            proof {
                assert(false);
            }
        },
    }
}

/// A named counter: its key and its append-only update history.
pub struct Counter {
    /// The identity the counter is shared under.
    pub key: CounterKey,
    pub log: Vec<CounterUpdate>,
}

impl View for Counter {
    type V = Seq<CounterUpdateModel>;

    open spec fn view(&self) -> Seq<CounterUpdateModel> {
        self.log@.map_values(|u: CounterUpdate| u@)
    }
}

impl Counter {
    /// A fresh counter for the given key, with an empty history.
    pub fn of(key: CounterKey) -> (r: Counter)
        ensures
            r.key == key,
            r@ == Seq::<CounterUpdateModel>::empty(),
    {
        let r = Counter { key, log: Vec::new() };
        proof {
            assert(r@ =~= Seq::<CounterUpdateModel>::empty());
        }
        r
    }

    /// How many updates the history holds; document positions for
    /// [`Counter::value_at`] run from 0 (before everything) to this.
    pub fn len(&self) -> (r: usize)
        ensures
            r == self@.len(),
    {
        self.log.len()
    }

    /// Appends a step of the given 1-based level at the current document
    /// position. Never fails; the append is the only effect.
    pub fn step(&mut self, level: usize)
        requires
            level >= 1,
        ensures
            final(self)@ == old(self)@.push(CounterUpdateModel::Step(level)),
            final(self).key == old(self).key,
    {
        self.log.push(CounterUpdate::Step(level));
        proof {
            assert(self@ =~= old(self)@.push(CounterUpdateModel::Step(level)));
        }
    }

    /// Appends an assignment of the whole value vector at the current
    /// document position.
    pub fn set_to(&mut self, values: Vec<u64>)
        ensures
            final(self)@ == old(self)@.push(CounterUpdateModel::SetTo(values@)),
            final(self).key == old(self).key,
    {
        let ghost vs = values@;
        self.log.push(CounterUpdate::SetTo(values));
        proof {
            assert(self@ =~= old(self)@.push(CounterUpdateModel::SetTo(vs)));
        }
    }

    /// Replays the history up to (and including) the update at position
    /// `location - 1`: the counter's value vector at that document
    /// position. Deterministic in history and location; the zero-length
    /// vector where no update precedes the location.
    pub fn value_at(&self, location: usize) -> (v: Vec<u64>)
        requires
            location <= self@.len(),
        ensures
            v@ == spec_replay(self@.take(location as int)),
    {
        let mut cur: Vec<u64> = Vec::new();
        let mut i: usize = 0;
        proof {
            assert(self@.take(0) =~= Seq::<CounterUpdateModel>::empty());
        }
        while i < location
            invariant
                i <= location,
                location <= self@.len(),
                self@.len() == self.log@.len(),
                cur@ == spec_replay(self@.take(i as int)),
            decreases location - i,
        {
            proof {
                assert(self@.take(i + 1).drop_last() =~= self@.take(i as int));
                assert(self@.take(i + 1).last() == self@[i as int]);
            }
            match &self.log[i] {
                CounterUpdate::Step(level) => {
                    apply_step(&mut cur, *level);
                },
                CounterUpdate::SetTo(values) => {
                    let mut copy: Vec<u64> = Vec::new();
                    let mut j: usize = 0;
                    while j < values.len()
                        invariant
                            j <= values.len(),
                            copy@ == values@.take(j as int),
                        decreases values.len() - j,
                    {
                        copy.push(values[j]);
                        proof {
                            assert(copy@ =~= values@.take(j + 1));
                        }
                        j += 1;
                    }
                    proof {
                        assert(values@.take(values@.len() as int) =~= values@);
                    }
                    cur = copy;
                },
            }
            i += 1;
        }
        cur
    }

    /// The counter's current value: the whole history replayed.
    pub fn value(&self) -> (v: Vec<u64>)
        ensures
            v@ == spec_replay(self@),
    {
        let r = self.value_at(self.log.len());
        proof {
            assert(self@.take(self@.len() as int) =~= self@);
        }
        r
    }

    /// Formats the counter's current value through the given numbering;
    /// with `reversed`, the vector is rendered deepest level first.
    /// Never fails for a well-formed numbering.
    pub fn display(&self, numbering: &Numbering, reversed: bool) -> (s: String)
        requires
            numbering.wf(),
        ensures
            s@ == spec_display(self@, numbering@, reversed),
    {
        let v = self.value();
        if reversed {
            let mut rev: Vec<u64> = Vec::new();
            let mut i: usize = 0;
            while i < v.len()
                invariant
                    i <= v.len(),
                    rev@.len() == i,
                    forall|j: int| 0 <= j < i ==> rev@[j] == v@[v@.len() - 1 - j],
                decreases v.len() - i,
            {
                rev.push(v[v.len() - 1 - i]);
                i += 1;
            }
            proof {
                assert(rev@ =~= v@.reverse());
            }
            numbering.apply(&rev)
        } else {
            numbering.apply(&v)
        }
    }
}

} // verus!
