use vstd::prelude::*;

use crate::table::{lemma_somes_of_nothing, somes, InMemoryTable, RecordOps};

verus! {

/// Whether `outs[i][j]` is an outcome of calling `cond` on left row `i` and
/// right row `j`, for every pair.
pub open spec fn join_outcomes<R1, R2, R3, F: Fn(&R1, &R2) -> Option<R3>>(
    left: Seq<R1>,
    right: Seq<R2>,
    cond: F,
    outs: Seq<Seq<Option<R3>>>,
) -> bool {
    &&& outs.len() == left.len()
    &&& forall|i: int| 0 <= i < left.len() ==> #[trigger] outs[i].len() == right.len()
    &&& forall|i: int, j: int|
        0 <= i < left.len() && 0 <= j < right.len() ==> cond.ensures((&left[i], &right[j]), #[trigger] outs[i][j])
}

/// The present values of `outs`, left row by left row, and within one left
/// row right row by right row.
pub open spec fn join_rows<U>(outs: Seq<Seq<Option<U>>>) -> Seq<U>
    decreases outs.len(),
{
    if outs.len() == 0 {
        Seq::empty()
    } else {
        join_rows(outs.drop_last()) + somes(outs.last())
    }
}

/// A join in which the condition gives no value for any pair is empty.
pub proof fn lemma_join_without_match_is_empty<U>(outs: Seq<Seq<Option<U>>>)
    requires
        forall|i: int, j: int| 0 <= i < outs.len() && 0 <= j < outs[i].len() ==> #[trigger] outs[i][j] is None,
    ensures
        join_rows(outs) == Seq::<U>::empty(),
    decreases outs.len(),
{
    if outs.len() > 0 {
        let last = outs.last();
        assert forall|j: int| 0 <= j < last.len() implies #[trigger] last[j] is None by {
            assert(outs[outs.len() - 1][j] is None);
        }
        lemma_somes_of_nothing(last);
        let rest = outs.drop_last();
        assert forall|i: int, j: int| 0 <= i < rest.len() && 0 <= j < rest[i].len()
            implies #[trigger] rest[i][j] is None by {
            assert(rest[i] == outs[i]);
        }
        lemma_join_without_match_is_empty(rest);
        assert(join_rows(outs) == join_rows(rest) + somes(last));
        assert(join_rows(outs) =~= Seq::<U>::empty());
    }
}

/// Nested-loop join: for each row of `table1` in order, for each row of
/// `table2` in order, the value `cond` gives for the pair, where it gives
/// one.
pub fn join<R1: RecordOps, R2: RecordOps, R3: RecordOps, F: Fn(&R1, &R2) -> Option<R3>>(
    table1: &InMemoryTable<R1>,
    table2: &InMemoryTable<R2>,
    cond: F,
) -> (r: InMemoryTable<R3>)
    requires
        forall|a: &R1, b: &R2| cond.requires((a, b)),
    ensures
        exists|outs: Seq<Seq<Option<R3>>>| join_outcomes(table1@, table2@, cond, outs) && r@ == join_rows(outs),
{
    let ghost mut done: Seq<Seq<Option<R3>>> = Seq::empty();
    let mut result: Vec<R3> = Vec::new();
    let mut i: usize = 0;
    while i < table1.len()
        invariant
            i <= table1@.len(),
            done.len() == i,
            forall|a: &R1, b: &R2| cond.requires((a, b)),
            forall|k: int| 0 <= k < i ==> #[trigger] done[k].len() == table2@.len(),
            forall|k: int, j: int| 0 <= k < i && 0 <= j < table2@.len()
                ==> cond.ensures((&table1@[k], &table2@[j]), #[trigger] done[k][j]),
            result@ == join_rows(done),
        decreases table1@.len() - i,
    {
        let ghost mut cur: Seq<Option<R3>> = Seq::empty();
        let mut j: usize = 0;
        while j < table2.len()
            invariant
                i < table1@.len(),
                j <= table2@.len(),
                cur.len() == j,
                forall|a: &R1, b: &R2| cond.requires((a, b)),
                forall|n: int| 0 <= n < j ==> cond.ensures((&table1@[i as int], &table2@[n]), #[trigger] cur[n]),
                result@ == join_rows(done) + somes(cur),
            decreases table2@.len() - j,
        {
            let out = cond(table1.index(i), table2.index(j));
            proof {
                let before = cur;
                cur = cur.push(out);
                assert(cur.drop_last() == before);
            }
            match out {
                Some(v) => {
                    result.push(v);
                    assert(result@ =~= join_rows(done) + somes(cur));
                },
                None => {},
            }
            j = j + 1;
        }
        proof {
            let before = done;
            done = done.push(cur);
            assert(done.drop_last() == before);
            assert(done[i as int] == cur);
        }
        i = i + 1;
    }
    assert(join_outcomes(table1@, table2@, cond, done));
    InMemoryTable::from_rows(result)
}

/// The left and right tables of a join whose condition is still to come.
pub struct JoinConditionBuilder<'a, 'b, R1, R2> {
    lhs: &'a InMemoryTable<R1>,
    rhs: &'b InMemoryTable<R2>,
}

impl<'a, 'b, R1: RecordOps, R2: RecordOps> JoinConditionBuilder<'a, 'b, R1, R2> {
    pub closed spec fn spec_lhs(&self) -> Seq<R1> {
        self.lhs@
    }

    pub closed spec fn spec_rhs(&self) -> Seq<R2> {
        self.rhs@
    }

    /// Joins the two tables on `conditional_fn`, as `join` does.
    pub fn on<R3: RecordOps, F: Fn(&R1, &R2) -> Option<R3>>(self, conditional_fn: F) -> (r: InMemoryTable<R3>)
        requires
            forall|a: &R1, b: &R2| conditional_fn.requires((a, b)),
        ensures
            exists|outs: Seq<Seq<Option<R3>>>|
                join_outcomes(self.spec_lhs(), self.spec_rhs(), conditional_fn, outs) && r@ == join_rows(outs),
    {
        join(self.lhs, self.rhs, conditional_fn)
    }
}

impl<R1: RecordOps> InMemoryTable<R1> {
    /// Starts a join of this table with `other`: `t1.join(&t2).on(cond)`.
    pub fn join<'a, 'b, R2: RecordOps>(&'a self, other: &'b InMemoryTable<R2>) -> (r: JoinConditionBuilder<'a, 'b, R1, R2>)
        ensures
            r.spec_lhs() == self@,
            r.spec_rhs() == other@,
    {
        JoinConditionBuilder { lhs: self, rhs: other }
    }
}

/// Whether pair `(a, b)` comes before pair `(c, d)`: left index first,
/// right index second.
pub open spec fn pair_before(a: int, b: int, c: int, d: int) -> bool {
    a < c || (a == c && b < d)
}

/// A lazy nested-loop join: each call of `next` scans pairs onward from
/// where the last one stopped, left row by left row, and stops at the first
/// pair for which the condition gives a value.
pub struct JoinTableIter<'a, 'b, F, R1, R2, R3> {
    cond_fn: F,
    table1: &'a InMemoryTable<R1>,
    table2: &'b InMemoryTable<R2>,
    i: usize,
    j: usize,
    produces: core::marker::PhantomData<R3>,
}

impl<'a, 'b, F: Fn(&R1, &R2) -> Option<R3>, R1: RecordOps, R2: RecordOps, R3: RecordOps> JoinTableIter<
    'a,
    'b,
    F,
    R1,
    R2,
    R3,
> {
    pub closed spec fn spec_cond(&self) -> F {
        self.cond_fn
    }

    pub closed spec fn spec_left(&self) -> Seq<R1> {
        self.table1@
    }

    pub closed spec fn spec_right(&self) -> Seq<R2> {
        self.table2@
    }

    /// The left and right index of the next pair to scan.
    pub closed spec fn spec_pos(&self) -> (int, int) {
        (self.i as int, self.j as int)
    }

    pub open spec fn wf(&self) -> bool {
        &&& self.spec_pos().0 <= self.spec_left().len()
        &&& self.spec_pos().1 <= self.spec_right().len()
        &&& forall|a: &R1, b: &R2| self.spec_cond().requires((a, b))
    }

    /// Whether every pair from the position `from` up to, not including,
    /// `(c, d)` was scanned and gave no value.
    pub open spec fn none_between(&self, from: (int, int), c: int, d: int) -> bool {
        forall|x: int, y: int|
            0 <= x < self.spec_left().len() && 0 <= y < self.spec_right().len()
                && !pair_before(x, y, from.0, from.1) && pair_before(x, y, c, d)
                ==> self.spec_cond().ensures((&self.spec_left()[x], &self.spec_right()[y]), None::<R3>)
    }

    /// A join of `table1` and `table2` on `cond_fn`, before its first pair.
    pub fn new(table1: &'a InMemoryTable<R1>, table2: &'b InMemoryTable<R2>, cond_fn: F) -> (r: Self)
        requires
            forall|a: &R1, b: &R2| cond_fn.requires((a, b)),
        ensures
            r.wf(),
            r.spec_cond() == cond_fn,
            r.spec_left() == table1@,
            r.spec_right() == table2@,
            r.spec_pos() == (0int, 0int),
    {
        JoinTableIter {
            cond_fn,
            table1,
            table2,
            i: 0,
            j: 0,
            produces: core::marker::PhantomData,
        }
    }

    /// The value of the next pair, from the current position on, for which
    /// the condition gives one; none once every pair is scanned.
    pub fn next(&mut self) -> (r: Option<R3>)
        requires
            old(self).wf(),
        ensures
            final(self).wf(),
            final(self).spec_cond() == old(self).spec_cond(),
            final(self).spec_left() == old(self).spec_left(),
            final(self).spec_right() == old(self).spec_right(),
            r matches Some(v) ==> {
                let (a, b) = (final(self).spec_pos().0, final(self).spec_pos().1 - 1);
                &&& 0 <= a < old(self).spec_left().len() && 0 <= b < old(self).spec_right().len()
                &&& !pair_before(a, b, old(self).spec_pos().0, old(self).spec_pos().1)
                &&& old(self).spec_cond().ensures((&old(self).spec_left()[a], &old(self).spec_right()[b]), Some(v))
                &&& old(self).none_between(old(self).spec_pos(), a, b)
            },
            r is None ==> final(self).spec_pos() == (old(self).spec_left().len() as int, 0int)
                && old(self).none_between(old(self).spec_pos(), old(self).spec_left().len() as int, 0),
    {
        let ghost start = self.spec_pos();
        while self.i < self.table1.len()
            invariant
                self.wf(),
                self.spec_cond() == old(self).spec_cond(),
                self.spec_left() == old(self).spec_left(),
                self.spec_right() == old(self).spec_right(),
                start == old(self).spec_pos(),
                !pair_before(self.i as int, self.j as int, start.0, start.1),
                self.none_between(start, self.i as int, self.j as int),
            decreases self.spec_left().len() - self.i, self.spec_right().len() - self.j,
        {
            let ghost row = self.i;
            while self.j < self.table2.len()
                invariant
                    self.wf(),
                    self.i == row,
                    self.i < self.spec_left().len(),
                    self.spec_cond() == old(self).spec_cond(),
                    self.spec_left() == old(self).spec_left(),
                    self.spec_right() == old(self).spec_right(),
                    start == old(self).spec_pos(),
                    !pair_before(self.i as int, self.j as int, start.0, start.1),
                    self.none_between(start, self.i as int, self.j as int),
                decreases self.spec_right().len() - self.j,
            {
                let out = (self.cond_fn)(self.table1.index(self.i), self.table2.index(self.j));
                match out {
                    Some(v) => {
                        self.j = self.j + 1;
                        return Some(v);
                    },
                    None => {},
                }
                let ghost (ci, cj) = (self.i as int, self.j as int);
                proof {
                    assert forall|x: int, y: int|
                        0 <= x < self.spec_left().len() && 0 <= y < self.spec_right().len()
                            && !pair_before(x, y, start.0, start.1) && pair_before(x, y, ci, cj + 1)
                        implies self.spec_cond().ensures((&self.spec_left()[x], &self.spec_right()[y]), None::<R3>) by {
                        if !pair_before(x, y, ci, cj) {
                            assert(x == ci && y == cj);
                        }
                    }
                }
                self.j = self.j + 1;
            }
            let ghost ci = self.i as int;
            proof {
                assert forall|x: int, y: int|
                    0 <= x < self.spec_left().len() && 0 <= y < self.spec_right().len()
                        && !pair_before(x, y, start.0, start.1) && pair_before(x, y, ci + 1, 0)
                    implies self.spec_cond().ensures((&self.spec_left()[x], &self.spec_right()[y]), None::<R3>) by {
                    assert(pair_before(x, y, ci, self.j as int));
                }
            }
            self.i = self.i + 1;
            self.j = 0;
        }
        let ghost cj = self.j as int;
        proof {
            let n = self.spec_left().len() as int;
            assert forall|x: int, y: int|
                0 <= x < self.spec_left().len() && 0 <= y < self.spec_right().len()
                    && !pair_before(x, y, start.0, start.1) && pair_before(x, y, n, 0)
                implies self.spec_cond().ensures((&self.spec_left()[x], &self.spec_right()[y]), None::<R3>) by {
                assert(pair_before(x, y, n, cj));
            }
        }
        self.j = 0;
        None
    }
}

} // verus!
