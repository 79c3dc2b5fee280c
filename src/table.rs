use vstd::prelude::*;

verus! {

/// A row type of a table: it is read from and written to a record's bytes.
pub trait RecordOps: Sized {
    /// Parses the bytes of one record into a row.
    fn from_bytes(record: &[u8]) -> Self;

    /// Serializes the row into record bytes.
    fn to_bytes(&self) -> Vec<u8>;
}

/// The values of `outs` that are present, in order.
pub open spec fn somes<U>(outs: Seq<Option<U>>) -> Seq<U>
    decreases outs.len(),
{
    if outs.len() == 0 {
        Seq::empty()
    } else {
        let rest = somes(outs.drop_last());
        match outs.last() {
            Some(v) => rest.push(v),
            None => rest,
        }
    }
}

/// Where no outcome holds a value, none is kept.
pub proof fn lemma_somes_of_nothing<U>(outs: Seq<Option<U>>)
    requires
        forall|i: int| 0 <= i < outs.len() ==> #[trigger] outs[i] is None,
    ensures
        somes(outs) == Seq::<U>::empty(),
    decreases outs.len(),
{
    if outs.len() > 0 {
        lemma_somes_of_nothing(outs.drop_last());
    }
}

/// Whether `after` is `before` followed by a clone of each of `rows`, in
/// order.
pub open spec fn appended_clones<T: Clone>(before: Seq<T>, rows: Seq<T>, after: Seq<T>) -> bool {
    &&& after.len() == before.len() + rows.len()
    &&& forall|i: int| 0 <= i < before.len() ==> #[trigger] after[i] == before[i]
    &&& forall|i: int| 0 <= i < rows.len() ==> cloned(rows[i], #[trigger] after[before.len() + i])
}

/// Appending one row with `insert_owned` and then a slice with `insert`
/// keeps every earlier row in place, then the one row, then the slice's
/// rows in their order.
pub proof fn lemma_insert_keeps_append_order<T: Clone>(start: Seq<T>, row: T, rows: Seq<T>, end: Seq<T>)
    requires
        appended_clones(start.push(row), rows, end),
    ensures
        end.len() == start.len() + 1 + rows.len(),
        forall|i: int| 0 <= i < start.len() ==> #[trigger] end[i] == start[i],
        end[start.len() as int] == row,
        forall|i: int| 0 <= i < rows.len() ==> cloned(rows[i], #[trigger] end[start.len() + 1 + i]),
{
    assert(end[start.len() as int] == start.push(row)[start.len() as int]);
    assert forall|i: int| 0 <= i < start.len() implies #[trigger] end[i] == start[i] by {
        assert(end[i] == start.push(row)[i]);
    }
    assert forall|i: int| 0 <= i < rows.len() implies cloned(rows[i], #[trigger] end[start.len() + 1 + i]) by {
        assert(start.push(row).len() + i == start.len() + 1 + i);
    }
}

/// Whether `outs` are outcomes of calling `cond` on each row of `rows`, in
/// order.
pub open spec fn select_outcomes<T, U, F: Fn(&T) -> Option<U>>(
    rows: Seq<T>,
    cond: F,
    outs: Seq<Option<U>>,
) -> bool {
    &&& outs.len() == rows.len()
    &&& forall|i: int| 0 <= i < rows.len() ==> cond.ensures((&rows[i],), #[trigger] outs[i])
}

/// Whether `accs` are the running values of folding `op` over `rows` from
/// `init`: `accs[0]` is `init` and each row takes one step.
pub open spec fn fold_steps<T, I, F: Fn(I, &T) -> I>(rows: Seq<T>, init: I, op: F, accs: Seq<I>) -> bool {
    &&& accs.len() == rows.len() + 1
    &&& accs[0] == init
    &&& forall|i: int| 0 <= i < rows.len() ==> op.ensures((#[trigger] accs[i], &rows[i]), accs[i + 1])
}

/// A table held entirely in memory, rows in insertion order.
#[derive(Debug)]
pub struct InMemoryTable<T> {
    rows: Vec<T>,
}

impl<T> View for InMemoryTable<T> {
    type V = Seq<T>;

    closed spec fn view(&self) -> Seq<T> {
        self.rows@
    }
}

impl<T: RecordOps> InMemoryTable<T> {
    /// An empty table.
    pub fn new() -> (r: InMemoryTable<T>)
        ensures
            r@ == Seq::<T>::empty(),
    {
        InMemoryTable { rows: Vec::new() }
    }

    /// A table of the given rows, in their order.
    pub fn from_rows(rows: Vec<T>) -> (r: InMemoryTable<T>)
        ensures
            r@ == rows@,
    {
        InMemoryTable { rows }
    }

    /// The rows, in order.
    pub fn into_rows(self) -> (r: Vec<T>)
        ensures
            r@ == self@,
    {
        self.rows
    }

    /// The rows, in order.
    pub fn rows(&self) -> (r: &[T])
        ensures
            r@ == self@,
    {
        self.rows.as_slice()
    }

    /// The number of rows.
    pub fn len(&self) -> (r: usize)
        ensures
            r == self@.len(),
    {
        self.rows.len()
    }

    /// The row at index `i`.
    pub fn index(&self, i: usize) -> (r: &T)
        requires
            i < self@.len(),
        ensures
            *r == self@[i as int],
    {
        &self.rows[i]
    }

    /// Appends a row, without cloning it.
    pub fn insert_owned(&mut self, row: T)
        ensures
            final(self)@ == old(self)@.push(row),
    {
        self.rows.push(row);
    }

    /// Appends a clone of each row of `rows`, in their order.
    pub fn insert(&mut self, rows: &[T]) where T: Clone
        ensures
            appended_clones(old(self)@, rows@, final(self)@),
    {
        let mut k: usize = 0;
        while k < rows.len()
            invariant
                k <= rows@.len(),
                self@.len() == old(self)@.len() + k,
                forall|i: int| 0 <= i < old(self)@.len() ==> #[trigger] self@[i] == old(self)@[i],
                forall|i: int| 0 <= i < k ==> cloned(rows@[i], #[trigger] self@[old(self)@.len() + i]),
            decreases rows@.len() - k,
        {
            let row = rows[k].clone();
            self.insert_owned(row);
            k = k + 1;
        }
    }

    /// Folds `op` over the rows in index order, starting from `initial_value`.
    pub fn aggregate<I, F: Fn(I, &T) -> I>(&self, initial_value: I, op: F) -> (r: I)
        requires
            forall|acc: I, row: &T| op.requires((acc, row)),
        ensures
            exists|accs: Seq<I>| fold_steps(self@, initial_value, op, accs) && r == accs.last(),
    {
        let ghost mut accs: Seq<I> = seq![initial_value];
        let mut acc = initial_value;
        let mut i: usize = 0;
        while i < self.rows.len()
            invariant
                i <= self@.len(),
                accs.len() == i + 1,
                accs[0] == initial_value,
                acc == accs.last(),
                forall|acc: I, row: &T| op.requires((acc, row)),
                forall|k: int| 0 <= k < i ==> op.ensures((#[trigger] accs[k], &self@[k]), accs[k + 1]),
            decreases self@.len() - i,
        {
            let next = op(acc, &self.rows[i]);
            proof {
                accs = accs.push(next);
            }
            acc = next;
            i = i + 1;
        }
        assert(fold_steps(self@, initial_value, op, accs));
        acc
    }

    /// The rows for which `condition` gives a value, transformed into that
    /// value, in source order; rows for which it gives none are dropped.
    pub fn select<U: RecordOps, F: Fn(&T) -> Option<U>>(&self, condition: F) -> (r: InMemoryTable<U>)
        requires
            forall|row: &T| condition.requires((row,)),
        ensures
            exists|outs: Seq<Option<U>>| select_outcomes(self@, condition, outs) && r@ == somes(outs),
    {
        let ghost mut outs: Seq<Option<U>> = Seq::empty();
        let mut result: Vec<U> = Vec::new();
        let mut i: usize = 0;
        while i < self.rows.len()
            invariant
                i <= self@.len(),
                outs.len() == i,
                forall|row: &T| condition.requires((row,)),
                forall|k: int| 0 <= k < i ==> condition.ensures((&self@[k],), #[trigger] outs[k]),
                result@ == somes(outs),
            decreases self@.len() - i,
        {
            let out = condition(&self.rows[i]);
            proof {
                let before = outs;
                outs = outs.push(out);
                assert(outs.drop_last() == before);
            }
            match out {
                Some(v) => result.push(v),
                None => {},
            }
            i = i + 1;
        }
        assert(select_outcomes(self@, condition, outs));
        InMemoryTable { rows: result }
    }

    /// Replaces each row, in index order, by what `op` returns for it. No
    /// row is added or removed.
    pub fn update<F: Fn(&T) -> T>(&mut self, op: F)
        requires
            forall|row: &T| op.requires((row,)),
        ensures
            final(self)@.len() == old(self)@.len(),
            forall|i: int| 0 <= i < old(self)@.len() ==> op.ensures((&old(self)@[i],), #[trigger] final(self)@[i]),
    {
        let mut i: usize = 0;
        while i < self.rows.len()
            invariant
                i <= self@.len(),
                self@.len() == old(self)@.len(),
                forall|row: &T| op.requires((row,)),
                forall|k: int| i <= k < self@.len() ==> #[trigger] self@[k] == old(self)@[k],
                forall|k: int| 0 <= k < i ==> op.ensures((&old(self)@[k],), #[trigger] self@[k]),
            decreases self@.len() - i,
        {
            let row = op(&self.rows[i]);
            self.rows.set(i, row);
            i = i + 1;
        }
    }
}

/// A cursor over the rows of a table, by index.
pub struct TableIter<'a, T> {
    i: usize,
    table: &'a InMemoryTable<T>,
}

impl<'a, T: RecordOps> TableIter<'a, T> {
    /// The index of the next row.
    pub closed spec fn spec_pos(&self) -> int {
        self.i as int
    }

    pub closed spec fn spec_rows(&self) -> Seq<T> {
        self.table@
    }

    /// The next row, if any.
    pub fn next(&mut self) -> (r: Option<&'a T>)
        ensures
            final(self).spec_rows() == old(self).spec_rows(),
            old(self).spec_pos() < old(self).spec_rows().len() ==> (r matches Some(row)
                && *row == old(self).spec_rows()[old(self).spec_pos()]
                && final(self).spec_pos() == old(self).spec_pos() + 1),
            old(self).spec_pos() >= old(self).spec_rows().len() ==> r is None
                && final(self).spec_pos() == old(self).spec_pos(),
    {
        if self.i >= self.table.len() {
            return None;
        }
        let r = self.table.index(self.i);
        self.i = self.i + 1;
        Some(r)
    }

    /// The row `n` places after the next one, reached by one jump; the
    /// cursor then stands after it. Past the end, none, and the cursor stands
    /// at the end.
    pub fn nth(&mut self, n: usize) -> (r: Option<&'a T>)
        ensures
            final(self).spec_rows() == old(self).spec_rows(),
            old(self).spec_pos() + n < old(self).spec_rows().len() ==> (r matches Some(row)
                && *row == old(self).spec_rows()[old(self).spec_pos() + n]
                && final(self).spec_pos() == old(self).spec_pos() + n + 1),
            old(self).spec_pos() + n >= old(self).spec_rows().len() ==> r is None
                && final(self).spec_pos() == if old(self).spec_pos() < old(self).spec_rows().len() {
                    old(self).spec_rows().len() as int
                } else {
                    old(self).spec_pos()
                },
    {
        let len = self.table.len();
        if self.i >= len || n >= len - self.i {
            if self.i < len {
                self.i = len;
            }
            return None;
        }
        let k = self.i + n;
        self.i = k + 1;
        Some(self.table.index(k))
    }

    /// The number of rows still ahead of the cursor.
    pub fn len(&self) -> (r: usize)
        ensures
            r == if self.spec_pos() < self.spec_rows().len() {
                self.spec_rows().len() - self.spec_pos()
            } else {
                0
            },
    {
        let len = self.table.len();
        if self.i < len {
            len - self.i
        } else {
            0
        }
    }
}

impl<T: RecordOps> InMemoryTable<T> {
    /// A cursor at the first row.
    pub fn iter<'a>(&'a self) -> (r: TableIter<'a, T>)
        ensures
            r.spec_pos() == 0,
            r.spec_rows() == self@,
    {
        TableIter { i: 0, table: self }
    }
}

/// Operations every table offers. The contracts stand on the inherent
/// methods of the same names of `InMemoryTable`.
pub trait TableOps {
    type Row: RecordOps;

    /// Takes the row and appends it, without cloning.
    fn insert_owned(&mut self, row: Self::Row);

    /// The number of rows.
    fn len(&self) -> usize;
}

impl<T: RecordOps> TableOps for InMemoryTable<T> {
    type Row = T;

    fn insert_owned(&mut self, row: T) {
        InMemoryTable::insert_owned(self, row)
    }

    fn len(&self) -> usize {
        InMemoryTable::len(self)
    }
}

} // verus!
