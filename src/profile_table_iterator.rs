//! Row lookup and iteration shared by every columnar table.

use std::marker::PhantomData;
use vstd::prelude::*;

verus! {

/// Borrows the value inside an option.
pub fn lookup_through_option<T>(op: &Option<T>) -> (r: Option<&T>)
    ensures
        r.is_some() == op.is_some(),
        r.is_some() ==> *r.unwrap() == op.unwrap(),
{
    match op {
        Some(v) => Some(v),
        None => None,
    }
}

/// A table of `length()` rows stored as parallel columns. A row is assembled
/// from the columns on demand, as an owned snapshot.
pub trait TableLookup<Entry>: Sized {
    /// Every column holds exactly `len_spec()` cells.
    spec fn wf(&self) -> bool;

    /// The declared number of rows.
    spec fn len_spec(&self) -> nat;

    /// The row at position `ix`, read across the columns.
    spec fn row_spec(&self, ix: int) -> Entry;

    fn length(&self) -> (r: usize)
        requires
            self.wf(),
        ensures
            r == self.len_spec(),
    ;

    fn lookup(&self, ix: usize) -> (e: Entry)
        requires
            self.wf(),
            ix < self.len_spec(),
        ensures
            e == self.row_spec(ix as int),
    ;

}

/// A forward pass over the rows of one table, from the first row.
pub struct TableIterator<'a, T, E> where T: TableLookup<E> {
    cur_ix: usize,
    table: &'a T,
    phantom: PhantomData<E>,
}

impl<'a, T, E> TableIterator<'a, T, E> where T: TableLookup<E> {
    /// The table that the pass reads.
    pub closed spec fn source(&self) -> &'a T {
        self.table
    }

    /// How many rows the pass has handed out.
    pub closed spec fn position(&self) -> nat {
        self.cur_ix as nat
    }

    /// A pass that starts at the first row of `table`.
    pub fn from(table: &'a T) -> (it: TableIterator<'a, T, E>)
        ensures
            it.source() == table,
            it.position() == 0,
    {
        TableIterator { cur_ix: 0, table: table, phantom: PhantomData }
    }

    /// The next row, or `None` once all `length()` rows have been handed out.
    pub fn next(&mut self) -> (r: Option<E>)
        requires
            old(self).source().wf(),
            old(self).position() <= old(self).source().len_spec(),
        ensures
            final(self).source() == old(self).source(),
            old(self).position() < old(self).source().len_spec() ==> {
                &&& r == Some(old(self).source().row_spec(old(self).position() as int))
                &&& final(self).position() == old(self).position() + 1
            },
            old(self).position() >= old(self).source().len_spec() ==> {
                &&& r.is_none()
                &&& final(self).position() == old(self).position()
            },
    {
        if self.cur_ix >= self.table.length() {
            None
        } else {
            let lu = self.table.lookup(self.cur_ix);
            self.cur_ix = self.cur_ix + 1;
            Some(lu)
        }
    }
}

/// Every row of a table, in order: exactly `length()` of them, the i-th being
/// the row that `lookup(i)` gives.
pub fn rows<T: TableLookup<E>, E>(table: &T) -> (v: Vec<E>)
    requires
        table.wf(),
    ensures
        v@.len() == table.len_spec(),
        forall|i: int| 0 <= i < v@.len() ==> v@[i] == table.row_spec(i),
{
    let mut it = TableIterator::from(table);
    let mut v: Vec<E> = Vec::new();
    loop
        invariant
            it.source() == table,
            table.wf(),
            it.position() <= table.len_spec(),
            v@.len() == it.position(),
            forall|i: int| 0 <= i < v@.len() ==> v@[i] == table.row_spec(i),
        ensures
            v@.len() == table.len_spec(),
            forall|i: int| 0 <= i < v@.len() ==> v@[i] == table.row_spec(i),
        decreases table.len_spec() - it.position(),
    {
        match it.next() {
            Some(e) => v.push(e),
            None => break,
        }
    }
    v
}

} // verus!
