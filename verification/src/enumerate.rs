//! An adapter that pairs each element of an iterator with its cell in a
//! row-major grid.

use crate::traversal::{
    cell_of, lemma_cell_in_grid, lemma_cell_of_position, lemma_cell_of_successor, Traversal,
};
use vstd::prelude::*;
use vstd::std_specs::iter::IteratorSpec;

verus! {

/// An iterator adapter similar to `std::iter::Enumerate`, except that it
/// yields grid positions as `(row, column)`, assuming row-major order,
/// instead of running counts.
#[derive(Debug)]
pub struct GridEnumerate<I> {
    inner_iter: I,
    columns: usize,
    current_row: usize,
    current_col: usize,
}

/// The abstract state of a [`GridEnumerate`].
pub struct GridView<I> {
    /// The wrapped iterator, as it stands now.
    pub source: I,
    /// Width of the grid.
    pub columns: nat,
    /// Number of pairs yielded so far.
    pub yielded: nat,
}

impl<I> GridView<I> {
    /// The cell of the next element to be yielded. Where the grid has no
    /// columns nothing is ever yielded, and the cursor rests at the origin.
    pub open spec fn cursor(self) -> (nat, nat) {
        if self.columns > 0 {
            cell_of(self.yielded, self.columns)
        } else {
            (0, 0)
        }
    }
}

impl<I> View for GridEnumerate<I> {
    type V = GridView<I>;

    closed spec fn view(&self) -> GridView<I> {
        GridView {
            source: self.inner_iter,
            columns: self.columns as nat,
            yielded: (self.current_row * self.columns + self.current_col) as nat,
        }
    }
}

impl<I> GridEnumerate<I> {
    /// The cursor lies inside the grid. With no columns there is no grid, and
    /// the cursor rests at the origin.
    pub closed spec fn wf(&self) -> bool {
        if self.columns == 0 {
            self.current_row == 0 && self.current_col == 0
        } else {
            self.current_col < self.columns
        }
    }

    /// Wraps `inner_iter` in a grid that is `columns` wide, with the cursor at
    /// the origin. Any width is accepted, zero included.
    pub fn new(inner_iter: I, columns: usize) -> (grid: Self)
        ensures
            grid.wf(),
            grid@ == (GridView { source: inner_iter, columns: columns as nat, yielded: 0 }),
    {
        Self { inner_iter, columns, current_row: 0, current_col: 0 }
    }

    /// Width of the grid.
    pub fn columns(&self) -> (columns: usize)
        ensures
            columns == self@.columns,
    {
        self.columns
    }

    /// The cell of the next element to be yielded.
    pub fn cursor(&self) -> (cell: (usize, usize))
        requires
            self.wf(),
        ensures
            (cell.0 as nat, cell.1 as nat) == self@.cursor(),
    {
        proof {
            if self.columns > 0 {
                lemma_cell_of_position(
                    self.current_row as nat,
                    self.current_col as nat,
                    self.columns as nat,
                );
            }
        }
        (self.current_row, self.current_col)
    }
}

impl<I: Clone> Clone for GridEnumerate<I> {
    /// A copy that stands at the same cell of the same grid, over a clone of
    /// the source.
    fn clone(&self) -> (copy: Self)
        ensures
            copy.wf() == self.wf(),
            copy@.columns == self@.columns,
            copy@.yielded == self@.yielded,
            cloned(self@.source, copy@.source),
    {
        Self {
            inner_iter: self.inner_iter.clone(),
            columns: self.columns,
            current_row: self.current_row,
            current_col: self.current_col,
        }
    }
}

impl<I: Iterator> GridEnumerate<I> {
    /// What is left of the traversal if the source has `items` yet to come.
    pub open spec fn traversal(&self, items: Seq<I::Item>) -> Traversal<I::Item> {
        Traversal { columns: self@.columns, yielded: self@.yielded, items }
    }

    /// Pulls the next element from the source and pairs it with its cell.
    ///
    /// A pull on a grid without columns is a contract violation, and so is one
    /// that would take the row past `usize::MAX`.
    pub fn next(&mut self) -> (ret: Option<((usize, usize), I::Item)>)
        requires
            old(self).wf(),
            old(self)@.columns > 0,
            cell_of(old(self)@.yielded + 1, old(self)@.columns).0 <= usize::MAX,
        ensures
            final(self).wf(),
            final(self)@.columns == old(self)@.columns,
            // A pair carries the cursor, and nothing but a pair moves it.
            match ret {
                Some((cell, _)) => {
                    &&& (cell.0 as nat, cell.1 as nat) == old(self)@.cursor()
                    &&& final(self)@.yielded == old(self)@.yielded + 1
                },
                None => final(self)@.yielded == old(self)@.yielded,
            },
            // Over a source that keeps the laws of iterators, the pull is one
            // step of the traversal of what the source had left.
            old(self)@.source.obeys_prophetic_iter_laws() ==> ({
                let before = old(self).traversal(old(self)@.source.remaining());
                let after = final(self).traversal(final(self)@.source.remaining());
                &&& after == before.tail()
                &&& match ret {
                    Some((cell, item)) => before.head() == Some(
                        ((cell.0 as nat, cell.1 as nat), item),
                    ),
                    None => before.head() is None,
                }
            }),
            // The source itself has made one step, and no more.
            ({
                let before = old(self)@.source;
                let after = final(self)@.source;
                &&& after.obeys_prophetic_iter_laws() == before.obeys_prophetic_iter_laws()
                &&& before.obeys_prophetic_iter_laws() ==> {
                    &&& after.will_return_none() == before.will_return_none()
                    &&& ret is None ==> after.will_return_none()
                    &&& after.decrease() is Some <==> before.decrease() is Some
                    &&& ret is Some && after.decrease() is Some ==> decreases_to!(
                        before.decrease()->0 => after.decrease()->0
                    )
                }
            }),
    {
        let ghost columns: nat = self.columns as nat;
        let ghost yielded: nat = self@.yielded;
        match self.inner_iter.next() {
            None => None,
            Some(item) => {
                let row: usize = self.current_row;
                let col: usize = self.current_col;
                proof {
                    lemma_cell_of_position(row as nat, col as nat, columns);
                    lemma_cell_of_successor(yielded, columns);
                }
                let next_col: usize = (col + 1) % self.columns;
                self.current_col = next_col;
                if next_col == 0 {
                    self.current_row = row + 1;
                }
                proof {
                    lemma_cell_in_grid(yielded + 1, columns);
                }
                Some(((row, col), item))
            },
        }
    }

    /// The bounds on the number of elements left, as the source reports them.
    /// The adapter adds no element and drops none, so it hands on the
    /// source's own answer.
    pub fn size_hint(&self) -> (hint: (usize, Option<usize>))
        ensures
            reports(self@.source, hint),
    {
        source_size_hint(&self.inner_iter)
    }
}

/// `hint` is an answer of `source` to the question how many elements it has
/// left. Nothing ties a source to one answer, or to a truthful one.
pub closed spec fn reports<I: Iterator>(source: I, hint: (usize, Option<usize>)) -> bool {
    call_ensures(source_size_hint::<I>, (&source,), hint)
}

/// `Iterator::size_hint` of the standard library, asked of `source`. The
/// standard library lets an implementation report any bounds, so nothing is
/// claimed of the answer.
#[verifier::external_body]
fn source_size_hint<I: Iterator>(source: &I) -> (hint: (usize, Option<usize>)) {
    source.size_hint()
}

/// Conversion of a sequence-producing value into a [`GridEnumerate`].
///
/// Every iterator has it, and wraps itself.
pub trait IntoGridEnumerate {
    /// The iterator that the adapter wraps.
    type InnerIter;

    /// Makes a grid that is `cols` wide out of `self`, with the cursor at the
    /// origin. Any width is accepted, zero included.
    fn into_grid_enumerate(self, cols: usize) -> (grid: GridEnumerate<Self::InnerIter>)
        ensures
            grid.wf(),
            grid@.columns == cols,
            grid@.yielded == 0,
    ;
}

impl<I: Iterator> IntoGridEnumerate for I {
    type InnerIter = I;

    /// Wraps `self`, untouched, in a grid that is `cols` wide.
    fn into_grid_enumerate(self, cols: usize) -> (grid: GridEnumerate<I>)
        ensures
            grid@.source == self,
    {
        GridEnumerate::new(self, cols)
    }
}

} // verus!
