//! The mathematics of a row-major traversal: which cell of a grid the `k`-th
//! element of a flat sequence occupies, and what a sequence of pulls yields.

use vstd::prelude::*;

verus! {

/// The cell `(row, column)` of the `k`-th element, counted from zero, of a flat
/// sequence laid out row by row in a grid that is `columns` wide.
pub open spec fn cell_of(k: nat, columns: nat) -> (nat, nat)
    recommends
        columns > 0,
{
    (k / columns, k % columns)
}

/// Every cell lies inside the grid: its column is below the width, and its
/// row is no greater than the number of the element that occupies it.
pub proof fn lemma_cell_in_grid(k: nat, columns: nat)
    requires
        columns > 0,
    ensures
        cell_of(k, columns).1 < columns,
        cell_of(k, columns).0 <= k,
        k == cell_of(k, columns).0 * columns + cell_of(k, columns).1,
{
    vstd::arithmetic::div_mod::lemma_fundamental_div_mod(k as int, columns as int);
    vstd::arithmetic::div_mod::lemma_mod_pos_bound(k as int, columns as int);
    vstd::arithmetic::div_mod::lemma_div_is_ordered_by_denominator(k as int, 1, columns as int);
    assert(columns * (k / columns) == (k / columns) * columns) by (nonlinear_arith);
}

/// The converse: the cell at `(row, column)` of the grid is that of element
/// number `row * columns + column`.
pub proof fn lemma_cell_of_position(row: nat, column: nat, columns: nat)
    requires
        column < columns,
    ensures
        cell_of(row * columns + column, columns) == (row, column),
{
    vstd::arithmetic::div_mod::lemma_fundamental_div_mod_converse(
        (row * columns + column) as int,
        columns as int,
        row as int,
        column as int,
    );
}

/// The cursor rule. The element after the one at `(row, column)` lies one
/// column to the right, or, where that would leave the grid, at the start of
/// the next row.
pub proof fn lemma_cell_of_successor(k: nat, columns: nat)
    requires
        columns > 0,
    ensures
        cell_of(k + 1, columns) == ({
            let (row, column) = cell_of(k, columns);
            let moved = (column + 1) % columns;
            if moved == 0 {
                ((row + 1) as nat, 0nat)
            } else {
                (row, moved as nat)
            }
        }),
{
    let (row, column) = cell_of(k, columns);
    lemma_cell_in_grid(k, columns);
    if column + 1 < columns {
        vstd::arithmetic::div_mod::lemma_small_mod(column + 1, columns);
        assert(k + 1 == row * columns + (column + 1)) by (nonlinear_arith)
            requires
                k == row * columns + column,
        ;
        lemma_cell_of_position(row, column + 1, columns);
    } else {
        vstd::arithmetic::div_mod::lemma_mod_self_0(columns as int);
        assert(k + 1 == (row + 1) * columns + 0) by (nonlinear_arith)
            requires
                k == row * columns + column,
                column + 1 == columns,
        ;
        lemma_cell_of_position(row + 1, 0, columns);
    }
}

/// What is left of a traversal: the items still to come, and how many pairs
/// were yielded before them.
pub struct Traversal<T> {
    /// Width of the grid.
    pub columns: nat,
    /// Number of pairs yielded so far.
    pub yielded: nat,
    /// The items that the source has yet to produce, in order.
    pub items: Seq<T>,
}

impl<T> Traversal<T> {
    /// A traversal of `items` that has yielded nothing yet.
    pub open spec fn start(items: Seq<T>, columns: nat) -> Self {
        Traversal { columns, yielded: 0, items }
    }

    /// What the next pull yields: the first item to come with the cell it
    /// occupies, or `None` once no item is left.
    pub open spec fn head(self) -> Option<((nat, nat), T)> {
        if self.items.len() > 0 {
            Some((cell_of(self.yielded, self.columns), self.items[0]))
        } else {
            None
        }
    }

    /// The traversal after one pull. A pull that finds no item changes nothing.
    pub open spec fn tail(self) -> Self {
        if self.items.len() > 0 {
            Traversal {
                columns: self.columns,
                yielded: self.yielded + 1,
                items: self.items.drop_first(),
            }
        } else {
            self
        }
    }

    /// The traversal after `n` pulls.
    pub open spec fn after(self, n: nat) -> Self
        decreases n,
    {
        if n == 0 {
            self
        } else {
            self.tail().after((n - 1) as nat)
        }
    }

    /// After `n` pulls a traversal has yielded as many more pairs as the
    /// source had items for, up to `n`, and holds the items behind those.
    pub proof fn lemma_after(self, n: nat)
        ensures
            self.after(n).columns == self.columns,
            n <= self.items.len() ==> self.after(n).yielded == self.yielded + n,
            n <= self.items.len() ==> self.after(n).items == self.items.skip(n as int),
            n > self.items.len() ==> self.after(n).yielded == self.yielded + self.items.len(),
            n > self.items.len() ==> self.after(n).items.len() == 0,
        decreases n,
    {
        if n == 0 {
            assert(self.items.skip(0) =~= self.items);
        } else {
            self.tail().lemma_after((n - 1) as nat);
            if 0 < self.items.len() && n <= self.items.len() {
                assert(self.items.drop_first().skip(n - 1) =~= self.items.skip(n as int));
            }
        }
    }

    /// The `k`-th pull on a fresh traversal of `items`, counted from zero,
    /// yields the `k`-th item, in the cell `(k / columns, k % columns)`.
    pub proof fn lemma_kth_pull(items: Seq<T>, columns: nat, k: nat)
        requires
            columns > 0,
            k < items.len(),
        ensures
            Self::start(items, columns).after(k).head() == Some(
                ((k / columns, k % columns), items[k as int]),
            ),
    {
        Self::start(items, columns).lemma_after(k);
    }

    /// Whatever the width, the items come out of a traversal one by one in the
    /// order of the source, and after the last of them the traversal is
    /// exhausted.
    pub proof fn lemma_order_preserved(items: Seq<T>, columns: nat, k: nat)
        ensures
            k < items.len() ==> (Self::start(items, columns).after(k).head() matches Some(pair)
                && pair.1 == items[k as int]),
            k >= items.len() ==> Self::start(items, columns).after(k).head() is None,
    {
        Self::start(items, columns).lemma_after(k);
    }

    /// A traversal neither adds an element nor drops one. Wherever it stands,
    /// the pulls that still yield a pair are exactly as many as the items
    /// that the source has left, and each of them takes one item.
    pub proof fn lemma_remaining_count(self, n: nat)
        ensures
            self.after(n).head() is Some <==> n < self.items.len(),
            self.after(n).items.len() == if n < self.items.len() {
                self.items.len() - n
            } else {
                0
            },
    {
        self.lemma_after(n);
    }

    /// Once a pull has found nothing, no later pull yields a pair or changes
    /// the traversal.
    pub proof fn lemma_exhaustion_is_permanent(self, n: nat)
        requires
            self.head() is None,
        ensures
            self.after(n) == self,
            self.after(n).head() is None,
        decreases n,
    {
        if n > 0 {
            self.tail().lemma_exhaustion_is_permanent((n - 1) as nat);
        }
    }
}

} // verus!
