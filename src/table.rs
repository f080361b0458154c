//! A dense square table, indexed by a pair of small indices. Cost tables are
//! materialized with their default in every cell, so a lookup never fails.
use vstd::prelude::*;

verus! {

/// `n` by `n` cells, stored row by row.
#[derive(Clone, Debug)]
pub struct PairTable<V> {
    n: usize,
    cells: Vec<V>,
}

proof fn lemma_cell_index(n: int, i: int, j: int, a: int, b: int)
    requires
        0 <= i < n,
        0 <= j < n,
        0 <= a < n,
        0 <= b < n,
    ensures
        0 <= i * n + j < n * n,
        i * n + j == a * n + b ==> i == a && j == b,
{
    assert(0 <= i * n) by (nonlinear_arith)
        requires
            0 <= i,
            0 <= n,
    ;
    assert(i * n + j < n * n) by (nonlinear_arith)
        requires
            0 <= i < n,
            0 <= j < n,
    ;
    if i < a {
        assert(i * n + j < a * n + b) by (nonlinear_arith)
            requires
                i < a,
                0 <= j < n,
                0 <= b,
        ;
    } else if a < i {
        assert(a * n + b < i * n + j) by (nonlinear_arith)
            requires
                a < i,
                0 <= b < n,
                0 <= j,
        ;
    }
}

impl<V> PairTable<V> {
    /// The cells fill exactly `n` rows of `n`.
    pub closed spec fn wf(&self) -> bool {
        &&& self.cells@.len() == self.n * self.n
        &&& self.n * self.n <= usize::MAX
    }

    /// Number of rows, which is also the number of columns.
    pub closed spec fn size(&self) -> nat {
        self.n as nat
    }

    /// The value in row `i`, column `j`.
    pub closed spec fn cell(&self, i: int, j: int) -> V {
        self.cells@[i * self.n + j]
    }

}

impl<V: Copy> PairTable<V> {
    /// A table with `v` in every cell.
    pub fn filled(n: usize, v: V) -> (r: Self)
        requires
            n * n <= usize::MAX,
        ensures
            r.wf(),
            r.size() == n,
            forall|i: int, j: int| 0 <= i < n && 0 <= j < n ==> #[trigger] r.cell(i, j) == v,
    {
        let total: usize = n * n;
        let mut cells: Vec<V> = Vec::new();
        let mut k: usize = 0;
        while k < total
            invariant
                k <= total,
                total == n * n,
                cells@.len() == k,
                forall|m: int| 0 <= m < k ==> cells@[m] == v,
            decreases total - k,
        {
            cells.push(v);
            k += 1;
        }
        let r = PairTable { n, cells };
        assert forall|i: int, j: int| 0 <= i < n && 0 <= j < n implies #[trigger] r.cell(i, j)
            == v by {
            lemma_cell_index(n as int, i, j, i, j);
        }
        r
    }

    pub fn get(&self, i: usize, j: usize) -> (r: V)
        requires
            self.wf(),
            i < self.size(),
            j < self.size(),
        ensures
            r == self.cell(i as int, j as int),
    {
        proof {
            lemma_cell_index(self.n as int, i as int, j as int, i as int, j as int);
        }
        self.cells[i * self.n + j]
    }

    /// Puts `v` in row `i`, column `j`, and leaves every other cell as it was.
    pub fn set(&mut self, i: usize, j: usize, v: V)
        requires
            old(self).wf(),
            i < old(self).size(),
            j < old(self).size(),
        ensures
            final(self).wf(),
            final(self).size() == old(self).size(),
            forall|a: int, b: int|
                0 <= a < old(self).size() && 0 <= b < old(self).size()
                    ==> #[trigger] final(self).cell(a, b) == if a == i && b == j {
                    v
                } else {
                    old(self).cell(a, b)
                },
    {
        proof {
            lemma_cell_index(self.n as int, i as int, j as int, i as int, j as int);
        }
        let k = i * self.n + j;
        self.cells.set(k, v);
        proof {
            assert forall|a: int, b: int|
                0 <= a < old(self).size() && 0 <= b < old(self).size() implies #[trigger] self.cell(
                a,
                b,
            ) == if a == i && b == j {
                v
            } else {
                old(self).cell(a, b)
            } by {
                lemma_cell_index(self.n as int, a, b, i as int, j as int);
            }
        }
    }
}

} // verus!
