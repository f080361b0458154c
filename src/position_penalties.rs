//! [`PositionPenalties`] penalizes specific symbols placed on specific matrix
//! positions with a configurable cost. This keeps certain symbols away from
//! keys that are difficult to reach.
use vstd::prelude::*;

use crate::key::{LayerKey, MatrixPosition};

verus! {

/// Penalties of one symbol, by matrix position.
pub type PositionTable<C> = Vec<(MatrixPosition, C)>;

/// Configuration of a [`PositionPenalties`].
#[derive(Debug)]
pub struct Parameters<C> {
    /// Penalty tables by symbol. A later table for the same symbol replaces an
    /// earlier one, and within a table a later entry for the same position
    /// replaces an earlier one.
    pub penalty_positions: Vec<(char, PositionTable<C>)>,
}

#[derive(Debug)]
pub struct PositionPenalties<C> {
    penalty_positions: Vec<(char, PositionTable<C>)>,
}

/// The penalty table of a symbol: the last one given for it, if any.
pub open spec fn symbol_table<C>(entries: Seq<(char, PositionTable<C>)>, symbol: char) -> Option<
    Seq<(MatrixPosition, C)>,
>
    decreases entries.len(),
{
    if entries.len() == 0 {
        None
    } else if entries.last().0 == symbol {
        Some(entries.last().1@)
    } else {
        symbol_table(entries.drop_last(), symbol)
    }
}

/// The penalty of a position in one table: the last one given for it, if any.
pub open spec fn position_penalty<C>(table: Seq<(MatrixPosition, C)>, pos: MatrixPosition) -> Option<
    C,
>
    decreases table.len(),
{
    if table.len() == 0 {
        None
    } else if table.last().0 == pos {
        Some(table.last().1)
    } else {
        position_penalty(table.drop_last(), pos)
    }
}

/// The penalty of a symbol at a position; `None` when there is none, which
/// stands for zero cost.
pub open spec fn configured_penalty<C>(
    entries: Seq<(char, PositionTable<C>)>,
    symbol: char,
    pos: MatrixPosition,
) -> Option<C> {
    match symbol_table(entries, symbol) {
        Some(table) => position_penalty(table, pos),
        None => None,
    }
}

fn copy_table<C: Copy>(table: &PositionTable<C>) -> (r: PositionTable<C>)
    ensures
        r@ == table@,
{
    let mut r: PositionTable<C> = Vec::new();
    let mut i: usize = 0;
    while i < table.len()
        invariant
            i <= table@.len(),
            r@ == table@.take(i as int),
        decreases table@.len() - i,
    {
        let entry = table[i];
        r.push(entry);
        assert(r@ =~= table@.take(i + 1));
        i += 1;
    }
    assert(r@ =~= table@);
    r
}

impl<C> PositionPenalties<C> {
    /// The penalty of a symbol at a position; `None` stands for zero cost.
    pub closed spec fn penalty_at(&self, symbol: char, pos: MatrixPosition) -> Option<C> {
        configured_penalty(self.penalty_positions@, symbol, pos)
    }
}

impl<C: Copy> PositionPenalties<C> {
    pub fn new(params: &Parameters<C>) -> (r: Self)
        ensures
            forall|symbol: char, pos: MatrixPosition|
                #[trigger] r.penalty_at(symbol, pos) == configured_penalty(
                    params.penalty_positions@,
                    symbol,
                    pos,
                ),
    {
        let mut penalty_positions: Vec<(char, PositionTable<C>)> = Vec::new();
        let mut i: usize = 0;
        while i < params.penalty_positions.len()
            invariant
                i <= params.penalty_positions@.len(),
                penalty_positions@.len() == i,
                forall|j: int|
                    0 <= j < i ==> (#[trigger] penalty_positions@[j]).0
                        == params.penalty_positions@[j].0 && penalty_positions@[j].1@
                        == params.penalty_positions@[j].1@,
            decreases params.penalty_positions@.len() - i,
        {
            let entry = &params.penalty_positions[i];
            penalty_positions.push((entry.0, copy_table(&entry.1)));
            i += 1;
        }
        let r = PositionPenalties { penalty_positions };
        assert forall|symbol: char, pos: MatrixPosition|
            #[trigger] r.penalty_at(symbol, pos) == configured_penalty(
                params.penalty_positions@,
                symbol,
                pos,
            ) by {
            lemma_same_symbol_table(r.penalty_positions@, params.penalty_positions@, symbol);
        }
        r
    }

    pub fn name(&self) -> (r: &'static str) {
        "Position Penalties"
    }

    /// The penalty of a key-occurrence, which the caller multiplies by its
    /// weight; `None` when the occurrence's symbol has no table, or its table
    /// no entry for the occurrence's matrix position.
    pub fn penalty(&self, key: &LayerKey) -> (r: Option<C>)
        ensures
            r == self.penalty_at(key.symbol, key.key.matrix_position),
    {
        let symbol = key.symbol;
        let matrix_pos = key.key.matrix_position;
        let mut found: Option<usize> = None;
        let mut i: usize = 0;
        while i < self.penalty_positions.len()
            invariant
                i <= self.penalty_positions@.len(),
                match found {
                    Some(j) => j < i && symbol_table(
                        self.penalty_positions@.take(i as int),
                        symbol,
                    ) == Some(self.penalty_positions@[j as int].1@),
                    None => symbol_table(self.penalty_positions@.take(i as int), symbol) == None::<
                        Seq<(MatrixPosition, C)>,
                    >,
                },
            decreases self.penalty_positions@.len() - i,
        {
            assert(self.penalty_positions@.take(i + 1).drop_last() =~= self.penalty_positions@.take(
                i as int,
            ));
            if self.penalty_positions[i].0 == symbol {
                found = Some(i);
            }
            i += 1;
        }
        assert(self.penalty_positions@.take(i as int) =~= self.penalty_positions@);
        match found {
            None => None,
            Some(j) => {
                let table = &self.penalty_positions[j].1;
                let mut penalty: Option<C> = None;
                let mut k: usize = 0;
                while k < table.len()
                    invariant
                        k <= table@.len(),
                        penalty == position_penalty(table@.take(k as int), matrix_pos),
                    decreases table@.len() - k,
                {
                    assert(table@.take(k + 1).drop_last() =~= table@.take(k as int));
                    if table[k].0 == matrix_pos {
                        penalty = Some(table[k].1);
                    }
                    k += 1;
                }
                assert(table@.take(k as int) =~= table@);
                penalty
            },
        }
    }
}

proof fn lemma_same_symbol_table<C>(
    a: Seq<(char, PositionTable<C>)>,
    b: Seq<(char, PositionTable<C>)>,
    symbol: char,
)
    requires
        a.len() == b.len(),
        forall|j: int| 0 <= j < a.len() ==> (#[trigger] a[j]).0 == b[j].0 && a[j].1@ == b[j].1@,
    ensures
        symbol_table(a, symbol) == symbol_table(b, symbol),
    decreases a.len(),
{
    if a.len() > 0 {
        lemma_same_symbol_table(a.drop_last(), b.drop_last(), symbol);
    }
}

} // verus!
