//! Sums over light levels, used to show that propagation and removal end.

use vstd::prelude::*;
use crate::world::{Chunk, LightKind};

verus! {

/// Total of `15 - v` over the levels in `s`: how far `s` is from full light.
pub open spec fn seq_deficit(s: Seq<u8>) -> int
    decreases s.len(),
{
    if s.len() == 0 {
        0
    } else {
        seq_deficit(s.drop_last()) + (15 - s.last())
    }
}

/// Total of the levels in `s`.
pub open spec fn seq_total(s: Seq<u8>) -> int
    decreases s.len(),
{
    if s.len() == 0 {
        0
    } else {
        seq_total(s.drop_last()) + s.last()
    }
}

pub proof fn lemma_seq_measures_nonneg(s: Seq<u8>)
    requires
        forall|i: int| 0 <= i < s.len() ==> s[i] <= 15,
    ensures
        seq_deficit(s) >= 0,
        seq_total(s) >= 0,
    decreases s.len(),
{
    if s.len() > 0 {
        lemma_seq_measures_nonneg(s.drop_last());
    }
}

/// Changing one level changes both sums by the difference.
pub proof fn lemma_seq_update(s: Seq<u8>, i: int, v: u8)
    requires
        0 <= i < s.len(),
    ensures
        seq_deficit(s.update(i, v)) == seq_deficit(s) - (v - s[i]),
        seq_total(s.update(i, v)) == seq_total(s) + (v - s[i]),
    decreases s.len(),
{
    if i == s.len() - 1 {
        assert(s.update(i, v).drop_last() =~= s.drop_last());
    } else {
        lemma_seq_update(s.drop_last(), i, v);
        assert(s.update(i, v).drop_last() =~= s.drop_last().update(i, v));
    }
}

/// The deficit (or, when `deficit` is false, the total) of `kind` in one optional column.
pub open spec fn column_measure(col: Option<Chunk>, kind: LightKind, deficit: bool) -> int {
    match col {
        Some(c) => if deficit {
            seq_deficit(c.light_vec(kind))
        } else {
            seq_total(c.light_vec(kind))
        },
        None => 0,
    }
}

/// Sum of `column_measure` over a sequence of optional columns.
pub open spec fn cols_measure(cols: Seq<Option<Chunk>>, kind: LightKind, deficit: bool) -> int
    decreases cols.len(),
{
    if cols.len() == 0 {
        0
    } else {
        cols_measure(cols.drop_last(), kind, deficit) + column_measure(cols.last(), kind, deficit)
    }
}

pub proof fn lemma_cols_nonneg(cols: Seq<Option<Chunk>>, kind: LightKind, deficit: bool)
    requires
        forall|s: int| 0 <= s < cols.len() ==> ((#[trigger] cols[s]) matches Some(c) ==> c.wf()),
    ensures
        cols_measure(cols, kind, deficit) >= 0,
    decreases cols.len(),
{
    if cols.len() > 0 {
        lemma_cols_nonneg(cols.drop_last(), kind, deficit);
        if let Some(c) = cols.last() {
            assert(cols[cols.len() - 1] == cols.last());
            lemma_seq_measures_nonneg(c.light_vec(kind));
        }
    }
}

/// Replacing one column changes the sum by the difference of the two columns' measures.
pub proof fn lemma_cols_update(cols: Seq<Option<Chunk>>, s: int, col: Option<Chunk>, kind: LightKind, deficit: bool)
    requires
        0 <= s < cols.len(),
    ensures
        cols_measure(cols.update(s, col), kind, deficit) == cols_measure(cols, kind, deficit) - column_measure(
            cols[s],
            kind,
            deficit,
        ) + column_measure(col, kind, deficit),
    decreases cols.len(),
{
    if s == cols.len() - 1 {
        assert(cols.update(s, col).drop_last() =~= cols.drop_last());
    } else {
        lemma_cols_update(cols.drop_last(), s, col, kind, deficit);
        assert(cols.update(s, col).drop_last() =~= cols.drop_last().update(s, col));
    }
}

} // verus!
