//! What importing decoded rows does to a destination table.
//!
//! Each row is inserted unless the table already holds a row with the same
//! key, its first column; such a row is left untouched. A table is modelled
//! as a map from key to row.
use vstd::prelude::*;
use crate::decode::CellView;

verus! {

/// The key of a decoded row: its first column.
pub open spec fn row_key(row: Seq<CellView>) -> i32 {
    match row[0] {
        CellView::Int(k) => k,
        _ => 0,
    }
}

/// The table after inserting `rows` in order, each unless its key is present.
pub open spec fn insert_or_ignore(table: Map<i32, Seq<CellView>>, rows: Seq<Seq<CellView>>) -> Map<
    i32,
    Seq<CellView>,
>
    decreases rows.len(),
{
    if rows.len() == 0 {
        table
    } else {
        let t = insert_or_ignore(table, rows.drop_last());
        let r = rows.last();
        if t.contains_key(row_key(r)) {
            t
        } else {
            t.insert(row_key(r), r)
        }
    }
}

/// Inserting keeps every row already present and leaves a row under every
/// key inserted.
proof fn lemma_insert_covers(table: Map<i32, Seq<CellView>>, rows: Seq<Seq<CellView>>)
    ensures
        forall|k: i32| #[trigger]
            table.contains_key(k) ==> insert_or_ignore(table, rows).contains_key(k) && insert_or_ignore(
                table,
                rows,
            )[k] == table[k],
        forall|i: int|
            0 <= i < rows.len() ==> insert_or_ignore(table, rows).contains_key(
                row_key(#[trigger] rows[i]),
            ),
    decreases rows.len(),
{
    if rows.len() > 0 {
        let pre = rows.drop_last();
        lemma_insert_covers(table, pre);
        assert forall|i: int| 0 <= i < rows.len() implies insert_or_ignore(
            table,
            rows,
        ).contains_key(row_key(#[trigger] rows[i])) by {
            if i < rows.len() - 1 {
                assert(rows[i] == pre[i]);
            }
        }
    }
}

/// Inserting rows whose keys are all present changes nothing.
proof fn lemma_insert_present(table: Map<i32, Seq<CellView>>, rows: Seq<Seq<CellView>>)
    requires
        forall|i: int| 0 <= i < rows.len() ==> table.contains_key(row_key(#[trigger] rows[i])),
    ensures
        insert_or_ignore(table, rows) == table,
    decreases rows.len(),
{
    if rows.len() > 0 {
        let pre = rows.drop_last();
        assert forall|i: int| 0 <= i < pre.len() implies table.contains_key(
            row_key(#[trigger] pre[i]),
        ) by {
            assert(pre[i] == rows[i]);
        }
        lemma_insert_present(table, pre);
        assert(table.contains_key(row_key(rows[rows.len() - 1])));
    }
}

/// Importing the same rows a second time leaves the table as the first
/// import left it: no row is duplicated or overwritten.
pub proof fn lemma_import_idempotent(table: Map<i32, Seq<CellView>>, rows: Seq<Seq<CellView>>)
    ensures
        insert_or_ignore(insert_or_ignore(table, rows), rows) == insert_or_ignore(table, rows),
{
    lemma_insert_covers(table, rows);
    lemma_insert_present(insert_or_ignore(table, rows), rows);
}

/// An import never overwrites or removes a row that the table held before.
pub proof fn lemma_import_keeps_rows(table: Map<i32, Seq<CellView>>, rows: Seq<Seq<CellView>>, k: i32)
    requires
        table.contains_key(k),
    ensures
        insert_or_ignore(table, rows).contains_key(k),
        insert_or_ignore(table, rows)[k] == table[k],
{
    lemma_insert_covers(table, rows);
}

} // verus!
