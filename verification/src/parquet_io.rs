//! Decoding of the dataset bundles' columns.
//!
//! Reading a parquet file is the caller's part. What it read is handed here
//! as plain values: the column names of a record batch, and the chosen
//! column's rows. This module picks the column, checks the rows and flattens
//! them, with the same checks and messages in the same order as the loader:
//!
//! - embeddings: `(id: int64, emb: List<Float32>)`, or a fixed-size list;
//!   each row must be `expected_dim` wide.
//! - neighbours: `(id: int64, neighbors_id: List<Int64>)`; ids must not be
//!   negative. A ground-truth file is decoded here from its bytes
//!   ([`read_neighbours`]): the `parquet` crate reads the record batches, and
//!   [`neighbours_from_batches`] picks and checks the column of each.

use vstd::prelude::*;
use vstd::string::*;
use arrow::array::{Array, AsArray};
use arrow::datatypes::Int64Type;
use arrow::record_batch::RecordBatch;
use bytes::Bytes;
use parquet::arrow::arrow_reader::ParquetRecordBatchReaderBuilder;
use crate::error::VbenchError;
use crate::text::{decimal_chars, signed_decimal_chars, u64_to_decimal, i64_to_decimal, str_eq};

verus! {

/// The index of the first column named `name`, searching from `from`.
pub open spec fn first_named(cols: Seq<String>, name: Seq<char>, from: int) -> Option<int>
    decreases cols.len() - from,
{
    if from < 0 || from >= cols.len() {
        None
    } else if cols[from]@ == name {
        Some(from)
    } else {
        first_named(cols, name, from + 1)
    }
}

proof fn lemma_first_named_range(cols: Seq<String>, name: Seq<char>, from: int)
    ensures
        first_named(cols, name, from) matches Some(i) ==> from <= i < cols.len() && cols[i]@ == name,
    decreases cols.len() - from,
{
    if 0 <= from < cols.len() && cols[from]@ != name {
        lemma_first_named_range(cols, name, from + 1);
    }
}

/// The index of the first column named `name`, as the record batch's
/// `column_by_name` finds it.
pub fn column_index(columns: &[String], name: &str) -> (r: Option<usize>)
    ensures
        first_named(columns@, name@, 0) matches Some(i) ==> (r matches Some(j) && j == i),
        first_named(columns@, name@, 0) is None ==> r is None,
{
    proof {
        lemma_first_named_range(columns@, name@, 0);
    }
    let mut i: usize = 0;
    while i < columns.len()
        invariant
            i <= columns@.len(),
            first_named(columns@, name@, 0) == first_named(columns@, name@, i as int),
        decreases columns@.len() - i,
    {
        if str_eq(columns[i].as_str(), name) {
            return Some(i);
        }
        i = i + 1;
    }
    None
}

/// Where the embedding column is: the first column named `emb`, else the
/// first named `embedding`.
pub open spec fn embedding_column_spec(cols: Seq<String>) -> Option<int> {
    match first_named(cols, "emb"@, 0) {
        Some(i) => Some(i),
        None => first_named(cols, "embedding"@, 0),
    }
}

/// Where the neighbour column is: `neighbors_id`, else `neighbours_id`, else
/// `neighbors`.
pub open spec fn neighbours_column_spec(cols: Seq<String>) -> Option<int> {
    match first_named(cols, "neighbors_id"@, 0) {
        Some(i) => Some(i),
        None => match first_named(cols, "neighbours_id"@, 0) {
            Some(i) => Some(i),
            None => first_named(cols, "neighbors"@, 0),
        },
    }
}

/// Picks the embedding column among a batch's column names.
pub fn locate_embedding_column(columns: &[String]) -> (r: Result<usize, VbenchError>)
    ensures
        embedding_column_spec(columns@) matches Some(i) ==> (r matches Ok(j) && j == i),
        embedding_column_spec(columns@) is None ==> (r matches Err(VbenchError::InvalidInput(m))
            && m@ == "no 'emb' or 'embedding' column in parquet"@),
{
    if let Some(i) = column_index(columns, "emb") {
        return Ok(i);
    }
    if let Some(i) = column_index(columns, "embedding") {
        return Ok(i);
    }
    Err(VbenchError::InvalidInput(String::from_str("no 'emb' or 'embedding' column in parquet")))
}

/// Picks the ground-truth neighbour column among a batch's column names.
pub fn locate_neighbours_column(columns: &[String]) -> (r: Result<usize, VbenchError>)
    ensures
        neighbours_column_spec(columns@) matches Some(i) ==> (r matches Ok(j) && j == i),
        neighbours_column_spec(columns@) is None ==> (r matches Err(VbenchError::InvalidInput(m))
            && m@ == "no 'neighbors_id' / 'neighbours_id' / 'neighbors' column"@),
{
    if let Some(i) = column_index(columns, "neighbors_id") {
        return Ok(i);
    }
    if let Some(i) = column_index(columns, "neighbours_id") {
        return Ok(i);
    }
    if let Some(i) = column_index(columns, "neighbors") {
        return Ok(i);
    }
    Err(VbenchError::InvalidInput(String::from_str("no 'neighbors_id' / 'neighbours_id' / 'neighbors' column")))
}

/// An embedding column as read from a record batch. A row is `None` when its
/// values are not 32-bit floats.
pub enum EmbeddingColumn<F> {
    /// A variable-length list column.
    List(Vec<Option<Vec<F>>>),
    /// A fixed-size list column of `width` values per row.
    FixedSizeList {
        /// Values per row.
        width: usize,
        /// The rows, each `width` values long.
        rows: Vec<Option<Vec<F>>>,
    },
    /// Any other column type.
    Other,
}

/// The rows of a column, with the values of each row as a sequence.
pub open spec fn rows_view<F>(rows: Seq<Option<Vec<F>>>) -> Seq<Option<Seq<F>>> {
    rows.map_values(|r: Option<Vec<F>>| match r {
        Some(v) => Some(v@),
        None => None,
    })
}

/// A row that cannot be taken: values of another type, or the wrong width.
pub open spec fn bad_row<F>(row: Option<Seq<F>>, dim: nat) -> bool {
    match row {
        Some(v) => v.len() != dim,
        None => true,
    }
}

/// The index of the first row that cannot be taken, or the row count.
pub open spec fn first_bad_row<F>(rows: Seq<Option<Seq<F>>>, dim: nat, from: int) -> int
    decreases rows.len() - from,
{
    if from < 0 || from >= rows.len() {
        rows.len() as int
    } else if bad_row(rows[from], dim) {
        from
    } else {
        first_bad_row(rows, dim, from + 1)
    }
}

/// The values of the taken rows, one row after another.
pub open spec fn flatten_rows<F>(rows: Seq<Option<Seq<F>>>) -> Seq<F>
    decreases rows.len(),
{
    if rows.len() == 0 {
        seq![]
    } else {
        flatten_rows(rows.drop_last()) + match rows.last() {
            Some(v) => v,
            None => seq![],
        }
    }
}

/// The message for a row that cannot be taken.
pub open spec fn bad_row_text<F>(row: Option<Seq<F>>, index: int, dim: nat) -> Seq<char> {
    match row {
        None => "embedding inner column is not Float32"@,
        Some(v) => "row "@ + decimal_chars(index as nat) + ": dim "@ + decimal_chars(v.len()) + " but expected "@
            + decimal_chars(dim),
    }
}

/// What decoding `rows` at width `dim` does: the rows before the first bad
/// one are appended and counted; the bad one is reported.
pub open spec fn rows_outcome<F>(
    rows: Seq<Option<Seq<F>>>,
    dim: nat,
    flat0: Seq<F>,
    total0: int,
    flat1: Seq<F>,
    total1: int,
    r: Result<(), VbenchError>,
) -> bool {
    let bad = first_bad_row(rows, dim, 0);
    &&& flat1 == flat0 + flatten_rows(rows.take(bad))
    &&& total1 == total0 + bad
    &&& bad == rows.len() ==> r is Ok
    &&& bad < rows.len() ==> (r matches Err(VbenchError::InvalidInput(m)) && m@ == bad_row_text(rows[bad], bad, dim))
}

proof fn lemma_first_bad_row_prefix<F>(rows: Seq<Option<Seq<F>>>, dim: nat, i: int)
    requires
        0 <= i <= rows.len(),
        forall|j: int| 0 <= j < i ==> !bad_row(#[trigger] rows[j], dim),
    ensures
        first_bad_row(rows, dim, 0) == first_bad_row(rows, dim, i),
    decreases i,
{
    if i > 0 {
        lemma_first_bad_row_prefix(rows, dim, i - 1);
    }
}

fn bad_row_message<F>(row: &Option<Vec<F>>, index: usize, dim: usize) -> (s: String)
    ensures
        s@ == bad_row_text(match row {
            Some(v) => Some(v@),
            None => None,
        }, index as int, dim as nat),
{
    match row {
        None => String::from_str("embedding inner column is not Float32"),
        Some(v) => {
            let mut s = String::from_str("row ");
            let i = u64_to_decimal(index as u64);
            s.append(i.as_str());
            s.append(": dim ");
            let l = u64_to_decimal(v.len() as u64);
            s.append(l.as_str());
            s.append(" but expected ");
            let d = u64_to_decimal(dim as u64);
            s.append(d.as_str());
            s
        },
    }
}

fn append_rows<F: Copy>(
    rows: &Vec<Option<Vec<F>>>,
    expected_dim: usize,
    flat: &mut Vec<F>,
    total_rows: &mut usize,
) -> (r: Result<(), VbenchError>)
    requires
        *old(total_rows) + rows@.len() <= usize::MAX,
    ensures
        rows_outcome(rows_view(rows@), expected_dim as nat, old(flat)@, *old(total_rows) as int, final(flat)@,
            *final(total_rows) as int, r),
{
    let ghost rv = rows_view(rows@);
    let ghost flat0 = flat@;
    let ghost total0 = *total_rows as int;
    let mut i: usize = 0;
    while i < rows.len()
        invariant
            i <= rows@.len(),
            rv == rows_view(rows@),
            flat0 == old(flat)@,
            total0 == *old(total_rows) as int,
            total0 + rows@.len() <= usize::MAX,
            forall|j: int| 0 <= j < i ==> !bad_row(#[trigger] rv[j], expected_dim as nat),
            flat@ == flat0 + flatten_rows(rv.take(i as int)),
            *total_rows == total0 + i,
        decreases rows@.len() - i,
    {
        let row = &rows[i];
        let ok = match row {
            Some(v) => v.len() == expected_dim,
            None => false,
        };
        if !ok {
            proof {
                lemma_first_bad_row_prefix(rv, expected_dim as nat, i as int);
                assert(rv[i as int] == (match row {
                    Some(v) => Some(v@),
                    None => None,
                }));
                assert(bad_row(rv[i as int], expected_dim as nat));
                assert(first_bad_row(rv, expected_dim as nat, i as int) == i);
            }
            return Err(VbenchError::InvalidInput(bad_row_message(row, i, expected_dim)));
        }
        let v = match row {
            Some(v) => v,
            None => {
                assert(false);
                return Ok(());
            },
        };
        let ghost before = flat@;
        let mut j: usize = 0;
        while j < v.len()
            invariant
                j <= v@.len(),
                flat@ == before + v@.take(j as int),
            decreases v@.len() - j,
        {
            flat.push(v[j]);
            j = j + 1;
            assert(flat@ =~= before + v@.take(j as int));
        }
        proof {
            assert(v@.take(v@.len() as int) =~= v@);
            assert(rv.take(i + 1).drop_last() =~= rv.take(i as int));
            assert(rv.take(i + 1).last() == Some(v@));
            assert(flat@ =~= flat0 + flatten_rows(rv.take(i + 1)));
        }
        *total_rows = *total_rows + 1;
        i = i + 1;
    }
    proof {
        lemma_first_bad_row_prefix(rv, expected_dim as nat, rows@.len() as int);
        assert(rv.take(rows@.len() as int) =~= rv);
    }
    Ok(())
}

/// The message for a fixed-size list of the wrong width.
pub open spec fn width_mismatch_text(width: nat, dim: nat) -> Seq<char> {
    "FixedSizeList width "@ + decimal_chars(width) + " != expected_dim "@ + decimal_chars(dim)
}

/// Appends an embedding column's rows to `flat` and counts them in
/// `total_rows`.
///
/// A list column is taken row by row up to the first row that is not of
/// floats or not `expected_dim` wide, which is reported. A fixed-size list
/// of another width is refused before any row is taken. Any other column
/// type is refused.
pub fn decode_embedding_column<F: Copy>(
    col: &EmbeddingColumn<F>,
    expected_dim: usize,
    flat: &mut Vec<F>,
    total_rows: &mut usize,
) -> (r: Result<(), VbenchError>)
    requires
        match col {
            EmbeddingColumn::List(rows) => *old(total_rows) + rows@.len() <= usize::MAX,
            EmbeddingColumn::FixedSizeList { width, rows } => *old(total_rows) + rows@.len() <= usize::MAX
                && forall|i: int| 0 <= i < rows@.len() ==> (#[trigger] rows@[i] matches Some(v) ==> v@.len()
                == *width),
            EmbeddingColumn::Other => true,
        },
    ensures
        match col {
            EmbeddingColumn::List(rows) => rows_outcome(rows_view(rows@), expected_dim as nat, old(flat)@,
                *old(total_rows) as int, final(flat)@, *final(total_rows) as int, r),
            EmbeddingColumn::FixedSizeList { width, rows } => if *width != expected_dim {
                &&& final(flat)@ == old(flat)@
                &&& *final(total_rows) == *old(total_rows)
                &&& r matches Err(VbenchError::InvalidInput(m)) && m@ == width_mismatch_text(*width as nat, expected_dim as nat)
            } else {
                rows_outcome(rows_view(rows@), expected_dim as nat, old(flat)@, *old(total_rows) as int,
                    final(flat)@, *final(total_rows) as int, r)
            },
            EmbeddingColumn::Other => {
                &&& final(flat)@ == old(flat)@
                &&& *final(total_rows) == *old(total_rows)
                &&& r matches Err(VbenchError::InvalidInput(m))
                    && m@ == "embedding column is neither ListArray nor FixedSizeListArray"@
            },
        },
{
    match col {
        EmbeddingColumn::List(rows) => append_rows(rows, expected_dim, flat, total_rows),
        EmbeddingColumn::FixedSizeList { width, rows } => {
            if *width != expected_dim {
                let mut s = String::from_str("FixedSizeList width ");
                let w = u64_to_decimal(*width as u64);
                s.append(w.as_str());
                s.append(" != expected_dim ");
                let d = u64_to_decimal(expected_dim as u64);
                s.append(d.as_str());
                return Err(VbenchError::InvalidInput(s));
            }
            append_rows(rows, expected_dim, flat, total_rows)
        },
        EmbeddingColumn::Other => Err(
            VbenchError::InvalidInput(String::from_str("embedding column is neither ListArray nor FixedSizeListArray")),
        ),
    }
}

/// A neighbour column as read from a record batch. A row is `None` when its
/// values are not 64-bit integers.
pub enum NeighboursColumn {
    /// A list column.
    List(Vec<Option<Vec<i64>>>),
    /// Any other column type.
    Other,
}

/// The index of the first negative id of `ids` from `from` on, or its length.
pub open spec fn first_negative(ids: Seq<i64>, from: int) -> int
    decreases ids.len() - from,
{
    if from < 0 || from >= ids.len() {
        ids.len() as int
    } else if ids[from] < 0 {
        from
    } else {
        first_negative(ids, from + 1)
    }
}

/// The ids of a row, as unsigned numbers.
pub open spec fn as_unsigned(ids: Seq<i64>) -> Seq<u64> {
    ids.map_values(|x: i64| x as u64)
}

/// The message for a negative neighbour id.
pub open spec fn negative_id_text(row: nat, id: int) -> Seq<char> {
    "negative neighbour id at row "@ + decimal_chars(row) + ": "@ + signed_decimal_chars(id)
}

proof fn lemma_first_negative_range(ids: Seq<i64>, from: int)
    requires
        0 <= from,
    ensures
        first_negative(ids, from) <= ids.len(),
    decreases ids.len() - from,
{
    if from < ids.len() && ids[from] >= 0 {
        lemma_first_negative_range(ids, from + 1);
    }
}

proof fn lemma_first_negative_prefix(ids: Seq<i64>, i: int)
    requires
        0 <= i <= ids.len(),
        forall|j: int| 0 <= j < i ==> #[trigger] ids[j] >= 0,
    ensures
        first_negative(ids, 0) == first_negative(ids, i),
    decreases i,
{
    if i > 0 {
        lemma_first_negative_prefix(ids, i - 1);
    }
}

/// One ground-truth row as unsigned ids; the first negative id is refused.
pub fn neighbour_ids(ids: &Vec<i64>, row: usize) -> (r: Result<Vec<u64>, VbenchError>)
    ensures
        first_negative(ids@, 0) == ids@.len() ==> (r matches Ok(v) && v@ == as_unsigned(ids@)),
        first_negative(ids@, 0) < ids@.len() ==> (r matches Err(VbenchError::InvalidInput(m)) && m@
            == negative_id_text(row as nat, ids@[first_negative(ids@, 0)] as int)),
{
    let mut out: Vec<u64> = Vec::new();
    let mut j: usize = 0;
    while j < ids.len()
        invariant
            j <= ids@.len(),
            forall|k: int| 0 <= k < j ==> #[trigger] ids@[k] >= 0,
            out@ == as_unsigned(ids@.take(j as int)),
        decreases ids@.len() - j,
    {
        let v = ids[j];
        if v < 0 {
            proof {
                lemma_first_negative_prefix(ids@, j as int);
            }
            let mut s = String::from_str("negative neighbour id at row ");
            let r = u64_to_decimal(row as u64);
            s.append(r.as_str());
            s.append(": ");
            let d = i64_to_decimal(v);
            s.append(d.as_str());
            return Err(VbenchError::InvalidInput(s));
        }
        out.push(v as u64);
        j = j + 1;
        assert(out@ =~= as_unsigned(ids@.take(j as int)));
    }
    proof {
        lemma_first_negative_prefix(ids@, ids@.len() as int);
        assert(ids@.take(ids@.len() as int) =~= ids@);
    }
    Ok(out)
}

/// A row that cannot be taken: values of another type, or a negative id.
pub open spec fn bad_neighbour_row(row: Option<Seq<i64>>) -> bool {
    match row {
        Some(ids) => first_negative(ids, 0) < ids.len(),
        None => true,
    }
}

/// The index of the first row that cannot be taken, or the row count.
pub open spec fn first_bad_neighbour_row(rows: Seq<Option<Seq<i64>>>, from: int) -> int
    decreases rows.len() - from,
{
    if from < 0 || from >= rows.len() {
        rows.len() as int
    } else if bad_neighbour_row(rows[from]) {
        from
    } else {
        first_bad_neighbour_row(rows, from + 1)
    }
}

/// The message for a row that cannot be taken.
pub open spec fn bad_neighbour_row_text(row: Option<Seq<i64>>, index: int) -> Seq<char> {
    match row {
        None => "neighbors_id inner column is not Int64"@,
        Some(ids) => negative_id_text(index as nat, ids[first_negative(ids, 0)] as int),
    }
}

/// The taken rows as unsigned ids.
pub open spec fn taken_neighbour_rows(rows: Seq<Option<Seq<i64>>>) -> Seq<Seq<u64>> {
    rows.map_values(|r: Option<Seq<i64>>| match r {
        Some(ids) => as_unsigned(ids),
        None => seq![],
    })
}

/// The rows of a list of lists, each as a sequence.
pub open spec fn lists_view<T>(v: Seq<Vec<T>>) -> Seq<Seq<T>> {
    v.map_values(|x: Vec<T>| x@)
}

proof fn lemma_first_bad_neighbour_row_prefix(rows: Seq<Option<Seq<i64>>>, i: int)
    requires
        0 <= i <= rows.len(),
        forall|j: int| 0 <= j < i ==> !bad_neighbour_row(#[trigger] rows[j]),
    ensures
        first_bad_neighbour_row(rows, 0) == first_bad_neighbour_row(rows, i),
    decreases i,
{
    if i > 0 {
        lemma_first_bad_neighbour_row_prefix(rows, i - 1);
    }
}

/// Appends a neighbour column's rows to `out`, one list of ids per query.
///
/// A list column is taken row by row up to the first row that is not of
/// 64-bit integers or holds a negative id, which is reported. Any other
/// column type is refused.
pub fn decode_neighbours_column(col: &NeighboursColumn, out: &mut Vec<Vec<u64>>) -> (r: Result<(), VbenchError>)
    ensures
        match col {
            NeighboursColumn::List(rows) => {
                let rv = rows_view(rows@);
                let bad = first_bad_neighbour_row(rv, 0);
                &&& lists_view(final(out)@) == lists_view(old(out)@) + taken_neighbour_rows(rv.take(bad))
                &&& bad == rv.len() ==> r is Ok
                &&& bad < rv.len() ==> (r matches Err(VbenchError::InvalidInput(m)) && m@ == bad_neighbour_row_text(
                    rv[bad],
                    bad,
                ))
            },
            NeighboursColumn::Other => {
                &&& final(out)@ == old(out)@
                &&& r matches Err(VbenchError::InvalidInput(m)) && m@ == "neighbors_id column is not a List<Int64>"@
            },
        },
{
    let rows = match col {
        NeighboursColumn::List(rows) => rows,
        NeighboursColumn::Other => {
            return Err(VbenchError::InvalidInput(String::from_str("neighbors_id column is not a List<Int64>")));
        },
    };
    let ghost rv = rows_view(rows@);
    let ghost out0 = lists_view(out@);
    let mut i: usize = 0;
    while i < rows.len()
        invariant
            i <= rows@.len(),
            rv == rows_view(rows@),
            *col == NeighboursColumn::List(*rows),
            out0 == lists_view(old(out)@),
            forall|j: int| 0 <= j < i ==> !bad_neighbour_row(#[trigger] rv[j]),
            lists_view(out@) == out0 + taken_neighbour_rows(rv.take(i as int)),
        decreases rows@.len() - i,
    {
        let row = &rows[i];
        assert(rv[i as int] == (match row {
            Some(v) => Some(v@),
            None => None,
        }));
        match row {
            None => {
                proof {
                    lemma_first_bad_neighbour_row_prefix(rv, i as int);
                    assert(first_bad_neighbour_row(rv, i as int) == i);
                }
                return Err(VbenchError::InvalidInput(String::from_str("neighbors_id inner column is not Int64")));
            },
            Some(ids) => {
                proof {
                    lemma_first_negative_range(ids@, 0);
                }
                match neighbour_ids(ids, i) {
                    Err(e) => {
                        proof {
                            assert(rv[i as int] == Some(ids@));
                            assert(first_negative(ids@, 0) < ids@.len());
                            lemma_first_bad_neighbour_row_prefix(rv, i as int);
                            assert(first_bad_neighbour_row(rv, i as int) == i);
                        }
                        return Err(e);
                    },
                    Ok(v) => {
                        let ghost before = out@;
                        out.push(v);
                        proof {
                            assert(rv.take(i + 1) =~= rv.take(i as int).push(rv[i as int]));
                            assert(lists_view(out@) =~= lists_view(before).push(v@));
                            assert(taken_neighbour_rows(rv.take(i + 1)) =~= taken_neighbour_rows(rv.take(i as int)).push(
                                as_unsigned(ids@),
                            ));
                        }
                    },
                }
            },
        }
        i = i + 1;
    }
    proof {
        lemma_first_bad_neighbour_row_prefix(rv, rows@.len() as int);
        assert(rv.take(rows@.len() as int) =~= rv);
    }
    Ok(())
}


/// An `arrow::record_batch::RecordBatch`, held opaquely (Verus refuses the
/// type's own declaration, whose impls name arrow's `Array` trait). What the
/// neighbour reader sees of it is [`record_batch_contents`].
#[verifier::external_body]
pub struct RecordBatchCell {
    batch: RecordBatch,
}

/// The step of reading a parquet file that failed.
#[derive(Debug, Clone, Copy, PartialEq, Eq, Structural)]
pub enum ParquetStage {
    /// Reading the footer and metadata.
    Open,
    /// Building the record-batch reader.
    Build,
    /// Decoding a record batch.
    Read,
}

/// The message prefix of a failure at `stage`.
pub open spec fn stage_prefix(stage: ParquetStage) -> Seq<char> {
    match stage {
        ParquetStage::Open => "parquet open: "@,
        ParquetStage::Build => "parquet build: "@,
        ParquetStage::Read => "parquet read: "@,
    }
}

/// A column as the neighbour reader sees it: the rows of a list column
/// (a row is `None` when its values are not 64-bit integers), or `None` for a
/// column of another type.
pub type ColumnView = Option<Seq<Option<Seq<i64>>>>;

/// The neighbour reader's view of a record batch: its columns in order, each
/// with its name.
pub type BatchView = Seq<(Seq<char>, ColumnView)>;

/// The columns of a record batch, named and read as neighbour columns.
pub uninterp spec fn record_batch_contents(batch: RecordBatchCell) -> BatchView;

/// What the `parquet` crate reads from the bytes of a file: the record
/// batches up to the first failure (as their contents), and that failure
/// with the crate's message, if any.
pub uninterp spec fn parquet_neighbour_batches(bytes: Seq<u8>) -> (Seq<BatchView>, Option<(ParquetStage, Seq<char>)>);

/// A neighbour column as a [`ColumnView`].
pub open spec fn column_view(c: NeighboursColumn) -> ColumnView {
    match c {
        NeighboursColumn::List(rows) => Some(rows_view(rows@)),
        NeighboursColumn::Other => None,
    }
}

/// A failure with its message as characters.
pub open spec fn failure_view(f: Option<(ParquetStage, String)>) -> Option<(ParquetStage, Seq<char>)> {
    match f {
        Some((stage, m)) => Some((stage, m@)),
        None => None,
    }
}

/// The contents of several record batches.
pub open spec fn batches_contents(batches: Seq<RecordBatchCell>) -> Seq<BatchView> {
    batches.map_values(|b: RecordBatchCell| record_batch_contents(b))
}

/// Trusted: reads the record batches of a parquet file held in memory, with
/// `ParquetRecordBatchReaderBuilder::try_new(..).build()` and the reader's
/// iteration, stopping at the first error.
///
/// Claims that the batches read (by their contents) and the failure are
/// [`parquet_neighbour_batches`] of the bytes: a parse of the bytes alone.
#[verifier::external_body]
fn read_record_batches(bytes: Vec<u8>) -> (r: (Vec<RecordBatchCell>, Option<(ParquetStage, String)>))
    ensures
        batches_contents(r.0@) == parquet_neighbour_batches(bytes@).0,
        failure_view(r.1) == parquet_neighbour_batches(bytes@).1,
{
    let mut batches: Vec<RecordBatchCell> = Vec::new();
    let reader = match ParquetRecordBatchReaderBuilder::try_new(Bytes::from(bytes)) {
        Ok(b) => match b.build() {
            Ok(r) => r,
            Err(e) => return (batches, Some((ParquetStage::Build, e.to_string()))),
        },
        Err(e) => return (batches, Some((ParquetStage::Open, e.to_string()))),
    };
    for batch in reader {
        match batch {
            Ok(b) => batches.push(RecordBatchCell { batch: b }),
            Err(e) => return (batches, Some((ParquetStage::Read, e.to_string()))),
        }
    }
    (batches, None)
}

/// A record batch's columns, named, each read as a neighbour column.
pub struct NeighbourBatch {
    /// The column names, in schema order.
    pub names: Vec<String>,
    /// The columns, in the same order.
    pub columns: Vec<NeighboursColumn>,
}

impl NeighbourBatch {
    /// As many columns as names.
    pub open spec fn wf(&self) -> bool {
        self.names@.len() == self.columns@.len()
    }

    /// The batch as a [`BatchView`].
    pub open spec fn view(&self) -> BatchView {
        Seq::new(self.names@.len(), |i: int| (self.names@[i]@, column_view(self.columns@[i])))
    }
}

/// Trusted: reads a record batch's schema field names and its columns, each
/// column downcast to a `ListArray` whose rows are downcast to `Int64Array`s.
///
/// Claims that the result is the batch's [`record_batch_contents`], with one
/// column per name (a record batch has one column per schema field).
#[verifier::external_body]
fn neighbour_batch(cell: &RecordBatchCell) -> (r: NeighbourBatch)
    ensures
        r.wf(),
        r.view() == record_batch_contents(*cell),
{
    let batch = &cell.batch;
    let names: Vec<String> = batch.schema().fields().iter().map(|f| f.name().clone()).collect();
    let columns: Vec<NeighboursColumn> = batch.columns().iter().map(|c| match c.as_list_opt::<i32>() {
        Some(l) => NeighboursColumn::List(
            (0..l.len()).map(|i| l.value(i).as_primitive_opt::<Int64Type>().map(|a| a.values().to_vec())).collect(),
        ),
        None => NeighboursColumn::Other,
    }).collect();
    NeighbourBatch { names, columns }
}

/// The index of the first column named `name`, searching from `from`.
pub open spec fn first_named_chars(cols: Seq<Seq<char>>, name: Seq<char>, from: int) -> Option<int>
    decreases cols.len() - from,
{
    if from < 0 || from >= cols.len() {
        None
    } else if cols[from] == name {
        Some(from)
    } else {
        first_named_chars(cols, name, from + 1)
    }
}

/// Where the neighbour column is among names given as characters.
pub open spec fn neighbours_column_chars(cols: Seq<Seq<char>>) -> Option<int> {
    match first_named_chars(cols, "neighbors_id"@, 0) {
        Some(i) => Some(i),
        None => match first_named_chars(cols, "neighbours_id"@, 0) {
            Some(i) => Some(i),
            None => first_named_chars(cols, "neighbors"@, 0),
        },
    }
}

/// What one batch contributes: its neighbour rows, or the message of the
/// first problem (no neighbour column, a column of another type, a row that
/// cannot be taken).
pub open spec fn batch_outcome(b: BatchView) -> Result<Seq<Seq<u64>>, Seq<char>> {
    match neighbours_column_chars(b.map_values(|c: (Seq<char>, ColumnView)| c.0)) {
        None => Err("no 'neighbors_id' / 'neighbours_id' / 'neighbors' column"@),
        Some(i) => match b[i].1 {
            None => Err("neighbors_id column is not a List<Int64>"@),
            Some(rows) => {
                let bad = first_bad_neighbour_row(rows, 0);
                if bad < rows.len() {
                    Err(bad_neighbour_row_text(rows[bad], bad))
                } else {
                    Ok(taken_neighbour_rows(rows))
                }
            },
        },
    }
}

/// The rows of the first `n` batches, in order, or the first problem.
pub open spec fn batches_rows(batches: Seq<BatchView>, n: nat) -> Result<Seq<Seq<u64>>, Seq<char>>
    decreases n,
{
    if n == 0 {
        Ok(seq![])
    } else {
        match batches_rows(batches, (n - 1) as nat) {
            Err(m) => Err(m),
            Ok(acc) => match batch_outcome(batches[n - 1]) {
                Err(m) => Err(m),
                Ok(rows) => Ok(acc + rows),
            },
        }
    }
}

/// The ground truth decoded from the batches read and the reader's failure:
/// the batches are taken in order, a batch's problem is reported before
/// anything read after it, and the reader's failure is reported last, with
/// its stage's prefix.
pub open spec fn neighbours_outcome(
    batches: Seq<BatchView>,
    failure: Option<(ParquetStage, Seq<char>)>,
) -> Result<Seq<Seq<u64>>, Seq<char>> {
    match batches_rows(batches, batches.len()) {
        Err(m) => Err(m),
        Ok(rows) => match failure {
            None => Ok(rows),
            Some((stage, m)) => Err(stage_prefix(stage) + m),
        },
    }
}

/// Whether `r` is `outcome`, every error being an input error.
pub open spec fn matches_outcome(r: Result<Vec<Vec<u64>>, VbenchError>, outcome: Result<Seq<Seq<u64>>, Seq<char>>) -> bool {
    match outcome {
        Ok(rows) => r matches Ok(v) && lists_view(v@) == rows,
        Err(msg) => r matches Err(VbenchError::InvalidInput(m)) && m@ == msg,
    }
}

proof fn lemma_first_named_chars(cols: Seq<String>, name: Seq<char>, from: int)
    requires
        0 <= from,
    ensures
        first_named(cols, name, from) == first_named_chars(cols.map_values(|s: String| s@), name, from),
    decreases cols.len() - from,
{
    if from < cols.len() {
        lemma_first_named_chars(cols, name, from + 1);
    }
}

/// Decodes the ground truth from the record batches of a file, read as
/// [`NeighbourBatch`]es, and the reader's failure: per batch, the neighbour
/// column is picked and its rows taken as in [`decode_neighbours_column`].
pub fn neighbours_from_batches(
    batches: &Vec<NeighbourBatch>,
    failure: Option<(ParquetStage, String)>,
) -> (r: Result<Vec<Vec<u64>>, VbenchError>)
    requires
        forall|i: int| 0 <= i < batches@.len() ==> (#[trigger] batches@[i]).wf(),
    ensures
        matches_outcome(r, neighbours_outcome(batches@.map_values(|b: NeighbourBatch| b.view()), failure_view(failure))),
{
    let ghost bv = batches@.map_values(|b: NeighbourBatch| b.view());
    let mut out: Vec<Vec<u64>> = Vec::new();
    assert(lists_view(out@) =~= Seq::<Seq<u64>>::empty());
    let mut i: usize = 0;
    while i < batches.len()
        invariant
            i <= batches@.len(),
            bv == batches@.map_values(|b: NeighbourBatch| b.view()),
            forall|j: int| 0 <= j < batches@.len() ==> (#[trigger] batches@[j]).wf(),
            batches_rows(bv, i as nat) == Ok::<Seq<Seq<u64>>, Seq<char>>(lists_view(out@)),
        decreases batches@.len() - i,
    {
        let b = &batches[i];
        let ghost v = b.view();
        assert(bv[i as int] == v);
        proof {
            lemma_first_named_chars(b.names@, "neighbors_id"@, 0);
            lemma_first_named_chars(b.names@, "neighbours_id"@, 0);
            lemma_first_named_chars(b.names@, "neighbors"@, 0);
            assert(v.map_values(|c: (Seq<char>, ColumnView)| c.0) =~= b.names@.map_values(|s: String| s@));
        }
        let idx: usize = match locate_neighbours_column(b.names.as_slice()) {
            Ok(j) => j,
            Err(e) => {
                proof {
                    lemma_batches_rows_stops(bv, i as nat);
                }
                return Err(e);
            },
        };
        proof {
            lemma_first_named_range(b.names@, "neighbors_id"@, 0);
            lemma_first_named_range(b.names@, "neighbours_id"@, 0);
            lemma_first_named_range(b.names@, "neighbors"@, 0);
            assert(neighbours_column_chars(v.map_values(|c: (Seq<char>, ColumnView)| c.0)) == Some(idx as int));
            assert(v[idx as int].1 == column_view(b.columns@[idx as int]));
        }
        let ghost before = lists_view(out@);
        let res = decode_neighbours_column(&b.columns[idx], &mut out);
        proof {
            match b.columns@[idx as int] {
                NeighboursColumn::List(rows) => {
                    let rv = rows_view(rows@);
                    assert(rv.take(rv.len() as int) =~= rv);
                    lemma_first_bad_neighbour_row_range(rv, 0);
                },
                NeighboursColumn::Other => {},
            }
        }
        match res {
            Ok(()) => {},
            Err(e) => {
                proof {
                    lemma_batches_rows_stops(bv, i as nat);
                }
                return Err(e);
            },
        }
        i = i + 1;
    }
    proof {
        assert(bv.len() == batches@.len());
    }
    match failure {
        None => Ok(out),
        Some((stage, m)) => {
            let prefix = match stage {
                ParquetStage::Open => "parquet open: ",
                ParquetStage::Build => "parquet build: ",
                ParquetStage::Read => "parquet read: ",
            };
            let mut s = String::from_str(prefix);
            s.append(m.as_str());
            proof {
                reveal_strlit("parquet open: ");
                reveal_strlit("parquet build: ");
                reveal_strlit("parquet read: ");
            }
            Err(VbenchError::InvalidInput(s))
        },
    }
}

proof fn lemma_first_bad_neighbour_row_range(rows: Seq<Option<Seq<i64>>>, from: int)
    requires
        0 <= from,
    ensures
        first_bad_neighbour_row(rows, from) <= rows.len(),
    decreases rows.len() - from,
{
    if from < rows.len() && !bad_neighbour_row(rows[from]) {
        lemma_first_bad_neighbour_row_range(rows, from + 1);
    }
}

proof fn lemma_batches_rows_prefix(s: Seq<BatchView>, t: Seq<BatchView>, n: nat)
    requires
        n <= s.len(),
        n <= t.len(),
        forall|i: int| 0 <= i < n ==> s[i] == t[i],
    ensures
        batches_rows(s, n) == batches_rows(t, n),
    decreases n,
{
    if n > 0 {
        lemma_batches_rows_prefix(s, t, (n - 1) as nat);
    }
}

/// Batches read one after another add their rows after the rows read so
/// far: when the first `n` batches decode to `acc` and batch `n` to `rows`,
/// the first `n + 1` decode to `acc` followed by `rows`.
pub proof fn lemma_batch_rows_append(batches: Seq<BatchView>, n: nat, acc: Seq<Seq<u64>>, rows: Seq<Seq<u64>>)
    requires
        n < batches.len(),
        batches_rows(batches, n) == Ok::<Seq<Seq<u64>>, Seq<char>>(acc),
        batch_outcome(batches[n as int]) == Ok::<Seq<Seq<u64>>, Seq<char>>(rows),
    ensures
        batches_rows(batches, n + 1) == Ok::<Seq<Seq<u64>>, Seq<char>>(acc + rows),
        acc.len() <= (acc + rows).len(),
        forall|j: int| 0 <= j < acc.len() ==> #[trigger] (acc + rows)[j] == acc[j],
        forall|j: int| 0 <= j < rows.len() ==> (acc + rows)[acc.len() + j] == #[trigger] rows[j],
{
}

/// The ground truth of a file read as two runs of batches is the ground
/// truth of the first run followed by that of the second: the rows keep the
/// file's order, so query `i` gets row `i` of the file.
pub proof fn lemma_neighbours_concat(b1: Seq<BatchView>, b2: Seq<BatchView>, r1: Seq<Seq<u64>>, r2: Seq<Seq<u64>>)
    requires
        neighbours_outcome(b1, None) == Ok::<Seq<Seq<u64>>, Seq<char>>(r1),
        neighbours_outcome(b2, None) == Ok::<Seq<Seq<u64>>, Seq<char>>(r2),
    ensures
        neighbours_outcome(b1 + b2, None) == Ok::<Seq<Seq<u64>>, Seq<char>>(r1 + r2),
{
    lemma_neighbours_concat_from(b1, b2, r1, b2.len());
    assert(b2.take(b2.len() as int) =~= b2);
}

proof fn lemma_neighbours_concat_from(b1: Seq<BatchView>, b2: Seq<BatchView>, r1: Seq<Seq<u64>>, k: nat)
    requires
        batches_rows(b1, b1.len()) == Ok::<Seq<Seq<u64>>, Seq<char>>(r1),
        k <= b2.len(),
    ensures
        batches_rows(b1 + b2, b1.len() + k) == match batches_rows(b2, k) {
            Ok(x) => Ok::<Seq<Seq<u64>>, Seq<char>>(r1 + x),
            Err(m) => Err::<Seq<Seq<u64>>, Seq<char>>(m),
        },
    decreases k,
{
    let s = b1 + b2;
    if k == 0 {
        lemma_batches_rows_prefix(b1, s, b1.len());
        assert(r1 + Seq::<Seq<u64>>::empty() =~= r1);
    } else {
        lemma_neighbours_concat_from(b1, b2, r1, (k - 1) as nat);
        assert(s[b1.len() + k - 1] == b2[k - 1]);
        match batches_rows(b2, (k - 1) as nat) {
            Ok(x) => match batch_outcome(b2[k - 1]) {
                Ok(rows) => {
                    assert(r1 + x + rows =~= r1 + (x + rows));
                },
                Err(_) => {},
            },
            Err(_) => {},
        }
    }
}

/// A file read as one batch gives that batch's ground truth.
pub proof fn lemma_neighbours_single(b: BatchView)
    ensures
        neighbours_outcome(seq![b], None) == batch_outcome(b),
{
    let s = seq![b];
    assert(batches_rows(s, 0) == Ok::<Seq<Seq<u64>>, Seq<char>>(Seq::empty()));
    match batch_outcome(b) {
        Ok(rows) => {
            assert(Seq::<Seq<u64>>::empty() + rows =~= rows);
        },
        Err(_) => {},
    }
}

/// Once a batch has a problem, no later batch changes the outcome.
proof fn lemma_batches_rows_stops(batches: Seq<BatchView>, i: nat)
    requires
        i < batches.len(),
        batches_rows(batches, i) is Ok,
        batch_outcome(batches[i as int]) is Err,
    ensures
        batches_rows(batches, batches.len()) == Err::<Seq<Seq<u64>>, Seq<char>>(batch_outcome(batches[i as int])->Err_0),
    decreases batches.len() - i,
{
    lemma_batches_rows_err_persists(batches, (i + 1) as nat, batches.len());
}

proof fn lemma_batches_rows_err_persists(batches: Seq<BatchView>, n: nat, m: nat)
    requires
        n <= m,
        batches_rows(batches, n) is Err,
    ensures
        batches_rows(batches, m) == batches_rows(batches, n),
    decreases m - n,
{
    if n < m {
        lemma_batches_rows_err_persists(batches, n, (m - 1) as nat);
    }
}

/// Decodes a ground-truth parquet file from its bytes: one list of neighbour
/// ids per query, best first, in file order.
pub fn read_neighbours(bytes: Vec<u8>) -> (r: Result<Vec<Vec<u64>>, VbenchError>)
    ensures
        matches_outcome(r, neighbours_outcome(parquet_neighbour_batches(bytes@).0, parquet_neighbour_batches(bytes@).1)),
{
    let (record_batches, failure) = read_record_batches(bytes);
    let mut batches: Vec<NeighbourBatch> = Vec::new();
    let mut i: usize = 0;
    while i < record_batches.len()
        invariant
            i <= record_batches@.len(),
            batches@.len() == i,
            forall|j: int| 0 <= j < i ==> (#[trigger] batches@[j]).wf(),
            forall|j: int| 0 <= j < i ==> (#[trigger] batches@[j]).view() == record_batch_contents(record_batches@[j]),
        decreases record_batches@.len() - i,
    {
        let b = neighbour_batch(&record_batches[i]);
        batches.push(b);
        i = i + 1;
    }
    proof {
        assert(batches@.map_values(|b: NeighbourBatch| b.view()) =~= batches_contents(record_batches@));
    }
    neighbours_from_batches(&batches, failure)
}

} // verus!
