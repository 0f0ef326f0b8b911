//! Column selection and row decoding of the dataset bundles.

use std::sync::Arc;

use arrow::array::{ArrayRef, Int64Array, ListArray};
use arrow::datatypes::Int64Type;
use arrow::record_batch::RecordBatch;
use vbench::error::VbenchError;
use vbench::parquet_io::{
    decode_embedding_column, decode_neighbours_column, locate_embedding_column, locate_neighbours_column,
    neighbours_from_batches, read_neighbours, EmbeddingColumn, NeighbourBatch, NeighboursColumn, ParquetStage,
};

fn names(v: &[&str]) -> Vec<String> {
    v.iter().map(|s| s.to_string()).collect()
}

fn message(r: Result<(), VbenchError>) -> String {
    match r {
        Err(VbenchError::InvalidInput(m)) => m,
        _ => panic!("expected InvalidInput"),
    }
}

#[test]
fn columns_are_found_by_preferred_name() {
    assert_eq!(locate_embedding_column(&names(&["id", "embedding", "emb"])).unwrap(), 2);
    assert_eq!(locate_embedding_column(&names(&["id", "embedding"])).unwrap(), 1);
    assert!(matches!(
        locate_embedding_column(&names(&["id", "vec"])),
        Err(VbenchError::InvalidInput(m)) if m == "no 'emb' or 'embedding' column in parquet"
    ));
    assert_eq!(locate_neighbours_column(&names(&["neighbors", "neighbours_id", "id"])).unwrap(), 1);
    assert_eq!(locate_neighbours_column(&names(&["id", "neighbors"])).unwrap(), 1);
    assert!(locate_neighbours_column(&names(&["id"])).is_err());
}

#[test]
fn list_embeddings_are_flattened() {
    let col = EmbeddingColumn::List(vec![Some(vec![1.0f32, 2.0]), Some(vec![3.0, 4.0])]);
    let mut flat = vec![0.5f32, 0.5];
    let mut total = 1usize;
    decode_embedding_column(&col, 2, &mut flat, &mut total).unwrap();
    assert_eq!(flat, vec![0.5, 0.5, 1.0, 2.0, 3.0, 4.0]);
    assert_eq!(total, 3);
}

#[test]
fn bad_rows_are_reported() {
    let col = EmbeddingColumn::List(vec![Some(vec![1.0f32, 2.0]), Some(vec![3.0]), None]);
    let mut flat = Vec::new();
    let mut total = 0usize;
    let m = message(decode_embedding_column(&col, 2, &mut flat, &mut total));
    assert_eq!(m, "row 1: dim 1 but expected 2");
    assert_eq!(flat, vec![1.0, 2.0]);
    assert_eq!(total, 1);

    let col = EmbeddingColumn::List(vec![None::<Vec<f32>>]);
    let m = message(decode_embedding_column(&col, 2, &mut Vec::new(), &mut 0));
    assert_eq!(m, "embedding inner column is not Float32");

    let col = EmbeddingColumn::FixedSizeList { width: 3, rows: vec![Some(vec![1.0f32, 2.0, 3.0])] };
    let m = message(decode_embedding_column(&col, 2, &mut Vec::new(), &mut 0));
    assert_eq!(m, "FixedSizeList width 3 != expected_dim 2");

    let col = EmbeddingColumn::<f32>::Other;
    let m = message(decode_embedding_column(&col, 2, &mut Vec::new(), &mut 0));
    assert_eq!(m, "embedding column is neither ListArray nor FixedSizeListArray");
}

#[test]
fn fixed_size_embeddings_are_flattened() {
    let col = EmbeddingColumn::FixedSizeList { width: 2, rows: vec![Some(vec![1.0f32, 2.0]), Some(vec![5.0, 6.0])] };
    let mut flat = Vec::new();
    let mut total = 0usize;
    decode_embedding_column(&col, 2, &mut flat, &mut total).unwrap();
    assert_eq!(flat, vec![1.0, 2.0, 5.0, 6.0]);
    assert_eq!(total, 2);
}

#[test]
fn neighbours_are_unsigned_ids() {
    let col = NeighboursColumn::List(vec![Some(vec![3, 1, 2]), Some(vec![0])]);
    let mut out = vec![vec![9u64]];
    decode_neighbours_column(&col, &mut out).unwrap();
    assert_eq!(out, vec![vec![9], vec![3, 1, 2], vec![0]]);

    let col = NeighboursColumn::List(vec![Some(vec![1]), Some(vec![4, -7, -8])]);
    let mut out = Vec::new();
    let m = message(decode_neighbours_column(&col, &mut out));
    assert_eq!(m, "negative neighbour id at row 1: -7");
    assert_eq!(out, vec![vec![1u64]]);

    let col = NeighboursColumn::List(vec![None]);
    assert_eq!(message(decode_neighbours_column(&col, &mut Vec::new())), "neighbors_id inner column is not Int64");
    assert_eq!(
        message(decode_neighbours_column(&NeighboursColumn::Other, &mut Vec::new())),
        "neighbors_id column is not a List<Int64>"
    );
}

fn neighbours_file(column: &str, rows: Vec<Vec<i64>>) -> Vec<u8> {
    let ids: Vec<i64> = (0..rows.len() as i64).collect();
    let list = ListArray::from_iter_primitive::<Int64Type, _, _>(
        rows.into_iter().map(|r| Some(r.into_iter().map(Some).collect::<Vec<_>>())),
    );
    let batch = RecordBatch::try_from_iter(vec![
        ("id", Arc::new(Int64Array::from(ids)) as ArrayRef),
        (column, Arc::new(list) as ArrayRef),
    ])
    .unwrap();
    let mut buf: Vec<u8> = Vec::new();
    let mut w = parquet::arrow::ArrowWriter::try_new(&mut buf, batch.schema(), None).unwrap();
    w.write(&batch).unwrap();
    w.close().unwrap();
    buf
}

fn read_message(r: Result<Vec<Vec<u64>>, VbenchError>) -> String {
    match r {
        Err(VbenchError::InvalidInput(m)) => m,
        other => panic!("expected an input error, got {other:?}"),
    }
}

#[test]
fn neighbours_are_read_from_parquet_bytes() {
    let bytes = neighbours_file("neighbors_id", vec![vec![3, 1, 2], vec![0], vec![]]);
    let got = read_neighbours(bytes).unwrap();
    assert_eq!(got, vec![vec![3, 1, 2], vec![0], vec![]]);
    let bytes = neighbours_file("neighbours_id", vec![vec![7, 8]]);
    assert_eq!(read_neighbours(bytes).unwrap(), vec![vec![7, 8]]);
}

#[test]
fn neighbours_parquet_errors() {
    let bytes = neighbours_file("neighbors_id", vec![vec![1], vec![2, -5]]);
    assert_eq!(read_message(read_neighbours(bytes)), "negative neighbour id at row 1: -5");
    let bytes = neighbours_file("labels", vec![vec![1]]);
    assert_eq!(read_message(read_neighbours(bytes)), "no 'neighbors_id' / 'neighbours_id' / 'neighbors' column");
    let m = read_message(read_neighbours(b"not a parquet file".to_vec()));
    assert!(m.starts_with("parquet open: "), "{m}");
}

#[test]
fn neighbour_batches_report_in_order() {
    let good = NeighbourBatch {
        names: names(&["id", "neighbors"]),
        columns: vec![NeighboursColumn::Other, NeighboursColumn::List(vec![Some(vec![4, 5])])],
    };
    let bad = NeighbourBatch { names: names(&["id", "neighbors_id"]), columns: vec![NeighboursColumn::Other, NeighboursColumn::Other] };
    let r = neighbours_from_batches(&vec![good], None);
    assert_eq!(r.unwrap(), vec![vec![4, 5]]);
    let good = NeighbourBatch {
        names: names(&["neighbors"]),
        columns: vec![NeighboursColumn::List(vec![Some(vec![1])])],
    };
    let r = neighbours_from_batches(&vec![good, bad], Some((ParquetStage::Read, "truncated".to_string())));
    assert_eq!(read_message(r), "neighbors_id column is not a List<Int64>");
    let good = NeighbourBatch {
        names: names(&["neighbors"]),
        columns: vec![NeighboursColumn::List(vec![Some(vec![1])])],
    };
    let r = neighbours_from_batches(&vec![good], Some((ParquetStage::Read, "truncated".to_string())));
    assert_eq!(read_message(r), "parquet read: truncated");
    let r = neighbours_from_batches(&vec![], Some((ParquetStage::Build, "bad".to_string())));
    assert_eq!(read_message(r), "parquet build: bad");
}
