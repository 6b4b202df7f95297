use rust_backend::coordinator::Dataset;
use rust_backend::decode::{columns, decode_dataset, decode_records, Cell, ColumnKind};
use rust_backend::errors::DataImportError;

fn s(t: &str) -> String {
    String::from(t)
}

fn table(rows: &[&[&str]]) -> Vec<Vec<String>> {
    rows.iter().map(|r| r.iter().map(|f| s(f)).collect()).collect()
}

#[test]
fn manufacturers_decode_by_header() {
    let src = b"id,name,website\n1,Intel,https://intel.com\n2,AMD,\n";
    let rows = decode_dataset(Dataset::Manufacturers, src).unwrap();
    assert_eq!(
        rows,
        vec![
            vec![Cell::Int(1), Cell::Text(s("Intel")), Cell::Text(s("https://intel.com"))],
            vec![Cell::Int(2), Cell::Text(s("AMD")), Cell::Null],
        ]
    );
}

#[test]
fn columns_are_found_by_name_in_any_order() {
    let src = b"website,extra,name,id\n,x,NVIDIA,7\n";
    let rows = decode_dataset(Dataset::Manufacturers, src).unwrap();
    assert_eq!(rows, vec![vec![Cell::Int(7), Cell::Text(s("NVIDIA")), Cell::Null]]);
}

#[test]
fn missing_optional_column_reads_as_null() {
    let src = b"id,name\n3,Storage\n";
    let rows = decode_dataset(Dataset::Categories, src).unwrap();
    assert_eq!(rows, vec![vec![Cell::Int(3), Cell::Text(s("Storage")), Cell::Null]]);
}

#[test]
fn header_only_source_has_no_rows() {
    let rows = decode_dataset(Dataset::Categories, b"id,name,description\n").unwrap();
    assert!(rows.is_empty());
}

#[test]
fn empty_source_lacks_header() {
    assert!(matches!(
        decode_dataset(Dataset::Categories, b""),
        Err(DataImportError::CSVError(_))
    ));
}

#[test]
fn missing_required_column_is_a_parse_error() {
    assert!(matches!(
        decode_dataset(Dataset::Manufacturers, b"id,website\n1,x\n"),
        Err(DataImportError::CSVError(_))
    ));
}

#[test]
fn malformed_integer_is_a_parse_error() {
    assert!(matches!(
        decode_dataset(Dataset::Manufacturers, b"id,name\none,Intel\n"),
        Err(DataImportError::CSVError(_))
    ));
    assert!(matches!(
        decode_dataset(Dataset::Manufacturers, b"id,name\n2147483648,Intel\n"),
        Err(DataImportError::CSVError(_))
    ));
}

#[test]
fn unequal_record_lengths_are_a_parse_error() {
    assert!(matches!(
        decode_dataset(Dataset::Manufacturers, b"id,name\n1,Intel,extra\n"),
        Err(DataImportError::CSVError(_))
    ));
}

#[test]
fn gpu_outputs_decode_to_an_ordered_list() {
    let src = b"part_id,outputs\n5,\"[\"\"HDMI\"\",\"\"DisplayPort\"\"]\"\n";
    let rows = decode_dataset(Dataset::GpuSpecs, src).unwrap();
    assert_eq!(rows.len(), 1);
    assert_eq!(rows[0][0], Cell::Int(5));
    assert_eq!(rows[0][8], Cell::TextList(vec![s("HDMI"), s("DisplayPort")]));
    assert_eq!(rows[0][9], Cell::Null);
}

#[test]
fn malformed_gpu_outputs_are_an_encoding_error() {
    let src = b"part_id,outputs\n5,HDMI\n";
    assert!(matches!(
        decode_dataset(Dataset::GpuSpecs, src),
        Err(DataImportError::SerdeError(_))
    ));
}

#[test]
fn part_fields_decode_to_their_types() {
    let src = b"id,manufacturer_id,category_id,name,model,price,common_specifications\n\
10,1,2,Core i5,13600K,299.99,\"{\"\"socket\"\":\"\"LGA1700\"\"}\"\n\
11,1,2,Core i3,12100,,\n";
    let rows = decode_dataset(Dataset::Parts, src).unwrap();
    assert_eq!(
        rows[0],
        vec![
            Cell::Int(10),
            Cell::Int(1),
            Cell::Int(2),
            Cell::Text(s("Core i5")),
            Cell::Text(s("13600K")),
            Cell::Decimal(s("299.99")),
            Cell::Json(s("{\"socket\":\"LGA1700\"}")),
        ]
    );
    assert_eq!(rows[1][5], Cell::Null);
    assert_eq!(rows[1][6], Cell::Null);
}

#[test]
fn malformed_decimal_and_json_fail() {
    let bad_price = b"id,manufacturer_id,category_id,name,model,price\n1,1,1,a,b,12.x\n";
    assert!(matches!(
        decode_dataset(Dataset::Parts, bad_price),
        Err(DataImportError::CSVError(_))
    ));
    let bad_json = b"id,manufacturer_id,category_id,name,model,common_specifications\n1,1,1,a,b,{nope\n";
    assert!(matches!(
        decode_dataset(Dataset::Parts, bad_json),
        Err(DataImportError::SerdeError(_))
    ));
}

#[test]
fn booleans_decode_exactly() {
    let src = b"part_id,ecc,buffered,rgb_lighting\n4,true,false,\n";
    let rows = decode_dataset(Dataset::MemorySpecs, src).unwrap();
    assert_eq!(rows[0][4], Cell::Bool(true));
    assert_eq!(rows[0][5], Cell::Bool(false));
    assert_eq!(rows[0][8], Cell::Null);
    assert!(matches!(
        decode_dataset(Dataset::MemorySpecs, b"part_id,ecc\n4,yes\n"),
        Err(DataImportError::CSVError(_))
    ));
}

#[test]
fn decoding_twice_gives_the_same_rows() {
    let src = b"part_id,capacity,interface\n8,1000,NVMe\n9,,SATA\n";
    let first = decode_dataset(Dataset::StorageSpecs, src).unwrap();
    let second = decode_dataset(Dataset::StorageSpecs, src).unwrap();
    assert_eq!(first, second);
    assert_eq!(first.len(), 2);
    assert_eq!(first[1][1], Cell::Null);
}

#[test]
fn first_fault_is_reported_row_by_row() {
    let cols = columns(Dataset::GpuSpecs);
    let t = table(&[&["part_id", "outputs", "tdp"], &["1", "[]", "x"], &["2", "bad", "5"]]);
    assert!(matches!(decode_records(&cols, &t), Err(DataImportError::CSVError(_))));
}

#[test]
fn schemas_start_with_their_key() {
    let all = [
        Dataset::Manufacturers,
        Dataset::Categories,
        Dataset::Parts,
        Dataset::CpuSpecs,
        Dataset::GpuSpecs,
        Dataset::MemorySpecs,
        Dataset::StorageSpecs,
    ];
    let sizes = [3, 3, 7, 10, 10, 12, 10];
    for (d, n) in all.iter().zip(sizes) {
        let cols = columns(*d);
        assert_eq!(cols.len(), n);
        assert_eq!(cols[0].kind, ColumnKind::Int);
    }
    assert_eq!(columns(Dataset::Manufacturers)[0].name, "id");
    assert_eq!(columns(Dataset::CpuSpecs)[0].name, "part_id");
    assert_eq!(columns(Dataset::GpuSpecs)[8].name, "outputs");
}
