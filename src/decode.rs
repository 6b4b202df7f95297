//! Decoding of a reference dataset's source into typed rows.
//!
//! A source is a CSV table whose first record is a header naming the
//! columns. Each dataset has a schema: the columns its table takes, each with
//! the type of its values. A column is found by its name in the header, so
//! the source may order its columns freely and hold others, which are
//! ignored. Every required column must be present; a missing optional column
//! reads as empty. An empty field of an optional column is `Null`.
use vstd::prelude::*;
use crate::coordinator::Dataset;
use crate::errors::DataImportError;
use crate::formats::{
    csv_table,
    decimal_accepts,
    decode_string_list,
    is_decimal,
    is_json,
    json_accepts,
    json_string_list,
    read_csv_records,
};
use crate::text::{bool_of, i32_of, parse_bool, parse_i32};

verus! {

/// The type of a column's values.
#[derive(Clone, Copy, Debug, PartialEq, Eq, Structural)]
pub enum ColumnKind {
    /// A required `i32`.
    Int,
    /// A required text, possibly empty.
    Text,
    /// An optional `i32`.
    OptInt,
    /// An optional non-empty text.
    OptText,
    /// An optional boolean, `true` or `false`.
    OptBool,
    /// An optional decimal number, kept as written.
    OptDecimal,
    /// An optional JSON document, kept as written.
    OptJson,
    /// An optional list of texts, written as a JSON array of strings.
    OptTextList,
}

/// A column that must be present in the header.
pub open spec fn is_required(k: ColumnKind) -> bool {
    k == ColumnKind::Int || k == ColumnKind::Text
}

/// A column whose fields hold an encoded value.
pub open spec fn is_encoded(k: ColumnKind) -> bool {
    k == ColumnKind::OptJson || k == ColumnKind::OptTextList
}

/// A column of a dataset's schema.
#[derive(Debug, PartialEq, Eq)]
pub struct Column {
    /// The name under which the header lists the column.
    pub name: String,
    pub kind: ColumnKind,
}

impl DeepView for Column {
    type V = (Seq<char>, ColumnKind);

    open spec fn deep_view(&self) -> (Seq<char>, ColumnKind) {
        (self.name@, self.kind)
    }
}

/// A decoded field.
#[derive(Debug, PartialEq, Eq)]
pub enum Cell {
    Null,
    Int(i32),
    Bool(bool),
    Text(String),
    /// A decimal number, as written in the source.
    Decimal(String),
    /// A JSON document, as written in the source.
    Json(String),
    TextList(Vec<String>),
}

/// The value of a decoded field.
pub enum CellView {
    Null,
    Int(i32),
    Bool(bool),
    Text(Seq<char>),
    Decimal(Seq<char>),
    Json(Seq<char>),
    TextList(Seq<Seq<char>>),
}

impl DeepView for Cell {
    type V = CellView;

    open spec fn deep_view(&self) -> CellView {
        match self {
            Cell::Null => CellView::Null,
            Cell::Int(v) => CellView::Int(*v),
            Cell::Bool(b) => CellView::Bool(*b),
            Cell::Text(s) => CellView::Text(s@),
            Cell::Decimal(s) => CellView::Decimal(s@),
            Cell::Json(s) => CellView::Json(s@),
            Cell::TextList(l) => CellView::TextList(l.deep_view()),
        }
    }
}

/// Why a source does not decode.
pub enum Fault {
    /// The bytes are not a CSV table.
    Csv,
    /// The table has no header record.
    NoHeader,
    /// The header lacks the required column at this position of the schema.
    MissingColumn(nat),
    /// The field of this data row (counted from zero, after the header) in
    /// this column of the schema does not decode.
    BadField(nat, nat),
    /// As `BadField`, for a column that holds an encoded value.
    BadEncoded(nat, nat),
}

/// The value of a field of a column of type `kind`; `text` is `None` where
/// the header lacks the column.
pub open spec fn cell_of(kind: ColumnKind, text: Option<Seq<char>>) -> Option<CellView> {
    match text {
        None => if is_required(kind) {
            None
        } else {
            Some(CellView::Null)
        },
        Some(t) => if kind == ColumnKind::Int {
            match i32_of(t) {
                Some(v) => Some(CellView::Int(v)),
                None => None,
            }
        } else if kind == ColumnKind::Text {
            Some(CellView::Text(t))
        } else if t.len() == 0 {
            Some(CellView::Null)
        } else {
            match kind {
                ColumnKind::OptInt => match i32_of(t) {
                    Some(v) => Some(CellView::Int(v)),
                    None => None,
                },
                ColumnKind::OptBool => match bool_of(t) {
                    Some(b) => Some(CellView::Bool(b)),
                    None => None,
                },
                ColumnKind::OptDecimal => if decimal_accepts(t) {
                    Some(CellView::Decimal(t))
                } else {
                    None
                },
                ColumnKind::OptJson => if json_accepts(t) {
                    Some(CellView::Json(t))
                } else {
                    None
                },
                ColumnKind::OptTextList => match json_string_list(t) {
                    Some(l) => Some(CellView::TextList(l)),
                    None => None,
                },
                _ => Some(CellView::Text(t)),
            }
        },
    }
}

/// The first position among the first `n` header fields that holds `name`.
pub open spec fn index_in(header: Seq<Seq<char>>, name: Seq<char>, n: nat) -> Option<nat>
    decreases n,
{
    if n == 0 {
        None
    } else {
        match index_in(header, name, (n - 1) as nat) {
            Some(i) => Some(i),
            None => if header[n - 1] == name {
                Some((n - 1) as nat)
            } else {
                None
            },
        }
    }
}

/// Where the header puts each column of the schema.
pub open spec fn resolve(schema: Seq<(Seq<char>, ColumnKind)>, header: Seq<Seq<char>>) -> Seq<
    Option<nat>,
> {
    Seq::new(schema.len(), |c: int| index_in(header, schema[c].0, header.len()))
}

/// The first of the first `k` columns that is required and not located.
pub open spec fn first_missing(
    schema: Seq<(Seq<char>, ColumnKind)>,
    idxs: Seq<Option<nat>>,
    k: nat,
) -> Option<nat>
    decreases k,
{
    if k == 0 {
        None
    } else {
        match first_missing(schema, idxs, (k - 1) as nat) {
            Some(c) => Some(c),
            None => if idxs[k - 1] is None && is_required(schema[k - 1].1) {
                Some((k - 1) as nat)
            } else {
                None
            },
        }
    }
}

/// The text of a record at a located column; a field beyond the record's
/// end reads as empty.
pub open spec fn lookup(rec: Seq<Seq<char>>, idx: Option<nat>) -> Option<Seq<char>> {
    match idx {
        None => None,
        Some(i) => Some(
            if i < rec.len() {
                rec[i as int]
            } else {
                Seq::empty()
            },
        ),
    }
}

/// The values of the first `k` columns of a record, or the first column
/// whose field does not decode.
pub open spec fn decode_cells(
    schema: Seq<(Seq<char>, ColumnKind)>,
    idxs: Seq<Option<nat>>,
    rec: Seq<Seq<char>>,
    k: nat,
) -> Result<Seq<CellView>, nat>
    decreases k,
{
    if k == 0 {
        Ok(Seq::empty())
    } else {
        match decode_cells(schema, idxs, rec, (k - 1) as nat) {
            Err(c) => Err(c),
            Ok(cells) => match cell_of(schema[k - 1].1, lookup(rec, idxs[k - 1])) {
                Some(v) => Ok(cells.push(v)),
                None => Err((k - 1) as nat),
            },
        }
    }
}

/// The fault of a field that does not decode.
pub open spec fn field_fault(schema: Seq<(Seq<char>, ColumnKind)>, row: nat, c: nat) -> Fault {
    if is_encoded(schema[c as int].1) {
        Fault::BadEncoded(row, c)
    } else {
        Fault::BadField(row, c)
    }
}

/// The rows of the first `n` data records, or the first fault among them.
pub open spec fn decode_rows(
    schema: Seq<(Seq<char>, ColumnKind)>,
    idxs: Seq<Option<nat>>,
    recs: Seq<Seq<Seq<char>>>,
    n: nat,
) -> Result<Seq<Seq<CellView>>, Fault>
    decreases n,
{
    if n == 0 {
        Ok(Seq::empty())
    } else {
        match decode_rows(schema, idxs, recs, (n - 1) as nat) {
            Err(f) => Err(f),
            Ok(rows) => match decode_cells(schema, idxs, recs[n - 1], schema.len()) {
                Ok(cells) => Ok(rows.push(cells)),
                Err(c) => Err(field_fault(schema, (n - 1) as nat, c)),
            },
        }
    }
}

/// The rows of a table under a schema: the header locates the columns, then
/// each later record gives a row of one value per column, in schema order.
pub open spec fn decode_table(
    schema: Seq<(Seq<char>, ColumnKind)>,
    table: Seq<Seq<Seq<char>>>,
) -> Result<Seq<Seq<CellView>>, Fault> {
    if table.len() == 0 {
        Err(Fault::NoHeader)
    } else {
        let idxs = resolve(schema, table[0]);
        match first_missing(schema, idxs, schema.len()) {
            Some(c) => Err(Fault::MissingColumn(c)),
            None => decode_rows(schema, idxs, table.drop_first(), (table.len() - 1) as nat),
        }
    }
}

/// The error reported for a fault.
pub open spec fn reports(f: Fault, e: DataImportError) -> bool {
    match f {
        Fault::BadEncoded(_, _) => e is SerdeError,
        _ => e is CSVError,
    }
}

/// A position found among the first `k` header fields stays the first one.
proof fn lemma_index_in_stable(header: Seq<Seq<char>>, name: Seq<char>, k: nat, n: nat)
    requires
        k <= n,
        index_in(header, name, k) is Some,
    ensures
        index_in(header, name, n) == index_in(header, name, k),
    decreases n - k,
{
    if k < n {
        lemma_index_in_stable(header, name, k, (n - 1) as nat);
    }
}

/// A missing column found among the first `k` stays the first one.
proof fn lemma_first_missing_stable(
    schema: Seq<(Seq<char>, ColumnKind)>,
    idxs: Seq<Option<nat>>,
    k: nat,
    n: nat,
)
    requires
        k <= n,
        first_missing(schema, idxs, k) is Some,
    ensures
        first_missing(schema, idxs, n) == first_missing(schema, idxs, k),
    decreases n - k,
{
    if k < n {
        lemma_first_missing_stable(schema, idxs, k, (n - 1) as nat);
    }
}

/// An optional index, as a natural number.
pub open spec fn opt_nat(o: Option<usize>) -> Option<nat> {
    match o {
        Some(i) => Some(i as nat),
        None => None,
    }
}

/// The first position of the header that holds `name`.
fn find_column(header: &Vec<String>, name: &String) -> (r: Option<usize>)
    ensures
        opt_nat(r) == index_in(header.deep_view(), name@, header@.len()),
{
    let ghost h = header.deep_view();
    let mut i: usize = 0;
    while i < header.len()
        invariant
            i <= header@.len(),
            h == header.deep_view(),
            index_in(h, name@, i as nat) is None,
        decreases header@.len() - i,
    {
        assert(h[i as int] == header@[i as int]@);
        if header[i] == *name {
            assert(index_in(h, name@, (i + 1) as nat) == Some(i as nat));
            proof {
                lemma_index_in_stable(h, name@, (i + 1) as nat, header@.len() as nat);
            }
            return Some(i);
        }
        assert(index_in(h, name@, (i + 1) as nat) is None);
        i = i + 1;
    }
    None
}

/// Locates each column of the schema in the header.
fn resolve_columns(columns: &Vec<Column>, header: &Vec<String>) -> (r: Vec<Option<usize>>)
    ensures
        r@.len() == columns@.len(),
        forall|c: int|
            0 <= c < r@.len() ==> opt_nat(#[trigger] r@[c]) == resolve(
                columns.deep_view(),
                header.deep_view(),
            )[c],
{
    let mut r: Vec<Option<usize>> = Vec::new();
    let mut c: usize = 0;
    while c < columns.len()
        invariant
            c <= columns@.len(),
            r@.len() == c,
            forall|j: int|
                0 <= j < c ==> opt_nat(#[trigger] r@[j]) == resolve(
                    columns.deep_view(),
                    header.deep_view(),
                )[j],
        decreases columns@.len() - c,
    {
        let idx = find_column(header, &columns[c].name);
        assert(columns.deep_view()[c as int] == columns@[c as int].deep_view());
        r.push(idx);
        c = c + 1;
    }
    r
}

/// Whether a column must be present.
fn required(kind: ColumnKind) -> (r: bool)
    ensures
        r == is_required(kind),
{
    match kind {
        ColumnKind::Int | ColumnKind::Text => true,
        _ => false,
    }
}

/// The first required column that the header lacks.
fn missing_column(columns: &Vec<Column>, idxs: &Vec<Option<usize>>) -> (r: Option<usize>)
    requires
        idxs@.len() == columns@.len(),
    ensures
        r matches Some(c) ==> c < columns@.len(),
        opt_nat(r) == first_missing(
            columns.deep_view(),
            idxs@.map_values(|o: Option<usize>| opt_nat(o)),
            columns@.len() as nat,
        ),
{
    let ghost schema = columns.deep_view();
    let ghost iv = idxs@.map_values(|o: Option<usize>| opt_nat(o));
    let mut c: usize = 0;
    while c < columns.len()
        invariant
            c <= columns@.len(),
            idxs@.len() == columns@.len(),
            schema == columns.deep_view(),
            iv == idxs@.map_values(|o: Option<usize>| opt_nat(o)),
            first_missing(schema, iv, c as nat) is None,
        decreases columns@.len() - c,
    {
        assert(schema[c as int] == columns@[c as int].deep_view());
        assert(iv[c as int] == opt_nat(idxs@[c as int]));
        if idxs[c].is_none() && required(columns[c].kind) {
            assert(first_missing(schema, iv, (c + 1) as nat) == Some(c as nat));
            proof {
                lemma_first_missing_stable(schema, iv, (c + 1) as nat, columns@.len() as nat);
            }
            return Some(c);
        }
        assert(first_missing(schema, iv, (c + 1) as nat) is None);
        c = c + 1;
    }
    None
}

/// Decodes the field of a column of type `kind`; `text` is `None` where the
/// header lacks the column.
fn decode_cell(kind: ColumnKind, text: Option<&String>) -> (r: Option<Cell>)
    ensures
        match r {
            Some(v) => cell_of(kind, opt_text(text)) == Some(v.deep_view()),
            None => cell_of(kind, opt_text(text)) is None,
        },
{
    match text {
        None => if required(kind) {
            None
        } else {
            Some(Cell::Null)
        },
        Some(t) => match kind {
            ColumnKind::Int => match parse_i32(t.as_str()) {
                Some(v) => Some(Cell::Int(v)),
                None => None,
            },
            ColumnKind::Text => Some(Cell::Text(t.clone())),
            _ => if t.as_str().is_empty() {
                Some(Cell::Null)
            } else {
                match kind {
                    ColumnKind::OptInt => match parse_i32(t.as_str()) {
                        Some(v) => Some(Cell::Int(v)),
                        None => None,
                    },
                    ColumnKind::OptBool => match parse_bool(t.as_str()) {
                        Some(b) => Some(Cell::Bool(b)),
                        None => None,
                    },
                    ColumnKind::OptDecimal => if is_decimal(t.as_str()) {
                        Some(Cell::Decimal(t.clone()))
                    } else {
                        None
                    },
                    ColumnKind::OptJson => if is_json(t.as_str()) {
                        Some(Cell::Json(t.clone()))
                    } else {
                        None
                    },
                    ColumnKind::OptTextList => match decode_string_list(t.as_str()) {
                        Some(l) => Some(Cell::TextList(l)),
                        None => None,
                    },
                    _ => Some(Cell::Text(t.clone())),
                }
            },
        },
    }
}

/// The text of an optional field.
pub open spec fn opt_text(t: Option<&String>) -> Option<Seq<char>> {
    match t {
        Some(s) => Some(s@),
        None => None,
    }
}

/// A field fault found among the first `k` columns stays the first one.
proof fn lemma_decode_cells_stable(
    schema: Seq<(Seq<char>, ColumnKind)>,
    idxs: Seq<Option<nat>>,
    rec: Seq<Seq<char>>,
    k: nat,
    n: nat,
)
    requires
        k <= n,
        decode_cells(schema, idxs, rec, k) is Err,
    ensures
        decode_cells(schema, idxs, rec, n) == decode_cells(schema, idxs, rec, k),
    decreases n - k,
{
    if k < n {
        lemma_decode_cells_stable(schema, idxs, rec, k, (n - 1) as nat);
    }
}

/// A fault found among the first `k` records stays the first one.
proof fn lemma_decode_rows_stable(
    schema: Seq<(Seq<char>, ColumnKind)>,
    idxs: Seq<Option<nat>>,
    recs: Seq<Seq<Seq<char>>>,
    k: nat,
    n: nat,
)
    requires
        k <= n,
        decode_rows(schema, idxs, recs, k) is Err,
    ensures
        decode_rows(schema, idxs, recs, n) == decode_rows(schema, idxs, recs, k),
    decreases n - k,
{
    if k < n {
        lemma_decode_rows_stable(schema, idxs, recs, k, (n - 1) as nat);
    }
}

/// Decodes one record: one value per column of the schema, in schema order,
/// or the first column whose field does not decode.
fn decode_row(columns: &Vec<Column>, idxs: &Vec<Option<usize>>, rec: &Vec<String>) -> (r: Result<
    Vec<Cell>,
    usize,
>)
    requires
        idxs@.len() == columns@.len(),
    ensures
        match r {
            Ok(cells) => decode_cells(
                columns.deep_view(),
                idxs@.map_values(|o: Option<usize>| opt_nat(o)),
                rec.deep_view(),
                columns@.len() as nat,
            ) == Ok::<Seq<CellView>, nat>(cells.deep_view()),
            Err(c) => c < columns@.len() && decode_cells(
                columns.deep_view(),
                idxs@.map_values(|o: Option<usize>| opt_nat(o)),
                rec.deep_view(),
                columns@.len() as nat,
            ) == Err::<Seq<CellView>, nat>(c as nat),
        },
{
    let ghost schema = columns.deep_view();
    let ghost iv = idxs@.map_values(|o: Option<usize>| opt_nat(o));
    let ghost rv = rec.deep_view();
    let empty = String::new();
    let mut cells: Vec<Cell> = Vec::new();
    let mut c: usize = 0;
    assert(cells.deep_view() =~= Seq::<CellView>::empty());
    while c < columns.len()
        invariant
            c <= columns@.len(),
            idxs@.len() == columns@.len(),
            schema == columns.deep_view(),
            iv == idxs@.map_values(|o: Option<usize>| opt_nat(o)),
            rv == rec.deep_view(),
            empty@ == Seq::<char>::empty(),
            decode_cells(schema, iv, rv, c as nat) == Ok::<Seq<CellView>, nat>(cells.deep_view()),
        decreases columns@.len() - c,
    {
        assert(schema[c as int] == columns@[c as int].deep_view());
        assert(iv[c as int] == opt_nat(idxs@[c as int]));
        let text: Option<&String> = match idxs[c] {
            None => None,
            Some(i) => if i < rec.len() {
                assert(rv[i as int] == rec@[i as int]@);
                Some(&rec[i])
            } else {
                Some(&empty)
            },
        };
        assert(opt_text(text) == lookup(rv, iv[c as int]));
        match decode_cell(columns[c].kind, text) {
            Some(v) => {
                let ghost before = cells.deep_view();
                cells.push(v);
                assert(cells.deep_view() =~= before.push(v.deep_view()));
            },
            None => {
                proof {
                    lemma_decode_cells_stable(schema, iv, rv, (c + 1) as nat, columns@.len() as nat);
                }
                return Err(c);
            },
        }
        c = c + 1;
    }
    Ok(cells)
}

/// The error that reports a field of `column` that does not decode.
fn field_error(column: &Column) -> (e: DataImportError)
    ensures
        if is_encoded(column.kind) {
            e is SerdeError
        } else {
            e is CSVError
        },
{
    let message = String::from_str("field does not decode in column ").concat(column.name.as_str());
    match column.kind {
        ColumnKind::OptJson | ColumnKind::OptTextList => DataImportError::SerdeError(message),
        _ => DataImportError::CSVError(message),
    }
}

/// Decodes the records of a table under a schema: the first record is the
/// header, which locates the columns by name; each later record gives one
/// row. Fails with the first fault: no header, then the first required
/// column the header lacks, then the first field, row by row and column by
/// column, that does not decode.
pub fn decode_records(columns: &Vec<Column>, table: &Vec<Vec<String>>) -> (r: Result<
    Vec<Vec<Cell>>,
    DataImportError,
>)
    ensures
        match r {
            Ok(rows) => decode_table(columns.deep_view(), table.deep_view()) == Ok::<
                Seq<Seq<CellView>>,
                Fault,
            >(rows.deep_view()),
            Err(e) => match decode_table(columns.deep_view(), table.deep_view()) {
                Ok(_) => false,
                Err(f) => reports(f, e),
            },
        },
{
    let ghost schema = columns.deep_view();
    let ghost tv = table.deep_view();
    if table.len() == 0 {
        return Err(DataImportError::CSVError(String::from_str("missing header row")));
    }
    let header = &table[0];
    assert(tv[0] == header.deep_view());
    let idxs = resolve_columns(columns, header);
    let ghost iv = idxs@.map_values(|o: Option<usize>| opt_nat(o));
    assert(iv =~= resolve(schema, tv[0]));
    match missing_column(columns, &idxs) {
        Some(c) => {
            return Err(
                DataImportError::CSVError(
                    String::from_str("missing column ").concat(columns[c].name.as_str()),
                ),
            );
        },
        None => {},
    }
    let ghost recs = tv.drop_first();
    assert(tv.len() == table@.len());
    assert(decode_table(schema, tv) == decode_rows(schema, iv, recs, (tv.len() - 1) as nat));
    let mut rows: Vec<Vec<Cell>> = Vec::new();
    let mut n: usize = 1;
    assert(rows.deep_view() =~= Seq::<Seq<CellView>>::empty());
    while n < table.len()
        invariant
            1 <= n <= table@.len(),
            idxs@.len() == columns@.len(),
            schema == columns.deep_view(),
            tv == table.deep_view(),
            recs == tv.drop_first(),
            tv.len() == table@.len(),
            decode_table(schema, tv) == decode_rows(schema, iv, recs, (tv.len() - 1) as nat),
            iv == idxs@.map_values(|o: Option<usize>| opt_nat(o)),
            decode_rows(schema, iv, recs, (n - 1) as nat) == Ok::<Seq<Seq<CellView>>, Fault>(
                rows.deep_view(),
            ),
        decreases table@.len() - n,
    {
        assert(recs[n - 1] == table@[n as int].deep_view());
        match decode_row(columns, &idxs, &table[n]) {
            Ok(cells) => {
                let ghost before = rows.deep_view();
                rows.push(cells);
                assert(rows.deep_view() =~= before.push(cells.deep_view()));
            },
            Err(c) => {
                assert(decode_rows(schema, iv, recs, n as nat) == Err::<Seq<Seq<CellView>>, Fault>(
                    field_fault(schema, (n - 1) as nat, c as nat),
                ));
                proof {
                    lemma_decode_rows_stable(schema, iv, recs, n as nat, (table@.len() - 1) as nat);
                }
                assert(schema[c as int] == columns@[c as int].deep_view());
                let e = field_error(&columns[c]);
                assert(reports(field_fault(schema, (n - 1) as nat, c as nat), e));
                assert(decode_table(schema, tv) == Err::<Seq<Seq<CellView>>, Fault>(
                    field_fault(schema, (n - 1) as nat, c as nat),
                ));
                return Err(e);
            },
        }
        n = n + 1;
    }
    Ok(rows)
}

/// The columns of each dataset, in the order of the destination table.
pub open spec fn schema_of(d: Dataset) -> Seq<(Seq<char>, ColumnKind)> {
    match d {
        Dataset::Manufacturers => seq![
            ("id"@, ColumnKind::Int),
            ("name"@, ColumnKind::Text),
            ("website"@, ColumnKind::OptText),
        ],
        Dataset::Categories => seq![
            ("id"@, ColumnKind::Int),
            ("name"@, ColumnKind::Text),
            ("description"@, ColumnKind::OptText),
        ],
        Dataset::Parts => seq![
            ("id"@, ColumnKind::Int),
            ("manufacturer_id"@, ColumnKind::Int),
            ("category_id"@, ColumnKind::Int),
            ("name"@, ColumnKind::Text),
            ("model"@, ColumnKind::Text),
            ("price"@, ColumnKind::OptDecimal),
            ("common_specifications"@, ColumnKind::OptJson),
        ],
        Dataset::CpuSpecs => seq![
            ("part_id"@, ColumnKind::Int),
            ("cores"@, ColumnKind::OptInt),
            ("threads"@, ColumnKind::OptInt),
            ("base_clock_speed"@, ColumnKind::OptDecimal),
            ("max_boost_clock_speed"@, ColumnKind::OptDecimal),
            ("tdp"@, ColumnKind::OptInt),
            ("socket_type"@, ColumnKind::OptText),
            ("cache_size"@, ColumnKind::OptDecimal),
            ("integrated_graphics"@, ColumnKind::OptBool),
            ("process_technology"@, ColumnKind::OptDecimal),
        ],
        Dataset::GpuSpecs => seq![
            ("part_id"@, ColumnKind::Int),
            ("cuda_cores"@, ColumnKind::OptInt),
            ("vram_size"@, ColumnKind::OptDecimal),
            ("vram_type"@, ColumnKind::OptText),
            ("tdp"@, ColumnKind::OptInt),
            ("memory_bandwidth"@, ColumnKind::OptDecimal),
            ("interface"@, ColumnKind::OptText),
            ("form_factor"@, ColumnKind::OptText),
            ("outputs"@, ColumnKind::OptTextList),
            ("length"@, ColumnKind::OptInt),
        ],
        Dataset::MemorySpecs => seq![
            ("part_id"@, ColumnKind::Int),
            ("capacity"@, ColumnKind::OptInt),
            ("speed"@, ColumnKind::OptInt),
            ("memory_type"@, ColumnKind::OptText),
            ("ecc"@, ColumnKind::OptBool),
            ("buffered"@, ColumnKind::OptBool),
            ("cas_latency"@, ColumnKind::OptDecimal),
            ("form_factor"@, ColumnKind::OptText),
            ("rgb_lighting"@, ColumnKind::OptBool),
            ("kit_configuration"@, ColumnKind::OptText),
            ("voltage"@, ColumnKind::OptDecimal),
            ("heat_spreader"@, ColumnKind::OptBool),
        ],
        Dataset::StorageSpecs => seq![
            ("part_id"@, ColumnKind::Int),
            ("capacity"@, ColumnKind::OptInt),
            ("interface"@, ColumnKind::OptText),
            ("form_factor"@, ColumnKind::OptText),
            ("sequential_read_speed"@, ColumnKind::OptInt),
            ("sequential_write_speed"@, ColumnKind::OptInt),
            ("nand_type"@, ColumnKind::OptText),
            ("controller"@, ColumnKind::OptText),
            ("endurance"@, ColumnKind::OptInt),
            ("encryption_support"@, ColumnKind::OptBool),
        ],
    }
}

/// A column of a schema.
fn column(name: &str, kind: ColumnKind) -> (c: Column)
    ensures
        c.deep_view() == (name@, kind),
{
    Column { name: String::from_str(name), kind }
}

/// The schema of a dataset.
pub fn columns(d: Dataset) -> (r: Vec<Column>)
    ensures
        r.deep_view() == schema_of(d),
{
    let mut r: Vec<Column> = Vec::new();
    match d {
        Dataset::Manufacturers => {
            r.push(column("id", ColumnKind::Int));
            r.push(column("name", ColumnKind::Text));
            r.push(column("website", ColumnKind::OptText));
        },
        Dataset::Categories => {
            r.push(column("id", ColumnKind::Int));
            r.push(column("name", ColumnKind::Text));
            r.push(column("description", ColumnKind::OptText));
        },
        Dataset::Parts => {
            r.push(column("id", ColumnKind::Int));
            r.push(column("manufacturer_id", ColumnKind::Int));
            r.push(column("category_id", ColumnKind::Int));
            r.push(column("name", ColumnKind::Text));
            r.push(column("model", ColumnKind::Text));
            r.push(column("price", ColumnKind::OptDecimal));
            r.push(column("common_specifications", ColumnKind::OptJson));
        },
        Dataset::CpuSpecs => {
            r.push(column("part_id", ColumnKind::Int));
            r.push(column("cores", ColumnKind::OptInt));
            r.push(column("threads", ColumnKind::OptInt));
            r.push(column("base_clock_speed", ColumnKind::OptDecimal));
            r.push(column("max_boost_clock_speed", ColumnKind::OptDecimal));
            r.push(column("tdp", ColumnKind::OptInt));
            r.push(column("socket_type", ColumnKind::OptText));
            r.push(column("cache_size", ColumnKind::OptDecimal));
            r.push(column("integrated_graphics", ColumnKind::OptBool));
            r.push(column("process_technology", ColumnKind::OptDecimal));
        },
        Dataset::GpuSpecs => {
            r.push(column("part_id", ColumnKind::Int));
            r.push(column("cuda_cores", ColumnKind::OptInt));
            r.push(column("vram_size", ColumnKind::OptDecimal));
            r.push(column("vram_type", ColumnKind::OptText));
            r.push(column("tdp", ColumnKind::OptInt));
            r.push(column("memory_bandwidth", ColumnKind::OptDecimal));
            r.push(column("interface", ColumnKind::OptText));
            r.push(column("form_factor", ColumnKind::OptText));
            r.push(column("outputs", ColumnKind::OptTextList));
            r.push(column("length", ColumnKind::OptInt));
        },
        Dataset::MemorySpecs => {
            r.push(column("part_id", ColumnKind::Int));
            r.push(column("capacity", ColumnKind::OptInt));
            r.push(column("speed", ColumnKind::OptInt));
            r.push(column("memory_type", ColumnKind::OptText));
            r.push(column("ecc", ColumnKind::OptBool));
            r.push(column("buffered", ColumnKind::OptBool));
            r.push(column("cas_latency", ColumnKind::OptDecimal));
            r.push(column("form_factor", ColumnKind::OptText));
            r.push(column("rgb_lighting", ColumnKind::OptBool));
            r.push(column("kit_configuration", ColumnKind::OptText));
            r.push(column("voltage", ColumnKind::OptDecimal));
            r.push(column("heat_spreader", ColumnKind::OptBool));
        },
        Dataset::StorageSpecs => {
            r.push(column("part_id", ColumnKind::Int));
            r.push(column("capacity", ColumnKind::OptInt));
            r.push(column("interface", ColumnKind::OptText));
            r.push(column("form_factor", ColumnKind::OptText));
            r.push(column("sequential_read_speed", ColumnKind::OptInt));
            r.push(column("sequential_write_speed", ColumnKind::OptInt));
            r.push(column("nand_type", ColumnKind::OptText));
            r.push(column("controller", ColumnKind::OptText));
            r.push(column("endurance", ColumnKind::OptInt));
            r.push(column("encryption_support", ColumnKind::OptBool));
        },
    }
    assert(r.deep_view() =~= schema_of(d));
    r
}

/// The rows that a dataset's source decodes to, or the first fault.
pub open spec fn decode_source(d: Dataset, bytes: Seq<u8>) -> Result<Seq<Seq<CellView>>, Fault> {
    match csv_table(bytes) {
        None => Err(Fault::Csv),
        Some(table) => decode_table(schema_of(d), table),
    }
}

/// Decodes a dataset's source into rows, one value per column of the
/// dataset's schema. A text that is not a CSV table fails with `CSVError`;
/// otherwise the result is that of `decode_records` on its records.
pub fn decode_dataset(d: Dataset, bytes: &[u8]) -> (r: Result<Vec<Vec<Cell>>, DataImportError>)
    ensures
        match r {
            Ok(rows) => decode_source(d, bytes@) == Ok::<Seq<Seq<CellView>>, Fault>(
                rows.deep_view(),
            ),
            Err(e) => match decode_source(d, bytes@) {
                Ok(_) => false,
                Err(f) => reports(f, e),
            },
        },
{
    match read_csv_records(bytes) {
        Err(message) => Err(DataImportError::CSVError(message)),
        Ok(table) => {
            let cols = columns(d);
            decode_records(&cols, &table)
        },
    }
}

/// The cells decoded from a record are those of its columns, in order.
proof fn lemma_decode_cells_ok(
    schema: Seq<(Seq<char>, ColumnKind)>,
    idxs: Seq<Option<nat>>,
    rec: Seq<Seq<char>>,
    k: nat,
)
    requires
        decode_cells(schema, idxs, rec, k) is Ok,
    ensures
        decode_cells(schema, idxs, rec, k)->Ok_0.len() == k,
        forall|j: int|
            0 <= j < k ==> cell_of(schema[j].1, lookup(rec, idxs[j])) == Some(
                #[trigger] decode_cells(schema, idxs, rec, k)->Ok_0[j],
            ),
    decreases k,
{
    if k > 0 {
        lemma_decode_cells_ok(schema, idxs, rec, (k - 1) as nat);
    }
}

/// The rows decoded from records are those of each record, in order.
proof fn lemma_decode_rows_ok(
    schema: Seq<(Seq<char>, ColumnKind)>,
    idxs: Seq<Option<nat>>,
    recs: Seq<Seq<Seq<char>>>,
    n: nat,
)
    requires
        decode_rows(schema, idxs, recs, n) is Ok,
    ensures
        decode_rows(schema, idxs, recs, n)->Ok_0.len() == n,
        forall|r: int|
            0 <= r < n ==> decode_cells(schema, idxs, recs[r], schema.len()) == Ok::<
                Seq<CellView>,
                nat,
            >(#[trigger] decode_rows(schema, idxs, recs, n)->Ok_0[r]),
    decreases n,
{
    if n > 0 {
        lemma_decode_rows_ok(schema, idxs, recs, (n - 1) as nat);
    }
}

/// Every row decoded from a dataset's source holds one value per column of
/// the schema, and its first column, the key on which the destination table
/// ignores a second insert, holds an integer.
pub proof fn lemma_rows_keyed(d: Dataset, bytes: Seq<u8>)
    requires
        decode_source(d, bytes) is Ok,
    ensures
        forall|r: int|
            0 <= r < decode_source(d, bytes)->Ok_0.len() ==> {
                &&& (#[trigger] decode_source(d, bytes)->Ok_0[r]).len() == schema_of(d).len()
                &&& decode_source(d, bytes)->Ok_0[r][0] is Int
            },
{
    let schema = schema_of(d);
    let table = csv_table(bytes)->Some_0;
    let idxs = resolve(schema, table[0]);
    let recs = table.drop_first();
    let n = (table.len() - 1) as nat;
    lemma_decode_rows_ok(schema, idxs, recs, n);
    let rows = decode_source(d, bytes)->Ok_0;
    assert forall|r: int| 0 <= r < rows.len() implies (#[trigger] rows[r]).len() == schema.len()
        && rows[r][0] is Int by {
        lemma_decode_cells_ok(schema, idxs, recs[r], schema.len());
        assert(schema[0].1 == ColumnKind::Int);
    }
}

} // verus!
