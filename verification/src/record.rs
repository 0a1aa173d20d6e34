//! Schema-aware row mapping and the record store.
//!
//! A fetched result set carries per-column metadata: a name and a coercion
//! tag (`ColumnType`). Each raw cell is coerced to text by its column's
//! tag: integer-tagged cells become their exact base-10 rendering; every
//! other tag falls back to the value's native text representation. The
//! fallback is deliberate and permissive: unrecognized column tags must
//! never abort the mapping. A null cell deterministically becomes the
//! empty string.

use vstd::prelude::*;

use crate::numeral::{i64_to_decimal, spec_decimal};
use crate::text::str_eq;

verus! {

/// How a column's raw values are coerced to text. Unrecognized source
/// tags resolve to `Text`, the permissive default.
#[derive(Clone, Copy, PartialEq, Eq, Structural, Debug)]
pub enum ColumnType {
    Integer,
    Text,
}

/// Result-set metadata for one column: its name and coercion tag.
pub struct Column {
    pub name: String,
    pub ctype: ColumnType,
}

/// One raw cell as handed over by the transport: an integer, a text
/// value, or a database null.
pub enum RawValue {
    Int(i64),
    Str(String),
    Null,
}

/// One normalized row: an ordered list of (field name, field value)
/// string pairs, in source column order.
pub struct Record {
    pub fields: Vec<(String, String)>,
}

impl View for Record {
    type V = Seq<(Seq<char>, Seq<char>)>;

    open spec fn view(&self) -> Seq<(Seq<char>, Seq<char>)> {
        Seq::new(self.fields@.len(), |i: int| (self.fields@[i].0@, self.fields@[i].1@))
    }
}

/// The native text representation of a raw value: decimal for integers,
/// the text itself for text, empty for null.
pub open spec fn spec_native_text(v: RawValue) -> Seq<char> {
    match v {
        RawValue::Int(n) => spec_decimal(n as int),
        RawValue::Str(s) => s@,
        RawValue::Null => Seq::<char>::empty(),
    }
}

/// The text a cell is coerced to under a column tag: integer-tagged
/// integer cells render in base-10 decimal; everything else falls back
/// to the native text representation.
pub open spec fn spec_coerce(t: ColumnType, v: RawValue) -> Seq<char> {
    match t {
        ColumnType::Integer => match v {
            RawValue::Int(n) => spec_decimal(n as int),
            _ => spec_native_text(v),
        },
        ColumnType::Text => spec_native_text(v),
    }
}

/// The record view a row maps to: one (name, coerced text) pair per
/// column, in column order.
pub open spec fn spec_map_row(cols: Seq<Column>, cells: Seq<RawValue>) -> Seq<
    (Seq<char>, Seq<char>),
>
    recommends
        cells.len() == cols.len(),
{
    Seq::new(cols.len(), |i: int| (cols[i].name@, spec_coerce(cols[i].ctype, cells[i])))
}

/// The coercion tag for a source type tag: `int4` marks an integer
/// column; every other tag, known or not, falls back to `Text`.
pub open spec fn spec_column_type_of_tag(tag: Seq<char>) -> ColumnType {
    if tag == "int4"@ {
        ColumnType::Integer
    } else {
        ColumnType::Text
    }
}

/// The coercion tag for a source type tag, with the permissive `Text`
/// fallback for every unrecognized tag.
pub fn column_type_of_tag(tag: &str) -> (r: ColumnType)
    ensures
        r == spec_column_type_of_tag(tag@),
{
    if str_eq(tag, "int4") {
        ColumnType::Integer
    } else {
        ColumnType::Text
    }
}

/// Coerces one raw cell to text under a column tag.
pub fn coerce_value(t: ColumnType, v: &RawValue) -> (r: String)
    ensures
        r@ == spec_coerce(t, *v),
{
    match v {
        RawValue::Int(n) => i64_to_decimal(*n),
        RawValue::Str(s) => s.clone(),
        RawValue::Null => String::new(),
    }
}

/// Maps one row to a record: one (name, value) pair per column,
/// preserving column order.
pub fn map_row(cols: &Vec<Column>, cells: &Vec<RawValue>) -> (r: Record)
    requires
        cells@.len() == cols@.len(),
    ensures
        r@ == spec_map_row(cols@, cells@),
{
    let mut fields: Vec<(String, String)> = Vec::new();
    let mut i: usize = 0;
    while i < cols.len()
        invariant
            i <= cols.len(),
            cells@.len() == cols@.len(),
            fields@.len() == i,
            forall|j: int| #![trigger fields@[j]]
                0 <= j < i ==> fields@[j].0@ == cols@[j].name@ && fields@[j].1@ == spec_coerce(
                    cols@[j].ctype,
                    cells@[j],
                ),
        decreases cols.len() - i,
    {
        let name = cols[i].name.clone();
        let value = coerce_value(cols[i].ctype, &cells[i]);
        proof {
            assert(name@ == cols@[i as int].name@);
            assert(value@ == spec_coerce(cols@[i as int].ctype, cells@[i as int]));
        }
        let ghost prev = fields@;
        fields.push((name, value));
        proof {
            assert forall|j: int|
                0 <= j < i + 1 implies (fields@[j].0@ == cols@[j].name@ && fields@[j].1@
                == spec_coerce(cols@[j].ctype, cells@[j])) by {
                if j < i {
                    assert(fields@[j] == prev[j]);
                    assert(prev[j].0@ == cols@[j].name@);
                    assert(prev[j].1@ == spec_coerce(cols@[j].ctype, cells@[j]));
                } else {
                    assert(fields@[j] == (name, value));
                }
            }
        }
        i = i + 1;
    }
    let r = Record { fields };
    proof {
        assert(r@ =~= spec_map_row(cols@, cells@));
    }
    r
}

/// The full in-memory collection of records loaded by one fetch,
/// insertion order equal to fetch order, indexable by position.
pub struct RecordStore {
    records: Vec<Record>,
}

impl View for RecordStore {
    type V = Seq<Record>;

    closed spec fn view(&self) -> Seq<Record> {
        self.records@
    }
}

impl RecordStore {
    /// An empty store, the state before any fetch completes.
    pub fn new() -> (r: RecordStore)
        ensures
            r@ =~= Seq::<Record>::empty(),
    {
        RecordStore { records: Vec::new() }
    }

    /// A store holding the given records, in the given order.
    pub fn from_records(records: Vec<Record>) -> (r: RecordStore)
        ensures
            r@ == records@,
    {
        RecordStore { records }
    }

    /// The number of loaded records.
    pub fn len(&self) -> (r: usize)
        ensures
            r == self@.len(),
    {
        self.records.len()
    }

    /// Whether no records are loaded.
    pub fn is_empty(&self) -> (r: bool)
        ensures
            r == (self@.len() == 0),
    {
        self.records.len() == 0
    }

    /// The record at a valid position.
    pub fn get(&self, i: usize) -> (r: &Record)
        requires
            i < self@.len(),
        ensures
            *r == self@[i as int],
    {
        &self.records[i]
    }
}

/// Maps a whole result set, row by row, in the order the transport
/// returned the rows: the store has one record per source row, in source
/// row order.
pub fn map_rows(cols: &Vec<Column>, rows: &Vec<Vec<RawValue>>) -> (r: RecordStore)
    requires
        forall|i: int| 0 <= i < rows@.len() ==> rows@[i]@.len() == cols@.len(),
    ensures
        r@.len() == rows@.len(),
        forall|i: int| 0 <= i < rows@.len() ==> r@[i]@ == spec_map_row(cols@, rows@[i]@),
{
    let mut records: Vec<Record> = Vec::new();
    let mut i: usize = 0;
    while i < rows.len()
        invariant
            i <= rows.len(),
            records@.len() == i,
            forall|k: int| 0 <= k < rows@.len() ==> rows@[k]@.len() == cols@.len(),
            forall|j: int| 0 <= j < i ==> records@[j]@ == spec_map_row(cols@, rows@[j]@),
        decreases rows.len() - i,
    {
        let rec = map_row(cols, &rows[i]);
        records.push(rec);
        i = i + 1;
    }
    RecordStore::from_records(records)
}

} // verus!
