//! Construction helpers for materialized result tables: a named column per
//! call, assembled into an `OwnedTable` of equal-length, uniquely named
//! columns. Inputs that the table model rejects — an invalid name, an
//! unrepresentable precision, duplicate names or unequal lengths — are ruled
//! out by the callers' obligations, as the table invariant demands.
use vstd::prelude::*;

verus! {

use crate::column::{OwnedColumn, Precision};
use crate::identifier::{is_valid_identifier, Identifier};
use crate::scalar::Scalar;

/// Column names are pairwise distinct and every column spans one length.
pub open spec fn table_wf(columns: Seq<(Identifier, OwnedColumn)>) -> bool {
    &&& forall|i: int, j: int|
        0 <= i < j < columns.len() ==> (#[trigger] columns[i]).0.chars() != (
        #[trigger] columns[j]).0.chars()
    &&& forall|i: int|
        0 <= i < columns.len() ==> (#[trigger] columns[i]).1.spec_len() == columns[0].1.spec_len()
}

/// A materialized table of query results: named, equal-length columns.
#[derive(Debug)]
pub struct OwnedTable {
    columns: Vec<(Identifier, OwnedColumn)>,
}

impl OwnedTable {
    /// The named columns, in insertion order.
    pub closed spec fn columns_seq(self) -> Seq<(Identifier, OwnedColumn)> {
        self.columns@
    }

    pub fn num_columns(&self) -> (r: usize)
        ensures
            r as int == self.columns_seq().len(),
    {
        self.columns.len()
    }

    /// The named column at one position.
    pub fn column_at(&self, i: usize) -> (r: &(Identifier, OwnedColumn))
        requires
            i < self.columns_seq().len(),
        ensures
            *r == self.columns_seq()[i as int],
    {
        &self.columns[i]
    }
}

/// Assemble a table from named columns whose names are distinct and whose
/// lengths agree.
pub fn owned_table(columns: Vec<(Identifier, OwnedColumn)>) -> (r: OwnedTable)
    requires
        table_wf(columns@),
    ensures
        r.columns_seq() == columns@,
{
    OwnedTable { columns }
}

/// A named smallint column.
pub fn smallint(name: &str, data: Vec<i16>) -> (r: (Identifier, OwnedColumn))
    requires
        is_valid_identifier(name@),
    ensures
        r.0.chars() == name@,
        r.1 == OwnedColumn::SmallInt(data),
{
    match Identifier::new(name) {
        Some(id) => (id, OwnedColumn::SmallInt(data)),
        None => vstd::pervasive::unreached(),
    }
}

/// A named int column.
pub fn int32(name: &str, data: Vec<i32>) -> (r: (Identifier, OwnedColumn))
    requires
        is_valid_identifier(name@),
    ensures
        r.0.chars() == name@,
        r.1 == OwnedColumn::Int(data),
{
    match Identifier::new(name) {
        Some(id) => (id, OwnedColumn::Int(data)),
        None => vstd::pervasive::unreached(),
    }
}

/// A named bigint column.
pub fn bigint(name: &str, data: Vec<i64>) -> (r: (Identifier, OwnedColumn))
    requires
        is_valid_identifier(name@),
    ensures
        r.0.chars() == name@,
        r.1 == OwnedColumn::BigInt(data),
{
    match Identifier::new(name) {
        Some(id) => (id, OwnedColumn::BigInt(data)),
        None => vstd::pervasive::unreached(),
    }
}

/// A named boolean column.
pub fn boolean(name: &str, data: Vec<bool>) -> (r: (Identifier, OwnedColumn))
    requires
        is_valid_identifier(name@),
    ensures
        r.0.chars() == name@,
        r.1 == OwnedColumn::Boolean(data),
{
    match Identifier::new(name) {
        Some(id) => (id, OwnedColumn::Boolean(data)),
        None => vstd::pervasive::unreached(),
    }
}

/// A named int128 column.
pub fn int128(name: &str, data: Vec<i128>) -> (r: (Identifier, OwnedColumn))
    requires
        is_valid_identifier(name@),
    ensures
        r.0.chars() == name@,
        r.1 == OwnedColumn::Int128(data),
{
    match Identifier::new(name) {
        Some(id) => (id, OwnedColumn::Int128(data)),
        None => vstd::pervasive::unreached(),
    }
}

/// A named column of raw field elements.
pub fn scalar(name: &str, data: Vec<Scalar>) -> (r: (Identifier, OwnedColumn))
    requires
        is_valid_identifier(name@),
    ensures
        r.0.chars() == name@,
        r.1 == OwnedColumn::Scalar(data),
{
    match Identifier::new(name) {
        Some(id) => (id, OwnedColumn::Scalar(data)),
        None => vstd::pervasive::unreached(),
    }
}

/// A named text column.
pub fn varchar(name: &str, data: Vec<String>) -> (r: (Identifier, OwnedColumn))
    requires
        is_valid_identifier(name@),
    ensures
        r.0.chars() == name@,
        r.1 == OwnedColumn::VarChar(data),
{
    match Identifier::new(name) {
        Some(id) => (id, OwnedColumn::VarChar(data)),
        None => vstd::pervasive::unreached(),
    }
}

/// A named fixed-point decimal column with the given precision and scale.
pub fn decimal75(name: &str, precision: u8, scale: i8, data: Vec<Scalar>) -> (r: (
    Identifier,
    OwnedColumn,
))
    requires
        is_valid_identifier(name@),
        1 <= precision <= 75,
    ensures
        r.0.chars() == name@,
        r.1 matches OwnedColumn::Decimal75(p, s, d) && p.spec_value() == precision as int && s
            == scale && d == data,
{
    let id = match Identifier::new(name) {
        Some(id) => id,
        None => vstd::pervasive::unreached(),
    };
    let p = match Precision::new(precision) {
        Some(p) => p,
        None => vstd::pervasive::unreached(),
    };
    (id, OwnedColumn::Decimal75(p, scale, data))
}

} // verus!
