//! The typed, length-tagged columnar data model, and the accessors that map
//! a column reference to its data or to its opening at the challenge point.
//! The commitment scheme itself is an external collaborator: the verifier
//! consumes it only through the per-column openings its accessor serves.
use vstd::prelude::*;

verus! {

use crate::identifier::Identifier;
use crate::scalar::Scalar;

/// Digits of precision of a decimal column: between 1 and 75.
#[derive(Debug, Clone, Copy, PartialEq, Eq, Structural, Hash)]
pub struct Precision {
    value: u8,
}

impl Precision {
    pub closed spec fn spec_value(self) -> int {
        self.value as int
    }

    /// Accepts exactly the representable precisions.
    pub fn new(precision: u8) -> (r: Option<Precision>)
        ensures
            r is Some <==> 1 <= precision <= 75,
            r is Some ==> r->0.spec_value() == precision as int,
    {
        if 1 <= precision && precision <= 75 {
            Some(Precision { value: precision })
        } else {
            None
        }
    }

    pub fn value(&self) -> (r: u8)
        ensures
            r as int == self.spec_value(),
    {
        self.value
    }
}

/// The kind of a column, with width, precision and scale where relevant.
#[derive(Debug, Clone, Copy, PartialEq, Eq, Structural, Hash)]
pub enum ColumnType {
    Boolean,
    SmallInt,
    Int,
    BigInt,
    Int128,
    Decimal75(Precision, i8),
    Scalar,
    VarChar,
}

/// The identity key of a column: table, name and type. A reference must be
/// type-consistent with the node that reads it.
#[derive(Debug)]
pub struct ColumnRef {
    pub table: Identifier,
    pub name: Identifier,
    pub column_type: ColumnType,
}

/// The spec-level identity a reference denotes.
pub open spec fn ref_key(r: ColumnRef) -> (Seq<char>, Seq<char>, ColumnType) {
    (r.table.chars(), r.name.chars(), r.column_type)
}

impl ColumnRef {
    pub fn new(table: Identifier, name: Identifier, column_type: ColumnType) -> (r: ColumnRef)
        ensures
            r == (ColumnRef { table, name, column_type }),
    {
        ColumnRef { table, name, column_type }
    }

    /// Two references denote the same column exactly when their keys agree.
    pub fn eq_ref(&self, other: &ColumnRef) -> (r: bool)
        ensures
            r == (ref_key(*self) == ref_key(*other)),
    {
        self.table.eq_name(&other.table) && self.name.eq_name(&other.name) && self.column_type
            == other.column_type
    }

    /// An owned copy of the same reference.
    pub fn duplicate(&self) -> (r: ColumnRef)
        ensures
            r == *self,
    {
        ColumnRef {
            table: self.table.duplicate(),
            name: self.name.duplicate(),
            column_type: self.column_type,
        }
    }
}

/// A materialized, independently owned column.
#[derive(Debug)]
pub enum OwnedColumn {
    Boolean(Vec<bool>),
    SmallInt(Vec<i16>),
    Int(Vec<i32>),
    BigInt(Vec<i64>),
    Int128(Vec<i128>),
    Decimal75(Precision, i8, Vec<Scalar>),
    Scalar(Vec<Scalar>),
    VarChar(Vec<String>),
}

impl OwnedColumn {
    /// The number of rows.
    pub open spec fn spec_len(self) -> int {
        match self {
            OwnedColumn::Boolean(v) => v@.len() as int,
            OwnedColumn::SmallInt(v) => v@.len() as int,
            OwnedColumn::Int(v) => v@.len() as int,
            OwnedColumn::BigInt(v) => v@.len() as int,
            OwnedColumn::Int128(v) => v@.len() as int,
            OwnedColumn::Decimal75(_, _, v) => v@.len() as int,
            OwnedColumn::Scalar(v) => v@.len() as int,
            OwnedColumn::VarChar(v) => v@.len() as int,
        }
    }

    /// The column's declared type tag.
    pub open spec fn spec_column_type(self) -> ColumnType {
        match self {
            OwnedColumn::Boolean(_) => ColumnType::Boolean,
            OwnedColumn::SmallInt(_) => ColumnType::SmallInt,
            OwnedColumn::Int(_) => ColumnType::Int,
            OwnedColumn::BigInt(_) => ColumnType::BigInt,
            OwnedColumn::Int128(_) => ColumnType::Int128,
            OwnedColumn::Decimal75(p, s, _) => ColumnType::Decimal75(p, s),
            OwnedColumn::Scalar(_) => ColumnType::Scalar,
            OwnedColumn::VarChar(_) => ColumnType::VarChar,
        }
    }

    pub fn len(&self) -> (r: usize)
        ensures
            r as int == self.spec_len(),
    {
        match self {
            OwnedColumn::Boolean(v) => v.len(),
            OwnedColumn::SmallInt(v) => v.len(),
            OwnedColumn::Int(v) => v.len(),
            OwnedColumn::BigInt(v) => v.len(),
            OwnedColumn::Int128(v) => v.len(),
            OwnedColumn::Decimal75(_, _, v) => v.len(),
            OwnedColumn::Scalar(v) => v.len(),
            OwnedColumn::VarChar(v) => v.len(),
        }
    }

    pub fn column_type(&self) -> (r: ColumnType)
        ensures
            r == self.spec_column_type(),
    {
        match self {
            OwnedColumn::Boolean(_) => ColumnType::Boolean,
            OwnedColumn::SmallInt(_) => ColumnType::SmallInt,
            OwnedColumn::Int(_) => ColumnType::Int,
            OwnedColumn::BigInt(_) => ColumnType::BigInt,
            OwnedColumn::Int128(_) => ColumnType::Int128,
            OwnedColumn::Decimal75(p, s, _) => ColumnType::Decimal75(*p, *s),
            OwnedColumn::Scalar(_) => ColumnType::Scalar,
            OwnedColumn::VarChar(_) => ColumnType::VarChar,
        }
    }
}

/// A zero-copy, typed view over one column for one evaluation pass.
#[derive(Debug)]
pub enum Column<'a> {
    Boolean(&'a [bool]),
    SmallInt(&'a [i16]),
    Int(&'a [i32]),
    BigInt(&'a [i64]),
    Int128(&'a [i128]),
    Decimal75(Precision, i8, &'a [Scalar]),
    Scalar(&'a [Scalar]),
    VarChar(&'a [String]),
}

impl<'a> Column<'a> {
    /// The boolean rows, where the view is of a boolean column.
    pub fn as_boolean(&self) -> (r: Option<&'a [bool]>)
        ensures
            self is Boolean ==> r == Some(self->Boolean_0),
            !(self is Boolean) ==> r is None,
    {
        match self {
            Column::Boolean(v) => Some(*v),
            _ => None,
        }
    }
}

/// Maps a column reference to the column's data for one table window. The
/// physical storage behind it is an external collaborator; this accessor
/// is the window the evaluation passes read.
#[derive(Debug)]
pub struct DataAccessor {
    pub table_length: usize,
    pub entries: Vec<(ColumnRef, OwnedColumn)>,
}

/// First entry whose reference denotes `key`, searching from position `i`.
pub open spec fn lookup_column_from(
    entries: Seq<(ColumnRef, OwnedColumn)>,
    key: (Seq<char>, Seq<char>, ColumnType),
    i: int,
) -> Option<OwnedColumn>
    decreases entries.len() - i,
{
    if i < 0 || i >= entries.len() {
        None
    } else if ref_key(entries[i].0) == key {
        Some(entries[i].1)
    } else {
        lookup_column_from(entries, key, i + 1)
    }
}

impl DataAccessor {
    pub fn new(table_length: usize, entries: Vec<(ColumnRef, OwnedColumn)>) -> (r: DataAccessor)
        ensures
            r.table_length == table_length,
            r.entries == entries,
    {
        DataAccessor { table_length, entries }
    }

    /// The boolean rows of the referenced column, where the reference
    /// resolves to a boolean column.
    pub fn get_boolean_column<'a>(&'a self, column_ref: &ColumnRef) -> (r: Option<&'a [bool]>)
        ensures
            match lookup_column_from(self.entries@, ref_key(*column_ref), 0) {
                Some(c) => {
                    &&& (c is Boolean ==> r is Some && r->0@ == c->Boolean_0@)
                    &&& (!(c is Boolean) ==> r is None)
                },
                None => r is None,
            },
    {
        let n = self.entries.len();
        let mut i: usize = 0;
        while i < n
            invariant
                i <= n,
                n == self.entries@.len(),
                lookup_column_from(self.entries@, ref_key(*column_ref), 0) == lookup_column_from(
                    self.entries@,
                    ref_key(*column_ref),
                    i as int,
                ),
            decreases n - i,
        {
            let entry = &self.entries[i];
            if entry.0.eq_ref(column_ref) {
                match &entry.1 {
                    OwnedColumn::Boolean(v) => {
                        return Some(v.as_slice());
                    },
                    _ => {
                        return None;
                    },
                }
            }
            i = i + 1;
        }
        None
    }
}

/// Maps a column reference to the opening of its commitment at the random
/// challenge point. The commitment scheme that binds those openings is an
/// external collaborator.
#[derive(Debug)]
pub struct CommitmentAccessor {
    pub entries: Vec<(ColumnRef, Scalar)>,
}

/// First opening whose reference denotes `key`, searching from position `i`.
pub open spec fn lookup_opening_from(
    entries: Seq<(ColumnRef, Scalar)>,
    key: (Seq<char>, Seq<char>, ColumnType),
    i: int,
) -> Option<Scalar>
    decreases entries.len() - i,
{
    if i < 0 || i >= entries.len() {
        None
    } else if ref_key(entries[i].0) == key {
        Some(entries[i].1)
    } else {
        lookup_opening_from(entries, key, i + 1)
    }
}

impl CommitmentAccessor {
    pub fn new(entries: Vec<(ColumnRef, Scalar)>) -> (r: CommitmentAccessor)
        ensures
            r.entries == entries,
    {
        CommitmentAccessor { entries }
    }

    /// The opening of the referenced column's commitment.
    pub fn get_opening(&self, column_ref: &ColumnRef) -> (r: Option<Scalar>)
        ensures
            r == lookup_opening_from(self.entries@, ref_key(*column_ref), 0),
    {
        let n = self.entries.len();
        let mut i: usize = 0;
        while i < n
            invariant
                i <= n,
                n == self.entries@.len(),
                lookup_opening_from(self.entries@, ref_key(*column_ref), 0) == lookup_opening_from(
                    self.entries@,
                    ref_key(*column_ref),
                    i as int,
                ),
            decreases n - i,
        {
            let entry = &self.entries[i];
            if entry.0.eq_ref(column_ref) {
                return Some(entry.1);
            }
            i = i + 1;
        }
        None
    }
}

} // verus!
