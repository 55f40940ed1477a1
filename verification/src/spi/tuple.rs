//! Tuple tables and the rows copied out of them.
//!
//! A [`SpiTupleTable`] holds the result of one SPI call: the column names
//! and type OIDs and the rows' datums, with a current position that starts
//! before the first row. A [`SpiHeapTupleData`] is one row copied out, with
//! its column names; its entries can be read and replaced by ordinal (from
//! 1) or by column name.

use vstd::prelude::*;

use crate::registry::text_eq;

use super::{check_status, is_spi_status, status_meaning, SpiError, SpiErrorCodes, SpiOkCodes, SpiResult};

verus! {

/// A column of a tuple table.
#[derive(Debug)]
pub struct TupleTableColumn {
    pub name: String,
    pub type_oid: u32,
}

/// What SPI's tuple table holds: the columns, and per row one datum per
/// column (`None` for SQL NULL).
#[derive(Debug)]
pub struct TupleTableData {
    pub columns: Vec<TupleTableColumn>,
    pub rows: Vec<Vec<Option<usize>>>,
}

impl TupleTableData {
    /// Every row has one datum per column.
    pub open spec fn wf(&self) -> bool {
        forall|r: int| 0 <= r < self.rows@.len() ==> #[trigger] self.rows@[r]@.len() == self.columns@.len()
    }
}

/// `i` is the first position whose name is `name`.
pub open spec fn first_named(names: Seq<String>, name: Seq<char>, i: int) -> bool {
    &&& 0 <= i < names.len()
    &&& names[i]@ == name
    &&& forall|j: int| 0 <= j < i ==> names[j]@ != name
}

/// No position has the name `name`.
pub open spec fn none_named(names: Seq<String>, name: Seq<char>) -> bool {
    forall|j: int| 0 <= j < names.len() ==> names[j]@ != name
}

/// The names of a table's columns.
pub open spec fn column_names(t: TupleTableData) -> Seq<String> {
    t.columns@.map_values(|c: TupleTableColumn| c.name)
}

/// A datum and the OID of its type.
#[derive(Clone, Copy, Debug, PartialEq, Eq, Structural)]
pub struct TypedDatum {
    pub datum: usize,
    pub oid: u32,
}

/// One entry of a row: its datum (`None` for SQL NULL) and type OID.
#[derive(Clone, Copy, Debug, PartialEq, Eq, Structural)]
pub struct SpiHeapTupleDataEntry {
    datum: Option<usize>,
    type_oid: u32,
}

impl SpiHeapTupleDataEntry {
    pub closed spec fn spec_new(datum: Option<usize>, type_oid: u32) -> SpiHeapTupleDataEntry {
        SpiHeapTupleDataEntry { datum, type_oid }
    }

    pub closed spec fn spec_datum(&self) -> Option<usize> {
        self.datum
    }

    pub closed spec fn spec_oid(&self) -> u32 {
        self.type_oid
    }

    /// The OID of the entry's type.
    pub fn oid(&self) -> (o: u32)
        ensures
            o == self.spec_oid(),
    {
        self.type_oid
    }

    /// The entry's datum, `None` for SQL NULL.
    pub fn datum(&self) -> (d: Option<usize>)
        ensures
            d == self.spec_datum(),
    {
        self.datum
    }

    /// The entry's datum with its type, `None` for SQL NULL.
    pub fn value(&self) -> (v: Option<TypedDatum>)
        ensures
            v == typed(*self),
    {
        match self.datum {
            Some(d) => Some(TypedDatum { datum: d, oid: self.type_oid }),
            None => None,
        }
    }
}

/// An entry made of a datum and a type OID gives back exactly those.
pub proof fn lemma_entry_parts(datum: Option<usize>, type_oid: u32)
    ensures
        SpiHeapTupleDataEntry::spec_new(datum, type_oid).spec_datum() == datum,
        SpiHeapTupleDataEntry::spec_new(datum, type_oid).spec_oid() == type_oid,
{
}

/// Reading a non-NULL datum gives it back with its column's type, whatever
/// its value (0 included); reading a NULL gives `None`.
pub proof fn lemma_get_reads_the_row(t: SpiTupleTable, ordinal: usize)
    requires
        t.wf(),
        t.on_row(),
        t.spec_table() is Some,
        1 <= ordinal <= t.spec_table()->0.columns@.len(),
    ensures
        ({
            let tt = t.spec_table()->0;
            match tt.rows@[t.spec_current()]@[ordinal - 1] {
                Some(d) => t.spec_get(ordinal) == Ok::<Option<TypedDatum>, SpiError>(
                    Some(TypedDatum { datum: d, oid: tt.columns@[ordinal - 1].type_oid }),
                ),
                None => t.spec_get(ordinal) == Ok::<Option<TypedDatum>, SpiError>(None),
            }
        }),
{
}

/// An entry as a typed datum, `None` for SQL NULL.
pub open spec fn typed(e: SpiHeapTupleDataEntry) -> Option<TypedDatum> {
    match e.spec_datum() {
        Some(d) => Some(TypedDatum { datum: d, oid: e.spec_oid() }),
        None => None,
    }
}

/// A row copied out of a tuple table.
#[derive(Debug)]
pub struct SpiHeapTupleData {
    names: Vec<String>,
    entries: Vec<SpiHeapTupleDataEntry>,
}

/// `NoAttribute`, the error for an ordinal or name that names no column.
pub open spec fn no_attribute<T>() -> SpiResult<T> {
    Err(SpiError::SpiError(SpiErrorCodes::NoAttribute))
}

impl SpiHeapTupleData {
    pub closed spec fn spec_names(&self) -> Seq<String> {
        self.names@
    }

    pub closed spec fn spec_entries(&self) -> Seq<SpiHeapTupleDataEntry> {
        self.entries@
    }

    /// One name per entry.
    pub open spec fn wf(&self) -> bool {
        self.spec_names().len() == self.spec_entries().len()
    }

    /// `self` is row `r` of `t`: its column names, and per column the row's
    /// datum with the column's type.
    pub open spec fn is_row_of(&self, t: TupleTableData, r: int) -> bool {
        &&& self.wf()
        &&& self.spec_names().len() == t.columns@.len()
        &&& forall|i: int|
            0 <= i < t.columns@.len() ==> {
                &&& #[trigger] self.spec_names()[i] == t.columns@[i].name
                &&& self.spec_entries()[i] == SpiHeapTupleDataEntry::spec_new(
                    t.rows@[r]@[i],
                    t.columns@[i].type_oid,
                )
            }
    }

    /// Row `row` of `t`.
    fn from_row(t: &TupleTableData, row: usize) -> (d: SpiHeapTupleData)
        requires
            t.wf(),
            row < t.rows@.len(),
        ensures
            d.is_row_of(*t, row as int),
    {
        let natts = t.columns.len();
        let mut data = SpiHeapTupleData { names: Vec::new(), entries: Vec::new() };
        let mut i: usize = 0;
        while i < natts
            invariant
                t.wf(),
                row < t.rows@.len(),
                natts == t.columns@.len(),
                i <= natts,
                data.names@.len() == i,
                data.entries@.len() == i,
                forall|k: int|
                    0 <= k < i ==> {
                        &&& #[trigger] data.names@[k] == t.columns@[k].name
                        &&& data.entries@[k] == SpiHeapTupleDataEntry::spec_new(
                            t.rows@[row as int]@[k],
                            t.columns@[k].type_oid,
                        )
                    },
            decreases natts - i,
        {
            assert(t.rows@[row as int]@.len() == t.columns@.len());
            let col = &t.columns[i];
            data.entries.push(SpiHeapTupleDataEntry { datum: t.rows[row][i], type_oid: col.type_oid });
            data.names.push(col.name.clone());
            i = i + 1;
        }
        data
    }

    /// The number of columns.
    pub fn columns(&self) -> (n: usize)
        ensures
            n == self.spec_entries().len(),
    {
        self.entries.len()
    }

    fn check_ordinal_bounds(&self, ordinal: usize) -> (r: SpiResult<()>)
        ensures
            r == if 1 <= ordinal <= self.spec_entries().len() {
                Ok::<(), SpiError>(())
            } else {
                no_attribute::<()>()
            },
    {
        if ordinal < 1 || ordinal > self.columns() {
            Err(SpiError::SpiError(SpiErrorCodes::NoAttribute))
        } else {
            Ok(())
        }
    }

    /// The entry at `ordinal` (from 1).
    pub fn get_datum_by_ordinal(&self, ordinal: usize) -> (r: SpiResult<&SpiHeapTupleDataEntry>)
        ensures
            1 <= ordinal <= self.spec_entries().len() ==> (r matches Ok(e) && *e
                == self.spec_entries()[ordinal - 1]),
            !(1 <= ordinal <= self.spec_entries().len()) ==> (r matches Err(e) && e
                == SpiError::SpiError(SpiErrorCodes::NoAttribute)),
    {
        if ordinal >= 1 && ordinal <= self.entries.len() {
            Ok(&self.entries[ordinal - 1])
        } else {
            Err(SpiError::SpiError(SpiErrorCodes::NoAttribute))
        }
    }

    fn position_of(&self, name: &str) -> (r: Option<usize>)
        ensures
            match r {
                Some(i) => first_named(self.spec_names(), name@, i as int) && i < usize::MAX,
                None => none_named(self.spec_names(), name@),
            },
    {
        let mut i: usize = 0;
        while i < self.names.len()
            invariant
                i <= self.names@.len(),
                forall|j: int| 0 <= j < i ==> self.names@[j]@ != name@,
            decreases self.names@.len() - i,
        {
            if text_eq(self.names[i].as_str(), name) {
                return Some(i);
            }
            i = i + 1;
        }
        None
    }

    /// The entry of the first column named `name`.
    pub fn get_datum_by_name(&self, name: &str) -> (r: SpiResult<&SpiHeapTupleDataEntry>)
        requires
            self.wf(),
        ensures
            match r {
                Ok(e) => exists|i: int| first_named(self.spec_names(), name@, i) && *e == self.spec_entries()[i],
                Err(e) => e == SpiError::SpiError(SpiErrorCodes::NoAttribute) && none_named(self.spec_names(), name@),
            },
    {
        match self.position_of(name) {
            Some(i) => self.get_datum_by_ordinal(i + 1),
            None => Err(SpiError::SpiError(SpiErrorCodes::NoAttribute)),
        }
    }

    /// The datum at `ordinal` with its type; `Ok(None)` for SQL NULL.
    pub fn get(&self, ordinal: usize) -> (r: SpiResult<Option<TypedDatum>>)
        ensures
            1 <= ordinal <= self.spec_entries().len() ==> r == Ok::<Option<TypedDatum>, SpiError>(
                typed(self.spec_entries()[ordinal - 1]),
            ),
            !(1 <= ordinal <= self.spec_entries().len()) ==> r == no_attribute::<Option<TypedDatum>>(),
    {
        match self.get_datum_by_ordinal(ordinal) {
            Ok(e) => Ok(e.value()),
            Err(e) => Err(e),
        }
    }

    /// The datum of the first column named `name`, with its type.
    pub fn get_by_name(&self, name: &str) -> (r: SpiResult<Option<TypedDatum>>)
        requires
            self.wf(),
        ensures
            match r {
                Ok(v) => exists|i: int| first_named(self.spec_names(), name@, i) && v == typed(self.spec_entries()[i]),
                Err(e) => e == SpiError::SpiError(SpiErrorCodes::NoAttribute) && none_named(self.spec_names(), name@),
            },
    {
        match self.get_datum_by_name(name) {
            Ok(e) => Ok(e.value()),
            Err(e) => Err(e),
        }
    }

    /// The entry at `ordinal` (from 1); the ordinal must name a column.
    pub fn index(&self, ordinal: usize) -> (e: &SpiHeapTupleDataEntry)
        requires
            1 <= ordinal <= self.spec_entries().len(),
        ensures
            *e == self.spec_entries()[ordinal - 1],
    {
        &self.entries[ordinal - 1]
    }

    /// The entry of the first column named `name`; some column must have
    /// that name.
    pub fn index_by_name(&self, name: &str) -> (e: &SpiHeapTupleDataEntry)
        requires
            self.wf(),
            !none_named(self.spec_names(), name@),
        ensures
            exists|i: int| first_named(self.spec_names(), name@, i) && *e == self.spec_entries()[i],
    {
        match self.position_of(name) {
            Some(i) => &self.entries[i],
            None => {
                proof {
                    assert(false);
                }
                &self.entries[0]
            },
        }
    }

    /// Replace the entry at `ordinal` by `datum` of type `type_oid`.
    pub fn set_by_ordinal(&mut self, ordinal: usize, datum: Option<usize>, type_oid: u32) -> (r: SpiResult<()>)
        requires
            old(self).wf(),
        ensures
            final(self).wf(),
            final(self).spec_names() == old(self).spec_names(),
            1 <= ordinal <= old(self).spec_entries().len() ==> r == Ok::<(), SpiError>(()) && final(self).spec_entries() == old(self).spec_entries().update(
                ordinal - 1,
                SpiHeapTupleDataEntry::spec_new(datum, type_oid),
            ),
            !(1 <= ordinal <= old(self).spec_entries().len()) ==> r == no_attribute::<()>() && final(self).spec_entries() == old(self).spec_entries(),
    {
        match self.check_ordinal_bounds(ordinal) {
            Err(e) => Err(e),
            Ok(()) => {
                self.entries.set(ordinal - 1, SpiHeapTupleDataEntry { datum, type_oid });
                Ok(())
            },
        }
    }

    /// Replace the entry of the first column named `name`.
    pub fn set_by_name(&mut self, name: &str, datum: Option<usize>, type_oid: u32) -> (r: SpiResult<()>)
        requires
            old(self).wf(),
        ensures
            final(self).wf(),
            final(self).spec_names() == old(self).spec_names(),
            match r {
                Ok(()) => exists|i: int|
                    first_named(old(self).spec_names(), name@, i) && final(self).spec_entries() == old(self).spec_entries().update(i, SpiHeapTupleDataEntry::spec_new(datum, type_oid)),
                Err(e) => e == SpiError::SpiError(SpiErrorCodes::NoAttribute) && none_named(
                    old(self).spec_names(),
                    name@,
                ) && final(self).spec_entries() == old(self).spec_entries(),
            },
    {
        match self.position_of(name) {
            Some(i) => self.set_by_ordinal(i + 1, datum, type_oid),
            None => Err(SpiError::SpiError(SpiErrorCodes::NoAttribute)),
        }
    }
}

/// A value written at an ordinal reads back at that ordinal; every other
/// ordinal reads what it read before.
pub proof fn lemma_set_then_get(
    entries: Seq<SpiHeapTupleDataEntry>,
    ordinal: int,
    datum: Option<usize>,
    type_oid: u32,
    other: int,
)
    requires
        1 <= ordinal <= entries.len(),
        1 <= other <= entries.len(),
        other != ordinal,
    ensures
        entries.update(ordinal - 1, SpiHeapTupleDataEntry::spec_new(datum, type_oid))[ordinal - 1]
            == SpiHeapTupleDataEntry::spec_new(datum, type_oid),
        typed(entries.update(ordinal - 1, SpiHeapTupleDataEntry::spec_new(datum, type_oid))[ordinal
            - 1]) == match datum {
            Some(d) => Some(TypedDatum { datum: d, oid: type_oid }),
            None => None::<TypedDatum>,
        },
        entries.update(ordinal - 1, SpiHeapTupleDataEntry::spec_new(datum, type_oid))[other - 1]
            == entries[other - 1],
{
}

/// Looking a column up by name finds the same position whichever ordinal
/// it is read at: the first named position is unique.
pub proof fn lemma_first_named_unique(names: Seq<String>, name: Seq<char>, i: int, j: int)
    requires
        first_named(names, name, i),
        first_named(names, name, j),
    ensures
        i == j,
{
}

/// The result of one SPI call, with a position over its rows.
#[derive(Debug)]
pub struct SpiTupleTable {
    status_code: SpiOkCodes,
    table: Option<TupleTableData>,
    size: usize,
    current: isize,
}

impl SpiTupleTable {
    pub closed spec fn spec_table(&self) -> Option<TupleTableData> {
        self.table
    }

    pub closed spec fn spec_size(&self) -> int {
        self.size as int
    }

    pub closed spec fn spec_current(&self) -> int {
        self.current as int
    }

    pub closed spec fn spec_status(&self) -> SpiOkCodes {
        self.status_code
    }

    /// The position is at least just before the first row, and a table
    /// holds `size` well-formed rows.
    pub open spec fn wf(&self) -> bool {
        &&& self.spec_current() >= -1
        &&& match self.spec_table() {
            Some(t) => t.wf() && t.rows@.len() == self.spec_size(),
            None => true,
        }
    }

    /// The position is on a row.
    pub open spec fn on_row(&self) -> bool {
        0 <= self.spec_current() < self.spec_size()
    }

    /// `ordinal` names a column: `NoTupleTable` without a table,
    /// `NoAttribute` outside `1..=columns`.
    pub open spec fn spec_check_ordinal(&self, ordinal: usize) -> SpiResult<()> {
        match self.spec_table() {
            None => Err(SpiError::NoTupleTable),
            Some(t) => if 1 <= ordinal <= t.columns@.len() {
                Ok(())
            } else {
                no_attribute::<()>()
            },
        }
    }

    /// The datum at `ordinal` in the current row: the ordinal is checked
    /// first, then the position.
    pub open spec fn spec_datum(&self, ordinal: usize) -> SpiResult<Option<usize>> {
        match self.spec_check_ordinal(ordinal) {
            Err(e) => Err(e),
            Ok(()) => if !self.on_row() {
                Err(SpiError::InvalidPosition)
            } else {
                Ok(self.spec_table()->0.rows@[self.spec_current()]@[ordinal - 1])
            },
        }
    }

    /// The type OID of the column at `ordinal`.
    pub open spec fn spec_type_oid(&self, ordinal: usize) -> SpiResult<u32> {
        match self.spec_check_ordinal(ordinal) {
            Err(e) => Err(e),
            Ok(()) => Ok(self.spec_table()->0.columns@[ordinal - 1].type_oid),
        }
    }

    /// The datum at `ordinal` in the current row, with its column's type.
    pub open spec fn spec_get(&self, ordinal: usize) -> SpiResult<Option<TypedDatum>> {
        match self.spec_datum(ordinal) {
            Err(e) => Err(e),
            Ok(None) => Ok(None),
            Ok(Some(d)) => Ok(Some(TypedDatum { datum: d, oid: self.spec_type_oid(ordinal)->Ok_0 })),
        }
    }

    /// The table of [`super::client::SpiClient::prepare_tuple_table`].
    pub(crate) fn from_spi_result(status_code: i32, table: Option<TupleTableData>, processed: usize) -> (r: SpiResult<
        SpiTupleTable,
    >)
        requires
            is_spi_status(status_code),
            table matches Some(t) ==> t.wf(),
        ensures
            (r is Ok) == (1 <= status_code <= 19),
            match r {
                Ok(tt) => {
                    &&& tt.wf()
                    &&& status_meaning(status_code, Ok::<SpiOkCodes, SpiError>(tt.spec_status()))
                    &&& tt.spec_table() == table
                    &&& tt.spec_size() == match table {
                        Some(t) => t.rows@.len() as int,
                        None => processed as int,
                    }
                    &&& tt.spec_current() == -1
                },
                Err(e) => status_meaning(status_code, Err::<SpiOkCodes, SpiError>(e)),
            },
    {
        let size = match &table {
            Some(t) => t.rows.len(),
            None => processed,
        };
        match check_status(status_code) {
            Ok(code) => Ok(SpiTupleTable { status_code: code, table, size, current: -1 }),
            Err(e) => Err(e),
        }
    }

    /// Position on the first row.
    pub fn first(self) -> (t: SpiTupleTable)
        requires
            self.wf(),
        ensures
            t.wf(),
            t.spec_table() == self.spec_table(),
            t.spec_size() == self.spec_size(),
            t.spec_status() == self.spec_status(),
            t.spec_current() == 0,
    {
        let mut t = self;
        t.current = 0;
        t
    }

    /// Position before the first row.
    pub fn rewind(self) -> (t: SpiTupleTable)
        requires
            self.wf(),
        ensures
            t.wf(),
            t.spec_table() == self.spec_table(),
            t.spec_size() == self.spec_size(),
            t.spec_status() == self.spec_status(),
            t.spec_current() == -1,
    {
        let mut t = self;
        t.current = -1;
        t
    }

    /// The number of rows.
    pub fn len(&self) -> (n: usize)
        ensures
            n == self.spec_size(),
    {
        self.size
    }

    pub fn is_empty(&self) -> (b: bool)
        ensures
            b == (self.spec_size() == 0),
    {
        self.len() == 0
    }

    /// The number of columns.
    pub fn columns(&self) -> (r: SpiResult<usize>)
        ensures
            match self.spec_table() {
                None => r == Err::<usize, SpiError>(SpiError::NoTupleTable),
                Some(t) => r matches Ok(n) && n == t.columns@.len(),
            },
    {
        match &self.table {
            Some(t) => Ok(t.columns.len()),
            None => Err(SpiError::NoTupleTable),
        }
    }

    fn check_ordinal_bounds(&self, ordinal: usize) -> (r: SpiResult<()>)
        ensures
            r == self.spec_check_ordinal(ordinal),
    {
        let n = match self.columns() {
            Ok(n) => n,
            Err(e) => return Err(e),
        };
        if ordinal < 1 || ordinal > n {
            Err(SpiError::SpiError(SpiErrorCodes::NoAttribute))
        } else {
            Ok(())
        }
    }

    /// The current row, copied out: `None` for an empty result or one
    /// without a table, `InvalidPosition` when not on a row.
    pub fn get_heap_tuple(&self) -> (r: SpiResult<Option<SpiHeapTupleData>>)
        requires
            self.wf(),
        ensures
            self.spec_size() == 0 || self.spec_table() is None ==> r matches Ok(None),
            self.spec_size() != 0 && self.spec_table() is Some && !self.on_row() ==> r matches Err(
                SpiError::InvalidPosition,
            ),
            self.spec_size() != 0 && self.spec_table() is Some && self.on_row() ==> (r matches Ok(
                Some(d),
            ) && d.is_row_of(self.spec_table()->0, self.spec_current())),
    {
        if self.size == 0 {
            return Ok(None);
        }
        match &self.table {
            None => Ok(None),
            Some(t) => {
                if self.current < 0 || self.current as usize >= self.size {
                    Err(SpiError::InvalidPosition)
                } else {
                    Ok(Some(SpiHeapTupleData::from_row(t, self.current as usize)))
                }
            },
        }
    }

    /// The datum at `ordinal` in the current row; `Ok(None)` for SQL NULL.
    pub fn get_datum_by_ordinal(&self, ordinal: usize) -> (r: SpiResult<Option<usize>>)
        requires
            self.wf(),
        ensures
            r == self.spec_datum(ordinal),
    {
        match self.check_ordinal_bounds(ordinal) {
            Err(e) => return Err(e),
            Ok(()) => {},
        }
        if self.current < 0 || self.current as usize >= self.size {
            return Err(SpiError::InvalidPosition);
        }
        match &self.table {
            Some(t) => {
                let cur = self.current as usize;
                assert(t.rows@[cur as int]@.len() == t.columns@.len());
                Ok(t.rows[cur][ordinal - 1])
            },
            None => Err(SpiError::NoTupleTable),
        }
    }

    /// The type OID of the column at `ordinal`.
    pub fn column_type_oid(&self, ordinal: usize) -> (r: SpiResult<u32>)
        ensures
            r == self.spec_type_oid(ordinal),
    {
        match self.check_ordinal_bounds(ordinal) {
            Err(e) => return Err(e),
            Ok(()) => {},
        }
        match &self.table {
            Some(t) => Ok(t.columns[ordinal - 1].type_oid),
            None => Err(SpiError::NoTupleTable),
        }
    }

    /// The name of the column at `ordinal`.
    pub fn column_name(&self, ordinal: usize) -> (r: SpiResult<String>)
        ensures
            match self.spec_check_ordinal(ordinal) {
                Err(e) => r == Err::<String, SpiError>(e),
                Ok(()) => r matches Ok(n) && n == self.spec_table()->0.columns@[ordinal - 1].name,
            },
    {
        match self.check_ordinal_bounds(ordinal) {
            Err(e) => return Err(e),
            Ok(()) => {},
        }
        match &self.table {
            Some(t) => Ok(t.columns[ordinal - 1].name.clone()),
            None => Err(SpiError::NoTupleTable),
        }
    }

    /// The ordinal of the first column named `name`.
    pub fn column_ordinal(&self, name: &str) -> (r: SpiResult<usize>)
        ensures
            match self.spec_table() {
                None => r == Err::<usize, SpiError>(SpiError::NoTupleTable),
                Some(t) => match r {
                    Ok(o) => first_named(column_names(t), name@, o - 1),
                    Err(e) => e == SpiError::SpiError(SpiErrorCodes::NoAttribute) && none_named(
                        column_names(t),
                        name@,
                    ),
                },
            },
    {
        match &self.table {
            None => Err(SpiError::NoTupleTable),
            Some(t) => {
                let ghost names = column_names(*t);
                assert(names.len() == t.columns@.len());
                let mut i: usize = 0;
                while i < t.columns.len()
                    invariant
                        i <= t.columns@.len(),
                        names == column_names(*t),
                        names.len() == t.columns@.len(),
                        self.spec_table() == Some(*t),
                        forall|j: int| 0 <= j < i ==> names[j]@ != name@,
                    decreases t.columns@.len() - i,
                {
                    assert(names[i as int] == t.columns@[i as int].name);
                    if text_eq(t.columns[i].name.as_str(), name) {
                        return Ok(i + 1);
                    }
                    i = i + 1;
                }
                Err(SpiError::SpiError(SpiErrorCodes::NoAttribute))
            },
        }
    }

    /// The datum of the first column named `name` in the current row.
    pub fn get_datum_by_name(&self, name: &str) -> (r: SpiResult<Option<usize>>)
        requires
            self.wf(),
        ensures
            match self.spec_table() {
                None => r == Err::<Option<usize>, SpiError>(SpiError::NoTupleTable),
                Some(t) => if none_named(column_names(t), name@) {
                    r == no_attribute::<Option<usize>>()
                } else {
                    exists|i: int| first_named(column_names(t), name@, i) && r == self.spec_datum((i + 1) as usize)
                },
            },
    {
        match self.column_ordinal(name) {
            Ok(o) => self.get_datum_by_ordinal(o),
            Err(e) => Err(e),
        }
    }

    /// The datum at `ordinal` in the current row with its column's type;
    /// `Ok(None)` for SQL NULL.
    pub fn get(&self, ordinal: usize) -> (r: SpiResult<Option<TypedDatum>>)
        requires
            self.wf(),
        ensures
            r == self.spec_get(ordinal),
    {
        let datum = match self.get_datum_by_ordinal(ordinal) {
            Ok(d) => d,
            Err(e) => return Err(e),
        };
        let oid = match self.column_type_oid(ordinal) {
            Ok(o) => o,
            Err(e) => return Err(e),
        };
        match datum {
            Some(d) => Ok(Some(TypedDatum { datum: d, oid })),
            None => Ok(None),
        }
    }

    /// The first column of the current row.
    pub fn get_one(&self) -> (r: SpiResult<Option<TypedDatum>>)
        requires
            self.wf(),
        ensures
            r == self.spec_get(1),
    {
        self.get(1)
    }

    /// The first two columns of the current row.
    pub fn get_two(&self) -> (r: SpiResult<(Option<TypedDatum>, Option<TypedDatum>)>)
        requires
            self.wf(),
        ensures
            match (self.spec_get(1), self.spec_get(2)) {
                (Err(e), _) => r == Err::<(Option<TypedDatum>, Option<TypedDatum>), SpiError>(e),
                (Ok(a), Err(e)) => r == Err::<(Option<TypedDatum>, Option<TypedDatum>), SpiError>(e),
                (Ok(a), Ok(b)) => r == Ok::<(Option<TypedDatum>, Option<TypedDatum>), SpiError>((a, b)),
            },
    {
        let a = match self.get(1) {
            Ok(a) => a,
            Err(e) => return Err(e),
        };
        let b = match self.get(2) {
            Ok(b) => b,
            Err(e) => return Err(e),
        };
        Ok((a, b))
    }

    /// The first three columns of the current row.
    pub fn get_three(&self) -> (r: SpiResult<(Option<TypedDatum>, Option<TypedDatum>, Option<TypedDatum>)>)
        requires
            self.wf(),
        ensures
            match (self.spec_get(1), self.spec_get(2), self.spec_get(3)) {
                (Err(e), _, _) => r == Err::<(Option<TypedDatum>, Option<TypedDatum>, Option<TypedDatum>), SpiError>(e),
                (Ok(a), Err(e), _) => r == Err::<(Option<TypedDatum>, Option<TypedDatum>, Option<TypedDatum>), SpiError>(e),
                (Ok(a), Ok(b), Err(e)) => r == Err::<(Option<TypedDatum>, Option<TypedDatum>, Option<TypedDatum>), SpiError>(e),
                (Ok(a), Ok(b), Ok(c)) => r == Ok::<(Option<TypedDatum>, Option<TypedDatum>, Option<TypedDatum>), SpiError>((a, b, c)),
            },
    {
        let a = match self.get(1) {
            Ok(a) => a,
            Err(e) => return Err(e),
        };
        let b = match self.get(2) {
            Ok(b) => b,
            Err(e) => return Err(e),
        };
        let c = match self.get(3) {
            Ok(c) => c,
            Err(e) => return Err(e),
        };
        Ok((a, b, c))
    }

    /// Bounds on the rows still to come: none at least, `size` at most.
    pub fn size_hint(&self) -> (r: (usize, Option<usize>))
        ensures
            r == (0usize, Some(self.spec_size() as usize)),
    {
        (0, Some(self.size))
    }

    /// Advance to the next row and copy it out; `None` once past the last
    /// row (and for a result without a table).
    pub fn next(&mut self) -> (r: Option<SpiHeapTupleData>)
        requires
            old(self).wf(),
            old(self).spec_current() < isize::MAX,
        ensures
            final(self).wf(),
            final(self).spec_current() == old(self).spec_current() + 1,
            final(self).spec_table() == old(self).spec_table(),
            final(self).spec_size() == old(self).spec_size(),
            final(self).spec_status() == old(self).spec_status(),
            final(self).on_row() && final(self).spec_table() is Some ==> (r matches Some(d)
                && d.is_row_of(final(self).spec_table()->0, final(self).spec_current())),
            !(final(self).on_row() && final(self).spec_table() is Some) ==> r is None,
    {
        self.current = self.current + 1;
        if self.current as usize >= self.size {
            return None;
        }
        match self.get_heap_tuple() {
            Ok(row) => row,
            Err(_) => None,
        }
    }
}

} // verus!
