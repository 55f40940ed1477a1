//! An SPI connection, and cursors.

use vstd::prelude::*;

use super::{check_status, is_spi_status, status_meaning, SpiError, SpiOkCodes, SpiResult};
use super::query::PreparedStatement;
use super::tuple::{SpiTupleTable, TupleTableData};

verus! {

/// A live SPI connection.
#[derive(Debug)]
pub struct SpiClient {
    _private: (),
}

/// A cursor over a query's results, by the backend's portal handle.
#[derive(Debug)]
pub struct SpiCursor {
    inner: Option<usize>,
    name: String,
}

impl SpiCursor {
    pub closed spec fn spec_inner(&self) -> Option<usize> {
        self.inner
    }

    pub closed spec fn spec_name(&self) -> Seq<char> {
        self.name@
    }

    /// A cursor over the portal `inner`, named `name` (empty for an
    /// unnamed cursor).
    pub fn new(inner: usize, name: String) -> (c: SpiCursor)
        ensures
            c.spec_inner() == Some(inner),
            c.spec_name() == name@,
    {
        SpiCursor { inner: Some(inner), name }
    }

    /// The portal handle, while the cursor is attached.
    pub fn portal(&self) -> (p: Option<usize>)
        ensures
            p == self.spec_inner(),
    {
        self.inner
    }

    /// Detach: the portal stays open under its name, which is returned; the
    /// cursor no longer refers to it.
    pub fn detach_into_name(self) -> (name: String)
        ensures
            name@ == self.spec_name(),
    {
        self.name
    }
}

impl SpiClient {
    /// The connection `SPI_connect` opened, given the status it returned.
    pub fn connect(status: i32) -> (r: SpiResult<SpiClient>)
        requires
            is_spi_status(status),
        ensures
            r is Ok <==> 1 <= status <= 19,
            match r {
                Err(e) => status_meaning(status, Err::<SpiOkCodes, SpiError>(e)),
                Ok(_) => true,
            },
    {
        match check_status(status) {
            Ok(_) => Ok(SpiClient { _private: () }),
            Err(e) => Err(e),
        }
    }

    /// A prepared statement of the plan `SPI_prepare` returned (`None` for a
    /// null plan, with `spi_result` the `SPI_result` it left). A null plan
    /// is the error `SPI_result` names, or [`SpiError::NoTupleTable`] when
    /// that is a success code.
    pub fn prepare(&self, plan: Option<usize>, spi_result: i32) -> (r: SpiResult<PreparedStatement>)
        requires
            plan is None ==> is_spi_status(spi_result),
        ensures
            prepared(plan, spi_result, false, r),
    {
        prepare_plan(plan, spi_result, false)
    }

    /// As [`SpiClient::prepare`], for a statement that may modify data.
    pub fn prepare_mut(&self, plan: Option<usize>, spi_result: i32) -> (r: SpiResult<PreparedStatement>)
        requires
            plan is None ==> is_spi_status(spi_result),
        ensures
            prepared(plan, spi_result, true, r),
    {
        prepare_plan(plan, spi_result, true)
    }

    /// The result of the SPI call that returned `status_code`, given the
    /// tuple table it left (if any) and `SPI_processed`. The position starts
    /// before the first row; the size is the table's row count, or
    /// `SPI_processed` without a table.
    pub fn prepare_tuple_table(status_code: i32, table: Option<TupleTableData>, processed: usize) -> (r: SpiResult<
        SpiTupleTable,
    >)
        requires
            is_spi_status(status_code),
            table matches Some(t) ==> t.wf(),
        ensures
            (r is Ok) == (1 <= status_code <= 19),
            match r {
                Ok(tt) => {
                    &&& tt.wf()
                    &&& status_meaning(status_code, Ok::<SpiOkCodes, SpiError>(tt.spec_status()))
                    &&& tt.spec_table() == table
                    &&& tt.spec_size() == match table {
                        Some(t) => t.rows@.len() as int,
                        None => processed as int,
                    }
                    &&& tt.spec_current() == -1
                },
                Err(e) => status_meaning(status_code, Err::<SpiOkCodes, SpiError>(e)),
            },
    {
        SpiTupleTable::from_spi_result(status_code, table, processed)
    }

    /// The cursor named `name`, given what `SPI_cursor_find` found.
    pub fn find_cursor(&self, name: &str, found: Option<usize>) -> (r: SpiResult<SpiCursor>)
        ensures
            match found {
                Some(p) => r matches Ok(c) && c.spec_inner() == Some(p) && c.spec_name() == name@,
                None => r matches Err(SpiError::CursorNotFound(n)) && n@ == name@,
            },
    {
        match found {
            Some(p) => Ok(SpiCursor { inner: Some(p), name: name.to_owned() }),
            None => Err(SpiError::CursorNotFound(name.to_owned())),
        }
    }
}

/// What preparing a plan gives (see [`SpiClient::prepare`]).
pub open spec fn prepared(plan: Option<usize>, spi_result: i32, mutating: bool, r: SpiResult<PreparedStatement>) -> bool {
    match plan {
        Some(p) => r matches Ok(s) && s.spec_plan() == p && s.spec_mutating() == mutating,
        None => if 1 <= spi_result <= 19 {
            r == Err::<PreparedStatement, SpiError>(SpiError::NoTupleTable)
        } else {
            r matches Err(e) && status_meaning(spi_result, Err::<SpiOkCodes, SpiError>(e))
        },
    }
}

fn prepare_plan(plan: Option<usize>, spi_result: i32, mutating: bool) -> (r: SpiResult<PreparedStatement>)
    requires
        plan is None ==> is_spi_status(spi_result),
    ensures
        prepared(plan, spi_result, mutating, r),
{
    match plan {
        Some(p) => Ok(PreparedStatement::new(p, mutating)),
        None => match check_status(spi_result) {
            Err(e) => Err(e),
            Ok(_) => Err(SpiError::NoTupleTable),
        },
    }
}

} // verus!
