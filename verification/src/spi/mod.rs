//! The Server Programming Interface: status codes and errors, and the
//! client, cursor, prepared-statement and tuple-table logic over what the
//! backend's SPI returns.

use vstd::prelude::*;

pub mod client;
pub mod query;
pub mod tuple;

verus! {

/// The success codes SPI calls return.
#[derive(Clone, Copy, Debug, PartialEq, Eq, Structural)]
pub enum SpiOkCodes {
    Connect,
    Finish,
    Fetch,
    Utility,
    Select,
    SelInto,
    Insert,
    Delete,
    Update,
    Cursor,
    InsertReturning,
    DeleteReturning,
    UpdateReturning,
    Rewritten,
    RelRegister,
    RelUnregister,
    TdRegister,
    Merge,
    MergeReturning,
}

/// The error codes SPI calls return.
#[derive(Clone, Copy, Debug, PartialEq, Eq, Structural)]
pub enum SpiErrorCodes {
    Connect,
    Copy,
    OpUnknown,
    Unconnected,
    Cursor,
    Argument,
    Param,
    Transaction,
    NoAttribute,
    NoOutFunc,
    TypUnknown,
    RelDuplicate,
    RelNotFound,
}

/// `SPI_ERROR_NOATTRIBUTE`.
pub const SPI_ERROR_NOATTRIBUTE: i32 = -9;

/// The status value of a success code.
pub open spec fn ok_code_value(c: SpiOkCodes) -> int {
    match c {
        SpiOkCodes::Connect => 1,
        SpiOkCodes::Finish => 2,
        SpiOkCodes::Fetch => 3,
        SpiOkCodes::Utility => 4,
        SpiOkCodes::Select => 5,
        SpiOkCodes::SelInto => 6,
        SpiOkCodes::Insert => 7,
        SpiOkCodes::Delete => 8,
        SpiOkCodes::Update => 9,
        SpiOkCodes::Cursor => 10,
        SpiOkCodes::InsertReturning => 11,
        SpiOkCodes::DeleteReturning => 12,
        SpiOkCodes::UpdateReturning => 13,
        SpiOkCodes::Rewritten => 14,
        SpiOkCodes::RelRegister => 15,
        SpiOkCodes::RelUnregister => 16,
        SpiOkCodes::TdRegister => 17,
        SpiOkCodes::Merge => 18,
        SpiOkCodes::MergeReturning => 19,
    }
}

/// The status value of an error code.
pub open spec fn error_code_value(c: SpiErrorCodes) -> int {
    match c {
        SpiErrorCodes::Connect => -1,
        SpiErrorCodes::Copy => -2,
        SpiErrorCodes::OpUnknown => -3,
        SpiErrorCodes::Unconnected => -4,
        SpiErrorCodes::Cursor => -5,
        SpiErrorCodes::Argument => -6,
        SpiErrorCodes::Param => -7,
        SpiErrorCodes::Transaction => -8,
        SpiErrorCodes::NoAttribute => -9,
        SpiErrorCodes::NoOutFunc => -10,
        SpiErrorCodes::TypUnknown => -11,
        SpiErrorCodes::RelDuplicate => -12,
        SpiErrorCodes::RelNotFound => -13,
    }
}

/// Errors of the SPI layer.
#[derive(Debug, PartialEq, Eq)]
pub enum SpiError {
    /// SPI returned an error code.
    SpiError(SpiErrorCodes),
    /// A prepared statement was given the wrong number of arguments.
    PreparedStatementArgumentMismatch { expected: usize, got: usize },
    /// The tuple table is not positioned on a row.
    InvalidPosition,
    /// No cursor has the given name.
    CursorNotFound(String),
    /// The call produced no tuple table.
    NoTupleTable,
}

/// `Ok` or `Err` with an [`SpiError`].
pub type SpiResult<T> = Result<T, SpiError>;

/// A status SPI returns: a success code or an error code.
pub open spec fn is_spi_status(status: i32) -> bool {
    (1 <= status <= 19) || (-13 <= status <= -1)
}

/// What a status value means: its success code, or its error code.
pub open spec fn status_meaning(status: i32, r: SpiResult<SpiOkCodes>) -> bool {
    if 1 <= status <= 19 {
        r matches Ok(c) && ok_code_value(c) == status
    } else {
        r matches Err(SpiError::SpiError(c)) && error_code_value(c) == status
    }
}

/// The meaning of the status an SPI call returned.
pub fn check_status(status: i32) -> (r: SpiResult<SpiOkCodes>)
    requires
        is_spi_status(status),
    ensures
        status_meaning(status, r),
{
    match status {
        1 => Ok(SpiOkCodes::Connect),
        2 => Ok(SpiOkCodes::Finish),
        3 => Ok(SpiOkCodes::Fetch),
        4 => Ok(SpiOkCodes::Utility),
        5 => Ok(SpiOkCodes::Select),
        6 => Ok(SpiOkCodes::SelInto),
        7 => Ok(SpiOkCodes::Insert),
        8 => Ok(SpiOkCodes::Delete),
        9 => Ok(SpiOkCodes::Update),
        10 => Ok(SpiOkCodes::Cursor),
        11 => Ok(SpiOkCodes::InsertReturning),
        12 => Ok(SpiOkCodes::DeleteReturning),
        13 => Ok(SpiOkCodes::UpdateReturning),
        14 => Ok(SpiOkCodes::Rewritten),
        15 => Ok(SpiOkCodes::RelRegister),
        16 => Ok(SpiOkCodes::RelUnregister),
        17 => Ok(SpiOkCodes::TdRegister),
        18 => Ok(SpiOkCodes::Merge),
        19 => Ok(SpiOkCodes::MergeReturning),
        -1 => Err(SpiError::SpiError(SpiErrorCodes::Connect)),
        -2 => Err(SpiError::SpiError(SpiErrorCodes::Copy)),
        -3 => Err(SpiError::SpiError(SpiErrorCodes::OpUnknown)),
        -4 => Err(SpiError::SpiError(SpiErrorCodes::Unconnected)),
        -5 => Err(SpiError::SpiError(SpiErrorCodes::Cursor)),
        -6 => Err(SpiError::SpiError(SpiErrorCodes::Argument)),
        -7 => Err(SpiError::SpiError(SpiErrorCodes::Param)),
        -8 => Err(SpiError::SpiError(SpiErrorCodes::Transaction)),
        -9 => Err(SpiError::SpiError(SpiErrorCodes::NoAttribute)),
        -10 => Err(SpiError::SpiError(SpiErrorCodes::NoOutFunc)),
        -11 => Err(SpiError::SpiError(SpiErrorCodes::TypUnknown)),
        -12 => Err(SpiError::SpiError(SpiErrorCodes::RelDuplicate)),
        _ => Err(SpiError::SpiError(SpiErrorCodes::RelNotFound)),
    }
}

/// The status value of every success code means that code.
pub proof fn lemma_ok_codes_round_trip(c: SpiOkCodes, r: SpiResult<SpiOkCodes>)
    requires
        status_meaning(ok_code_value(c) as i32, r),
    ensures
        r == Ok::<SpiOkCodes, SpiError>(c),
{
}

/// The success codes are numbered from 1 in their order (CONNECT, FINISH,
/// FETCH, UTILITY, SELECT, SELINTO, INSERT, DELETE, UPDATE, CURSOR,
/// INSERT_RETURNING, DELETE_RETURNING, UPDATE_RETURNING, REWRITTEN,
/// REL_REGISTER, REL_UNREGISTER, TD_REGISTER, MERGE, MERGE_RETURNING), and
/// the error codes from -1 downwards in theirs (CONNECT, COPY, OPUNKNOWN,
/// UNCONNECTED, CURSOR, ARGUMENT, PARAM, TRANSACTION, NOATTRIBUTE,
/// NOOUTFUNC, TYPUNKNOWN, REL_DUPLICATE, REL_NOT_FOUND).
pub proof fn lemma_codes_follow_their_order()
    ensures
        ok_code_value(SpiOkCodes::Connect) == 1,
        ok_code_value(SpiOkCodes::Finish) == ok_code_value(SpiOkCodes::Connect) + 1,
        ok_code_value(SpiOkCodes::Fetch) == ok_code_value(SpiOkCodes::Finish) + 1,
        ok_code_value(SpiOkCodes::Utility) == ok_code_value(SpiOkCodes::Fetch) + 1,
        ok_code_value(SpiOkCodes::Select) == ok_code_value(SpiOkCodes::Utility) + 1,
        ok_code_value(SpiOkCodes::SelInto) == ok_code_value(SpiOkCodes::Select) + 1,
        ok_code_value(SpiOkCodes::Insert) == ok_code_value(SpiOkCodes::SelInto) + 1,
        ok_code_value(SpiOkCodes::Delete) == ok_code_value(SpiOkCodes::Insert) + 1,
        ok_code_value(SpiOkCodes::Update) == ok_code_value(SpiOkCodes::Delete) + 1,
        ok_code_value(SpiOkCodes::Cursor) == ok_code_value(SpiOkCodes::Update) + 1,
        ok_code_value(SpiOkCodes::InsertReturning) == ok_code_value(SpiOkCodes::Cursor) + 1,
        ok_code_value(SpiOkCodes::DeleteReturning) == ok_code_value(SpiOkCodes::InsertReturning) + 1,
        ok_code_value(SpiOkCodes::UpdateReturning) == ok_code_value(SpiOkCodes::DeleteReturning) + 1,
        ok_code_value(SpiOkCodes::Rewritten) == ok_code_value(SpiOkCodes::UpdateReturning) + 1,
        ok_code_value(SpiOkCodes::RelRegister) == ok_code_value(SpiOkCodes::Rewritten) + 1,
        ok_code_value(SpiOkCodes::RelUnregister) == ok_code_value(SpiOkCodes::RelRegister) + 1,
        ok_code_value(SpiOkCodes::TdRegister) == ok_code_value(SpiOkCodes::RelUnregister) + 1,
        ok_code_value(SpiOkCodes::Merge) == ok_code_value(SpiOkCodes::TdRegister) + 1,
        ok_code_value(SpiOkCodes::MergeReturning) == ok_code_value(SpiOkCodes::Merge) + 1,
        error_code_value(SpiErrorCodes::Connect) == -1,
        error_code_value(SpiErrorCodes::Copy) == error_code_value(SpiErrorCodes::Connect) - 1,
        error_code_value(SpiErrorCodes::OpUnknown) == error_code_value(SpiErrorCodes::Copy) - 1,
        error_code_value(SpiErrorCodes::Unconnected) == error_code_value(SpiErrorCodes::OpUnknown) - 1,
        error_code_value(SpiErrorCodes::Cursor) == error_code_value(SpiErrorCodes::Unconnected) - 1,
        error_code_value(SpiErrorCodes::Argument) == error_code_value(SpiErrorCodes::Cursor) - 1,
        error_code_value(SpiErrorCodes::Param) == error_code_value(SpiErrorCodes::Argument) - 1,
        error_code_value(SpiErrorCodes::Transaction) == error_code_value(SpiErrorCodes::Param) - 1,
        error_code_value(SpiErrorCodes::NoAttribute) == error_code_value(SpiErrorCodes::Transaction) - 1,
        error_code_value(SpiErrorCodes::NoOutFunc) == error_code_value(SpiErrorCodes::NoAttribute) - 1,
        error_code_value(SpiErrorCodes::TypUnknown) == error_code_value(SpiErrorCodes::NoOutFunc) - 1,
        error_code_value(SpiErrorCodes::RelDuplicate) == error_code_value(SpiErrorCodes::TypUnknown) - 1,
        error_code_value(SpiErrorCodes::RelNotFound) == error_code_value(SpiErrorCodes::RelDuplicate) - 1,
{
}

/// A status names exactly one code: two codes that mean the same status are
/// the same code.
pub proof fn lemma_status_names_one_code(status: i32, a: SpiResult<SpiOkCodes>, b: SpiResult<SpiOkCodes>)
    requires
        status_meaning(status, a),
        status_meaning(status, b),
    ensures
        a == b,
{
}

/// A datum with its type, as handed to SPI; `None` is SQL NULL.
#[derive(Clone, Copy, Debug, PartialEq, Eq, Structural)]
pub struct DatumWithOid {
    pub datum: Option<usize>,
    pub oid: u32,
}

} // verus!
