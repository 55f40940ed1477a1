use pgrx::spi::client::SpiClient;
use pgrx::spi::query::{args_to_native, execute_request, pass_as_is, ExecuteRequest, PreparedStatement};
use pgrx::spi::tuple::{SpiTupleTable, TupleTableColumn, TupleTableData, TypedDatum};
use pgrx::spi::{check_status, DatumWithOid, SpiError, SpiErrorCodes, SpiOkCodes};

fn table() -> TupleTableData {
    TupleTableData {
        columns: vec![
            TupleTableColumn { name: "id".to_string(), type_oid: 23 },
            TupleTableColumn { name: "name".to_string(), type_oid: 25 },
            TupleTableColumn { name: "id".to_string(), type_oid: 20 },
        ],
        rows: vec![vec![Some(1), Some(100), None], vec![Some(2), None, Some(7)]],
    }
}

fn select() -> SpiTupleTable {
    SpiClient::prepare_tuple_table(5, Some(table()), 0).unwrap()
}

#[test]
fn status_codes() {
    assert_eq!(check_status(5), Ok(SpiOkCodes::Select));
    assert_eq!(check_status(1), Ok(SpiOkCodes::Connect));
    assert_eq!(check_status(19), Ok(SpiOkCodes::MergeReturning));
    assert_eq!(check_status(-9), Err(SpiError::SpiError(SpiErrorCodes::NoAttribute)));
    assert_eq!(check_status(-13), Err(SpiError::SpiError(SpiErrorCodes::RelNotFound)));
    assert_eq!(check_status(-1), Err(SpiError::SpiError(SpiErrorCodes::Connect)));
}

#[test]
fn table_starts_before_the_first_row() {
    let t = select();
    assert_eq!(t.len(), 2);
    assert!(!t.is_empty());
    assert_eq!(t.columns(), Ok(3));
    assert_eq!(t.get_datum_by_ordinal(1), Err(SpiError::InvalidPosition));
    assert!(matches!(t.get_heap_tuple(), Err(SpiError::InvalidPosition)));
}

#[test]
fn first_positions_on_row_zero() {
    let t = select().first();
    assert_eq!(t.get_datum_by_ordinal(1), Ok(Some(1)));
    assert_eq!(t.get_datum_by_ordinal(3), Ok(None));
    assert_eq!(t.get_one(), Ok(Some(TypedDatum { datum: 1, oid: 23 })));
    assert_eq!(
        t.get_two(),
        Ok((Some(TypedDatum { datum: 1, oid: 23 }), Some(TypedDatum { datum: 100, oid: 25 })))
    );
    assert_eq!(
        t.get_three(),
        Ok((Some(TypedDatum { datum: 1, oid: 23 }), Some(TypedDatum { datum: 100, oid: 25 }), None))
    );
    let row = t.get_heap_tuple().unwrap().unwrap();
    assert_eq!(row.columns(), 3);
    let t = t.rewind();
    assert_eq!(t.get_one(), Err(SpiError::InvalidPosition));
}

#[test]
fn ordinals_and_names() {
    let t = select().first();
    assert_eq!(t.get_datum_by_ordinal(0), Err(SpiError::SpiError(SpiErrorCodes::NoAttribute)));
    assert_eq!(t.get_datum_by_ordinal(4), Err(SpiError::SpiError(SpiErrorCodes::NoAttribute)));
    assert_eq!(t.column_type_oid(2), Ok(25));
    assert_eq!(t.column_name(2), Ok("name".to_string()));
    assert_eq!(t.column_ordinal("id"), Ok(1));
    assert_eq!(t.column_ordinal("name"), Ok(2));
    assert_eq!(t.column_ordinal("nope"), Err(SpiError::SpiError(SpiErrorCodes::NoAttribute)));
    assert_eq!(t.get_datum_by_name("name"), Ok(Some(100)));
    assert_eq!(t.get_datum_by_name("zzz"), Err(SpiError::SpiError(SpiErrorCodes::NoAttribute)));
    assert_eq!(t.get(9), Err(SpiError::SpiError(SpiErrorCodes::NoAttribute)));
}

#[test]
fn iteration_visits_rows_in_order() {
    let mut t = select();
    let r0 = t.next().unwrap();
    assert_eq!(r0.get(1), Ok(Some(TypedDatum { datum: 1, oid: 23 })));
    let r1 = t.next().unwrap();
    assert_eq!(r1.get(1), Ok(Some(TypedDatum { datum: 2, oid: 23 })));
    assert_eq!(r1.get(2), Ok(None));
    assert!(t.next().is_none());
    assert!(t.next().is_none());
}

#[test]
fn results_without_a_table() {
    let t = SpiClient::prepare_tuple_table(7, None, 3).unwrap();
    assert_eq!(t.len(), 3);
    assert_eq!(t.columns(), Err(SpiError::NoTupleTable));
    assert_eq!(t.get_datum_by_ordinal(1), Err(SpiError::NoTupleTable));
    assert_eq!(t.column_ordinal("id"), Err(SpiError::NoTupleTable));
    assert_eq!(t.column_name(1), Err(SpiError::NoTupleTable));
    assert!(matches!(t.get_heap_tuple(), Ok(None)));
    let mut t = t.first();
    assert!(t.next().is_none());
    assert!(matches!(
        SpiClient::prepare_tuple_table(-4, None, 0),
        Err(SpiError::SpiError(SpiErrorCodes::Unconnected))
    ));
}

#[test]
fn empty_result() {
    let empty = TupleTableData { columns: vec![TupleTableColumn { name: "x".to_string(), type_oid: 23 }], rows: vec![] };
    let t = SpiClient::prepare_tuple_table(5, Some(empty), 99).unwrap();
    assert!(t.is_empty());
    let t = t.first();
    assert!(matches!(t.get_heap_tuple(), Ok(None)));
    assert_eq!(t.get_one(), Err(SpiError::InvalidPosition));
}

#[test]
fn heap_tuple_set_then_get() {
    let mut row = select().first().get_heap_tuple().unwrap().unwrap();
    assert_eq!(row.get_datum_by_ordinal(2).unwrap().oid(), 25);
    assert_eq!(row.set_by_ordinal(2, Some(55), 21), Ok(()));
    assert_eq!(row.get(2), Ok(Some(TypedDatum { datum: 55, oid: 21 })));
    assert_eq!(row.get(1), Ok(Some(TypedDatum { datum: 1, oid: 23 })));
    assert_eq!(row.set_by_ordinal(0, None, 1), Err(SpiError::SpiError(SpiErrorCodes::NoAttribute)));
    assert_eq!(row.set_by_ordinal(4, None, 1), Err(SpiError::SpiError(SpiErrorCodes::NoAttribute)));
    // by name: the first column of that name
    assert_eq!(row.set_by_name("id", None, 23), Ok(()));
    assert_eq!(row.get(1), Ok(None));
    assert_eq!(row.get(3), Ok(None));
    assert_eq!(row.get_by_name("id"), Ok(None));
    assert_eq!(row.get_by_name("name"), Ok(Some(TypedDatum { datum: 55, oid: 21 })));
    assert_eq!(row.set_by_name("zzz", None, 1), Err(SpiError::SpiError(SpiErrorCodes::NoAttribute)));
    assert_eq!(row.get_datum_by_name("zzz").err(), Some(SpiError::SpiError(SpiErrorCodes::NoAttribute)));
    let e = row.get_datum_by_name("name").unwrap();
    assert_eq!((e.datum(), e.oid()), (Some(55), 21));
    assert_eq!(e.value(), Some(TypedDatum { datum: 55, oid: 21 }));
}

#[test]
fn client_and_cursors() {
    assert!(SpiClient::connect(1).is_ok());
    assert_eq!(SpiClient::connect(-1).err(), Some(SpiError::SpiError(SpiErrorCodes::Connect)));
    let c = SpiClient::connect(1).unwrap();
    let cur = c.find_cursor("portal_1", Some(77)).unwrap();
    assert_eq!(cur.portal(), Some(77));
    assert_eq!(cur.detach_into_name(), "portal_1");
    assert_eq!(c.find_cursor("gone", None).err(), Some(SpiError::CursorNotFound("gone".to_string())));
}

#[test]
fn preparing_plans() {
    let c = SpiClient::connect(1).unwrap();
    let p = c.prepare(Some(9), 0).unwrap();
    assert_eq!((p.plan(), p.mutating()), (9, false));
    let p = c.prepare_mut(Some(9), 0).unwrap();
    assert!(p.mutating());
    assert_eq!(c.prepare(None, -6).err(), Some(SpiError::SpiError(SpiErrorCodes::Argument)));
    assert_eq!(c.prepare(None, 5).err(), Some(SpiError::NoTupleTable));
    assert_eq!(c.prepare_mut(None, -13).err(), Some(SpiError::SpiError(SpiErrorCodes::RelNotFound)));
    let kept = p.keep();
    assert_eq!(kept.get().plan(), 9);
    assert!(kept.get().mutating());
}

#[test]
fn arguments_for_spi() {
    let args = [
        DatumWithOid { datum: Some(5), oid: 23 },
        DatumWithOid { datum: None, oid: 25 },
    ];
    assert_eq!(args_to_native(&args), (vec![23, 25], vec![5, 0], vec![false, true]));
    let stmt = PreparedStatement::new(3, false);
    assert_eq!(stmt.args_to_datums(&args, 2), Ok((vec![5, 0], vec![false, true])));
    assert_eq!(
        stmt.args_to_datums(&args, 1),
        Err(SpiError::PreparedStatementArgumentMismatch { expected: 1, got: 2 })
    );
    assert!(stmt.read_only(true));
    assert!(!stmt.read_only(false));
    assert!(!PreparedStatement::new(3, true).read_only(true));
    assert!(matches!(execute_request(&[], Some(10), true), ExecuteRequest::Direct { read_only: true, tcount: 10 }));
    match execute_request(&args, None, false) {
        ExecuteRequest::Prepared { argtypes, values, nulls, read_only, tcount } => {
            assert_eq!((argtypes, values, nulls, read_only, tcount), (vec![23, 25], vec![5, 0], vec![false, true], false, 0));
        }
        _ => panic!("expected a prepared request"),
    }
    assert_eq!(pass_as_is("q"), "q");
}

#[test]
fn null_entry_keeps_its_type() {
    let mut row = select().first().get_heap_tuple().unwrap().unwrap();
    assert_eq!(row.set_by_ordinal(1, None, 25), Ok(()));
    assert_eq!(row.index(1).datum(), None);
    assert_eq!(row.index(1).oid(), 25);
    assert_eq!(row.get(1), Ok(None));
}
