//! Prepared statements and how a query's arguments are handed to SPI.

use vstd::prelude::*;

use super::{DatumWithOid, SpiError, SpiResult};

verus! {

/// A plan prepared by `SPI_prepare`.
#[derive(Debug)]
pub struct PreparedStatement {
    plan: usize,
    mutating: bool,
}

/// A prepared statement kept beyond the connection (`SPI_keepplan`); the
/// caller frees its plan when it is dropped.
#[derive(Debug)]
pub struct OwnedPreparedStatement(PreparedStatement);

/// The type OIDs, values and null flags SPI takes for `args`: a NULL
/// argument passes the value 0 with its null flag set.
pub open spec fn native_args(args: Seq<DatumWithOid>, argtypes: Seq<u32>, values: Seq<usize>, nulls: Seq<bool>) -> bool {
    native_args_prefix(args, args.len() as int, argtypes, values, nulls)
}

/// `values` and `nulls` are what SPI takes for the arguments `args`.
pub open spec fn native_values(args: Seq<DatumWithOid>, values: Seq<usize>, nulls: Seq<bool>) -> bool {
    &&& values.len() == args.len()
    &&& nulls.len() == args.len()
    &&& forall|i: int|
        #![trigger args[i]]
        0 <= i < args.len() ==> match args[i].datum {
            Some(d) => values[i] == d && !nulls[i],
            None => values[i] == 0 && nulls[i],
        }
}

/// [`native_args`] for the first `n` arguments.
pub open spec fn native_args_prefix(
    args: Seq<DatumWithOid>,
    n: int,
    argtypes: Seq<u32>,
    values: Seq<usize>,
    nulls: Seq<bool>,
) -> bool {
    &&& argtypes.len() == n
    &&& values.len() == n
    &&& nulls.len() == n
    &&& forall|i: int|
        #![trigger args[i]]
        0 <= i < n ==> {
            &&& argtypes[i] == args[i].oid
            &&& match args[i].datum {
                Some(d) => values[i] == d && !nulls[i],
                None => values[i] == 0 && nulls[i],
            }
        }
}

/// The type OIDs, values and null flags SPI takes for `args`.
pub fn args_to_native(args: &[DatumWithOid]) -> (r: (Vec<u32>, Vec<usize>, Vec<bool>))
    ensures
        native_args(args@, r.0@, r.1@, r.2@),
{
    let mut argtypes: Vec<u32> = Vec::new();
    let mut values: Vec<usize> = Vec::new();
    let mut nulls: Vec<bool> = Vec::new();
    let mut i: usize = 0;
    while i < args.len()
        invariant
            i <= args@.len(),
            native_args_prefix(args@, i as int, argtypes@, values@, nulls@),
        decreases args@.len() - i,
    {
        let arg = args[i];
        argtypes.push(arg.oid);
        match arg.datum {
            Some(d) => {
                values.push(d);
                nulls.push(false);
            },
            None => {
                values.push(0);
                nulls.push(true);
            },
        }
        i = i + 1;
    }
    (argtypes, values, nulls)
}

/// `x`, unchanged.
pub fn pass_as_is<T>(s: T) -> (r: T)
    ensures
        r == s,
{
    s
}

/// The row limit SPI takes: the limit, or 0 for none.
pub open spec fn tcount_of(limit: Option<i64>) -> i64 {
    match limit {
        Some(n) => n,
        None => 0,
    }
}

/// How a query text with arguments is executed.
#[derive(Debug)]
pub enum ExecuteRequest {
    /// `SPI_execute` of the text alone.
    Direct { read_only: bool, tcount: i64 },
    /// `SPI_prepare` with the argument types, then `SPI_execute_plan` with
    /// the values and null flags (which honours the row limit), then
    /// `SPI_freeplan`.
    Prepared { argtypes: Vec<u32>, values: Vec<usize>, nulls: Vec<bool>, read_only: bool, tcount: i64 },
}

/// How to execute a query text with `args`, read-only when the transaction
/// is still immutable, returning at most `limit` rows.
pub fn execute_request(args: &[DatumWithOid], limit: Option<i64>, read_only: bool) -> (r: ExecuteRequest)
    ensures
        args@.len() == 0 ==> r == (ExecuteRequest::Direct { read_only, tcount: tcount_of(limit) }),
        args@.len() > 0 ==> (match r {
            ExecuteRequest::Prepared { argtypes, values, nulls, read_only: ro, tcount } => {
                &&& native_args(args@, argtypes@, values@, nulls@)
                &&& ro == read_only
                &&& tcount == tcount_of(limit)
            },
            ExecuteRequest::Direct { .. } => false,
        }),
{
    let tcount = match limit {
        Some(n) => n,
        None => 0,
    };
    if args.len() == 0 {
        ExecuteRequest::Direct { read_only, tcount }
    } else {
        let (argtypes, values, nulls) = args_to_native(args);
        ExecuteRequest::Prepared { argtypes, values, nulls, read_only, tcount }
    }
}

impl PreparedStatement {
    pub closed spec fn spec_plan(&self) -> usize {
        self.plan
    }

    pub closed spec fn spec_mutating(&self) -> bool {
        self.mutating
    }

    pub fn new(plan: usize, mutating: bool) -> (s: PreparedStatement)
        ensures
            s.spec_plan() == plan,
            s.spec_mutating() == mutating,
    {
        PreparedStatement { plan, mutating }
    }

    pub fn plan(&self) -> (p: usize)
        ensures
            p == self.spec_plan(),
    {
        self.plan
    }

    pub fn mutating(&self) -> (m: bool)
        ensures
            m == self.spec_mutating(),
    {
        self.mutating
    }

    /// Keep the statement beyond the connection (the caller has made
    /// `SPI_keepplan` of its plan).
    pub fn keep(self) -> (o: OwnedPreparedStatement)
        ensures
            o.spec_statement().spec_plan() == self.spec_plan(),
            o.spec_statement().spec_mutating() == self.spec_mutating(),
    {
        OwnedPreparedStatement(PreparedStatement { plan: self.plan, mutating: self.mutating })
    }

    /// The values and null flags for `args`, when the plan takes `expected`
    /// arguments (`SPI_getargcount`); a different number of arguments is
    /// refused.
    pub fn args_to_datums(&self, args: &[DatumWithOid], expected: usize) -> (r: SpiResult<(Vec<usize>, Vec<bool>)>)
        ensures
            expected != args@.len() ==> r == Err::<(Vec<usize>, Vec<bool>), SpiError>(
                SpiError::PreparedStatementArgumentMismatch { expected, got: args@.len() as usize },
            ),
            expected == args@.len() ==> (r matches Ok((values, nulls)) && native_values(
                args@,
                values@,
                nulls@,
            )),
    {
        let actual = args.len();
        if expected == actual {
            let (argtypes, values, nulls) = args_to_native(args);
            assert(native_args(args@, argtypes@, values@, nulls@));
            assert(native_values(args@, values@, nulls@));
            Ok((values, nulls))
        } else {
            Err(SpiError::PreparedStatementArgumentMismatch { expected, got: actual })
        }
    }

    /// Whether the plan runs read-only: unless it may modify data, it does
    /// while the transaction is still immutable.
    pub fn read_only(&self, xact_immutable: bool) -> (r: bool)
        ensures
            r == (!self.spec_mutating() && xact_immutable),
    {
        !self.mutating && xact_immutable
    }
}

impl OwnedPreparedStatement {
    pub closed spec fn spec_statement(&self) -> PreparedStatement {
        self.0
    }

    /// The statement kept.
    pub fn get(&self) -> (s: &PreparedStatement)
        ensures
            *s == self.spec_statement(),
    {
        &self.0
    }
}

} // verus!
