//! Set-returning functions: the rows a function produces are materialized
//! into the executor's tuple store, one `(values, nulls)` pair per row.

use vstd::prelude::*;

verus! {

/// A row of the wrong width.
#[derive(Clone, Copy, Debug, PartialEq, Eq, Structural)]
pub enum SrfError {
    ColumnCount { produced: usize, expected: usize },
}

/// The values and null flags for one produced row (`None` is SQL NULL and
/// passes the value 0), when the row has one column per output attribute.
pub fn row_to_values(row: &[Option<usize>], natts: usize) -> (r: Result<(Vec<usize>, Vec<bool>), SrfError>)
    ensures
        row@.len() != natts ==> r == Err::<(Vec<usize>, Vec<bool>), SrfError>(
            SrfError::ColumnCount { produced: row@.len() as usize, expected: natts },
        ),
        row@.len() == natts ==> (r matches Ok((values, nulls)) && {
            &&& values@.len() == natts
            &&& nulls@.len() == natts
            &&& forall|i: int|
                #![trigger row@[i]]
                0 <= i < natts ==> match row@[i] {
                    Some(d) => values@[i] == d && !nulls@[i],
                    None => values@[i] == 0 && nulls@[i],
                }
        }),
{
    let mut values: Vec<usize> = Vec::new();
    let mut nulls: Vec<bool> = Vec::new();
    let mut i: usize = 0;
    while i < row.len()
        invariant
            i <= row@.len(),
            values@.len() == i,
            nulls@.len() == i,
            forall|k: int|
                #![trigger row@[k]]
                0 <= k < i ==> match row@[k] {
                    Some(d) => values@[k] == d && !nulls@[k],
                    None => values@[k] == 0 && nulls@[k],
                },
        decreases row@.len() - i,
    {
        match row[i] {
            Some(d) => {
                values.push(d);
                nulls.push(false);
            },
            None => {
                values.push(0);
                nulls.push(true);
            },
        }
        i = i + 1;
    }
    if values.len() != natts {
        return Err(SrfError::ColumnCount { produced: values.len(), expected: natts });
    }
    Ok((values, nulls))
}

} // verus!
