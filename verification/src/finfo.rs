//! The names `#[pg_extern]` gives what it emits around a function: the
//! wrapper the server calls, the registry entry that lists the wrapper, and
//! the inert item that stands where a `pg_finfo` record would.

use vstd::prelude::*;

verus! {

/// `name` followed by `suffix`.
fn suffixed(name: &str, suffix: &str) -> (r: String)
    ensures
        r@ == name@ + suffix@,
{
    let mut r = name.to_owned();
    r.append(suffix);
    r
}

/// `prefix` followed by `name`.
fn prefixed(prefix: &str, name: &str) -> (r: String)
    ensures
        r@ == prefix@ + name@,
{
    let mut r = prefix.to_owned();
    r.append(name);
    r
}

/// The symbol of the wrapper of function `name`: `{name}_wrapper`, the name
/// the registry lists it under and `CREATE FUNCTION ... AS` refers to.
pub fn wrapper_symbol(name: &str) -> (r: String)
    ensures
        r@ == name@ + "_wrapper"@,
{
    suffixed(name, "_wrapper")
}

/// The name of the registry entry of function `name`: `__PGRX_FN_{name}`.
pub fn entry_symbol(name: &str) -> (r: String)
    ensures
        r@ == "__PGRX_FN_"@ + name@,
{
    prefixed("__PGRX_FN_", name)
}

/// The name of the inert item emitted in place of a `pg_finfo` record:
/// `__pgrx_no_finfo_{name}`.
pub fn no_finfo_symbol(name: &str) -> (r: String)
    ensures
        r@ == "__pgrx_no_finfo_"@ + name@,
{
    prefixed("__pgrx_no_finfo_", name)
}

/// Distinct functions get distinct wrapper symbols and distinct entries.
pub proof fn lemma_symbols_distinct(a: Seq<char>, b: Seq<char>)
    requires
        a != b,
    ensures
        a + "_wrapper"@ != b + "_wrapper"@,
        "__PGRX_FN_"@ + a != "__PGRX_FN_"@ + b,
{
    if a + "_wrapper"@ == b + "_wrapper"@ {
        let w = "_wrapper"@;
        assert((a + w).len() == (b + w).len());
        assert(a.len() == b.len());
        assert forall|i: int| 0 <= i < a.len() implies a[i] == b[i] by {
            assert((a + w)[i] == (b + w)[i]);
        }
        assert(a =~= b);
    }
    if "__PGRX_FN_"@ + a == "__PGRX_FN_"@ + b {
        let p = "__PGRX_FN_"@;
        assert((p + a).len() == (p + b).len());
        assert forall|i: int| 0 <= i < a.len() implies a[i] == b[i] by {
            assert((p + a)[p.len() + i] == (p + b)[p.len() + i]);
        }
        assert(a =~= b);
    }
}

} // verus!
