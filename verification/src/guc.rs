//! Bookkeeping for custom GUCs.
//!
//! C code writes a variable's value through the address an extension passed
//! when defining it; here the backend keeps the values in its per-session
//! store. Defining a variable records `address -> (name, kind)`; reading a
//! variable by its address asks the store for the value of that name, and
//! only when the variable was defined with the kind being read.

use std::collections::HashMap;

use vstd::prelude::*;

verus! {

broadcast use vstd::std_specs::hash::group_hash_axioms;

/// The type of a custom variable.
#[derive(Clone, Copy, Debug, PartialEq, Eq, Structural)]
pub enum GucKind {
    Bool,
    Int,
    Real,
    String,
    Enum,
}

/// The contexts in which a variable can be set, as the backend names them.
#[derive(Clone, Copy, Debug, PartialEq, Eq, Structural)]
#[allow(non_camel_case_types)]
pub enum GucContextLevel {
    PGC_INTERNAL,
    PGC_POSTMASTER,
    PGC_SIGHUP,
    PGC_SU_BACKEND,
    PGC_BACKEND,
    PGC_SUSET,
    PGC_USERSET,
}

/// Why a custom variable cannot be defined.
#[derive(Clone, Copy, Debug, PartialEq, Eq, Structural)]
pub enum GucError {
    /// Check, assign and show hooks are not supported.
    HooksNotSupported,
    /// Enum variables are not supported.
    EnumNotSupported,
}

/// The context of C's `GucContext` value `c`: the known values map to their
/// namesakes, anything else to `PGC_USERSET`.
pub fn context(c: u32) -> (r: GucContextLevel)
    ensures
        r == (if c == 0 {
            GucContextLevel::PGC_INTERNAL
        } else if c == 1 {
            GucContextLevel::PGC_POSTMASTER
        } else if c == 2 {
            GucContextLevel::PGC_SIGHUP
        } else if c == 3 {
            GucContextLevel::PGC_SU_BACKEND
        } else if c == 4 {
            GucContextLevel::PGC_BACKEND
        } else if c == 5 {
            GucContextLevel::PGC_SUSET
        } else {
            GucContextLevel::PGC_USERSET
        }),
{
    match c {
        0 => GucContextLevel::PGC_INTERNAL,
        1 => GucContextLevel::PGC_POSTMASTER,
        2 => GucContextLevel::PGC_SIGHUP,
        3 => GucContextLevel::PGC_SU_BACKEND,
        4 => GucContextLevel::PGC_BACKEND,
        5 => GucContextLevel::PGC_SUSET,
        _ => GucContextLevel::PGC_USERSET,
    }
}

/// Custom variables are defined without hooks; any hook is refused.
pub fn no_hooks(check: bool, assign: bool, show: bool) -> (r: Result<(), GucError>)
    ensures
        r == if check || assign || show {
            Err::<(), GucError>(GucError::HooksNotSupported)
        } else {
            Ok::<(), GucError>(())
        },
{
    if check || assign || show {
        Err(GucError::HooksNotSupported)
    } else {
        Ok(())
    }
}

/// The variables defined so far, by the address of their C variable.
pub struct GucSettings {
    settings: HashMap<usize, (&'static str, GucKind)>,
}

impl View for GucSettings {
    type V = Map<usize, (&'static str, GucKind)>;

    closed spec fn view(&self) -> Map<usize, (&'static str, GucKind)> {
        self.settings@
    }
}

impl GucSettings {
    /// No variable is recorded as an enum: enum variables are refused
    /// before they are defined.
    pub open spec fn wf(&self) -> bool {
        forall|a: usize| #[trigger] self@.contains_key(a) ==> self@[a].1 != GucKind::Enum
    }

    pub fn new() -> (s: GucSettings)
        ensures
            s.wf(),
            s@ == Map::<usize, (&'static str, GucKind)>::empty(),
    {
        GucSettings { settings: HashMap::new() }
    }
}

/// Record that the variable at `addr` is `name`, of kind `kind`. Enum
/// variables are never defined, so they are never recorded.
pub fn remember(s: &mut GucSettings, addr: usize, name: &'static str, kind: GucKind)
    requires
        old(s).wf(),
        kind != GucKind::Enum,
    ensures
        final(s).wf(),
        final(s)@ == old(s)@.insert(addr, (name, kind)),
{
    s.settings.insert(addr, (name, kind));
}

/// The name and kind of the variable at `addr`, if one was defined there.
pub fn lookup(s: &GucSettings, addr: usize) -> (r: Option<(&'static str, GucKind)>)
    ensures
        r == (if s@.contains_key(addr) {
            Some(s@[addr])
        } else {
            None::<(&'static str, GucKind)>
        }),
{
    match s.settings.get(&addr) {
        Some(v) => Some(*v),
        None => None,
    }
}

/// The name to read for the variable at `key` when read as `kind`: none if
/// no variable is defined there or it has another kind.
pub open spec fn read_target(s: Map<usize, (&'static str, GucKind)>, key: usize, kind: GucKind) -> Option<
    &'static str,
> {
    if s.contains_key(key) && s[key].1 == kind {
        Some(s[key].0)
    } else {
        None
    }
}

fn target(s: &GucSettings, key: usize, kind: GucKind) -> (r: Option<&'static str>)
    ensures
        r == read_target(s@, key, kind),
{
    match lookup(s, key) {
        Some((name, k)) => if k == kind {
            Some(name)
        } else {
            None
        },
        None => None,
    }
}

/// The current value of the boolean variable at `key`, as `read` finds it
/// in the store under the variable's name; `None` when no boolean variable
/// is defined there.
pub fn guc_read_bool<F: Fn(&'static str) -> Option<bool>>(s: &GucSettings, key: usize, read: F) -> (r:
    Option<bool>)
    requires
        forall|n: &'static str| call_requires(read, (n,)),
    ensures
        match read_target(s@, key, GucKind::Bool) {
            Some(name) => call_ensures(read, (name,), r),
            None => r is None,
        },
{
    match target(s, key, GucKind::Bool) {
        Some(name) => read(name),
        None => None,
    }
}

/// As [`guc_read_bool`], for an integer variable.
pub fn guc_read_int<F: Fn(&'static str) -> Option<i32>>(s: &GucSettings, key: usize, read: F) -> (r:
    Option<i32>)
    requires
        forall|n: &'static str| call_requires(read, (n,)),
    ensures
        match read_target(s@, key, GucKind::Int) {
            Some(name) => call_ensures(read, (name,), r),
            None => r is None,
        },
{
    match target(s, key, GucKind::Int) {
        Some(name) => read(name),
        None => None,
    }
}

/// As [`guc_read_bool`], for an enum variable. No enum variable is ever
/// defined, so this finds none.
pub fn guc_read_enum<F: Fn(&'static str) -> Option<i32>>(s: &GucSettings, key: usize, read: F) -> (r:
    Option<i32>)
    requires
        s.wf(),
        forall|n: &'static str| call_requires(read, (n,)),
    ensures
        r is None,
{
    proof {
        lemma_no_enum_settings(*s, key);
    }
    match target(s, key, GucKind::Enum) {
        Some(name) => read(name),
        None => None,
    }
}

/// The current value of the string variable at `key` as a NUL-terminated
/// byte string (`Some(None)` for SQL NULL), as `read` finds it in the store;
/// `None` when no string variable is defined there or the store has none.
pub fn guc_read_string<F: Fn(&'static str) -> Option<Option<String>>>(
    s: &GucSettings,
    key: usize,
    read: F,
) -> (r: Option<Option<Vec<u8>>>)
    requires
        forall|n: &'static str| call_requires(read, (n,)),
    ensures
        match read_target(s@, key, GucKind::String) {
            Some(name) => exists|v: Option<Option<String>>|
                call_ensures(read, (name,), v) && match v {
                    None => r is None,
                    Some(None) => r == Some(None::<Vec<u8>>),
                    Some(Some(text)) => r matches Some(Some(bytes)) && bytes@ == vstd::utf8::encode_utf8(text@).push(0u8),
                },
            None => r is None,
        },
{
    let name = match target(s, key, GucKind::String) {
        Some(name) => name,
        None => return None,
    };
    let v = read(name);
    match v {
        None => None,
        Some(None) => Some(None),
        Some(Some(text)) => {
            let b = text.as_str().as_bytes();
            let mut out: Vec<u8> = Vec::new();
            let mut i: usize = 0;
            while i < b.len()
                invariant
                    i <= b@.len(),
                    out@ == b@.subrange(0, i as int),
                decreases b@.len() - i,
            {
                out.push(b[i]);
                i = i + 1;
                assert(out@ =~= b@.subrange(0, i as int));
            }
            assert(b@.subrange(0, b@.len() as int) =~= b@);
            out.push(0u8);
            Some(Some(out))
        },
    }
}

/// A variable reads back the name and kind it was last defined with; other
/// addresses are unaffected by the definition.
pub proof fn lemma_remember_then_lookup(
    s: Map<usize, (&'static str, GucKind)>,
    addr: usize,
    name: &'static str,
    kind: GucKind,
    other: usize,
)
    requires
        other != addr,
    ensures
        read_target(s.insert(addr, (name, kind)), addr, kind) == Some(name),
        read_target(s.insert(addr, (name, kind)), other, kind) == read_target(s, other, kind),
        forall|k: GucKind| k != kind ==> read_target(s.insert(addr, (name, kind)), addr, k) is None,
{
}

/// No address reads as an enum variable, whatever was defined.
pub proof fn lemma_no_enum_settings(s: GucSettings, key: usize)
    requires
        s.wf(),
    ensures
        read_target(s@, key, GucKind::Enum) is None,
{
    if s@.contains_key(key) {
        assert(s@[key].1 != GucKind::Enum);
    }
}

} // verus!
