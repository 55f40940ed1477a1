//! The registry the extension macros fill and what registering an extension
//! derives from it: finding a wrapper by crate and symbol, collecting a
//! crate's schema entities and `_PG_init` functions, the library name a
//! control file's `module_pathname` resolves to, and the install scripts.

use vstd::prelude::*;

use crate::control::{control_default_version, control_module_pathname, spec_control_value, starts_with_at, starts_with_exec};

verus! {

/// One `#[pg_extern]` wrapper: its crate, its symbol and the function.
pub struct FnEntry<F> {
    pub krate: &'static str,
    pub symbol: &'static str,
    pub func: F,
}

/// One serialized SQL entity of a crate.
pub struct EntityEntry {
    pub krate: &'static str,
    pub bytes: &'static [u8],
}

/// A crate's `_PG_init` function.
pub struct PgInitEntry<F> {
    pub krate: &'static str,
    pub func: F,
}

/// Whether two texts are equal.
pub fn text_eq(a: &str, b: &str) -> (r: bool)
    ensures
        r == (a@ == b@),
{
    let n = a.unicode_len();
    let m = b.unicode_len();
    if n != m {
        return false;
    }
    let r = starts_with_exec(a, 0, n, b, m);
    assert(a@.subrange(0, n as int) =~= a@);
    r
}

/// The first entry of crate `krate` named `symbol`.
pub open spec fn spec_lookup<F>(entries: Seq<FnEntry<F>>, krate: Seq<char>, symbol: Seq<char>) -> Option<F>
    decreases entries.len(),
{
    if entries.len() == 0 {
        None
    } else if entries[0].krate@ == krate && entries[0].symbol@ == symbol {
        Some(entries[0].func)
    } else {
        spec_lookup(entries.drop_first(), krate, symbol)
    }
}

/// The wrapper `symbol` of crate `krate`: the function of the first entry
/// with that crate and symbol.
pub fn lookup_in<F: Copy>(entries: &[FnEntry<F>], krate: &str, symbol: &str) -> (r: Option<F>)
    ensures
        r == spec_lookup(entries@, krate@, symbol@),
{
    let mut i: usize = 0;
    assert(entries@.subrange(0, entries@.len() as int) =~= entries@);
    while i < entries.len()
        invariant
            i <= entries@.len(),
            spec_lookup(entries@.subrange(i as int, entries@.len() as int), krate@, symbol@)
                == spec_lookup(entries@, krate@, symbol@),
        decreases entries@.len() - i,
    {
        let ghost rest = entries@.subrange(i as int, entries@.len() as int);
        assert(rest.drop_first() =~= entries@.subrange(i + 1, entries@.len() as int));
        let e = &entries[i];
        if text_eq(e.krate, krate) && text_eq(e.symbol, symbol) {
            return Some(e.func);
        }
        i = i + 1;
    }
    assert(entries@.subrange(i as int, entries@.len() as int) =~= Seq::<FnEntry<F>>::empty());
    None
}

/// A registered wrapper is what looking up its crate and symbol finds,
/// unless an earlier entry has the same crate and symbol.
pub proof fn lemma_registered_wrapper_found<F>(entries: Seq<FnEntry<F>>, i: int)
    requires
        0 <= i < entries.len(),
        forall|j: int|
            0 <= j < i ==> !(#[trigger] entries[j].krate@ == entries[i].krate@ && entries[j].symbol@
                == entries[i].symbol@),
    ensures
        spec_lookup(entries, entries[i].krate@, entries[i].symbol@) == Some(entries[i].func),
    decreases i,
{
    if i > 0 {
        let rest = entries.drop_first();
        assert(rest[i - 1] == entries[i]);
        assert forall|j: int| 0 <= j < i - 1 implies !(#[trigger] rest[j].krate@ == rest[i - 1].krate@
            && rest[j].symbol@ == rest[i - 1].symbol@) by {
            assert(rest[j] == entries[j + 1]);
        }
        lemma_registered_wrapper_found(rest, i - 1);
    }
}

/// Looking up a crate and symbol that no entry has finds nothing.
pub proof fn lemma_unregistered_not_found<F>(entries: Seq<FnEntry<F>>, krate: Seq<char>, symbol: Seq<char>)
    requires
        forall|j: int|
            0 <= j < entries.len() ==> !(#[trigger] entries[j].krate@ == krate && entries[j].symbol@ == symbol),
    ensures
        spec_lookup(entries, krate, symbol) is None,
    decreases entries.len(),
{
    if entries.len() > 0 {
        let rest = entries.drop_first();
        assert forall|j: int| 0 <= j < rest.len() implies !(#[trigger] rest[j].krate@ == krate
            && rest[j].symbol@ == symbol) by {
            assert(rest[j] == entries[j + 1]);
        }
        lemma_unregistered_not_found(rest, krate, symbol);
    }
}

/// The concatenated bytes of the entities of crate `krate`, in order.
pub open spec fn spec_entity_section(entries: Seq<EntityEntry>, krate: Seq<char>) -> Seq<u8>
    decreases entries.len(),
{
    if entries.len() == 0 {
        Seq::empty()
    } else {
        let last = entries.last();
        spec_entity_section(entries.drop_last(), krate) + if last.krate@ == krate {
            last.bytes@
        } else {
            Seq::empty()
        }
    }
}

/// An entity of another crate adds nothing to a crate's section; an entity
/// of the crate adds its bytes at the end.
pub proof fn lemma_section_of_appended(entries: Seq<EntityEntry>, e: EntityEntry, krate: Seq<char>)
    ensures
        e.krate@ != krate ==> spec_entity_section(entries.push(e), krate) == spec_entity_section(
            entries,
            krate,
        ),
        e.krate@ == krate ==> spec_entity_section(entries.push(e), krate) == spec_entity_section(
            entries,
            krate,
        ) + e.bytes@,
{
    assert(entries.push(e).drop_last() =~= entries);
    assert(spec_entity_section(entries, krate) + Seq::<u8>::empty() =~= spec_entity_section(entries, krate));
}

/// A crate none of whose entities are registered has an empty section.
pub proof fn lemma_section_of_absent_crate(entries: Seq<EntityEntry>, krate: Seq<char>)
    requires
        forall|j: int| 0 <= j < entries.len() ==> (#[trigger] entries[j]).krate@ != krate,
    ensures
        spec_entity_section(entries, krate) == Seq::<u8>::empty(),
    decreases entries.len(),
{
    if entries.len() > 0 {
        let init = entries.drop_last();
        assert forall|j: int| 0 <= j < init.len() implies (#[trigger] init[j]).krate@ != krate by {
            assert(init[j] == entries[j]);
        }
        lemma_section_of_absent_crate(init, krate);
        assert(entries[entries.len() - 1].krate@ != krate);
        assert(Seq::<u8>::empty() + Seq::<u8>::empty() =~= Seq::<u8>::empty());
    }
}

/// The schema section of crate `krate`: its entities' bytes, concatenated in
/// registration order.
pub fn entity_section(entries: &[EntityEntry], krate: &str) -> (out: Vec<u8>)
    ensures
        out@ == spec_entity_section(entries@, krate@),
{
    let mut out: Vec<u8> = Vec::new();
    let mut i: usize = 0;
    while i < entries.len()
        invariant
            i <= entries@.len(),
            out@ == spec_entity_section(entries@.subrange(0, i as int), krate@),
        decreases entries@.len() - i,
    {
        let e = &entries[i];
        let ghost before = out@;
        if text_eq(e.krate, krate) {
            let mut j: usize = 0;
            while j < e.bytes.len()
                invariant
                    j <= e.bytes@.len(),
                    out@ == before + e.bytes@.subrange(0, j as int),
                decreases e.bytes@.len() - j,
            {
                out.push(e.bytes[j]);
                j = j + 1;
                assert(out@ =~= before + e.bytes@.subrange(0, j as int));
            }
            assert(e.bytes@.subrange(0, e.bytes@.len() as int) =~= e.bytes@);
        }
        proof {
            let pre = entries@.subrange(0, i + 1);
            assert(pre.drop_last() =~= entries@.subrange(0, i as int));
            assert(pre.last() == entries@[i as int]);
            if !(e.krate@ == krate@) {
                assert(out@ =~= before + Seq::<u8>::empty());
            }
        }
        i = i + 1;
    }
    assert(entries@.subrange(0, entries@.len() as int) =~= entries@);
    out
}

/// The `_PG_init` functions of crate `krate`, in registration order.
pub open spec fn spec_init_functions<F>(entries: Seq<PgInitEntry<F>>, krate: Seq<char>) -> Seq<F>
    decreases entries.len(),
{
    if entries.len() == 0 {
        Seq::empty()
    } else {
        let last = entries.last();
        let before = spec_init_functions(entries.drop_last(), krate);
        if last.krate@ == krate { before.push(last.func) } else { before }
    }
}

/// The `_PG_init` functions of crate `krate`, in the order they run.
pub fn init_functions<F: Copy>(entries: &[PgInitEntry<F>], krate: &str) -> (out: Vec<F>)
    ensures
        out@ == spec_init_functions(entries@, krate@),
{
    let mut out: Vec<F> = Vec::new();
    let mut i: usize = 0;
    while i < entries.len()
        invariant
            i <= entries@.len(),
            out@ == spec_init_functions(entries@.subrange(0, i as int), krate@),
        decreases entries@.len() - i,
    {
        let e = &entries[i];
        if text_eq(e.krate, krate) {
            out.push(e.func);
        }
        proof {
            let pre = entries@.subrange(0, i + 1);
            assert(pre.drop_last() =~= entries@.subrange(0, i as int));
        }
        i = i + 1;
    }
    assert(entries@.subrange(0, entries@.len() as int) =~= entries@);
    out
}

/// Where the last path component of `s[..j]` starts: after the last `/`.
pub open spec fn basename_start(s: Seq<char>, j: int) -> int
    decreases j,
{
    if j > 0 && s[j - 1] != '/' { basename_start(s, j - 1) } else { j }
}

/// The last `/`-separated component of a path.
pub open spec fn basename(s: Seq<char>) -> Seq<char> {
    s.subrange(basename_start(s, s.len() as int), s.len() as int)
}

/// The library a control file's `module_pathname` names: the last component
/// of that path, or the extension's own name when the control file sets
/// none.
pub open spec fn spec_library_name(control: Seq<char>, name: Seq<char>) -> Seq<char> {
    match spec_control_value(control, "module_pathname"@) {
        Some(p) => basename(p),
        None => name,
    }
}

/// The last `/`-separated component of `path`.
pub fn path_basename(path: &str) -> (r: String)
    ensures
        r@ == basename(path@),
{
    let n = path.unicode_len();
    let mut k = n;
    while k > 0 && path.get_char(k - 1) != '/'
        invariant
            k <= n,
            n == path@.len(),
            basename_start(path@, k as int) == basename_start(path@, n as int),
        decreases k,
    {
        k = k - 1;
    }
    path.substring_char(k, n).to_owned()
}

/// The name the extension's library is registered under (see
/// [`spec_library_name`]).
pub fn library_name(control: &str, name: &str) -> (r: String)
    ensures
        r@ == spec_library_name(control@, name@),
{
    match control_module_pathname(control) {
        Some(p) => path_basename(p.as_str()),
        None => name.to_owned(),
    }
}

/// `s` with every non-overlapping occurrence of `pat`, from the left,
/// replaced by `rep`.
pub open spec fn replaced(s: Seq<char>, pat: Seq<char>, rep: Seq<char>) -> Seq<char>
    decreases s.len(),
{
    if s.len() == 0 {
        Seq::empty()
    } else if pat.len() > 0 && s.len() >= pat.len() && s.subrange(0, pat.len() as int) == pat {
        rep + replaced(s.subrange(pat.len() as int, s.len() as int), pat, rep)
    } else {
        seq![s[0]] + replaced(s.drop_first(), pat, rep)
    }
}

/// `str::replace` for a non-empty pattern (see [`replaced`]).
pub fn replace_all(s: &str, pat: &str, rep: &str) -> (r: String)
    requires
        pat@.len() > 0,
    ensures
        r@ == replaced(s@, pat@, rep@),
{
    let n = s.unicode_len();
    let plen = pat.unicode_len();
    let mut out = String::new();
    let mut i: usize = 0;
    assert(s@.subrange(0, n as int) =~= s@);
    assert(out@ + replaced(s@, pat@, rep@) =~= replaced(s@, pat@, rep@));
    while i < n
        invariant
            i <= n,
            n == s@.len(),
            plen == pat@.len(),
            plen > 0,
            out@ + replaced(s@.subrange(i as int, n as int), pat@, rep@) == replaced(s@, pat@, rep@),
        decreases n - i,
    {
        let ghost rest = s@.subrange(i as int, n as int);
        let ghost before = out@;
        if starts_with_exec(s, i, n, pat, plen) {
            proof {
                assert(rest.subrange(0, plen as int) =~= s@.subrange(i as int, i + plen));
                assert(rest.subrange(plen as int, rest.len() as int) =~= s@.subrange(
                    i + plen,
                    n as int,
                ));
            }
            out.append(rep);
            i = i + plen;
            assert(before + (rep@ + replaced(s@.subrange(i as int, n as int), pat@, rep@))
                =~= out@ + replaced(s@.subrange(i as int, n as int), pat@, rep@));
        } else {
            proof {
                if rest.len() >= plen {
                    assert(rest.subrange(0, plen as int) =~= s@.subrange(i as int, i + plen));
                }
                assert(rest.drop_first() =~= s@.subrange(i + 1, n as int));
            }
            let one = s.substring_char(i, i + 1);
            assert(one@ =~= seq![rest[0]]);
            out.append(one);
            i = i + 1;
            assert(before + (seq![rest[0]] + replaced(s@.subrange(i as int, n as int), pat@, rep@))
                =~= out@ + replaced(s@.subrange(i as int, n as int), pat@, rep@));
        }
    }
    assert(s@.subrange(n as int, n as int) =~= Seq::<char>::empty());
    assert(out@ + Seq::<char>::empty() =~= out@);
    out
}

/// The install scripts of an extension: the script under the crate version,
/// and, when the control file (with `@CARGO_VERSION@` replaced by the crate
/// version) pins a different `default_version`, the same script under that
/// version too.
pub open spec fn spec_install_scripts(control: Seq<char>, version: Seq<char>) -> Seq<Seq<char>> {
    let resolved = replaced(control, "@CARGO_VERSION@"@, version);
    match spec_control_value(resolved, "default_version"@) {
        Some(v) => if v != version { seq![version, v] } else { seq![version] },
        None => seq![version],
    }
}

/// The control file with `@CARGO_VERSION@` replaced by the version, and the
/// `(version, script)` pairs to register the extension's script under.
pub fn extension_install_scripts(control: &str, version: &str, sql: &str) -> (r: (String, Vec<(String, String)>))
    ensures
        r.0@ == replaced(control@, "@CARGO_VERSION@"@, version@),
        r.1@.len() == spec_install_scripts(control@, version@).len(),
        forall|i: int|
            0 <= i < r.1@.len() ==> r.1@[i].0@ == spec_install_scripts(control@, version@)[i]
                && r.1@[i].1@ == sql@,
{
    proof {
        reveal_strlit("@CARGO_VERSION@");
    }
    let resolved = replace_all(control, "@CARGO_VERSION@", version);
    let mut scripts: Vec<(String, String)> = Vec::new();
    scripts.push((version.to_owned(), sql.to_owned()));
    match control_default_version(resolved.as_str()) {
        Some(v) => {
            if !text_eq(v.as_str(), version) {
                scripts.push((v, sql.to_owned()));
            }
        },
        None => {},
    }
    (resolved, scripts)
}

proof fn lemma_basename_start(s: Seq<char>, j: int)
    requires
        0 <= j <= s.len(),
    ensures
        0 <= basename_start(s, j) <= j,
        forall|i: int| basename_start(s, j) <= i < j ==> s[i] != '/',
        basename_start(s, j) > 0 ==> s[basename_start(s, j) - 1] == '/',
    decreases j,
{
    if j > 0 && s[j - 1] != '/' {
        lemma_basename_start(s, j - 1);
    }
}

/// The library name taken from a path holds no `/`, and it is the whole
/// path when the path holds none.
pub proof fn lemma_basename_has_no_slash(s: Seq<char>)
    ensures
        forall|i: int| 0 <= i < basename(s).len() ==> basename(s)[i] != '/',
        (forall|i: int| 0 <= i < s.len() ==> s[i] != '/') ==> basename(s) == s,
{
    lemma_basename_start(s, s.len() as int);
    let b = basename_start(s, s.len() as int);
    assert forall|i: int| 0 <= i < basename(s).len() implies basename(s)[i] != '/' by {
        assert(basename(s)[i] == s[b + i]);
    }
    if forall|i: int| 0 <= i < s.len() ==> s[i] != '/' {
        if b > 0 {
            assert(s[b - 1] == '/');
        }
        assert(basename(s) =~= s);
    }
}

} // verus!
