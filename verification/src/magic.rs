//! The module magic block that describes the build to the server: the ABI
//! values, the 32-byte ABI name, and the module's name and version.

use vstd::prelude::*;

verus! {

/// The values the server checks before loading a module.
#[derive(Debug, PartialEq, Eq)]
pub struct PgAbiValues {
    pub version: i32,
    pub funcmaxargs: i32,
    pub indexmaxkeys: i32,
    pub namedatalen: i32,
    pub float8byval: i32,
    /// The ABI name, NUL-padded to 32 bytes.
    pub abi_extra: Vec<i8>,
}

/// The magic block.
#[derive(Debug, PartialEq, Eq)]
pub struct PgMagic {
    pub len: i32,
    pub abi_fields: PgAbiValues,
    pub name: Option<&'static str>,
    pub version: Option<&'static str>,
}

/// The build constants the magic block is made of.
#[derive(Clone, Copy, Debug, PartialEq, Eq, Structural)]
pub struct PgBuildConstants {
    /// The size of the C magic struct.
    pub struct_len: i32,
    /// `PG_VERSION_NUM`, e.g. 180006.
    pub version_num: i32,
    pub func_max_args: i32,
    pub index_max_keys: i32,
    pub namedatalen: i32,
    /// Pointers are 64 bits wide.
    pub pointer_width_64: bool,
}

/// `abi` copied into 32 bytes and NUL-padded.
pub open spec fn padded_abi(abi: Seq<u8>) -> Seq<i8> {
    Seq::new(32, |i: int| if i < abi.len() { abi[i] as i8 } else { 0i8 })
}

/// The ABI name (with its NUL) in the 32-byte field.
pub fn abi_extra(abi: &[u8]) -> (out: Vec<i8>)
    requires
        abi@.len() <= 32,
    ensures
        out@ == padded_abi(abi@),
{
    let mut out: Vec<i8> = Vec::new();
    let mut i: usize = 0;
    while i < 32
        invariant
            i <= 32,
            abi@.len() <= 32,
            out@.len() == i,
            forall|k: int| 0 <= k < i ==> out@[k] == padded_abi(abi@)[k],
        decreases 32 - i,
    {
        if i < abi.len() {
            out.push(abi[i] as i8);
        } else {
            out.push(0i8);
        }
        i = i + 1;
    }
    assert(out@ =~= padded_abi(abi@));
    out
}

/// The magic block of a build: the major version (the version number over
/// 100), the limits, whether `float8` is passed by value (64-bit pointers),
/// the ABI name, and no module name or version yet.
pub fn default_magic(c: PgBuildConstants, abi: &[u8]) -> (m: PgMagic)
    requires
        abi@.len() <= 32,
        c.version_num >= 0,
    ensures
        m.len == c.struct_len,
        m.abi_fields.version == c.version_num / 100,
        m.abi_fields.funcmaxargs == c.func_max_args,
        m.abi_fields.indexmaxkeys == c.index_max_keys,
        m.abi_fields.namedatalen == c.namedatalen,
        m.abi_fields.float8byval == (if c.pointer_width_64 { 1i32 } else { 0i32 }),
        m.abi_fields.abi_extra@ == padded_abi(abi@),
        m.name is None,
        m.version is None,
{
    let version = c.version_num / 100;
    PgMagic {
        len: c.struct_len,
        abi_fields: PgAbiValues {
            version,
            funcmaxargs: c.func_max_args,
            indexmaxkeys: c.index_max_keys,
            namedatalen: c.namedatalen,
            float8byval: if c.pointer_width_64 { 1 } else { 0 },
            abi_extra: abi_extra(abi),
        },
        name: None,
        version: None,
    }
}

/// The magic block with the module's name set.
pub fn with_name(magic: PgMagic, name: &'static str) -> (m: PgMagic)
    ensures
        m.name == Some(name),
        m.len == magic.len,
        m.abi_fields == magic.abi_fields,
        m.version == magic.version,
{
    let mut m = magic;
    m.name = Some(name);
    m
}

/// The magic block with the module's version set.
pub fn with_version(magic: PgMagic, version: &'static str) -> (m: PgMagic)
    ensures
        m.version == Some(version),
        m.len == magic.len,
        m.abi_fields == magic.abi_fields,
        m.name == magic.name,
{
    let mut m = magic;
    m.version = Some(version);
    m
}

} // verus!
