//! How far the database encoding can be treated as UTF-8.

use vstd::prelude::*;

verus! {

/// `PG_SQL_ASCII`, `PG_UTF8` and the client-only encodings that are not
/// ASCII-compatible.
pub const PG_SQL_ASCII: i32 = 0;
pub const PG_UTF8: i32 = 6;
pub const PG_SJIS: i32 = 35;
pub const PG_BIG5: i32 = 36;
pub const PG_JOHAB: i32 = 40;
pub const PG_SHIFT_JIS_2004: i32 = 41;

#[derive(Clone, Copy, Debug, PartialEq, Eq, Structural)]
pub enum Utf8Compat {
    /// It is UTF-8.
    Yes,
    /// What is assumed of `SQL_ASCII` and unfamiliar encodings.
    Maybe,
    /// An extended-ASCII encoding: fine as long as only ASCII is touched.
    Ascii,
}

/// What the database encoding `encoding` allows. The non-ASCII-compatible
/// client-only encodings are never server encodings and are not accepted.
pub fn utf8_compat(encoding: i32) -> (c: Utf8Compat)
    requires
        encoding != 35 && encoding != 36 && encoding != 40 && encoding != 41,
    ensures
        c == if encoding == 6 {
            Utf8Compat::Yes
        } else if 1 <= encoding <= 41 {
            Utf8Compat::Ascii
        } else {
            Utf8Compat::Maybe
        },
{
    if encoding == PG_UTF8 {
        Utf8Compat::Yes
    } else if encoding == PG_SQL_ASCII {
        Utf8Compat::Maybe
    } else if 1 <= encoding && encoding <= 41 {
        Utf8Compat::Ascii
    } else {
        Utf8Compat::Maybe
    }
}

} // verus!
