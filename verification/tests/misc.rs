use pgrx::encoding::{utf8_compat, Utf8Compat};
use pgrx::fmgr::{call_frame_bytes, call_frame_storage, FrameStorage};
use pgrx::magic::{default_magic, with_name, with_version, PgBuildConstants};
use pgrx::srf::{row_to_values, SrfError};
use pgrx::tuples::{c_attr_offset, c_tupdesc_size};

#[test]
fn call_frames() {
    assert_eq!(call_frame_bytes(0), 48);
    assert_eq!(call_frame_bytes(8), 176);
    assert_eq!(call_frame_storage(8), FrameStorage::Inline);
    assert_eq!(call_frame_storage(9), FrameStorage::Heap(25));
    assert_eq!(call_frame_storage(100), FrameStorage::Heap(207));
}

#[test]
fn srf_rows() {
    assert_eq!(row_to_values(&[Some(3), None], 2), Ok((vec![3, 0], vec![false, true])));
    assert_eq!(row_to_values(&[Some(3)], 2), Err(SrfError::ColumnCount { produced: 1, expected: 2 }));
    assert_eq!(row_to_values(&[], 0), Ok((vec![], vec![])));
}

#[test]
fn tupdesc_images() {
    assert_eq!(c_tupdesc_size(0), 24);
    assert_eq!(c_tupdesc_size(2), 24 + 32 + 200);
    assert_eq!(c_attr_offset(2, 0), 56);
    assert_eq!(c_attr_offset(2, 1), 156);
}

#[test]
fn encodings() {
    assert_eq!(utf8_compat(6), Utf8Compat::Yes);
    assert_eq!(utf8_compat(0), Utf8Compat::Maybe);
    assert_eq!(utf8_compat(8), Utf8Compat::Ascii);
    assert_eq!(utf8_compat(34), Utf8Compat::Ascii);
    assert_eq!(utf8_compat(100), Utf8Compat::Maybe);
}

#[test]
fn magic_block() {
    let c = PgBuildConstants {
        struct_len: 96,
        version_num: 180006,
        func_max_args: 100,
        index_max_keys: 32,
        namedatalen: 64,
        pointer_width_64: true,
    };
    let m = default_magic(c, b"PostgreSQL\0");
    assert_eq!(m.len, 96);
    assert_eq!(m.abi_fields.version, 1800);
    assert_eq!(m.abi_fields.float8byval, 1);
    assert_eq!(m.abi_fields.abi_extra.len(), 32);
    assert_eq!(&m.abi_fields.abi_extra[..11], &[80, 111, 115, 116, 103, 114, 101, 83, 81, 76, 0]);
    assert!(m.abi_fields.abi_extra[11..].iter().all(|&b| b == 0));
    assert_eq!(m.name, None);
    let m = with_version(with_name(m, "ext"), "1.0");
    assert_eq!((m.name, m.version), (Some("ext"), Some("1.0")));
}

#[test]
fn relations_have_no_oid() {
    // PgRelation cannot be built outside the library; its OID is documented
    // as the invalid OID.
    let _ = pgrx::htup::PgRelation::oid;
}
