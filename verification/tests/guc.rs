use pgrx::guc::{
    context, guc_read_bool, guc_read_enum, guc_read_int, guc_read_string, lookup, no_hooks,
    remember, GucContextLevel, GucError, GucKind, GucSettings,
};

#[test]
fn contexts_map_by_value() {
    assert_eq!(context(0), GucContextLevel::PGC_INTERNAL);
    assert_eq!(context(1), GucContextLevel::PGC_POSTMASTER);
    assert_eq!(context(2), GucContextLevel::PGC_SIGHUP);
    assert_eq!(context(3), GucContextLevel::PGC_SU_BACKEND);
    assert_eq!(context(4), GucContextLevel::PGC_BACKEND);
    assert_eq!(context(5), GucContextLevel::PGC_SUSET);
    assert_eq!(context(6), GucContextLevel::PGC_USERSET);
    assert_eq!(context(77), GucContextLevel::PGC_USERSET);
}

#[test]
fn hooks_are_refused() {
    assert_eq!(no_hooks(false, false, false), Ok(()));
    assert_eq!(no_hooks(true, false, false), Err(GucError::HooksNotSupported));
    assert_eq!(no_hooks(false, true, false), Err(GucError::HooksNotSupported));
    assert_eq!(no_hooks(false, false, true), Err(GucError::HooksNotSupported));
}

#[test]
fn remembered_variables_read_back() {
    let mut s = GucSettings::new();
    assert_eq!(lookup(&s, 0x10), None);
    remember(&mut s, 0x10, "ext.flag", GucKind::Bool);
    remember(&mut s, 0x20, "ext.count", GucKind::Int);
    remember(&mut s, 0x30, "ext.mode", GucKind::Real);
    remember(&mut s, 0x40, "ext.name", GucKind::String);
    assert_eq!(lookup(&s, 0x10), Some(("ext.flag", GucKind::Bool)));
    assert_eq!(guc_read_bool(&s, 0x10, |n| Some(n == "ext.flag")), Some(true));
    assert_eq!(guc_read_int(&s, 0x20, |n| if n == "ext.count" { Some(5) } else { None }), Some(5));
    // no enum variable is ever defined, so enum reads find nothing
    for key in [0x10, 0x20, 0x30, 0x40, 0x99] {
        assert_eq!(guc_read_enum(&s, key, |_| Some(2)), None);
    }
    // the wrong kind or an unknown address reads nothing
    assert_eq!(guc_read_int(&s, 0x10, |_| Some(1)), None);
    assert_eq!(guc_read_bool(&s, 0x99, |_| Some(true)), None);
    // the store may have no value
    assert_eq!(guc_read_bool(&s, 0x10, |_| None), None);
}

#[test]
fn redefinition_replaces_the_entry() {
    let mut s = GucSettings::new();
    remember(&mut s, 0x10, "a", GucKind::Bool);
    remember(&mut s, 0x10, "b", GucKind::Int);
    assert_eq!(lookup(&s, 0x10), Some(("b", GucKind::Int)));
    assert_eq!(guc_read_bool(&s, 0x10, |_| Some(true)), None);
}

#[test]
fn strings_read_as_nul_terminated_bytes() {
    let mut s = GucSettings::new();
    remember(&mut s, 0x40, "ext.name", GucKind::String);
    assert_eq!(guc_read_string(&s, 0x40, |_| Some(Some("hé".to_string()))), Some(Some("hé\0".as_bytes().to_vec())));
    assert_eq!(guc_read_string(&s, 0x40, |_| Some(None)), Some(None));
    assert_eq!(guc_read_string(&s, 0x40, |_| None), None);
    assert_eq!(guc_read_string(&s, 0x41, |_| Some(None)), None);
}
