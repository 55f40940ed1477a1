use pgrx::finfo::{entry_symbol, no_finfo_symbol, wrapper_symbol};
use pgrx::registry::{
    entity_section, extension_install_scripts, init_functions, library_name, lookup_in,
    path_basename, replace_all, text_eq, EntityEntry, FnEntry, PgInitEntry,
};

#[test]
fn lookup_finds_the_first_matching_entry() {
    let entries = [
        FnEntry { krate: "a", symbol: "f_wrapper", func: 1u32 },
        FnEntry { krate: "b", symbol: "f_wrapper", func: 2u32 },
        FnEntry { krate: "b", symbol: "f_wrapper", func: 3u32 },
        FnEntry { krate: "b", symbol: "g_wrapper", func: 4u32 },
    ];
    assert_eq!(lookup_in(&entries, "b", "f_wrapper"), Some(2));
    assert_eq!(lookup_in(&entries, "a", "f_wrapper"), Some(1));
    assert_eq!(lookup_in(&entries, "b", "g_wrapper"), Some(4));
    assert_eq!(lookup_in(&entries, "a", "g_wrapper"), None);
    assert_eq!(lookup_in::<u32>(&[], "a", "f"), None);
}

#[test]
fn entity_section_concatenates_in_order() {
    let entries = [
        EntityEntry { krate: "a", bytes: b"12" },
        EntityEntry { krate: "b", bytes: b"xx" },
        EntityEntry { krate: "a", bytes: b"345" },
    ];
    assert_eq!(entity_section(&entries, "a"), b"12345".to_vec());
    assert_eq!(entity_section(&entries, "b"), b"xx".to_vec());
    assert!(entity_section(&entries, "c").is_empty());
}

#[test]
fn init_functions_keep_their_order() {
    let entries = [
        PgInitEntry { krate: "a", func: 1u8 },
        PgInitEntry { krate: "b", func: 2u8 },
        PgInitEntry { krate: "a", func: 3u8 },
    ];
    assert_eq!(init_functions(&entries, "a"), vec![1, 3]);
    assert_eq!(init_functions(&entries, "b"), vec![2]);
    assert!(init_functions(&entries, "z").is_empty());
}

#[test]
fn basename_of_paths() {
    assert_eq!(path_basename("$libdir/sample"), "sample");
    assert_eq!(path_basename("sample"), "sample");
    assert_eq!(path_basename("a/b/"), "");
    assert_eq!(path_basename(""), "");
}

#[test]
fn library_name_comes_from_module_pathname() {
    assert_eq!(library_name("module_pathname = '$libdir/libfoo'\n", "foo"), "libfoo");
    assert_eq!(library_name("comment = 'x'\n", "foo"), "foo");
}

#[test]
fn replace_all_is_left_to_right_and_non_overlapping() {
    assert_eq!(replace_all("v=@V@ and @V@", "@V@", "1.0"), "v=1.0 and 1.0");
    assert_eq!(replace_all("aaa", "aa", "b"), "ba");
    assert_eq!(replace_all("none", "x", "y"), "none");
    assert_eq!(replace_all("", "x", "y"), "");
}

#[test]
fn install_scripts_under_both_versions() {
    let (control, scripts) = extension_install_scripts(
        "default_version = '1.0'\nmodule_pathname = '$libdir/x'\n",
        "0.5.0",
        "SQL",
    );
    assert_eq!(control, "default_version = '1.0'\nmodule_pathname = '$libdir/x'\n");
    assert_eq!(
        scripts,
        vec![("0.5.0".to_string(), "SQL".to_string()), ("1.0".to_string(), "SQL".to_string())]
    );
}

#[test]
fn install_scripts_with_cargo_version_marker() {
    let (control, scripts) =
        extension_install_scripts("default_version = '@CARGO_VERSION@'\n", "0.5.0", "SQL");
    assert_eq!(control, "default_version = '0.5.0'\n");
    assert_eq!(scripts, vec![("0.5.0".to_string(), "SQL".to_string())]);
    let (_, scripts) = extension_install_scripts("comment = 'c'\n", "1.1", "S");
    assert_eq!(scripts, vec![("1.1".to_string(), "S".to_string())]);
}

#[test]
fn text_equality() {
    assert!(text_eq("abc", "abc"));
    assert!(!text_eq("abc", "abd"));
    assert!(!text_eq("abc", "ab"));
    assert!(text_eq("", ""));
}

#[test]
fn wrapper_symbols_name_the_function() {
    assert_eq!(wrapper_symbol("add_one"), "add_one_wrapper");
    assert_eq!(entry_symbol("add_one"), "__PGRX_FN_add_one");
    assert_eq!(no_finfo_symbol("add_one"), "__pgrx_no_finfo_add_one");
    assert_ne!(wrapper_symbol("a"), wrapper_symbol("b"));
}

#[test]
fn registered_wrapper_is_found_by_its_symbol() {
    let entries = [
        FnEntry { krate: "other", symbol: "f_wrapper", func: 7u32 },
        FnEntry { krate: "ext", symbol: "g_wrapper", func: 8u32 },
        FnEntry { krate: "ext", symbol: "f_wrapper", func: 9u32 },
    ];
    assert_eq!(lookup_in(&entries, "ext", &wrapper_symbol("f")), Some(9));
    assert_eq!(lookup_in(&entries, "ext", &wrapper_symbol("h")), None);
}
