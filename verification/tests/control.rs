use pgrx::control::{control_default_version, control_module_pathname, control_value};

const CONTROL: &str = "# sample control file\n\
comment = 'a sample'\n\
  default_version = '1.2.0'  \r\n\
module_pathname = '$libdir/sample'\n\
relocatable = false\n";

#[test]
fn reads_quoted_values() {
    assert_eq!(control_default_version(CONTROL).as_deref(), Some("1.2.0"));
    assert_eq!(control_module_pathname(CONTROL).as_deref(), Some("$libdir/sample"));
    assert_eq!(control_value(CONTROL, "comment").as_deref(), Some("a sample"));
    assert_eq!(control_value(CONTROL, "relocatable").as_deref(), Some("false"));
}

#[test]
fn missing_keys_are_none() {
    assert_eq!(control_value(CONTROL, "superuser"), None);
    assert_eq!(control_default_version(""), None);
    assert_eq!(control_module_pathname("module_pathname"), None);
}

#[test]
fn empty_values_are_skipped_for_later_lines() {
    let c = "default_version = ''\ndefault_version = \"2.0\"\n";
    assert_eq!(control_default_version(c).as_deref(), Some("2.0"));
}

#[test]
fn keys_need_an_equals_sign() {
    let c = "default_version 1.0\ndefault_versionX = 3\n";
    assert_eq!(control_default_version(c), None);
    assert_eq!(control_value(c, "default_versionX").as_deref(), Some("3"));
}

#[test]
fn quotes_and_whitespace_are_trimmed() {
    let c = "\tkey\t=\t  '\"v a l\"'  ";
    assert_eq!(control_value(c, "key").as_deref(), Some("v a l"));
    assert_eq!(control_value("key = '''", "key"), None);
    assert_eq!(control_value("key=x", "key").as_deref(), Some("x"));
    // a key is matched as a prefix of the trimmed line
    assert_eq!(control_value("keys = 1", "key"), None);
    assert_eq!(control_value("key = 'it''s'", "key").as_deref(), Some("it''s"));
}

#[test]
fn first_setting_wins() {
    let c = "module_pathname = 'a'\nmodule_pathname = 'b'\n";
    assert_eq!(control_module_pathname(c).as_deref(), Some("a"));
}

#[test]
fn unicode_whitespace_is_trimmed() {
    let c = "\u{3000}key = \u{a0}vé\u{2003}\n";
    assert_eq!(control_value(c, "key").as_deref(), Some("vé"));
}
