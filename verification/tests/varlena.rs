use pgrx::varlena::{
    array_nitems, cstring_to_text_with_len, detoast_action, detoast_copy_action,
    detoast_packed_action, heap_tuple_header_get_datum_length, numeric_is_nan, varsize_4b,
    DetoastAction,
};

#[test]
fn text_images_carry_their_size() {
    let t = cstring_to_text_with_len(b"hello world", 5);
    assert_eq!(t, vec![36, 0, 0, 0, b'h', b'e', b'l', b'l', b'o']);
    assert_eq!(varsize_4b(&t) as usize, t.len());
    let empty = cstring_to_text_with_len(b"", 0);
    assert_eq!(empty, vec![16, 0, 0, 0]);
    assert_eq!(varsize_4b(&empty), 4);
    let long = vec![b'x'; 300];
    let t = cstring_to_text_with_len(&long, 300);
    assert_eq!(&t[..4], &[0xC0, 0x04, 0, 0]);
    assert_eq!(varsize_4b(&t), 304);
}

#[test]
fn datum_length_of_composite_headers() {
    assert_eq!(heap_tuple_header_get_datum_length(400), 100);
    assert_eq!(heap_tuple_header_get_datum_length(-4), 0x3FFF_FFFF);
}

#[test]
fn detoast_decisions() {
    assert_eq!(detoast_action(0x00), DetoastAction::AsIs);
    assert_eq!(detoast_action(0x02), DetoastAction::Expand);
    assert_eq!(detoast_action(0x01), DetoastAction::Expand);
    assert_eq!(detoast_action(0x03), DetoastAction::Expand);
    assert_eq!(detoast_copy_action(0x10), DetoastAction::Copy);
    assert_eq!(detoast_copy_action(0x01), DetoastAction::Expand);
    assert_eq!(detoast_packed_action(0x01), DetoastAction::Expand);
    assert_eq!(detoast_packed_action(0x02), DetoastAction::Expand);
    assert_eq!(detoast_packed_action(0x03), DetoastAction::AsIs);
    assert_eq!(detoast_packed_action(0x00), DetoastAction::AsIs);
}

#[test]
fn numeric_nan_detection() {
    assert!(numeric_is_nan(&[0, 0, 0, 0, 0x00, 0xC0]));
    assert!(!numeric_is_nan(&[0, 0, 0, 0, 0x00, 0xF0]));
    assert!(!numeric_is_nan(&[0, 0, 0, 0, 0x00, 0xD0]));
    assert!(!numeric_is_nan(&[0, 0, 0, 0, 0x01, 0xC0]));
    assert!(!numeric_is_nan(&[0, 0, 0, 0, 0x00, 0xE0]));
    assert!(!numeric_is_nan(&[0, 0, 0, 0, 0x00, 0x40]));
    assert!(!numeric_is_nan(&[0, 0, 0, 0, 0x00]));
}

#[test]
fn array_element_counts() {
    assert_eq!(array_nitems(&[]), 0);
    assert_eq!(array_nitems(&[3]), 3);
    assert_eq!(array_nitems(&[3, 4]), 12);
    assert_eq!(array_nitems(&[3, -1]), 0);
    assert_eq!(array_nitems(&[0, 5]), 0);
}
