use pgrx::stringinfo::{
    appendBinaryStringInfo, appendStringInfoChar, appendStringInfoString, enlargeStringInfo,
    initStringInfo, makeStringInfo, resetStringInfo, StringInfoData, STRING_INFO_INITIAL_CAPACITY,
};

#[test]
fn fresh_buffer_is_empty() {
    let s = makeStringInfo();
    assert_eq!(s.len(), 0);
    assert_eq!(s.maxlen(), STRING_INFO_INITIAL_CAPACITY);
    assert_eq!(s.cursor(), 0);
    assert!(s.contents_vec().is_empty());
}

#[test]
fn appends_concatenate() {
    let mut s = makeStringInfo();
    appendBinaryStringInfo(&mut s, b"hello");
    appendStringInfoChar(&mut s, b',');
    appendStringInfoString(&mut s, b" world\0ignored");
    assert_eq!(s.contents_vec(), b"hello, world".to_vec());
    assert_eq!(s.len(), 12);
}

#[test]
fn reset_empties_and_keeps_capacity() {
    let mut s = makeStringInfo();
    appendBinaryStringInfo(&mut s, &[7u8; 2000]);
    let cap = s.maxlen();
    resetStringInfo(&mut s);
    assert_eq!(s.len(), 0);
    assert_eq!(s.maxlen(), cap);
    appendBinaryStringInfo(&mut s, b"x");
    assert_eq!(s.contents_vec(), b"x".to_vec());
}

#[test]
fn capacity_doubles_until_it_fits() {
    let mut s = makeStringInfo();
    appendBinaryStringInfo(&mut s, &[1u8; 1023]);
    assert_eq!(s.maxlen(), 1024);
    appendStringInfoChar(&mut s, 2);
    assert_eq!(s.maxlen(), 2048);
    enlargeStringInfo(&mut s, 5000);
    assert_eq!(s.maxlen(), 8192);
    assert_eq!(s.len(), 1024);
    let mut expected = vec![1u8; 1023];
    expected.push(2);
    assert_eq!(s.contents_vec(), expected);
}

#[test]
fn init_makes_any_buffer_fresh() {
    let mut s = makeStringInfo();
    appendBinaryStringInfo(&mut s, &[3u8; 3000]);
    initStringInfo(&mut s);
    assert_eq!(s.len(), 0);
    assert_eq!(s.maxlen(), 1024);
}

#[test]
fn existing_buffer_keeps_its_contents_and_grows() {
    let mut data = b"abc\0xyz".to_vec();
    data.resize(8, 0);
    let mut s = StringInfoData::from_buffer(data, 3, 1);
    assert_eq!(s.contents_vec(), b"abc".to_vec());
    assert_eq!(s.maxlen(), 8);
    assert_eq!(s.cursor(), 1);
    appendBinaryStringInfo(&mut s, b"defghij");
    assert_eq!(s.maxlen(), 16);
    assert_eq!(s.contents_vec(), b"abcdefghij".to_vec());
    let bytes = s.buffer_bytes();
    assert_eq!(bytes.len(), 16);
    assert_eq!(&bytes[..11], b"abcdefghij\0");
}
