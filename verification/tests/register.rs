use limbo_extension::register::{
    encode_name, RegistrationBuilder, RESULT_ERROR, RESULT_OK,
};

#[test]
fn encode_name_appends_terminator() {
    let encoded = encode_name(&b"double".to_vec()).unwrap();
    assert_eq!(encoded, b"double\0".to_vec());
}

#[test]
fn encode_empty_name_is_just_the_terminator() {
    let encoded = encode_name(&Vec::new()).unwrap();
    assert_eq!(encoded, vec![0u8]);
}

#[test]
fn encode_name_with_embedded_terminator_is_refused() {
    assert!(encode_name(&vec![0x61, 0x00, 0x62]).is_none());
    assert!(encode_name(&vec![0x00]).is_none());
}

#[test]
fn absent_table_yields_error_and_no_calls() {
    let mut builder: RegistrationBuilder<u32> = RegistrationBuilder::new();
    builder.scalar(b"one".to_vec(), 1);
    builder.scalar(b"two".to_vec(), 2);
    let (status, calls) = builder.entry_plan(false);
    assert_eq!(status, RESULT_ERROR);
    assert!(calls.is_empty());
}

#[test]
fn valid_table_registers_every_pair_in_order() {
    let mut builder: RegistrationBuilder<u32> = RegistrationBuilder::new();
    builder.scalar(b"alpha".to_vec(), 10);
    builder.scalar(b"beta".to_vec(), 20);
    builder.scalar(b"gamma".to_vec(), 30);
    let (status, calls) = builder.entry_plan(true);
    assert_eq!(status, RESULT_OK);
    assert_eq!(calls.len(), 3);
    assert_eq!(calls[0], (b"alpha\0".to_vec(), 10));
    assert_eq!(calls[1], (b"beta\0".to_vec(), 20));
    assert_eq!(calls[2], (b"gamma\0".to_vec(), 30));
}

#[test]
fn nothing_declared_still_succeeds() {
    let builder: RegistrationBuilder<u32> = RegistrationBuilder::new();
    let (status, calls) = builder.entry_plan(true);
    assert_eq!(status, RESULT_OK);
    assert!(calls.is_empty());
}

#[test]
fn embedded_terminator_stops_at_that_entry_without_rollback() {
    let mut builder: RegistrationBuilder<u32> = RegistrationBuilder::new();
    builder.scalar(b"ok".to_vec(), 1);
    builder.scalar(b"ba\0d".to_vec(), 2);
    builder.scalar(b"later".to_vec(), 3);
    let (status, calls) = builder.entry_plan(true);
    assert_eq!(status, RESULT_ERROR);
    assert_eq!(calls.len(), 1);
    assert_eq!(calls[0], (b"ok\0".to_vec(), 1));
}
