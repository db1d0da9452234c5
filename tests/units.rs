use mumble_plugin::status::{classify, Classified};
use mumble_plugin::text::{decode_text, is_nul_free};
use mumble_plugin::types::{
    ChannelIdT, ErrorCode, ErrorT, TalkingState, TalkingStateT, TransmissionMode,
    EC_CHANNEL_NOT_FOUND, EC_OK, EC_USER_NOT_FOUND,
};
use mumble_plugin::{
    CheckableId, ErrAsResult, NotRegistered, ResourceTable, SendConstPointer,
};

#[test]
fn classify_success_absent_and_failure() {
    let absent = [EC_USER_NOT_FOUND, EC_CHANNEL_NOT_FOUND];
    assert_eq!(classify(ErrorT::from_code(EC_OK), &absent), Classified::Success);
    assert_eq!(classify(ErrorT::from_code(EC_USER_NOT_FOUND), &absent), Classified::Absent);
    assert_eq!(classify(ErrorT::from_code(EC_CHANNEL_NOT_FOUND), &absent), Classified::Absent);
    assert_eq!(classify(ErrorT::from_code(7), &absent), Classified::Failed(ErrorT::from_code(7)));
    assert_eq!(classify(ErrorT::from_code(3), &[]), Classified::Failed(ErrorT::from_code(3)));
}

#[test]
fn resultify_splits_on_success() {
    assert_eq!(ErrorT::from_code(EC_OK).resultify(), Ok(ErrorT::from_code(0)));
    assert_eq!(ErrorT::from_code(-2).resultify(), Err(ErrorT::from_code(-2)));
    assert!(ErrorT::from_code(EC_OK).is_ok());
    assert_eq!(ErrorT::from_code(12).code(), 12);
}

#[test]
fn channel_check_sentinel() {
    assert_eq!(ChannelIdT(-1).check(), None);
    assert_eq!(ChannelIdT(-5).check(), None);
    assert_eq!(ChannelIdT(0).check(), Some(ChannelIdT(0)));
    assert_eq!(ChannelIdT(17).check(), Some(ChannelIdT(17)));
}

#[test]
fn conversions_between_wrappers() {
    let e: ErrorT = ErrorCode(4).into();
    assert_eq!(e, ErrorT(ErrorCode(4)));
    let c: ErrorCode = ErrorT(ErrorCode(6)).into();
    assert_eq!(c, ErrorCode(6));
    let t: TalkingStateT = TalkingState::SHOUTING.into();
    assert_eq!(t, TalkingStateT(TalkingState::SHOUTING));
    let s: TalkingState = TalkingStateT(TalkingState::PASSIVE).into();
    assert_eq!(s, TalkingState::PASSIVE);
}

#[test]
fn raw_encodings() {
    assert_eq!(TalkingState::INVALID.raw(), -1);
    assert_eq!(TalkingState::TALKING_MUTED.raw(), 4);
    assert_eq!(TalkingState::from_raw(2), Some(TalkingState::WHISPERING));
    assert_eq!(TalkingState::from_raw(5), None);
    assert_eq!(TalkingState::from_raw(-2), None);
    assert_eq!(TransmissionMode::TM_PUSH_TO_TALK.raw(), 2);
    assert_eq!(TransmissionMode::from_raw(1), Some(TransmissionMode::TM_VOICE_ACTIVATION));
    assert_eq!(TransmissionMode::from_raw(3), None);
}

#[test]
fn talking_state_decoding_keeps_unknown_values_invalid() {
    assert_eq!(TalkingStateT::from_raw(1), TalkingStateT(TalkingState::TALKING));
    assert_eq!(TalkingStateT::from_raw(-1), TalkingStateT(TalkingState::INVALID));
    assert_eq!(TalkingStateT::from_raw(9), TalkingStateT(TalkingState::INVALID));
}

#[test]
fn nul_detection() {
    assert!(is_nul_free("hello"));
    assert!(is_nul_free(""));
    assert!(!is_nul_free("he\0llo"));
    assert!(!is_nul_free("\0"));
}

#[test]
fn utf8_decoding() {
    assert_eq!(decode_text(b"abc"), Some("abc".to_string()));
    assert_eq!(decode_text("ü".as_bytes()), Some("ü".to_string()));
    assert_eq!(decode_text(&[0xc3]), None);
    assert_eq!(decode_text(&[]), Some(String::new()));
}

#[test]
fn resource_table_register_then_release() {
    let mut table: ResourceTable<String> = ResourceTable::new();
    let p = table.register_resource("a".to_string(), SendConstPointer::new(0x1000));
    assert_eq!(p, SendConstPointer::new(0x1000));
    assert_eq!(
        table.register_resource("b".to_string(), SendConstPointer::new(0x2000)),
        SendConstPointer::new(0x2000)
    );
    assert_eq!(table.release_resource(SendConstPointer::new(0x1000)), Ok("a".to_string()));
    assert_eq!(table.release_resource(SendConstPointer::new(0x2000)), Ok("b".to_string()));
}

#[test]
fn resource_table_second_release_is_refused() {
    let mut table: ResourceTable<u32> = ResourceTable::new();
    assert_eq!(table.register_resource(5, SendConstPointer::new(64)), SendConstPointer::new(64));
    assert_eq!(table.release_resource(SendConstPointer::new(64)), Ok(5));
    assert_eq!(table.release_resource(SendConstPointer::new(64)), Err(NotRegistered));
}

#[test]
fn resource_table_unknown_release_is_soft() {
    let mut table: ResourceTable<u32> = ResourceTable::new();
    assert_eq!(table.release_resource(SendConstPointer::new(99)), Err(NotRegistered));
    assert_eq!(table.register_resource(1, SendConstPointer::new(99)), SendConstPointer::new(99));
    assert_eq!(table.release_resource(SendConstPointer::new(99)), Ok(1));
}

#[test]
fn resource_table_registered_address_is_detected() {
    let mut table: ResourceTable<u32> = ResourceTable::new();
    assert!(!table.is_registered(&SendConstPointer::new(8)));
    assert_eq!(table.register_resource(1, SendConstPointer::new(8)), SendConstPointer::new(8));
    assert!(table.is_registered(&SendConstPointer::new(8)));
    assert_eq!(table.release_resource(SendConstPointer::new(8)), Ok(1));
}

#[test]
fn send_const_pointer_round_trip() {
    assert_eq!(SendConstPointer::new(1234).unwrap(), 1234);
}
