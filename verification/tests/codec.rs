//! Whole-message and header codec cases.

use m2pa::{
    decode_m2pa_header, encode_m2pa_header, CommonMessageHeader, LinkState, LinkStatusMessage,
    M2PAHeader, M2paMessage, UserDataMessage,
};

#[test]
fn decode_common_message_header_correct() {
    let buf: [u8; 8] = [1, 0, 11, 1, 0, 0, 0, 100];
    let cmh = CommonMessageHeader::decode(buf).unwrap();
    assert_eq!(cmh.version(), 1);
    assert_eq!(cmh.spare(), 0);
    assert_eq!(cmh.message_class(), 11);
    assert_eq!(cmh.message_type(), 1);
    assert_eq!(cmh.message_length(), 100);
}

#[test]
fn decode_common_message_header_version_wrong() {
    let buf: [u8; 8] = [0, 0, 11, 1, 0, 0, 0, 100];
    assert!(CommonMessageHeader::decode(buf).is_err());
}

#[test]
fn decode_common_message_header_spare_wrong() {
    let buf: [u8; 8] = [1, 1, 11, 1, 0, 0, 0, 100];
    assert!(CommonMessageHeader::decode(buf).is_err());
}

#[test]
fn decode_common_message_header_message_class_wrong() {
    let buf: [u8; 8] = [1, 0, 12, 1, 0, 0, 0, 100];
    assert!(CommonMessageHeader::decode(buf).is_err());
}

#[test]
fn decode_common_message_header_message_type_wrong() {
    let buf: [u8; 8] = [1, 0, 11, 123, 0, 0, 0, 100];
    assert!(CommonMessageHeader::decode(buf).is_err());
}

#[test]
fn encode_common_message_header_round_trip() {
    let cmh = CommonMessageHeader::new()
        .with_version(1)
        .with_message_class(11)
        .with_message_type(1)
        .with_message_length(20);

    let serialized = cmh.encode().unwrap();
    let parsed = CommonMessageHeader::decode(serialized).unwrap();
    assert_eq!(parsed.version(), 1);
    assert_eq!(parsed.spare(), 0);
    assert_eq!(parsed.message_class(), 11);
    assert_eq!(parsed.message_type(), 1);
    assert_eq!(parsed.message_length(), 20);
}

#[test]
fn m2pa_header_round_trip() {
    let hdr = M2PAHeader::new().with_bsn(12).with_fsn(11);
    let serialized = encode_m2pa_header(hdr);
    assert_eq!(serialized.len(), 8);
    let parsed = decode_m2pa_header(serialized);
    assert_eq!(parsed.bsn(), 12);
    assert_eq!(parsed.fsn(), 11);
}

#[test]
fn lib_decode_link_status_proving_emergency() {
    let hex_str = "01000b020000001400ffffff00ffffff00000003";
    let bytes: Vec<u8> = hex::decode(hex_str).unwrap();

    let msg = M2paMessage::decode(&bytes).unwrap();
    match msg {
        M2paMessage::LinkStatus { bsn, fsn, message } => {
            assert_eq!(bsn, 0xFFFFFF);
            assert_eq!(fsn, 0xFFFFFF);
            assert_eq!(message.state, LinkState::ProvingEmergency);
        }
        _ => panic!("Expected LinkStatus message"),
    }
}

#[test]
fn encode_user_data_round_trip() {
    let msu = vec![0x83, 0x01, 0x02, 0x03];
    let msg = M2paMessage::UserData {
        bsn: 100,
        fsn: 200,
        message: UserDataMessage::new(1, msu.clone()),
    };

    let encoded = msg.encode().unwrap();
    let decoded = M2paMessage::decode(&encoded).unwrap();

    match decoded {
        M2paMessage::UserData { bsn, fsn, message } => {
            assert_eq!(bsn, 100);
            assert_eq!(fsn, 200);
            assert_eq!(message.priority, 1);
            assert_eq!(message.msu, msu);
        }
        _ => panic!("Expected UserData message"),
    }
}

#[test]
fn encode_link_status_round_trip() {
    let msg = M2paMessage::LinkStatus {
        bsn: 0xFFFFFF,
        fsn: 0xFFFFFF,
        message: LinkStatusMessage::new(LinkState::Ready),
    };

    let encoded = msg.encode().unwrap();
    let decoded = M2paMessage::decode(&encoded).unwrap();

    match decoded {
        M2paMessage::LinkStatus { bsn, fsn, message } => {
            assert_eq!(bsn, 0xFFFFFF);
            assert_eq!(fsn, 0xFFFFFF);
            assert_eq!(message.state, LinkState::Ready);
        }
        _ => panic!("Expected LinkStatus message"),
    }
}

#[test]
fn lib_decode_too_short() {
    let bytes = [0u8; 10];
    assert!(M2paMessage::decode(&bytes).is_err());
}

#[test]
fn message_display() {
    let msg = M2paMessage::LinkStatus {
        bsn: 0,
        fsn: 0,
        message: LinkStatusMessage::new(LinkState::Alignment),
    };
    let s = msg.to_string();
    assert!(s.contains("Alignment"));
}
