use vstd::prelude::*;

use crate::error::M2paError;
use crate::header::{
    common_header_check, decode_m2pa_header, encode_m2pa_header, CommonMessageHeader, M2PAHeader,
};
use crate::link_status::{
    lemma_link_state_of_value_roundtrip, lemma_link_status_ignores_filler,
    lemma_link_status_roundtrip, link_status_bytes,
    link_status_decode, link_status_text, LinkState, LinkStatusMessage,
};
use crate::text::{append_decimal, decimal};
use crate::user_data::{
    lemma_user_data_roundtrip, user_data_bytes, user_data_decode, user_data_text, UserDataMessage,
};
use crate::wire::{
    be24_at, be24_bytes, be32_at, be32_bytes, lemma_be24_bytes_value, lemma_be24_value_bytes,
    lemma_be32_bytes_value, lemma_be32_value_bytes,
};
use crate::{MESSAGE_CLASS_M2PA, MESSAGE_TYPE_LINK_STATUS, MESSAGE_TYPE_USER_DATA, VERSION};

verus! {

/// A complete M2PA message (header + body).
#[derive(Debug, Clone)]
pub enum M2paMessage {
    /// User Data message carrying an MTP3 MSU.
    UserData { bsn: u32, fsn: u32, message: UserDataMessage },
    /// Link Status message for alignment/proving.
    LinkStatus { bsn: u32, fsn: u32, message: LinkStatusMessage },
}

/// The mathematical content of an [`M2paMessage`]: its sequence numbers and
/// its body, with the MSU as a sequence of octets.
pub ghost enum MessageView {
    UserData { bsn: u32, fsn: u32, priority: u8, msu: Seq<u8> },
    LinkStatus { bsn: u32, fsn: u32, state: LinkState },
}

impl View for M2paMessage {
    type V = MessageView;

    open spec fn view(&self) -> MessageView {
        match self {
            M2paMessage::UserData { bsn, fsn, message } => MessageView::UserData {
                bsn: *bsn,
                fsn: *fsn,
                priority: message.priority,
                msu: message.msu@,
            },
            M2paMessage::LinkStatus { bsn, fsn, message } => MessageView::LinkStatus {
                bsn: *bsn,
                fsn: *fsn,
                state: message.state,
            },
        }
    }
}

/// The message type octet a message is sent with.
pub open spec fn message_type_of(m: MessageView) -> u8 {
    match m {
        MessageView::UserData { .. } => MESSAGE_TYPE_USER_DATA,
        MessageView::LinkStatus { .. } => MESSAGE_TYPE_LINK_STATUS,
    }
}

pub open spec fn bsn_of(m: MessageView) -> u32 {
    match m {
        MessageView::UserData { bsn, .. } => bsn,
        MessageView::LinkStatus { bsn, .. } => bsn,
    }
}

pub open spec fn fsn_of(m: MessageView) -> u32 {
    match m {
        MessageView::UserData { fsn, .. } => fsn,
        MessageView::LinkStatus { fsn, .. } => fsn,
    }
}

/// The body octets a message is sent with.
pub open spec fn body_bytes(m: MessageView) -> Seq<u8> {
    match m {
        MessageView::UserData { priority, msu, .. } => user_data_bytes(priority, msu),
        MessageView::LinkStatus { state, .. } => link_status_bytes(LinkStatusMessage { state }),
    }
}

/// A message can be encoded: both sequence numbers fit their 24-bit fields
/// and the whole message's length fits a `usize`.
pub open spec fn encodable(m: MessageView) -> bool {
    &&& bsn_of(m) < 0x1000000
    &&& fsn_of(m) < 0x1000000
    &&& body_bytes(m).len() + 16 <= usize::MAX
}

/// The octets of a complete message: the common header (version 1, spare 0,
/// class 11, the type, and the total length cut to 32 bits), the M2PA header
/// (unused octet, BSN, unused octet, FSN) and the body.
pub open spec fn message_bytes(m: MessageView) -> Seq<u8> {
    let body = body_bytes(m);
    seq![VERSION, 0u8, MESSAGE_CLASS_M2PA, message_type_of(m)] + be32_bytes(
        ((16 + body.len()) % 0x1_0000_0000) as u32,
    ) + seq![0u8] + be24_bytes(bsn_of(m)) + seq![0u8] + be24_bytes(fsn_of(m)) + body
}

/// What decoding a complete message yields. At least 16 octets are needed;
/// then the common header is validated; then the body after octet 16 is
/// decoded as User Data or Link Status according to the message type. The
/// length field and the unused octets of the M2PA header are not checked.
pub open spec fn message_decode(b: Seq<u8>) -> Result<MessageView, M2paError> {
    if b.len() < 16 {
        Err(M2paError::TooShort { expected: 16, actual: b.len() as usize })
    } else {
        match common_header_check(b.subrange(0, 8)) {
            Err(e) => Err(e),
            Ok(()) => {
                let bsn = be24_at(b, 9) as u32;
                let fsn = be24_at(b, 13) as u32;
                let body = b.subrange(16, b.len() as int);
                if b[3] == MESSAGE_TYPE_USER_DATA {
                    match user_data_decode(body) {
                        Ok((priority, msu)) => Ok(MessageView::UserData { bsn, fsn, priority, msu }),
                        Err(e) => Err(e),
                    }
                } else {
                    match link_status_decode(body) {
                        Ok(ls) => Ok(MessageView::LinkStatus { bsn, fsn, state: ls.state }),
                        Err(e) => Err(e),
                    }
                }
            },
        }
    }
}

/// The display form of a message.
pub open spec fn message_text(m: M2paMessage) -> Seq<char> {
    match m {
        M2paMessage::UserData { bsn, fsn, message } => "M2PA User Data [bsn="@ + decimal(
            bsn as nat,
        ) + ", fsn="@ + decimal(fsn as nat) + ", "@ + user_data_text(
            message.priority,
            message.msu@.len(),
        ) + "]"@,
        M2paMessage::LinkStatus { bsn, fsn, message } => "M2PA Link Status [bsn="@ + decimal(
            bsn as nat,
        ) + ", fsn="@ + decimal(fsn as nat) + ", "@ + link_status_text(message) + "]"@,
    }
}

impl M2paMessage {
    /// Decode a complete M2PA message from raw bytes.
    pub fn decode(bytes: &[u8]) -> (r: Result<Self, M2paError>)
        ensures
            match r {
                Ok(m) => message_decode(bytes@) == Ok::<MessageView, M2paError>(m@),
                Err(e) => message_decode(bytes@) == Err::<MessageView, M2paError>(e),
            },
    {
        if bytes.len() < 16 {
            return Err(M2paError::TooShort { expected: 16, actual: bytes.len() });
        }
        let cmh_bytes: [u8; 8] = [
            bytes[0],
            bytes[1],
            bytes[2],
            bytes[3],
            bytes[4],
            bytes[5],
            bytes[6],
            bytes[7],
        ];
        assert(cmh_bytes@ =~= bytes@.subrange(0, 8));
        let cmh = match CommonMessageHeader::decode(cmh_bytes) {
            Ok(h) => h,
            Err(e) => return Err(e),
        };
        let m2pa_bytes: [u8; 8] = [
            bytes[8],
            bytes[9],
            bytes[10],
            bytes[11],
            bytes[12],
            bytes[13],
            bytes[14],
            bytes[15],
        ];
        let m2pa_hdr = decode_m2pa_header(m2pa_bytes);
        let bsn = m2pa_hdr.bsn();
        let fsn = m2pa_hdr.fsn();
        let body = vstd::slice::slice_subrange(bytes, 16, bytes.len());
        let message_type = cmh.message_type();
        if message_type == MESSAGE_TYPE_USER_DATA {
            match UserDataMessage::decode(body) {
                Ok(user_data) => Ok(M2paMessage::UserData { bsn, fsn, message: user_data }),
                Err(e) => Err(e),
            }
        } else if message_type == MESSAGE_TYPE_LINK_STATUS {
            match LinkStatusMessage::decode(body) {
                Ok(link_status) => Ok(M2paMessage::LinkStatus { bsn, fsn, message: link_status }),
                Err(e) => Err(e),
            }
        } else {
            Err(M2paError::InvalidMessageType(message_type))
        }
    }

    /// Whether `encode` accepts this message: both sequence numbers fit their
    /// 24-bit fields and the encoded length fits a `usize`.
    pub fn is_encodable(&self) -> (r: bool)
        ensures
            r == encodable(self@),
    {
        match self {
            M2paMessage::UserData { bsn, fsn, message } => *bsn < 0x1000000 && *fsn < 0x1000000
                && message.msu.len() < usize::MAX - 16,
            M2paMessage::LinkStatus { bsn, fsn, .. } => *bsn < 0x1000000 && *fsn < 0x1000000,
        }
    }

    /// Encode a complete M2PA message to bytes. The length field is derived
    /// from the encoded body, so it always matches the bytes produced.
    pub fn encode(&self) -> (r: Result<Vec<u8>, M2paError>)
        requires
            encodable(self@),
        ensures
            r matches Ok(v) && v@ == message_bytes(self@),
    {
        let msg_type: u8;
        let bsn: u32;
        let fsn: u32;
        let body: Vec<u8>;
        match self {
            M2paMessage::UserData { bsn: b, fsn: f, message } => {
                msg_type = MESSAGE_TYPE_USER_DATA;
                bsn = *b;
                fsn = *f;
                body = message.encode();
            },
            M2paMessage::LinkStatus { bsn: b, fsn: f, message } => {
                msg_type = MESSAGE_TYPE_LINK_STATUS;
                bsn = *b;
                fsn = *f;
                let state_bytes = message.encode();
                body = vstd::slice::slice_to_vec(state_bytes.as_slice());
            },
        }
        assert(body@ == body_bytes(self@));
        let total_len = 16 + body.len();
        // The length field carries the total length cut to 32 bits.
        let length_field = ((total_len as u64) % 0x1_0000_0000) as u32;
        let cmh = CommonMessageHeader::new().with_version(VERSION).with_message_class(
            MESSAGE_CLASS_M2PA,
        ).with_message_type(msg_type).with_message_length(length_field);
        let m2pa_hdr = M2PAHeader::new().with_bsn(bsn).with_fsn(fsn);
        let cmh_bytes = match cmh.encode() {
            Ok(b) => b,
            Err(e) => return Err(e),
        };
        let mut buf: Vec<u8> = Vec::with_capacity(total_len);
        buf.extend_from_slice(cmh_bytes.as_slice());
        buf.extend_from_slice(encode_m2pa_header(m2pa_hdr).as_slice());
        buf.extend_from_slice(body.as_slice());
        assert(buf@ =~= message_bytes(self@));
        Ok(buf)
    }

    /// The display form, e.g. "M2PA Link Status [bsn=0, fsn=0, Link Status
    /// [state=Alignment]]".
    pub fn to_string(&self) -> (r: String)
        ensures
            r@ == message_text(*self),
    {
        match self {
            M2paMessage::UserData { bsn, fsn, message } => {
                let mut r = String::from_str("M2PA User Data [bsn=");
                append_decimal(&mut r, *bsn as u64);
                r.append(", fsn=");
                append_decimal(&mut r, *fsn as u64);
                r.append(", ");
                let inner = message.to_string();
                r.append(inner.as_str());
                r.append("]");
                r
            },
            M2paMessage::LinkStatus { bsn, fsn, message } => {
                let mut r = String::from_str("M2PA Link Status [bsn=");
                append_decimal(&mut r, *bsn as u64);
                r.append(", fsn=");
                append_decimal(&mut r, *fsn as u64);
                r.append(", ");
                let inner = message.to_string();
                r.append(inner.as_str());
                r.append("]");
                r
            },
        }
    }
}

/// A message with its User Data priority cut to the two bits that go on the
/// wire (Link Status messages are unchanged).
pub open spec fn wire_normalized(m: MessageView) -> MessageView {
    match m {
        MessageView::UserData { bsn, fsn, priority, msu } => MessageView::UserData {
            bsn,
            fsn,
            priority: (priority % 4) as u8,
            msu,
        },
        MessageView::LinkStatus { .. } => m,
    }
}

/// Where the fields of an encoded message stand in its octets.
proof fn lemma_message_bytes_layout(m: MessageView)
    requires
        encodable(m),
    ensures
        ({
            let b = message_bytes(m);
            &&& b.len() == 16 + body_bytes(m).len()
            &&& b.subrange(0, 4) == seq![VERSION, 0u8, MESSAGE_CLASS_M2PA, message_type_of(m)]
            &&& be32_at(b, 4) == (16 + body_bytes(m).len()) % 0x1_0000_0000
            &&& b[8] == 0 && b[12] == 0
            &&& be24_at(b, 9) == bsn_of(m)
            &&& be24_at(b, 13) == fsn_of(m)
            &&& b.subrange(16, b.len() as int) == body_bytes(m)
        }),
{
    let b = message_bytes(m);
    let body = body_bytes(m);
    lemma_be32_bytes_value(((16 + body.len()) % 0x1_0000_0000) as u32);
    lemma_be24_bytes_value(bsn_of(m));
    lemma_be24_bytes_value(fsn_of(m));
    assert(b.subrange(0, 4) =~= seq![VERSION, 0u8, MESSAGE_CLASS_M2PA, message_type_of(m)]);
    assert(b.subrange(16, b.len() as int) =~= body);
}

/// Round trip: decoding the encoding of an encodable message gives the
/// message back, with its User Data priority cut to two bits; a message whose
/// priority is already below 4 comes back unchanged.
pub proof fn lemma_encode_decode_roundtrip(m: MessageView)
    requires
        encodable(m),
    ensures
        message_decode(message_bytes(m)) == Ok::<MessageView, M2paError>(wire_normalized(m)),
        (m matches MessageView::UserData { priority, .. } ==> priority < 4) ==> wire_normalized(m)
            == m,
{
    let b = message_bytes(m);
    lemma_message_bytes_layout(m);
    assert(b.subrange(0, 8)[0] == b[0]);
    let body = b.subrange(16, b.len() as int);
    match m {
        MessageView::UserData { bsn, fsn, priority, msu } => {
            lemma_user_data_roundtrip(priority, msu);
        },
        MessageView::LinkStatus { bsn, fsn, state } => {
            lemma_link_status_roundtrip(LinkStatusMessage { state });
        },
    }
}

/// The length field of an encoded message always equals the number of octets
/// encoded, cut to 32 bits (the whole count, for any message under 4 GiB).
pub proof fn lemma_length_field_matches(m: MessageView)
    requires
        encodable(m),
    ensures
        be32_at(message_bytes(m), 4) == message_bytes(m).len() % 0x1_0000_0000,
        message_bytes(m).len() < 0x1_0000_0000 ==> be32_at(message_bytes(m), 4)
            == message_bytes(m).len(),
{
    lemma_message_bytes_layout(m);
}

/// The octet strings that encoding can produce: zero unused octets in the
/// M2PA header, a length field equal to the length, a User Data priority
/// octet below 4, and a Link Status body with no filler.
pub open spec fn canonical(b: Seq<u8>) -> bool {
    &&& b.len() >= 16
    &&& b[8] == 0
    &&& b[12] == 0
    &&& be32_at(b, 4) == b.len()
    &&& b[3] == MESSAGE_TYPE_USER_DATA ==> b.len() > 16 && b[16] < 4
    &&& b[3] == MESSAGE_TYPE_LINK_STATUS ==> b.len() == 20
}

/// Decoding a canonical octet string and encoding the result gives the same
/// octets back: the decoder loses nothing that the encoder writes.
pub proof fn lemma_decode_encode_canonical(b: Seq<u8>)
    requires
        canonical(b),
        b.len() <= usize::MAX,
        message_decode(b) is Ok,
    ensures
        encodable(message_decode(b)->Ok_0),
        message_bytes(message_decode(b)->Ok_0) == b,
{
    let m = message_decode(b)->Ok_0;
    let body = b.subrange(16, b.len() as int);
    assert(b.subrange(0, 8)[3] == b[3]);
    lemma_be24_value_bytes(b[9], b[10], b[11]);
    lemma_be24_value_bytes(b[13], b[14], b[15]);
    lemma_be32_value_bytes(b[4], b[5], b[6], b[7]);
    if b[3] == MESSAGE_TYPE_USER_DATA {
        assert(body_bytes(m) =~= body);
    } else {
        lemma_be32_value_bytes(b[16], b[17], b[18], b[19]);
        lemma_link_state_of_value_roundtrip(be32_at(body, 0) as u32);
        assert(body_bytes(m) =~= body);
    }
    assert(message_bytes(m) =~= b);
}

/// A Link Status message is decoded from its first 20 octets alone: whatever
/// filler follows the state word changes nothing.
pub proof fn lemma_link_status_message_ignores_filler(b: Seq<u8>)
    requires
        b.len() >= 20,
        b[3] == MESSAGE_TYPE_LINK_STATUS,
    ensures
        message_decode(b) == message_decode(b.subrange(0, 20)),
{
    let t = b.subrange(0, 20);
    assert(b.subrange(0, 8) =~= t.subrange(0, 8));
    assert(be24_at(t, 9) == be24_at(b, 9));
    assert(be24_at(t, 13) == be24_at(b, 13));
    let body = b.subrange(16, b.len() as int);
    let tbody = t.subrange(16, t.len() as int);
    lemma_link_status_ignores_filler(body);
    lemma_link_status_ignores_filler(tbody);
    assert(body.subrange(0, 4) =~= tbody.subrange(0, 4));
}

} // verus!
