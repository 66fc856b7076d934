use vstd::prelude::*;

use crate::error::M2paError;
use crate::text::{append_decimal, decimal};

verus! {

/// User Data message body (follows M2PA header).
///
/// ```text
/// +-+-+-+-+-+-+-+-+-+-+-+-+-+-+-+-+-+-+-+-+-+-+-+-+-+-+-+-+-+-+-+-+
/// |       Priority                |            User Data          |
/// +-+-+-+-+-+-+-+-+-+-+-+-+-+-+-+-+-+-+-+-+-+-+-+-+-+-+-+-+-+-+-+-+
/// |                          User Data                            |
/// +-+-+-+-+-+-+-+-+-+-+-+-+-+-+-+-+-+-+-+-+-+-+-+-+-+-+-+-+-+-+-+-+
/// ```
///
/// User Data messages are sent on SCTP stream 1.
/// The User Data field carries an MTP3 MSU (Message Signal Unit).
#[derive(Debug, Clone, PartialEq, Eq)]
pub struct UserDataMessage {
    /// Priority of the message (0-3).
    pub priority: u8,
    /// MTP3 MSU payload.
    pub msu: Vec<u8>,
}

/// The octets a User Data body with these fields encodes to: the priority
/// cut to its two valid bits, then the MSU.
pub open spec fn user_data_bytes(priority: u8, msu: Seq<u8>) -> Seq<u8> {
    seq![(priority % 4) as u8] + msu
}

/// What decoding a User Data body yields: its priority (the two low bits of
/// the first octet) and its MSU (every octet after the first); an empty body
/// is too short.
pub open spec fn user_data_decode(b: Seq<u8>) -> Result<(u8, Seq<u8>), M2paError> {
    if b.len() == 0 {
        Err(M2paError::TooShort { expected: 1, actual: 0 })
    } else {
        Ok(((b[0] % 4) as u8, b.subrange(1, b.len() as int)))
    }
}

/// The display form of a User Data body.
pub open spec fn user_data_text(priority: u8, msu_len: nat) -> Seq<char> {
    "User Data [priority="@ + decimal(priority as nat) + ", msu_len="@ + decimal(msu_len) + "]"@
}

impl UserDataMessage {
    /// SCTP stream used for User Data messages.
    pub const SCTP_STREAM: u16 = 1;

    /// A body with the priority cut to its two valid bits.
    pub fn new(priority: u8, msu: Vec<u8>) -> (r: Self)
        ensures
            r.priority == priority % 4,
            r.msu@ == msu@,
    {
        assert(priority & 0x03 == priority % 4) by (bit_vector);
        Self {
            priority: priority & 0x03,  // Only 2 bits used
            msu,
        }
    }

    /// Decode from bytes after M2PA header: the first octet gives the
    /// priority (two low bits), the rest is the MSU.
    ///
    /// Fails with `TooShort { expected: 1, actual: 0 }` exactly when `bytes`
    /// is empty.
    pub fn decode(bytes: &[u8]) -> (r: Result<Self, M2paError>)
        ensures
            match r {
                Ok(m) => user_data_decode(bytes@) == Ok::<(u8, Seq<u8>), M2paError>(
                    (m.priority, m.msu@),
                ),
                Err(e) => user_data_decode(bytes@) == Err::<(u8, Seq<u8>), M2paError>(e),
            },
    {
        if bytes.len() == 0 {
            return Err(M2paError::TooShort { expected: 1, actual: 0 });
        }
        let first = bytes[0];
        assert(first & 0x03 == first % 4) by (bit_vector);
        let priority = first & 0x03;
        let msu = vstd::slice::slice_to_vec(vstd::slice::slice_subrange(bytes, 1, bytes.len()));
        Ok(Self { priority, msu })
    }

    /// Encode to bytes: 1 byte priority + MSU.
    pub fn encode(&self) -> (r: Vec<u8>)
        ensures
            r@ == user_data_bytes(self.priority, self.msu@),
    {
        let mut buf: Vec<u8> = Vec::new();
        let p = self.priority;
        assert(p & 0x03 == p % 4) by (bit_vector);
        buf.push(p & 0x03);
        buf.extend_from_slice(self.msu.as_slice());
        assert(buf@ =~= user_data_bytes(self.priority, self.msu@));
        buf
    }

    /// The display form, e.g. "User Data [priority=1, msu_len=10]".
    pub fn to_string(&self) -> (r: String)
        ensures
            r@ == user_data_text(self.priority, self.msu@.len()),
    {
        let mut r = String::from_str("User Data [priority=");
        append_decimal(&mut r, self.priority as u64);
        r.append(", msu_len=");
        append_decimal(&mut r, self.msu.len() as u64);
        r.append("]");
        r
    }
}

/// Decoding the encoding of a User Data body gives back its MSU and its
/// priority cut to two bits (the priority itself when it is below 4).
pub proof fn lemma_user_data_roundtrip(priority: u8, msu: Seq<u8>)
    ensures
        user_data_decode(user_data_bytes(priority, msu)) == Ok::<(u8, Seq<u8>), M2paError>(
            ((priority % 4) as u8, msu),
        ),
        priority < 4 ==> (priority % 4) as u8 == priority,
{
    let b = user_data_bytes(priority, msu);
    assert(b.subrange(1, b.len() as int) =~= msu);
}

} // verus!
