use vstd::prelude::*;

use crate::error::M2paError;
use crate::wire::{be24_at, be24_bytes, be32_at, be32_bytes, lemma_be24_bytes_value, lemma_be32_bytes_value};
use crate::text::{append_decimal, decimal};
use crate::{MESSAGE_CLASS_M2PA, MESSAGE_TYPE_LINK_STATUS, MESSAGE_TYPE_USER_DATA};

verus! {

broadcast use vstd::array::array_len_matches_n;

/// Common Message Header for all M2PA messages (8 bytes).
///
/// ```text
/// 0                   1                   2                   3
/// 0 1 2 3 4 5 6 7 8 9 0 1 2 3 4 5 6 7 8 9 0 1 2 3 4 5 6 7 8 9 0 1
/// +-+-+-+-+-+-+-+-+-+-+-+-+-+-+-+-+-+-+-+-+-+-+-+-+-+-+-+-+-+-+-+-+
/// |    Version    |     Spare     | Message Class | Message Type  |
/// +-+-+-+-+-+-+-+-+-+-+-+-+-+-+-+-+-+-+-+-+-+-+-+-+-+-+-+-+-+-+-+-+
/// |                        Message Length                         |
/// +-+-+-+-+-+-+-+-+-+-+-+-+-+-+-+-+-+-+-+-+-+-+-+-+-+-+-+-+-+-+-+-+
/// ```
///
/// The header is kept as its eight wire octets, most significant field
/// first; the accessors read and write the fields in place.
/// See <https://www.rfc-editor.org/rfc/rfc4165.html#section-2.1>
#[derive(Clone, Copy)]
pub struct CommonMessageHeader {
    bytes: [u8; 8],
}

impl View for CommonMessageHeader {
    type V = Seq<u8>;

    closed spec fn view(&self) -> Seq<u8> {
        self.bytes@
    }
}

/// What validating a common header (given as its eight octets) yields: the
/// first RFC 4165 constraint it breaks, checked in the order version, spare,
/// class, type; `Ok(())` when it breaks none.
pub open spec fn common_header_check(h: Seq<u8>) -> Result<(), M2paError> {
    if h[0] != 1 {
        Err(M2paError::InvalidVersion(h[0]))
    } else if h[1] != 0 {
        Err(M2paError::InvalidSpare(h[1]))
    } else if h[2] != MESSAGE_CLASS_M2PA {
        Err(M2paError::InvalidMessageClass(h[2]))
    } else if h[3] != MESSAGE_TYPE_USER_DATA && h[3] != MESSAGE_TYPE_LINK_STATUS {
        Err(M2paError::InvalidMessageType(h[3]))
    } else {
        Ok(())
    }
}

impl CommonMessageHeader {
    /// Every header is eight octets long.
    pub proof fn lemma_len(self)
        ensures
            self@.len() == 8,
    {
    }

    /// A header with every field zero.
    pub fn new() -> (r: Self)
        ensures
            r@ == seq![0u8, 0, 0, 0, 0, 0, 0, 0],
    {
        let r = CommonMessageHeader { bytes: [0u8; 8] };
        assert(r@ =~= seq![0u8, 0, 0, 0, 0, 0, 0, 0]);
        r
    }

    /// Take eight wire octets as a header, unchecked.
    pub fn from_bytes(bytes: [u8; 8]) -> (r: Self)
        ensures
            r@ == bytes@,
    {
        CommonMessageHeader { bytes }
    }

    /// The header's eight wire octets.
    pub fn into_bytes(self) -> (r: [u8; 8])
        ensures
            r@ == self@,
    {
        self.bytes
    }

    /// The version octet.
    pub fn version(&self) -> (r: u8)
        ensures
            r == self@[0],
    {
        self.bytes[0]
    }

    /// The spare octet.
    pub fn spare(&self) -> (r: u8)
        ensures
            r == self@[1],
    {
        self.bytes[1]
    }

    /// The message class octet.
    pub fn message_class(&self) -> (r: u8)
        ensures
            r == self@[2],
    {
        self.bytes[2]
    }

    /// The message type octet.
    pub fn message_type(&self) -> (r: u8)
        ensures
            r == self@[3],
    {
        self.bytes[3]
    }

    /// The 32-bit message length, read big-endian from octets 4..8.
    pub fn message_length(&self) -> (r: u32)
        ensures
            r == be32_at(self@, 4),
    {
        (self.bytes[4] as u32) * 0x1000000 + (self.bytes[5] as u32) * 0x10000 + (self.bytes[6]
            as u32) * 0x100 + self.bytes[7] as u32
    }

    /// This header with the version octet replaced.
    pub fn with_version(self, version: u8) -> (r: Self)
        ensures
            r@ == self@.update(0, version),
    {
        let mut r = self;
        r.bytes[0] = version;
        r
    }

    /// This header with the message class octet replaced.
    pub fn with_message_class(self, message_class: u8) -> (r: Self)
        ensures
            r@ == self@.update(2, message_class),
    {
        let mut r = self;
        r.bytes[2] = message_class;
        r
    }

    /// This header with the message type octet replaced.
    pub fn with_message_type(self, message_type: u8) -> (r: Self)
        ensures
            r@ == self@.update(3, message_type),
    {
        let mut r = self;
        r.bytes[3] = message_type;
        r
    }

    /// This header with the message length replaced (octets 4..8, big-endian).
    pub fn with_message_length(self, message_length: u32) -> (r: Self)
        ensures
            r@ == self@.subrange(0, 4) + be32_bytes(message_length),
            be32_at(r@, 4) == message_length,
    {
        let mut r = self;
        r.bytes[4] = (message_length / 0x1000000) as u8;
        r.bytes[5] = ((message_length / 0x10000) % 0x100) as u8;
        r.bytes[6] = ((message_length / 0x100) % 0x100) as u8;
        r.bytes[7] = (message_length % 0x100) as u8;
        proof {
            lemma_be32_bytes_value(message_length);
        }
        assert(r@ =~= self@.subrange(0, 4) + be32_bytes(message_length));
        r
    }

    /// Replace the version octet in place.
    pub fn set_version(&mut self, version: u8)
        ensures
            final(self)@ == old(self)@.update(0, version),
    {
        self.bytes[0] = version;
    }

    /// Replace the message class octet in place.
    pub fn set_message_class(&mut self, message_class: u8)
        ensures
            final(self)@ == old(self)@.update(2, message_class),
    {
        self.bytes[2] = message_class;
    }

    /// Replace the message type octet in place.
    pub fn set_message_type(&mut self, message_type: u8)
        ensures
            final(self)@ == old(self)@.update(3, message_type),
    {
        self.bytes[3] = message_type;
    }

    /// Replace the message length in place (octets 4..8, big-endian).
    pub fn set_message_length(&mut self, message_length: u32)
        ensures
            final(self)@ == old(self)@.subrange(0, 4) + be32_bytes(message_length),
            be32_at(final(self)@, 4) == message_length,
    {
        *self = self.with_message_length(message_length);
    }

    /// Validate a header against RFC 4165 constraints.
    ///
    /// Returns the header unchanged when version = 1, spare = 0, class = 11
    /// and type is 1 or 2; otherwise the error for the first field that is
    /// wrong, in that order.
    pub fn validate(header: CommonMessageHeader) -> (r: Result<CommonMessageHeader, M2paError>)
        ensures
            match common_header_check(header@) {
                Ok(()) => r matches Ok(h) && h@ == header@,
                Err(e) => r == Err::<CommonMessageHeader, M2paError>(e),
            },
    {
        if header.version() != 1 {
            return Err(M2paError::InvalidVersion(header.version()));
        }
        if header.spare() != 0 {
            return Err(M2paError::InvalidSpare(header.spare()));
        }
        if header.message_class() != MESSAGE_CLASS_M2PA {
            return Err(M2paError::InvalidMessageClass(header.message_class()));
        }
        if header.message_type() != MESSAGE_TYPE_USER_DATA && header.message_type()
            != MESSAGE_TYPE_LINK_STATUS {
            return Err(M2paError::InvalidMessageType(header.message_type()));
        }
        Ok(header)
    }

    /// Decode and validate from an 8-byte array.
    pub fn decode(bytes: [u8; 8]) -> (r: Result<CommonMessageHeader, M2paError>)
        ensures
            match common_header_check(bytes@) {
                Ok(()) => r matches Ok(h) && h@ == bytes@,
                Err(e) => r == Err::<CommonMessageHeader, M2paError>(e),
            },
    {
        CommonMessageHeader::validate(CommonMessageHeader::from_bytes(bytes))
    }

    /// Validate and encode to an 8-byte array.
    pub fn encode(self) -> (r: Result<[u8; 8], M2paError>)
        ensures
            match common_header_check(self@) {
                Ok(()) => r matches Ok(b) && b@ == self@,
                Err(e) => r == Err::<[u8; 8], M2paError>(e),
            },
    {
        CommonMessageHeader::validate(self)?;
        Ok(self.into_bytes())
    }
}

impl CommonMessageHeader {
    /// The display form, e.g. "M2PA Common Message Header [version=1, spare=0,
    /// class=11, type=2, length=20]".
    pub fn to_string(&self) -> (r: String)
        ensures
            r@ == "M2PA Common Message Header [version="@ + decimal(self@[0] as nat) + ", spare="@
                + decimal(self@[1] as nat) + ", class="@ + decimal(self@[2] as nat) + ", type="@
                + decimal(self@[3] as nat) + ", length="@ + decimal(be32_at(self@, 4) as nat)
                + "]"@,
    {
        let mut r = String::from_str("M2PA Common Message Header [version=");
        append_decimal(&mut r, self.version() as u64);
        r.append(", spare=");
        append_decimal(&mut r, self.spare() as u64);
        r.append(", class=");
        append_decimal(&mut r, self.message_class() as u64);
        r.append(", type=");
        append_decimal(&mut r, self.message_type() as u64);
        r.append(", length=");
        append_decimal(&mut r, self.message_length() as u64);
        r.append("]");
        r
    }
}

/// Each setter of the common header writes its own field and no other, and
/// a header passes validation exactly when version = 1, spare = 0,
/// class = 11 and type is 1 or 2.
pub proof fn lemma_common_header_fields(
    h: Seq<u8>,
    version: u8,
    message_class: u8,
    message_type: u8,
    message_length: u32,
)
    requires
        h.len() == 8,
    ensures
        ({
            let h2 = h.update(0, version).update(2, message_class).update(3, message_type).subrange(
                0,
                4,
            ) + be32_bytes(message_length);
            &&& h2.len() == 8
            &&& h2[0] == version
            &&& h2[1] == h[1]
            &&& h2[2] == message_class
            &&& h2[3] == message_type
            &&& be32_at(h2, 4) == message_length
            &&& (common_header_check(h2) is Ok <==> (version == 1 && h[1] == 0 && message_class
                == 11 && (message_type == 1 || message_type == 2)))
        }),
{
    lemma_be32_bytes_value(message_length);
}

impl Default for CommonMessageHeader {
    fn default() -> (r: Self)
        ensures
            r@ == seq![0u8, 0, 0, 0, 0, 0, 0, 0],
    {
        Self::new()
    }
}

/// M2PA-specific message header (8 bytes).
///
/// ```text
/// 0                   1                   2                   3
/// 0 1 2 3 4 5 6 7 8 9 0 1 2 3 4 5 6 7 8 9 0 1 2 3 4 5 6 7 8 9 0 1
/// +-+-+-+-+-+-+-+-+-+-+-+-+-+-+-+-+-+-+-+-+-+-+-+-+-+-+-+-+-+-+-+-+
/// |     unused    |                      BSN                      |
/// +-+-+-+-+-+-+-+-+-+-+-+-+-+-+-+-+-+-+-+-+-+-+-+-+-+-+-+-+-+-+-+-+
/// |     unused    |                      FSN                      |
/// +-+-+-+-+-+-+-+-+-+-+-+-+-+-+-+-+-+-+-+-+-+-+-+-+-+-+-+-+-+-+-+-+
/// ```
///
/// Kept as its eight wire octets; the unused octets are carried through
/// unchanged. See <https://www.rfc-editor.org/rfc/rfc4165.html#section-2.2>
pub struct M2PAHeader {
    bytes: [u8; 8],
}

impl View for M2PAHeader {
    type V = Seq<u8>;

    closed spec fn view(&self) -> Seq<u8> {
        self.bytes@
    }
}

impl M2PAHeader {
    /// Every header is eight octets long.
    pub proof fn lemma_len(self)
        ensures
            self@.len() == 8,
    {
    }

    /// A header with every octet zero (BSN = FSN = 0).
    pub fn new() -> (r: Self)
        ensures
            r@ == seq![0u8, 0, 0, 0, 0, 0, 0, 0],
    {
        let r = M2PAHeader { bytes: [0u8; 8] };
        assert(r@ =~= seq![0u8, 0, 0, 0, 0, 0, 0, 0]);
        r
    }

    /// Take eight wire octets as a header.
    pub fn from_bytes(bytes: [u8; 8]) -> (r: Self)
        ensures
            r@ == bytes@,
    {
        M2PAHeader { bytes }
    }

    /// The header's eight wire octets.
    pub fn into_bytes(self) -> (r: [u8; 8])
        ensures
            r@ == self@,
    {
        self.bytes
    }

    /// Backward Sequence Number: the 24-bit value in octets 1..4.
    pub fn bsn(&self) -> (r: u32)
        ensures
            r == be24_at(self@, 1),
            r < 0x1000000,
    {
        (self.bytes[1] as u32) * 0x10000 + (self.bytes[2] as u32) * 0x100 + self.bytes[3] as u32
    }

    /// Forward Sequence Number: the 24-bit value in octets 5..8.
    pub fn fsn(&self) -> (r: u32)
        ensures
            r == be24_at(self@, 5),
            r < 0x1000000,
    {
        (self.bytes[5] as u32) * 0x10000 + (self.bytes[6] as u32) * 0x100 + self.bytes[7] as u32
    }

    /// This header with the BSN replaced; the value must fit in 24 bits.
    pub fn with_bsn(self, bsn: u32) -> (r: Self)
        requires
            bsn < 0x1000000,
        ensures
            r@ == self@.subrange(0, 1) + be24_bytes(bsn) + self@.subrange(4, 8),
            be24_at(r@, 1) == bsn,
    {
        let mut r = self;
        r.bytes[1] = ((bsn / 0x10000) % 0x100) as u8;
        r.bytes[2] = ((bsn / 0x100) % 0x100) as u8;
        r.bytes[3] = (bsn % 0x100) as u8;
        proof {
            lemma_be24_bytes_value(bsn);
        }
        assert(r@ =~= self@.subrange(0, 1) + be24_bytes(bsn) + self@.subrange(4, 8));
        r
    }

    /// This header with the FSN replaced; the value must fit in 24 bits.
    pub fn with_fsn(self, fsn: u32) -> (r: Self)
        requires
            fsn < 0x1000000,
        ensures
            r@ == self@.subrange(0, 5) + be24_bytes(fsn),
            be24_at(r@, 5) == fsn,
    {
        let mut r = self;
        r.bytes[5] = ((fsn / 0x10000) % 0x100) as u8;
        r.bytes[6] = ((fsn / 0x100) % 0x100) as u8;
        r.bytes[7] = (fsn % 0x100) as u8;
        proof {
            lemma_be24_bytes_value(fsn);
        }
        assert(r@ =~= self@.subrange(0, 5) + be24_bytes(fsn));
        r
    }
}

impl M2PAHeader {
    /// The display form, e.g. "M2PA Header [bsn=12, fsn=11]".
    pub fn to_string(&self) -> (r: String)
        ensures
            r@ == "M2PA Header [bsn="@ + decimal(be24_at(self@, 1) as nat) + ", fsn="@ + decimal(
                be24_at(self@, 5) as nat,
            ) + "]"@,
    {
        let mut r = String::from_str("M2PA Header [bsn=");
        append_decimal(&mut r, self.bsn() as u64);
        r.append(", fsn=");
        append_decimal(&mut r, self.fsn() as u64);
        r.append("]");
        r
    }
}

/// Setting the BSN and then the FSN of an M2PA header leaves each readable
/// as set, and the unused octets as they were.
pub proof fn lemma_m2pa_header_fields(h: Seq<u8>, bsn: u32, fsn: u32)
    requires
        h.len() == 8,
        bsn < 0x1000000,
        fsn < 0x1000000,
    ensures
        ({
            let h2 = (h.subrange(0, 1) + be24_bytes(bsn) + h.subrange(4, 8)).subrange(0, 5)
                + be24_bytes(fsn);
            &&& h2.len() == 8
            &&& be24_at(h2, 1) == bsn
            &&& be24_at(h2, 5) == fsn
            &&& h2[0] == h[0]
            &&& h2[4] == h[4]
        }),
{
    lemma_be24_bytes_value(bsn);
    lemma_be24_bytes_value(fsn);
}

/// A value too large for the bit field it was to be written to.
#[derive(Debug, Clone, Copy, PartialEq, Eq, Structural)]
pub struct OutOfBounds;

impl M2PAHeader {
    /// Replace the BSN in place; the value must fit in 24 bits.
    pub fn set_bsn(&mut self, bsn: u32)
        requires
            bsn < 0x1000000,
        ensures
            final(self)@ == old(self)@.subrange(0, 1) + be24_bytes(bsn) + old(self)@.subrange(4, 8),
            be24_at(final(self)@, 1) == bsn,
    {
        let bytes = self.bytes;
        *self = M2PAHeader { bytes }.with_bsn(bsn);
    }

    /// Replace the FSN in place; the value must fit in 24 bits.
    pub fn set_fsn(&mut self, fsn: u32)
        requires
            fsn < 0x1000000,
        ensures
            final(self)@ == old(self)@.subrange(0, 5) + be24_bytes(fsn),
            be24_at(final(self)@, 5) == fsn,
    {
        let bytes = self.bytes;
        *self = M2PAHeader { bytes }.with_fsn(fsn);
    }

    /// This header with the BSN replaced, or `OutOfBounds` (and the header
    /// dropped) when the value does not fit in 24 bits.
    pub fn with_bsn_checked(self, bsn: u32) -> (r: Result<Self, OutOfBounds>)
        ensures
            bsn < 0x1000000 ==> (r matches Ok(h) && h@ == self@.subrange(0, 1) + be24_bytes(bsn)
                + self@.subrange(4, 8)),
            bsn >= 0x1000000 ==> r == Err::<Self, OutOfBounds>(OutOfBounds),
    {
        if bsn < 0x1000000 {
            Ok(self.with_bsn(bsn))
        } else {
            Err(OutOfBounds)
        }
    }

    /// This header with the FSN replaced, or `OutOfBounds` (and the header
    /// dropped) when the value does not fit in 24 bits.
    pub fn with_fsn_checked(self, fsn: u32) -> (r: Result<Self, OutOfBounds>)
        ensures
            fsn < 0x1000000 ==> (r matches Ok(h) && h@ == self@.subrange(0, 5) + be24_bytes(fsn)),
            fsn >= 0x1000000 ==> r == Err::<Self, OutOfBounds>(OutOfBounds),
    {
        if fsn < 0x1000000 {
            Ok(self.with_fsn(fsn))
        } else {
            Err(OutOfBounds)
        }
    }

    /// Replace the BSN in place, or leave the header unchanged and return
    /// `OutOfBounds` when the value does not fit in 24 bits.
    pub fn set_bsn_checked(&mut self, bsn: u32) -> (r: Result<(), OutOfBounds>)
        ensures
            bsn < 0x1000000 ==> r is Ok && final(self)@ == old(self)@.subrange(0, 1) + be24_bytes(
                bsn,
            ) + old(self)@.subrange(4, 8),
            bsn >= 0x1000000 ==> r == Err::<(), OutOfBounds>(OutOfBounds) && final(self)@ == old(
                self,
            )@,
    {
        if bsn < 0x1000000 {
            self.set_bsn(bsn);
            Ok(())
        } else {
            Err(OutOfBounds)
        }
    }

    /// Replace the FSN in place, or leave the header unchanged and return
    /// `OutOfBounds` when the value does not fit in 24 bits.
    pub fn set_fsn_checked(&mut self, fsn: u32) -> (r: Result<(), OutOfBounds>)
        ensures
            fsn < 0x1000000 ==> r is Ok && final(self)@ == old(self)@.subrange(0, 5) + be24_bytes(
                fsn,
            ),
            fsn >= 0x1000000 ==> r == Err::<(), OutOfBounds>(OutOfBounds) && final(self)@ == old(
                self,
            )@,
    {
        if fsn < 0x1000000 {
            self.set_fsn(fsn);
            Ok(())
        } else {
            Err(OutOfBounds)
        }
    }
}

impl Default for M2PAHeader {
    fn default() -> (r: Self)
        ensures
            r@ == seq![0u8, 0, 0, 0, 0, 0, 0, 0],
    {
        Self::new()
    }
}

/// Decode an 8-byte array into an M2PAHeader.
pub fn decode_m2pa_header(encoded: [u8; 8]) -> (r: M2PAHeader)
    ensures
        r@ == encoded@,
{
    M2PAHeader::from_bytes(encoded)
}

/// Encode an M2PAHeader into an 8-byte array.
pub fn encode_m2pa_header(m2pa_header: M2PAHeader) -> (r: [u8; 8])
    ensures
        r@ == m2pa_header@,
{
    m2pa_header.into_bytes()
}

} // verus!
