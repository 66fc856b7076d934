use vstd::prelude::*;

use crate::error::M2paError;
use crate::wire::{be32_at, be32_bytes, lemma_be32_bytes_value};

verus! {

/// Link Status states as defined in RFC 4165 Section 3.3.
///
/// ```text
///   Value       Description
///   -----       -----------
///     1         Alignment
///     2         Proving Normal
///     3         Proving Emergency
///     4         Ready
///     5         Processor Outage
///     6         Processor Recovered
///     7         Busy
///     8         Busy Ended
/// ```
///
/// The variants carry no explicit discriminants, so `state as u32` is the
/// variant's position (0..=7), not its wire value; the wire value is
/// [`LinkState::to_u32`] (1..=8).
#[derive(Debug, Clone, Copy, PartialEq, Eq, Structural)]
pub enum LinkState {
    Alignment,
    ProvingNormal,
    ProvingEmergency,
    Ready,
    ProcessorOutage,
    ProcessorRecovered,
    Busy,
    BusyEnded,
}

/// The on-wire value of a Link Status state.
pub open spec fn link_state_value(s: LinkState) -> u32 {
    match s {
        LinkState::Alignment => 1,
        LinkState::ProvingNormal => 2,
        LinkState::ProvingEmergency => 3,
        LinkState::Ready => 4,
        LinkState::ProcessorOutage => 5,
        LinkState::ProcessorRecovered => 6,
        LinkState::Busy => 7,
        LinkState::BusyEnded => 8,
    }
}

/// The state whose on-wire value is `v`, if any (values 1 through 8).
pub open spec fn link_state_of_value(v: u32) -> Option<LinkState> {
    if v == 1 {
        Some(LinkState::Alignment)
    } else if v == 2 {
        Some(LinkState::ProvingNormal)
    } else if v == 3 {
        Some(LinkState::ProvingEmergency)
    } else if v == 4 {
        Some(LinkState::Ready)
    } else if v == 5 {
        Some(LinkState::ProcessorOutage)
    } else if v == 6 {
        Some(LinkState::ProcessorRecovered)
    } else if v == 7 {
        Some(LinkState::Busy)
    } else if v == 8 {
        Some(LinkState::BusyEnded)
    } else {
        None
    }
}

/// The display name of a Link Status state.
pub open spec fn link_state_name(s: LinkState) -> Seq<char> {
    match s {
        LinkState::Alignment => "Alignment"@,
        LinkState::ProvingNormal => "Proving Normal"@,
        LinkState::ProvingEmergency => "Proving Emergency"@,
        LinkState::Ready => "Ready"@,
        LinkState::ProcessorOutage => "Processor Outage"@,
        LinkState::ProcessorRecovered => "Processor Recovered"@,
        LinkState::Busy => "Busy"@,
        LinkState::BusyEnded => "Busy Ended"@,
    }
}

impl LinkState {
    /// The state with on-wire value `value`, or `InvalidLinkStatus(value)`
    /// when `value` is not in 1..=8.
    pub fn from_u32(value: u32) -> (r: Result<Self, M2paError>)
        ensures
            match link_state_of_value(value) {
                Some(s) => r == Ok::<LinkState, M2paError>(s),
                None => r == Err::<LinkState, M2paError>(M2paError::InvalidLinkStatus(value)),
            },
            r is Ok <==> 1 <= value <= 8,
    {
        match value {
            1 => Ok(Self::Alignment),
            2 => Ok(Self::ProvingNormal),
            3 => Ok(Self::ProvingEmergency),
            4 => Ok(Self::Ready),
            5 => Ok(Self::ProcessorOutage),
            6 => Ok(Self::ProcessorRecovered),
            7 => Ok(Self::Busy),
            8 => Ok(Self::BusyEnded),
            other => Err(M2paError::InvalidLinkStatus(other)),
        }
    }

    /// The on-wire value of this state (1..=8).
    pub fn to_u32(self) -> (r: u32)
        ensures
            r == link_state_value(self),
    {
        match self {
            Self::Alignment => 1,
            Self::ProvingNormal => 2,
            Self::ProvingEmergency => 3,
            Self::Ready => 4,
            Self::ProcessorOutage => 5,
            Self::ProcessorRecovered => 6,
            Self::Busy => 7,
            Self::BusyEnded => 8,
        }
    }

    /// The display name of this state, e.g. "Proving Emergency".
    pub fn to_string(&self) -> (r: String)
        ensures
            r@ == link_state_name(*self),
    {
        match self {
            Self::Alignment => String::from_str("Alignment"),
            Self::ProvingNormal => String::from_str("Proving Normal"),
            Self::ProvingEmergency => String::from_str("Proving Emergency"),
            Self::Ready => String::from_str("Ready"),
            Self::ProcessorOutage => String::from_str("Processor Outage"),
            Self::ProcessorRecovered => String::from_str("Processor Recovered"),
            Self::Busy => String::from_str("Busy"),
            Self::BusyEnded => String::from_str("Busy Ended"),
        }
    }
}

/// Every state's on-wire value maps back to that state.
pub proof fn lemma_link_state_value_roundtrip(s: LinkState)
    ensures
        link_state_of_value(link_state_value(s)) == Some(s),
        1 <= link_state_value(s) <= 8,
{
}

/// Every value that names a state is that state's on-wire value.
pub proof fn lemma_link_state_of_value_roundtrip(v: u32)
    ensures
        link_state_of_value(v) matches Some(s) ==> link_state_value(s) == v,
        link_state_of_value(v) is Some <==> 1 <= v <= 8,
{
}

/// Link Status message body (follows M2PA header).
///
/// ```text
/// +-+-+-+-+-+-+-+-+-+-+-+-+-+-+-+-+-+-+-+-+-+-+-+-+-+-+-+-+-+-+-+-+
/// |                         State                                 |
/// +-+-+-+-+-+-+-+-+-+-+-+-+-+-+-+-+-+-+-+-+-+-+-+-+-+-+-+-+-+-+-+-+
/// |                       Filler                                  |
/// +-+-+-+-+-+-+-+-+-+-+-+-+-+-+-+-+-+-+-+-+-+-+-+-+-+-+-+-+-+-+-+-+
/// ```
///
/// Link Status messages are sent on SCTP stream 0.
#[derive(Debug, Clone, Copy, PartialEq, Eq, Structural)]
pub struct LinkStatusMessage {
    pub state: LinkState,
}

/// What decoding a Link Status body yields: the state read big-endian from
/// its first four octets; anything after them (filler) is ignored.
pub open spec fn link_status_decode(b: Seq<u8>) -> Result<LinkStatusMessage, M2paError> {
    if b.len() < 4 {
        Err(M2paError::TooShort { expected: 4, actual: b.len() as usize })
    } else {
        match link_state_of_value(be32_at(b, 0) as u32) {
            Some(s) => Ok(LinkStatusMessage { state: s }),
            None => Err(M2paError::InvalidLinkStatus(be32_at(b, 0) as u32)),
        }
    }
}

/// The four octets a Link Status body encodes to.
pub open spec fn link_status_bytes(m: LinkStatusMessage) -> Seq<u8> {
    be32_bytes(link_state_value(m.state))
}

/// The display form of a Link Status body.
pub open spec fn link_status_text(m: LinkStatusMessage) -> Seq<char> {
    "Link Status [state="@ + link_state_name(m.state) + "]"@
}

impl LinkStatusMessage {
    /// SCTP stream used for Link Status messages.
    pub const SCTP_STREAM: u16 = 0;

    pub fn new(state: LinkState) -> (r: Self)
        ensures
            r.state == state,
    {
        Self { state }
    }

    /// Decode from the 4-byte state field (after M2PA header).
    pub fn decode(bytes: &[u8]) -> (r: Result<Self, M2paError>)
        ensures
            r == link_status_decode(bytes@),
    {
        if bytes.len() < 4 {
            return Err(M2paError::TooShort { expected: 4, actual: bytes.len() });
        }
        let value = (bytes[0] as u32) * 0x1000000 + (bytes[1] as u32) * 0x10000 + (bytes[2]
            as u32) * 0x100 + bytes[3] as u32;
        let state = LinkState::from_u32(value)?;
        Ok(Self { state })
    }

    /// Encode the state field to 4 bytes (big-endian).
    pub fn encode(&self) -> (r: [u8; 4])
        ensures
            r@ == link_status_bytes(*self),
    {
        let v = self.state.to_u32();
        let r = [
            (v / 0x1000000) as u8,
            ((v / 0x10000) % 0x100) as u8,
            ((v / 0x100) % 0x100) as u8,
            (v % 0x100) as u8,
        ];
        assert(r@ =~= be32_bytes(v));
        r
    }

    /// The display form, e.g. "Link Status [state=Ready]".
    pub fn to_string(&self) -> (r: String)
        ensures
            r@ == link_status_text(*self),
    {
        let mut r = String::from_str("Link Status [state=");
        let name = self.state.to_string();
        r.append(name.as_str());
        r.append("]");
        r
    }
}

/// Filler is ignored: decoding a Link Status body gives the same result as
/// decoding its first four octets alone, and a successful decode yields the
/// state whose wire value those four octets hold.
pub proof fn lemma_link_status_ignores_filler(b: Seq<u8>)
    requires
        b.len() >= 4,
    ensures
        link_status_decode(b) == link_status_decode(b.subrange(0, 4)),
        link_status_decode(b) matches Ok(m) ==> link_state_value(m.state) == be32_at(b, 0),
{
    let h = b.subrange(0, 4);
    assert(be32_at(h, 0) == be32_at(b, 0));
}

/// Decoding the encoding of a Link Status body gives the body back.
pub proof fn lemma_link_status_roundtrip(m: LinkStatusMessage)
    ensures
        link_status_bytes(m).len() == 4,
        link_status_decode(link_status_bytes(m)) == Ok::<LinkStatusMessage, M2paError>(m),
{
    lemma_be32_bytes_value(link_state_value(m.state));
}

} // verus!
