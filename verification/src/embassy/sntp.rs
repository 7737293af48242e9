//! SNTP packet encoding and decoding.

use vstd::prelude::*;

verus! {

/// NTP timestamp delta between 1900-01-01 and 1970-01-01 in seconds.
pub const NTP_UNIX_DELTA: u64 = 2_208_988_800;

/// Errors returned by SNTP operations.
#[derive(Debug, Clone, Copy, PartialEq, Eq, Structural)]
pub enum SntpError {
    /// The SNTP client failed to resolve or communicate.
    NetworkFailure,
    /// The SNTP response payload was invalid.
    InvalidResponse,
}

/// SNTP client: fetches the current UTC epoch from a time server. The
/// runtime's client sends [`build_request_packet`] and reads the reply with
/// [`parse_response_packet`].
pub trait SntpClient {
    /// Fetch the current UTC epoch.
    fn sync(&mut self) -> Result<u64, SntpError>;
}

/// A request packet: 48 bytes, all zero but the first, `0x23` (leap
/// indicator 0, version 4, mode 3 = client).
pub open spec fn is_request_packet(p: Seq<u8>) -> bool {
    &&& p.len() == 48
    &&& p[0] == 0x23
    &&& forall|i: int| 1 <= i < 48 ==> p[i] == 0
}

/// The transmit timestamp's seconds: the big-endian `u32` in bytes 40 to 43.
pub open spec fn transmit_seconds(p: Seq<u8>) -> int {
    p[40] * 0x100_0000 + p[41] * 0x1_0000 + p[42] * 0x100 + p[43]
}

/// What a response packet says: too short (under 48 bytes) or dated before
/// 1970 is invalid; otherwise the UNIX epoch of its transmit timestamp.
pub open spec fn response_epoch(p: Seq<u8>) -> Result<u64, SntpError> {
    if p.len() < 48 {
        Err(SntpError::InvalidResponse)
    } else if transmit_seconds(p) < NTP_UNIX_DELTA {
        Err(SntpError::InvalidResponse)
    } else {
        Ok((transmit_seconds(p) - NTP_UNIX_DELTA) as u64)
    }
}

/// Build an SNTP request packet.
pub fn build_request_packet() -> (packet: [u8; 48])
    ensures
        is_request_packet(packet@),
{
    let mut packet = [0u8; 48];
    packet[0] = 0x23;
    packet
}

/// Parse an SNTP response packet and extract the UNIX epoch.
pub fn parse_response_packet(packet: &[u8]) -> (r: Result<u64, SntpError>)
    ensures
        r == response_epoch(packet@),
{
    if packet.len() < 48 {
        return Err(SntpError::InvalidResponse);
    }
    let seconds: u64 = (packet[40] as u64) * 0x100_0000 + (packet[41] as u64) * 0x1_0000
        + (packet[42] as u64) * 0x100 + (packet[43] as u64);
    if seconds < NTP_UNIX_DELTA {
        return Err(SntpError::InvalidResponse);
    }
    Ok(seconds - NTP_UNIX_DELTA)
}

} // verus!
