//! Decoding of a captured Ethernet frame into link-layer addresses and, for
//! frames tagged as IPv4, the addresses and protocol number of the IPv4 header.
//!
//! Frame layout, by byte offset:
//!
//! | bytes    | field                                            |
//! |----------|--------------------------------------------------|
//! | 0..6     | destination hardware address                     |
//! | 6..12    | source hardware address                          |
//! | 12..14   | EtherType, big-endian                            |
//! | 14       | IPv4 version (high nibble), header length in 32-bit words (low nibble) |
//! | 23       | IPv4 protocol number                             |
//! | 26..30   | IPv4 source address                              |
//! | 30..34   | IPv4 destination address                         |

use vstd::prelude::*;
use crate::address::{Ipv4Addr, MacAddr};

verus! {

/// Length of the Ethernet header: two hardware addresses and the EtherType.
pub const ETHERNET_HEADER_LEN: usize = 14;

/// The EtherType that tags an IPv4 payload.
pub const ETHERTYPE_IPV4: u16 = 0x0800;

/// Length of the fixed part of an IPv4 header.
pub const IPV4_FIXED_HEADER_LEN: usize = 20;

/// The fields read from one IPv4-over-Ethernet frame.
#[derive(Clone, Copy, Debug, PartialEq, Eq, Structural)]
pub struct DecodedHeader {
    pub src_mac: MacAddr,
    pub dst_mac: MacAddr,
    pub src_ip: Ipv4Addr,
    pub dst_ip: Ipv4Addr,
    /// IANA protocol number of the payload that follows the IPv4 header.
    pub protocol: u8,
}

/// What a frame with a complete Ethernet header decodes to.
#[derive(Clone, Copy, Debug, PartialEq, Eq, Structural)]
pub enum Decoded {
    /// An IPv4 frame with a complete header.
    Header(DecodedHeader),
    /// A frame whose EtherType is not IPv4; its payload is never looked at.
    Unsupported { src_mac: MacAddr, dst_mac: MacAddr, ethertype: u16 },
}

/// A frame that ends before the header it announces.
#[derive(Clone, Copy, Debug, PartialEq, Eq, Structural)]
pub struct MalformedHeader {
    /// Bytes the header calls for, counted from its first byte.
    pub needed: usize,
    /// Bytes captured from the header's first byte on.
    pub available: usize,
}

/// The hardware address stored in the six bytes from `at` on.
pub open spec fn mac_at(frame: Seq<u8>, at: int) -> MacAddr {
    MacAddr(frame[at], frame[at + 1], frame[at + 2], frame[at + 3], frame[at + 4], frame[at + 5])
}

/// The IPv4 address stored in the four bytes from `at` on.
pub open spec fn ipv4_at(frame: Seq<u8>, at: int) -> Ipv4Addr {
    Ipv4Addr(frame[at], frame[at + 1], frame[at + 2], frame[at + 3])
}

/// The big-endian EtherType in bytes 12 and 13.
pub open spec fn ethertype_of(frame: Seq<u8>) -> int {
    frame[12] as int * 256 + frame[13] as int
}

/// Whether the frame has a complete Ethernet header tagged as IPv4.
pub open spec fn is_ipv4_tagged(frame: Seq<u8>) -> bool {
    frame.len() >= 14 && ethertype_of(frame) == 0x0800
}

/// Bytes captured after the Ethernet header.
pub open spec fn payload_len(frame: Seq<u8>) -> int {
    frame.len() - 14
}

/// The header length that the IPv4 header declares: its low nibble counts
/// 32-bit words.
pub open spec fn declared_header_len(frame: Seq<u8>) -> int
    recommends
        frame.len() > 14,
{
    (frame[14] as int % 16) * 4
}

/// Bytes the IPv4 header calls for: its declared length, and never less than
/// the fixed part. With no payload byte captured nothing is declared.
pub open spec fn needed_header_len(frame: Seq<u8>) -> int {
    if frame.len() <= 14 || declared_header_len(frame) < 20 {
        20
    } else {
        declared_header_len(frame)
    }
}

/// An IPv4-tagged frame that holds all of the header it declares.
pub open spec fn well_formed_ipv4(frame: Seq<u8>) -> bool {
    is_ipv4_tagged(frame) && needed_header_len(frame) <= payload_len(frame)
}

/// The header fields of an IPv4 frame, each at its offset.
pub open spec fn header_of(frame: Seq<u8>) -> DecodedHeader {
    DecodedHeader {
        src_mac: mac_at(frame, 6),
        dst_mac: mac_at(frame, 0),
        src_ip: ipv4_at(frame, 26),
        dst_ip: ipv4_at(frame, 30),
        protocol: frame[23],
    }
}

/// What `decode` returns for each frame.
pub open spec fn decoded(frame: Seq<u8>) -> Result<Decoded, MalformedHeader> {
    if frame.len() < 14 {
        Err(MalformedHeader { needed: 14, available: frame.len() as usize })
    } else if ethertype_of(frame) != 0x0800 {
        Ok(
            Decoded::Unsupported {
                src_mac: mac_at(frame, 6),
                dst_mac: mac_at(frame, 0),
                ethertype: ethertype_of(frame) as u16,
            },
        )
    } else if payload_len(frame) < needed_header_len(frame) {
        Err(
            MalformedHeader {
                needed: needed_header_len(frame) as usize,
                available: payload_len(frame) as usize,
            },
        )
    } else {
        Ok(Decoded::Header(header_of(frame)))
    }
}

/// Reads the hardware addresses of a frame and, if it is tagged as IPv4, the
/// addresses and protocol number of its IPv4 header.
///
/// A frame with another EtherType is reported as `Unsupported` without a look
/// at its payload. A frame that ends before its Ethernet header, before the
/// fixed part of its IPv4 header or before the header length that it declares
/// is refused; no field of such a frame is handed out.
pub fn decode(frame: &[u8]) -> (r: Result<Decoded, MalformedHeader>)
    ensures
        r == decoded(frame@),
        well_formed_ipv4(frame@) ==> r == Ok::<Decoded, MalformedHeader>(
            Decoded::Header(
                DecodedHeader {
                    src_mac: mac_at(frame@, 6),
                    dst_mac: mac_at(frame@, 0),
                    src_ip: ipv4_at(frame@, 26),
                    dst_ip: ipv4_at(frame@, 30),
                    protocol: frame@[23],
                },
            ),
        ),
        is_ipv4_tagged(frame@) && frame@.len() > 14 && declared_header_len(frame@) > payload_len(
            frame@,
        ) ==> r is Err,
        r is Err <==> frame@.len() < 14 || (is_ipv4_tagged(frame@) && payload_len(frame@)
            < needed_header_len(frame@)),
        r matches Ok(Decoded::Header(_)) <==> well_formed_ipv4(frame@),
{
    let len: usize = frame.len();
    if len < ETHERNET_HEADER_LEN {
        return Err(MalformedHeader { needed: ETHERNET_HEADER_LEN, available: len });
    }
    let dst_mac = MacAddr(frame[0], frame[1], frame[2], frame[3], frame[4], frame[5]);
    let src_mac = MacAddr(frame[6], frame[7], frame[8], frame[9], frame[10], frame[11]);
    let ethertype: u16 = frame[12] as u16 * 256 + frame[13] as u16;
    if ethertype != ETHERTYPE_IPV4 {
        return Ok(Decoded::Unsupported { src_mac, dst_mac, ethertype });
    }
    let available: usize = len - ETHERNET_HEADER_LEN;
    let mut needed: usize = IPV4_FIXED_HEADER_LEN;
    if available > 0 {
        let declared: usize = (frame[14] % 16) as usize * 4;
        if declared > needed {
            needed = declared;
        }
    }
    if available < needed {
        return Err(MalformedHeader { needed, available });
    }
    Ok(
        Decoded::Header(
            DecodedHeader {
                src_mac,
                dst_mac,
                src_ip: Ipv4Addr(frame[26], frame[27], frame[28], frame[29]),
                dst_ip: Ipv4Addr(frame[30], frame[31], frame[32], frame[33]),
                protocol: frame[23],
            },
        ),
    )
}

} // verus!
