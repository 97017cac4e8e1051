//! Structural decapsulation of a captured link-layer frame: Ethernet II,
//! then IPv4, then UDP, exposing the source address, the two ports and the
//! UDP payload.
//!
//! A frame that is too short for the layer it announces is malformed; a frame
//! that is whole but carries something other than IPv4 over Ethernet or UDP
//! over IPv4 is simply not of interest — never an error.

use vstd::prelude::*;
use crate::color::Ipv4Address;

verus! {

/// Bytes of an Ethernet II header.
pub const ETHERNET_HEADER_LEN: usize = 14;

/// EtherType announcing an IPv4 payload.
pub const ETHER_TYPE_IPV4: u16 = 0x0800;

/// IPv4 protocol number of UDP.
pub const IP_PROTOCOL_UDP: u8 = 17;

/// Bytes of a UDP header.
pub const UDP_HEADER_LEN: usize = 8;

/// A big-endian 16-bit field read from two bytes.
pub open spec fn be16(hi: u8, lo: u8) -> u16 {
    ((hi as int) * 256 + (lo as int)) as u16
}

/// Why a frame failed structural decode.
#[derive(Clone, Copy, PartialEq, Eq, Structural, Debug)]
pub enum MalformedKind {
    /// Shorter than an Ethernet II header.
    TruncatedLink,
    /// Announces IPv4 but ends before a minimal IPv4 header.
    TruncatedIpv4,
    /// The IPv4 version nibble is not 4.
    BadIpVersion,
    /// The IPv4 header-length nibble is below the minimum of 5 words.
    BadIpHeaderLength,
    /// Ends before the header length the IPv4 header announces.
    ShortIpv4Header,
    /// Announces UDP but ends before a whole UDP header.
    TruncatedUdp,
}

/// The transport-level view of a decoded frame: IPv4 source address, the two
/// UDP ports, and the UDP payload bytes.
pub struct UdpHeaders {
    pub src_addr: Ipv4Address,
    pub src_port: u16,
    pub dst_port: u16,
    pub payload: Vec<u8>,
}

/// The spec-level counterpart of `UdpHeaders`.
pub struct UdpHeadersModel {
    pub src_addr: Ipv4Address,
    pub src_port: u16,
    pub dst_port: u16,
    pub payload: Seq<u8>,
}

impl View for UdpHeaders {
    type V = UdpHeadersModel;

    open spec fn view(&self) -> UdpHeadersModel {
        UdpHeadersModel {
            src_addr: self.src_addr,
            src_port: self.src_port,
            dst_port: self.dst_port,
            payload: self.payload@,
        }
    }
}

/// What structural decode makes of a frame.
pub enum FrameOutcome {
    /// The frame breaks off inside a header it announced.
    Malformed(MalformedKind),
    /// Whole, but not IPv4-over-Ethernet carrying UDP.
    NotOfInterest,
    /// IPv4/UDP: the headers of interest and the payload.
    Udp(UdpHeaders),
}

/// The spec-level counterpart of `FrameOutcome`.
pub enum FrameClass {
    Malformed(MalformedKind),
    NotOfInterest,
    Udp(UdpHeadersModel),
}

impl View for FrameOutcome {
    type V = FrameClass;

    open spec fn view(&self) -> FrameClass {
        match self {
            FrameOutcome::Malformed(k) => FrameClass::Malformed(*k),
            FrameOutcome::NotOfInterest => FrameClass::NotOfInterest,
            FrameOutcome::Udp(h) => FrameClass::Udp(h@),
        }
    }
}

/// The grammar of a frame of interest, as one total classification: Ethernet
/// II framing, an IPv4 header whose announced length fits, then a UDP header;
/// every complete frame of any other kind is merely not of interest. The UDP
/// payload is everything after the UDP header.
pub open spec fn classify_frame(b: Seq<u8>) -> FrameClass {
    if b.len() < 14 {
        FrameClass::Malformed(MalformedKind::TruncatedLink)
    } else if be16(b[12], b[13]) != 0x0800 {
        FrameClass::NotOfInterest
    } else {
        classify_ipv4(b.skip(14))
    }
}

/// The IPv4-and-up part of the grammar, over the bytes after the Ethernet
/// header.
pub open spec fn classify_ipv4(ip: Seq<u8>) -> FrameClass {
    if ip.len() < 20 {
        FrameClass::Malformed(MalformedKind::TruncatedIpv4)
    } else if ip[0] / 16 != 4 {
        FrameClass::Malformed(MalformedKind::BadIpVersion)
    } else if ip[0] % 16 < 5 {
        FrameClass::Malformed(MalformedKind::BadIpHeaderLength)
    } else if ip.len() < 4 * (ip[0] % 16) {
        FrameClass::Malformed(MalformedKind::ShortIpv4Header)
    } else if ip[9] != 17 {
        FrameClass::NotOfInterest
    } else {
        classify_udp(ip.skip(4 * (ip[0] % 16) as int), ipv4_source(ip))
    }
}

/// The UDP part of the grammar, over the bytes after the IPv4 header.
pub open spec fn classify_udp(rest: Seq<u8>, src: Ipv4Address) -> FrameClass {
    if rest.len() < 8 {
        FrameClass::Malformed(MalformedKind::TruncatedUdp)
    } else {
        FrameClass::Udp(
            UdpHeadersModel {
                src_addr: src,
                src_port: be16(rest[0], rest[1]),
                dst_port: be16(rest[2], rest[3]),
                payload: rest.skip(8),
            },
        )
    }
}

/// The source address field of an IPv4 header.
pub open spec fn ipv4_source(ip: Seq<u8>) -> Ipv4Address
    recommends
        ip.len() >= 20,
{
    Ipv4Address { o1: ip[12], o2: ip[13], o3: ip[14], o4: ip[15] }
}

/// Decode one captured frame, following `classify_frame` exactly.
pub fn decode_frame(data: &Vec<u8>) -> (r: FrameOutcome)
    ensures
        r@ == classify_frame(data@),
{
    if data.len() < ETHERNET_HEADER_LEN {
        return FrameOutcome::Malformed(MalformedKind::TruncatedLink);
    }
    let ether_type = (data[12] as u16) * 256 + (data[13] as u16);
    if ether_type != ETHER_TYPE_IPV4 {
        return FrameOutcome::NotOfInterest;
    }
    let ghost ip = data@.skip(14);
    let ip_len = data.len() - ETHERNET_HEADER_LEN;
    if ip_len < 20 {
        return FrameOutcome::Malformed(MalformedKind::TruncatedIpv4);
    }
    let first = data[ETHERNET_HEADER_LEN];
    proof {
        assert(first == ip[0]);
    }
    if first / 16 != 4 {
        return FrameOutcome::Malformed(MalformedKind::BadIpVersion);
    }
    let ihl = first % 16;
    if ihl < 5 {
        return FrameOutcome::Malformed(MalformedKind::BadIpHeaderLength);
    }
    let header_len: usize = 4 * (ihl as usize);
    if ip_len < header_len {
        return FrameOutcome::Malformed(MalformedKind::ShortIpv4Header);
    }
    let protocol = data[ETHERNET_HEADER_LEN + 9];
    proof {
        assert(protocol == ip[9]);
    }
    if protocol != IP_PROTOCOL_UDP {
        return FrameOutcome::NotOfInterest;
    }
    let src_addr = Ipv4Address {
        o1: data[ETHERNET_HEADER_LEN + 12],
        o2: data[ETHERNET_HEADER_LEN + 13],
        o3: data[ETHERNET_HEADER_LEN + 14],
        o4: data[ETHERNET_HEADER_LEN + 15],
    };
    proof {
        assert(src_addr == ipv4_source(ip));
    }
    let ghost rest = ip.skip(header_len as int);
    let udp_start = ETHERNET_HEADER_LEN + header_len;
    if ip_len - header_len < UDP_HEADER_LEN {
        proof {
            assert(rest.len() < 8);
        }
        return FrameOutcome::Malformed(MalformedKind::TruncatedUdp);
    }
    let src_port = (data[udp_start] as u16) * 256 + (data[udp_start + 1] as u16);
    let dst_port = (data[udp_start + 2] as u16) * 256 + (data[udp_start + 3] as u16);
    proof {
        assert(data@[udp_start as int] == rest[0]);
        assert(data@[udp_start + 1] == rest[1]);
        assert(data@[udp_start + 2] == rest[2]);
        assert(data@[udp_start + 3] == rest[3]);
    }
    let payload_start = udp_start + UDP_HEADER_LEN;
    let mut payload: Vec<u8> = Vec::new();
    let n = data.len();
    let mut i: usize = payload_start;
    while i < n
        invariant
            payload_start <= i <= n,
            n == data@.len(),
            payload@ == data@.subrange(payload_start as int, i as int),
        decreases n - i,
    {
        payload.push(data[i]);
        proof {
            assert(payload@ =~= data@.subrange(payload_start as int, i as int + 1));
        }
        i = i + 1;
    }
    proof {
        assert(payload@ =~= rest.skip(8));
    }
    let headers = UdpHeaders { src_addr, src_port, dst_port, payload };
    proof {
        assert(classify_frame(data@) == FrameClass::Udp(headers@));
    }
    FrameOutcome::Udp(headers)
}

} // verus!
