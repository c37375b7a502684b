//! Parsing of raw captured packets: the Ethernet, IPv4 and TCP headers of a
//! frame, down to where the TCP payload starts, and the direction decision
//! for a parsed packet.

use vstd::prelude::*;
use vstd::string::StringExecFns;

verus! {

/// One endpoint of a TCP flow: an IPv4 address (as its numeric value) and a
/// port.
#[derive(Clone, Copy, Debug, PartialEq, Eq, Structural)]
pub struct Addr {
    pub ip: u32,
    pub port: u16,
}

/// Where a captured frame's TCP payload lies and between which endpoints it
/// flows.
#[derive(Clone, Copy, Debug, PartialEq, Eq, Structural)]
pub struct TcpDataInfo {
    pub src: Addr,
    pub dest: Addr,
    pub data_offset: usize,
}

/// Drop the 14-byte Ethernet header off a captured frame.
pub fn skip_ethernet_header(data: &Vec<u8>) -> (r: Result<Vec<u8>, String>)
    ensures
        data@.len() < 14 ==> r is Err,
        data@.len() >= 14 ==> (r matches Ok(rest) && rest@ == data@.skip(14)),
{
    if data.len() < 14 {
        return Err(String::from_str("Packet too short"));
    }
    let mut rest: Vec<u8> = Vec::new();
    let n = data.len();
    let mut i: usize = 14;
    while i < n
        invariant
            14 <= i <= n,
            n == data@.len(),
            rest@ == data@.subrange(14, i as int),
        decreases n - i,
    {
        rest.push(data[i]);
        proof {
            assert(rest@ =~= data@.subrange(14, i + 1));
        }
        i = i + 1;
    }
    proof {
        assert(data@.subrange(14, n as int) =~= data@.skip(14));
    }
    Ok(rest)
}

/// The big-endian value of the four bytes of `b` starting at `at`.
pub open spec fn spec_u32_be(b: Seq<u8>, at: int) -> u32 {
    (0x1000000 * b[at] + 0x10000 * b[at + 1] + 0x100 * b[at + 2] + b[at + 3]) as u32
}

/// The big-endian value of the two bytes of `b` starting at `at`.
pub open spec fn spec_u16_be(b: Seq<u8>, at: int) -> u16 {
    (0x100 * b[at] + b[at + 1]) as u16
}

/// What `parse_tcp` finds in a captured frame: nothing unless the capture
/// is long enough, carries an IPv4 header (version 4, sane header length)
/// holding TCP, and a sane TCP header; otherwise the flow endpoints and
/// where the payload starts. The payload offset counts the 4 link-layer
/// bytes the capture format keeps, then the two headers.
pub open spec fn spec_parse_tcp(data: Seq<u8>, caplen: u32) -> Option<TcpDataInfo> {
    let base = 14int;
    if caplen < 32 || data.len() < 14 || data.len() < base + 20 {
        None
    } else {
        let version = data[base] >> 4;
        let ihl = data[base] & 0x0f;
        if version != 4 || ihl < 5 || data.len() < base + ihl * 4 + 20 || data[base + 9] != 6 {
            None
        } else {
            let tcp_base = base + ihl * 4;
            let tcp_data_offset = data[tcp_base + 12] >> 4;
            if tcp_data_offset < 5 {
                None
            } else {
                Some(
                    TcpDataInfo {
                        src: Addr {
                            ip: spec_u32_be(data, base + 12),
                            port: spec_u16_be(data, tcp_base),
                        },
                        dest: Addr {
                            ip: spec_u32_be(data, base + 16),
                            port: spec_u16_be(data, tcp_base + 2),
                        },
                        data_offset: (4 + ihl * 4 + tcp_data_offset * 4) as usize,
                    },
                )
            }
        }
    }
}

/// Parse a captured frame down to its TCP payload, exactly per
/// `spec_parse_tcp`.
pub fn parse_tcp(data: &Vec<u8>, caplen: u32) -> (r: Option<TcpDataInfo>)
    ensures
        r == spec_parse_tcp(data@, caplen),
{
    let base: usize = 14;
    if caplen < 32 {
        return None;
    }
    if data.len() < 14 || data.len() < base + 20 {
        return None;
    }

    let version = data[base] >> 4;
    let ihl = (data[base] & 0x0f) as usize;
    if version != 4 || ihl < 5 {
        return None;
    }
    if data.len() < base + ihl * 4 + 20 {
        return None;
    }
    if data[base + 9] != 6 {
        // Not TCP.
        return None;
    }

    let tcp_base = base + ihl * 4;
    let tcp_data_offset = (data[tcp_base + 12] >> 4) as usize;
    if tcp_data_offset < 5 {
        return None;
    }

    let src_ip = 0x1000000 * (data[base + 12] as u32) + 0x10000 * (data[base + 13] as u32) + 0x100
        * (data[base + 14] as u32) + (data[base + 15] as u32);
    let dest_ip = 0x1000000 * (data[base + 16] as u32) + 0x10000 * (data[base + 17] as u32)
        + 0x100 * (data[base + 18] as u32) + (data[base + 19] as u32);
    let src_port = 0x100 * (data[tcp_base] as u16) + (data[tcp_base + 1] as u16);
    let dest_port = 0x100 * (data[tcp_base + 2] as u16) + (data[tcp_base + 3] as u16);

    Some(
        TcpDataInfo {
            src: Addr { ip: src_ip, port: src_port },
            dest: Addr { ip: dest_ip, port: dest_port },
            data_offset: 4 + ihl * 4 + tcp_data_offset * 4,
        },
    )
}

/// Whether a parsed packet was sent by this host: its source address is one
/// of the local addresses.
pub fn is_sent_packet(info: &TcpDataInfo, local_addresses: &Vec<u32>) -> (r: bool)
    ensures
        r == local_addresses@.contains(info.src.ip),
{
    let n = local_addresses.len();
    let mut i: usize = 0;
    while i < n
        invariant
            n == local_addresses@.len(),
            i <= n,
            forall|j: int| 0 <= j < i ==> local_addresses@[j] != info.src.ip,
        decreases n - i,
    {
        if local_addresses[i] == info.src.ip {
            return true;
        }
        i = i + 1;
    }
    proof {
        assert(!local_addresses@.contains(info.src.ip));
    }
    false
}

} // verus!
