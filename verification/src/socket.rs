//! The raw packet socket entity and its control-plane decision logic.
//!
//! Everything here is computation: building device-control requests,
//! combining flag bits, and validating interface names. The system calls
//! that carry a request to the kernel — socket creation, device control,
//! option transfer, name-to-index resolution — are the embedding program's
//! part; it hands their results back as plain values.

use vstd::prelude::*;
use vstd::string::StringSliceAdditionalSpecFns;
use vstd::utf8::encode_utf8;

use crate::ifreq::{encoded_name, short_of_bytes, IfReq, IF_NAMESIZE, IF_REQ_UNION_SIZE};

verus! {

/// Address family for link-layer packet sockets.
pub const AF_PACKET: i32 = 17;

/// Protocol family alias of `AF_PACKET`.
pub const PF_PACKET: i32 = 17;

/// Socket variant delivering raw link-layer frames.
pub const SOCK_RAW: i32 = 3;

/// The "all protocols" EtherType, in host byte order.
pub const ETH_P_ALL: u16 = 3;

/// Option level addressing packet-socket options.
pub const SOL_PACKET: i32 = 263;

/// Device-control code: read an interface's flags word.
pub const SIOCGIFFLAGS: u64 = 35091;

/// Device-control code: write an interface's flags word.
pub const SIOCSIFFLAGS: u64 = 35092;

/// Packet-socket option selecting a fanout group for kernel-side load
/// distribution across several sockets.
pub const PACKET_FANOUT: i32 = 18;

/// Interface flag bit enabling promiscuous mode, for `set_flag_request`.
pub const IFF_PROMISC: u64 = 256;

/// The two failure kinds of this layer.
#[derive(Clone, Copy, Debug, PartialEq, Eq, Structural)]
pub enum SocketError {
    /// Raised locally, before any kernel call: an interface name at or beyond
    /// the record's name-field capacity, or one holding an embedded null byte.
    InvalidArgument,
    /// The platform's last-error code from a failing socket, device-control,
    /// or option-transfer call, surfaced verbatim and never retried.
    Os(i32),
}

/// `name` holds an embedded null byte, so it cannot be represented as a
/// null-terminated string for the kernel's name-to-index query.
pub open spec fn has_nul_byte(name: Seq<u8>) -> bool {
    exists|i: int| 0 <= i < name.len() && name[i] == 0u8
}

/// The flags word after setting `flag`: the bitwise OR of the current word
/// and the flag's low 16 bits.
pub open spec fn flags_with(current: i16, flag: u64) -> i16 {
    current | (flag as i16)
}

/// The protocol argument a new packet socket is opened with: `ETH_P_ALL` in
/// network byte order. Network order is big-endian, so on the little-endian
/// hosts this layer targets the two bytes of the host-order value swap.
pub fn eth_p_all_network_order() -> (r: i32)
    ensures
        r == (((ETH_P_ALL & 0xff) << 8) | (ETH_P_ALL >> 8)) as i32,
        r == 768,
{
    let lo: u16 = ETH_P_ALL & 0xff;
    let hi: u16 = ETH_P_ALL >> 8;
    proof {
        assert(((3u16 & 0xff) << 8) | (3u16 >> 8) == 768) by (bit_vector);
    }
    ((lo << 8) | hi) as i32
}

/// Checks that `name` can be null-terminated for the kernel's name-to-index
/// query. Runs no kernel call itself; a name with an embedded null byte is
/// invalid, and no query is to be issued for it.
pub fn check_index_name(name: &str) -> (r: Result<(), SocketError>)
    ensures
        r is Ok <==> !has_nul_byte(name.spec_bytes()),
        r is Err ==> r == Err::<(), SocketError>(SocketError::InvalidArgument),
{
    let bytes: &[u8] = name.as_bytes();
    let n: usize = bytes.len();
    let mut k: usize = 0;
    while k < n
        invariant
            n == bytes@.len(),
            k <= n,
            bytes@ == name.spec_bytes(),
            forall|j: int| 0 <= j < k ==> bytes@[j] != 0u8,
        decreases n - k,
    {
        if bytes[k] == 0 {
            proof {
                assert(name.spec_bytes()[k as int] == 0u8);
            }
            return Err(SocketError::InvalidArgument);
        }
        k = k + 1;
    }
    Ok(())
}

/// A raw packet socket bound to one interface: the OS handle, the interface's
/// name and resolved numeric index, and the socket variant it was opened
/// with. Assembled once by the embedding program after the socket-creation
/// and name-to-index calls have succeeded; the methods below compute the
/// device-control requests its flag manipulation exchanges with the kernel.
/// Nothing here releases the handle: ownership is single and explicit.
#[derive(Clone, Debug)]
pub struct Socket {
    /// OS-level socket descriptor, exclusively owned.
    pub fd: i32,
    /// Name of the interface the socket is bound to.
    pub if_name: String,
    /// The kernel's numeric identifier for the interface; `0` means the
    /// kernel knew no interface of that name.
    pub if_index: u32,
    /// Socket variant (raw vs. datagram capture mode).
    pub sock_type: i32,
}

impl Socket {
    /// The request for a get-flags device-control call: the socket's
    /// interface name, and an all-zero payload for the kernel to fill.
    /// Fails, issuing nothing, on a name at or beyond the field capacity.
    pub fn get_flags_request(&self) -> (r: Result<IfReq, SocketError>)
        ensures
            encode_utf8(self.if_name@).len() < IF_NAMESIZE ==> (r matches Ok(q) && q.wf()
                && q.ifr_name@ == encoded_name(encode_utf8(self.if_name@))
                && (forall|j: int| 0 <= j < IF_REQ_UNION_SIZE ==> q.data@[j] == 0u8)),
            encode_utf8(self.if_name@).len() >= IF_NAMESIZE ==> r == Err::<IfReq, SocketError>(
                SocketError::InvalidArgument,
            ),
    {
        IfReq::with_if_name(self.if_name.as_str())
    }

    /// The request for the set-flags device-control call that sets `flag`:
    /// the socket's interface name, and a payload carrying the bitwise OR of
    /// `current` — the flags word a get-flags call just read — and the flag
    /// bit. Fails, issuing nothing, on a name at or beyond the capacity.
    pub fn set_flag_request(&self, current: i16, flag: u64) -> (r: Result<IfReq, SocketError>)
        ensures
            encode_utf8(self.if_name@).len() < IF_NAMESIZE ==> (r matches Ok(q) && q.wf()
                && q.ifr_name@ == encoded_name(encode_utf8(self.if_name@))
                && short_of_bytes(q.data@[0], q.data@[1]) == flags_with(current, flag)
                && (forall|j: int| 2 <= j < IF_REQ_UNION_SIZE ==> q.data@[j] == 0u8)),
            encode_utf8(self.if_name@).len() >= IF_NAMESIZE ==> r == Err::<IfReq, SocketError>(
                SocketError::InvalidArgument,
            ),
    {
        let new_flags: i16 = current | (#[verifier::truncate] (flag as i16));
        let mut if_req = match IfReq::with_if_name(self.if_name.as_str()) {
            Ok(q) => q,
            Err(e) => {
                return Err(e);
            },
        };
        let carrier = IfReq::from_short(new_flags);
        if_req.data = carrier.data;
        proof {
            crate::ifreq::lemma_short_round_trip(flags_with(current, flag));
        }
        Ok(if_req)
    }
}

/// Setting one flag is idempotent: OR-ing the same bit into a flags word a
/// second time leaves the word of the first application unchanged. So two
/// `set_flag_request` calls in sequence, the second reading back the flags
/// the first wrote, build requests carrying the same final flag set —
/// assuming no concurrent modification between them.
pub proof fn lemma_set_flag_idempotent(current: i16, flag: u64)
    ensures
        flags_with(flags_with(current, flag), flag) == flags_with(current, flag),
{
    assert((current | (flag as i16)) | (flag as i16) == current | (flag as i16))
        by (bit_vector);
}

} // verus!
