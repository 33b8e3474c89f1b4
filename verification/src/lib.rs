//! Control-plane primitives for link-layer packet sockets.
//!
//! The crate models the kernel's interface-request record byte for byte and
//! carries the decision logic of a minimal AF_PACKET socket layer: building
//! device-control requests, reading the flags word out of a record, combining
//! flag bits, and validating interface names. The raw system calls that carry
//! these records to the kernel are left to the embedding program.

pub mod ifreq;
pub mod socket;

pub use ifreq::{IfReq, IF_NAMESIZE, IF_REQ_UNION_SIZE};
pub use socket::{Socket, SocketError};
pub use socket::{AF_PACKET, ETH_P_ALL, IFF_PROMISC, PACKET_FANOUT, PF_PACKET};
pub use socket::{SIOCGIFFLAGS, SIOCSIFFLAGS, SOCK_RAW, SOL_PACKET};
