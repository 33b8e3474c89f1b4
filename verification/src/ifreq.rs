//! The kernel's interface-request record, modeled byte for byte.
//!
//! Device-control calls that concern a network interface exchange a fixed-size
//! record with the kernel: a zero-padded name field followed by a trailing
//! union of request-specific fields. The union is modeled here as a flat byte
//! buffer with one accessor/constructor pair per supported interpretation;
//! the only interpretation this layer needs reads the first two payload bytes
//! as a 16-bit flags word.

use vstd::prelude::*;
use vstd::string::StringSliceAdditionalSpecFns;

use crate::socket::SocketError;

verus! {

/// Capacity of the name field: the kernel's maximum interface-name length.
/// A valid name must be strictly shorter, leaving one byte for the null
/// terminator. This is a hard ABI constant.
pub const IF_NAMESIZE: usize = 16;

/// Size in bytes of the trailing union of the kernel's request structure.
/// Also a hard ABI constant.
pub const IF_REQ_UNION_SIZE: usize = 24;

/// The name field that encodes `name`: the name's bytes, reinterpreted as the
/// platform's character type, followed by zero padding up to the capacity.
pub open spec fn encoded_name(name: Seq<u8>) -> Seq<i8> {
    Seq::new(IF_NAMESIZE as nat, |i: int| if i < name.len() { name[i] as i8 } else { 0i8 })
}

/// The 16-bit flags word that two payload bytes stand for, once the byte
/// order the kernel wrote them in (the host's, little-endian here) is undone:
/// byte 1 is the high half, byte 0 the low half.
pub open spec fn short_of_bytes(b0: u8, b1: u8) -> i16 {
    (((b1 as u16) << 8) | (b0 as u16)) as i16
}

/// The low host-order byte of a 16-bit value.
pub open spec fn short_low_byte(x: i16) -> u8 {
    ((x as u16) & 0xff) as u8
}

/// The high host-order byte of a 16-bit value.
pub open spec fn short_high_byte(x: i16) -> u8 {
    ((x as u16) >> 8) as u8
}

/// In-memory mirror of the kernel's interface-request structure.
///
/// `ifr_name` holds the interface name, zero-padded to `IF_NAMESIZE`; `data`
/// stands for the trailing union, `IF_REQ_UNION_SIZE` bytes of it. A record is
/// built fresh for each device-control call and never retained.
#[derive(Debug, PartialEq, Eq)]
pub struct IfReq {
    /// Interface name bytes, in the platform's character type.
    pub ifr_name: Vec<i8>,
    /// The trailing union of the kernel structure, as raw bytes.
    pub data: Vec<u8>,
}

impl IfReq {
    /// The record has its kernel-mandated shape: `IF_NAMESIZE` name bytes and
    /// `IF_REQ_UNION_SIZE` payload bytes.
    pub open spec fn wf(self) -> bool {
        self.ifr_name@.len() == IF_NAMESIZE && self.data@.len() == IF_REQ_UNION_SIZE
    }

    /// Reconstructs the 16-bit flags word from payload bytes 0 and 1.
    ///
    /// The kernel wrote the word in host byte order; recomposing byte 1 as the
    /// high half and byte 0 as the low half reads it back unchanged. This
    /// recomposition must be kept bit for bit: changing it corrupts flag
    /// readback.
    pub fn as_short(&self) -> (r: i16)
        requires
            self.wf(),
        ensures
            r == short_of_bytes(self.data@[0], self.data@[1]),
    {
        let b0: u8 = self.data[0];
        let b1: u8 = self.data[1];
        let v: u16 = ((b1 as u16) << 8) | (b0 as u16);
        #[verifier::truncate] (v as i16)
    }

    /// Builds a record whose payload carries `i` in the two flag bytes, in
    /// host byte order; every other byte of the record is zero.
    pub fn from_short(i: i16) -> (r: IfReq)
        ensures
            r.wf(),
            forall|j: int| 0 <= j < IF_NAMESIZE ==> r.ifr_name@[j] == 0i8,
            r.data@[0] == short_low_byte(i),
            r.data@[1] == short_high_byte(i),
            forall|j: int| 2 <= j < IF_REQ_UNION_SIZE ==> r.data@[j] == 0u8,
    {
        let mut req = IfReq::default();
        let u: u16 = #[verifier::truncate] (i as u16);
        let b0: u8 = #[verifier::truncate] ((u & 0xff) as u8);
        let b1: u8 = #[verifier::truncate] ((u >> 8) as u8);
        req.data[0] = b0;
        req.data[1] = b1;
        req
    }

    /// Copies `if_name` into the name field, zero-padded to capacity; the
    /// payload stays all zero. Rejects, before anything else, a name that
    /// does not leave room for the null terminator.
    pub fn with_if_name(if_name: &str) -> (r: Result<IfReq, SocketError>)
        ensures
            if_name.spec_bytes().len() < IF_NAMESIZE ==> (r matches Ok(q) && q.wf()
                && q.ifr_name@ == encoded_name(if_name.spec_bytes())
                && (forall|j: int| 0 <= j < IF_REQ_UNION_SIZE ==> q.data@[j] == 0u8)),
            if_name.spec_bytes().len() >= IF_NAMESIZE ==> r == Err::<IfReq, SocketError>(
                SocketError::InvalidArgument,
            ),
    {
        let mut if_req = IfReq::default();
        let bytes: &[u8] = if_name.as_bytes();

        if bytes.len() >= if_req.ifr_name.len() {
            return Err(SocketError::InvalidArgument);
        }

        let mut k: usize = 0;
        while k < bytes.len()
            invariant
                if_req.wf(),
                k <= bytes.len(),
                bytes.len() < IF_NAMESIZE,
                bytes@ == if_name.spec_bytes(),
                forall|j: int| 0 <= j < k ==> if_req.ifr_name@[j] == bytes@[j] as i8,
                forall|j: int| k <= j < IF_NAMESIZE ==> if_req.ifr_name@[j] == 0i8,
                forall|j: int| 0 <= j < IF_REQ_UNION_SIZE ==> if_req.data@[j] == 0u8,
            decreases bytes.len() - k,
        {
            if_req.ifr_name[k] = #[verifier::truncate] (bytes[k] as i8);
            k = k + 1;
        }
        proof {
            assert(if_req.ifr_name@ =~= encoded_name(if_name.spec_bytes()));
        }
        Ok(if_req)
    }

    /// The flags-word interpretation of the payload, under its kernel name.
    pub fn ifr_flags(&self) -> (r: i16)
        requires
            self.wf(),
        ensures
            r == short_of_bytes(self.data@[0], self.data@[1]),
    {
        self.as_short()
    }
}

impl Default for IfReq {
    /// Every byte of the record zero-initialized.
    fn default() -> (r: IfReq)
        ensures
            r.wf(),
            forall|j: int| 0 <= j < IF_NAMESIZE ==> r.ifr_name@[j] == 0i8,
            forall|j: int| 0 <= j < IF_REQ_UNION_SIZE ==> r.data@[j] == 0u8,
    {
        IfReq { ifr_name: zeroed_name_field(), data: zeroed_union_field() }
    }
}

/// A zero name field of full capacity.
fn zeroed_name_field() -> (v: Vec<i8>)
    ensures
        v@.len() == IF_NAMESIZE,
        forall|j: int| 0 <= j < IF_NAMESIZE ==> v@[j] == 0i8,
{
    let mut v: Vec<i8> = Vec::new();
    while v.len() < IF_NAMESIZE
        invariant
            v@.len() <= IF_NAMESIZE,
            forall|j: int| 0 <= j < v@.len() ==> v@[j] == 0i8,
        decreases IF_NAMESIZE - v.len(),
    {
        v.push(0i8);
    }
    v
}

/// A zero payload of full union size.
fn zeroed_union_field() -> (v: Vec<u8>)
    ensures
        v@.len() == IF_REQ_UNION_SIZE,
        forall|j: int| 0 <= j < IF_REQ_UNION_SIZE ==> v@[j] == 0u8,
{
    let mut v: Vec<u8> = Vec::new();
    while v.len() < IF_REQ_UNION_SIZE
        invariant
            v@.len() <= IF_REQ_UNION_SIZE,
            forall|j: int| 0 <= j < v@.len() ==> v@[j] == 0u8,
        decreases IF_REQ_UNION_SIZE - v.len(),
    {
        v.push(0u8);
    }
    v
}

/// Splitting a 16-bit value into its two host-order bytes and recomposing
/// them through the flags-word reading is the identity, for every value.
pub proof fn lemma_short_round_trip(x: i16)
    ensures
        short_of_bytes(short_low_byte(x), short_high_byte(x)) == x,
{
    assert(((((((x as u16) >> 8) as u8) as u16) << 8) | ((((x as u16) & 0xff) as u8) as u16))
        as i16 == x) by (bit_vector);
}

} // verus!
