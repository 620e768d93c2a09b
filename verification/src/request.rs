//! The kernel control-request protocol: fixed-format records with an
//! explicit byte layout.
//!
//! Two request families exist. The hardware-address requests carry a
//! sixteen-byte null-padded interface name followed by a sixteen-byte
//! socket-address record: a two-byte little-endian address-family tag and
//! fourteen address bytes, of which only the first six are meaningful. The
//! permanent-address request carries the interface name followed by the
//! driver-extension payload: a four-byte little-endian command code, a
//! four-byte little-endian declared buffer size, and a thirty-two-byte
//! buffer of which the first six bytes are the address.

use vstd::prelude::*;

use crate::mac::MAC;

verus! {

/// Size of the interface-name field: at most fifteen name bytes plus a
/// null terminator.
pub const IFNAMSIZ: usize = 16;

/// Size of the driver-extension data buffer.
pub const MAX_ADDR_LEN: usize = 32;

/// Control-request code: read the interface hardware address.
pub const SIOCGIFHWADDR: u64 = 0x8927;

/// Control-request code: set the interface hardware address.
pub const SIOCSIFHWADDR: u64 = 0x8924;

/// Control-request code: driver-extension dispatch.
pub const SIOCETHTOOL: u64 = 0x8946;

/// Extension command code: read the permanent (factory) address.
pub const ETHTOOL_GPERMADDR: u32 = 0x20;

/// Why a request could not be built.
#[derive(Debug, Clone, Copy, PartialEq, Eq, Structural)]
pub enum RequestError {
    /// The interface name does not fit the bounded name field: more than
    /// fifteen bytes would have to be truncated, which is rejected rather
    /// than done silently.
    NameTooLong,
}

/// Null-pad an interface name to the exact size of the name field. A name
/// of more than fifteen bytes is rejected, so that the padded field always
/// ends in at least one null byte.
pub fn encode_ifname(name: &[u8]) -> (r: Result<Vec<u8>, RequestError>)
    ensures
        match r {
            Ok(buf) => {
                &&& name@.len() <= 15
                &&& buf@.len() == 16
                &&& buf@.take(name@.len() as int) == name@
                &&& forall|i: int| name@.len() <= i < 16 ==> buf@[i] == 0
            },
            Err(e) => e == RequestError::NameTooLong && name@.len() > 15,
        },
{
    if name.len() > 15 {
        return Err(RequestError::NameTooLong);
    }
    let mut buf: Vec<u8> = Vec::new();
    let mut i: usize = 0;
    while i < name.len()
        invariant
            i <= name@.len() <= 15,
            buf@ == name@.take(i as int),
        decreases name@.len() - i,
    {
        buf.push(name[i]);
        proof {
            assert(buf@ =~= name@.take(i as int + 1));
        }
        i = i + 1;
    }
    proof {
        assert(buf@ =~= name@);
    }
    while buf.len() < 16
        invariant
            name@.len() <= buf@.len() <= 16,
            buf@.take(name@.len() as int) == name@,
            forall|j: int| name@.len() <= j < buf@.len() ==> buf@[j] == 0,
        decreases 16 - buf@.len(),
    {
        buf.push(0);
        proof {
            assert(buf@.take(name@.len() as int) =~= name@);
        }
    }
    Ok(buf)
}

/// The driver-extension payload for the permanent-address command: a
/// command code, the declared size of the data buffer, and the buffer
/// itself. The declared size must equal the buffer's true capacity before
/// the request is issued.
pub struct PermanentPayload {
    pub cmd: u32,
    pub size: u32,
    pub data: [u8; 32],
}

impl PermanentPayload {
    /// The payload invariant: the command is the permanent-address
    /// command, and the declared size equals the buffer capacity.
    pub open spec fn wf(&self) -> bool {
        self.cmd == ETHTOOL_GPERMADDR && self.size == MAX_ADDR_LEN as u32
    }

    /// A fresh permanent-address payload: command set, size declared,
    /// buffer zeroed.
    pub fn new() -> (r: Self)
        ensures
            r.wf(),
            r.data@ == Seq::new(32, |i: int| 0u8),
    {
        let r = PermanentPayload { cmd: ETHTOOL_GPERMADDR, size: 32, data: [0u8; 32] };
        proof {
            assert(r.data@ =~= Seq::new(32, |i: int| 0u8));
        }
        r
    }
}

/// One kernel control request, as a sum over the request kinds. The name
/// field is always the sixteen-byte null-padded form that
/// [`encode_ifname`] yields.
pub enum Request {
    /// Read the active hardware address of the named interface.
    GetHardware { name: Vec<u8> },
    /// Install the fourteen-byte raw address field as the active hardware
    /// address. The address-family tag echoes, unchanged, what the kernel
    /// reported on the preceding read of the same interface.
    SetHardware { name: Vec<u8>, family: u16, addr: [i8; 14] },
    /// Read the factory-burned address through the driver extension.
    QueryPermanent { name: Vec<u8>, payload: PermanentPayload },
}

/// The two little-endian bytes of a sixteen-bit value.
pub open spec fn le16(v: u16) -> Seq<u8> {
    seq![(v & 0xff) as u8, (v >> 8) as u8]
}

/// The four little-endian bytes of a thirty-two-bit value.
pub open spec fn le32(v: u32) -> Seq<u8> {
    seq![(v & 0xff) as u8, ((v >> 8) & 0xff) as u8, ((v >> 16) & 0xff) as u8, ((v >> 24) & 0xff) as u8]
}

impl Request {
    /// Every request carries a full-size name field; the extension payload
    /// carries its invariant.
    pub open spec fn wf(&self) -> bool {
        match self {
            Request::GetHardware { name } => name@.len() == 16,
            Request::SetHardware { name, .. } => name@.len() == 16,
            Request::QueryPermanent { name, payload } => name@.len() == 16 && payload.wf(),
        }
    }

    /// The byte image of the request, at explicit offsets.
    ///
    /// Hardware-address requests are thirty-two bytes: the name at offset
    /// zero, the family tag at sixteen, the raw address bytes at eighteen.
    /// The permanent-address request is fifty-six bytes: the name at
    /// offset zero, the command code at sixteen, the declared size at
    /// twenty, the data buffer at twenty-four.
    pub open spec fn spec_encode(&self) -> Seq<u8> {
        match self {
            Request::GetHardware { name } => name@ + Seq::new(16, |i: int| 0u8),
            Request::SetHardware { name, family, addr } => name@ + le16(*family) + Seq::new(
                14,
                |i: int| addr@[i] as u8,
            ),
            Request::QueryPermanent { name, payload } => name@ + le32(payload.cmd) + le32(
                payload.size,
            ) + payload.data@,
        }
    }

    /// The control-request code under which the kernel dispatches this
    /// request.
    pub fn code(&self) -> (code: u64)
        ensures
            code == match self {
                Request::GetHardware { .. } => SIOCGIFHWADDR,
                Request::SetHardware { .. } => SIOCSIFHWADDR,
                Request::QueryPermanent { .. } => SIOCETHTOOL,
            },
    {
        match self {
            Request::GetHardware { .. } => SIOCGIFHWADDR,
            Request::SetHardware { .. } => SIOCSIFHWADDR,
            Request::QueryPermanent { .. } => SIOCETHTOOL,
        }
    }

    /// Serialize the request, laying the bytes out exactly as
    /// [`Request::spec_encode`] states.
    pub fn encode(&self) -> (out: Vec<u8>)
        requires
            self.wf(),
        ensures
            out@ == self.spec_encode(),
            out@.len() == match self {
                Request::QueryPermanent { .. } => 56int,
                _ => 32int,
            },
    {
        let mut out: Vec<u8> = Vec::new();
        match self {
            Request::GetHardware { name } => {
                copy_bytes(&mut out, name);
                let mut i: usize = 0;
                while i < 16
                    invariant
                        name@.len() == 16,
                        i <= 16,
                        out@.len() == 16 + i,
                        out@.take(16) == name@,
                        forall|k: int| 16 <= k < out@.len() ==> out@[k] == 0,
                    decreases 16 - i,
                {
                    out.push(0);
                    proof {
                        assert(out@.take(16) =~= name@);
                    }
                    i = i + 1;
                }
                proof {
                    assert(out@ =~= self.spec_encode());
                }
            },
            Request::SetHardware { name, family, addr } => {
                copy_bytes(&mut out, name);
                out.push(#[verifier::truncate] ((*family & 0xff) as u8));
                out.push(#[verifier::truncate] ((*family >> 8) as u8));
                let mut i: usize = 0;
                while i < 14
                    invariant
                        name@.len() == 16,
                        i <= 14,
                        out@.len() == 18 + i,
                        out@.take(18) == name@ + le16(*family),
                        forall|k: int| 18 <= k < out@.len() ==> out@[k] == addr@[k - 18] as u8,
                    decreases 14 - i,
                {
                    out.push(#[verifier::truncate] (addr[i] as u8));
                    proof {
                        assert(out@.take(18) =~= name@ + le16(*family));
                    }
                    i = i + 1;
                }
                proof {
                    assert(out@ =~= self.spec_encode());
                }
            },
            Request::QueryPermanent { name, payload } => {
                copy_bytes(&mut out, name);
                push_le32(&mut out, payload.cmd);
                push_le32(&mut out, payload.size);
                let mut i: usize = 0;
                while i < 32
                    invariant
                        name@.len() == 16,
                        i <= 32,
                        out@.len() == 24 + i,
                        out@.take(24) == name@ + le32(payload.cmd) + le32(payload.size),
                        forall|k: int| 24 <= k < out@.len() ==> out@[k] == payload.data@[k - 24],
                    decreases 32 - i,
                {
                    out.push(payload.data[i]);
                    proof {
                        assert(out@.take(24) =~= name@ + le32(payload.cmd) + le32(payload.size));
                    }
                    i = i + 1;
                }
                proof {
                    assert(out@ =~= self.spec_encode());
                }
            },
        }
        out
    }
}

/// Build the set-hardware-address request from the record that a
/// preceding read of the same interface returned. The address-family tag
/// is echoed back unchanged — the kernel maintains it — and only the
/// address bytes are overwritten, with the raw encoding of `addr`.
pub fn build_set_hardware(name: Vec<u8>, reply_family: u16, addr: &MAC) -> (r: Request)
    requires
        name@.len() == 16,
    ensures
        r.wf(),
        r matches Request::SetHardware { name: n, family, addr: raw } && n@ == name@ && family
            == reply_family && (forall|i: int| 0 <= i < 6 ==> raw@[i] == addr@[i] as i8) && (forall|
            i: int,
        | 6 <= i < 14 ==> raw@[i] == 0),
{
    let raw = addr.to_raw_data();
    Request::SetHardware { name, family: reply_family, addr: raw }
}

/// Append every byte of `src` to `out`.
fn copy_bytes(out: &mut Vec<u8>, src: &Vec<u8>)
    ensures
        final(out)@ == old(out)@ + src@,
{
    let mut i: usize = 0;
    while i < src.len()
        invariant
            i <= src@.len(),
            out@ == old(out)@ + src@.take(i as int),
        decreases src@.len() - i,
    {
        out.push(src[i]);
        proof {
            assert(out@ =~= old(out)@ + src@.take(i as int + 1));
        }
        i = i + 1;
    }
    proof {
        assert(out@ =~= old(out)@ + src@);
    }
}

/// Append the four little-endian bytes of `v` to `out`.
fn push_le32(out: &mut Vec<u8>, v: u32)
    ensures
        final(out)@ == old(out)@ + le32(v),
{
    out.push(#[verifier::truncate] ((v & 0xff) as u8));
    out.push(#[verifier::truncate] (((v >> 8) & 0xff) as u8));
    out.push(#[verifier::truncate] (((v >> 16) & 0xff) as u8));
    out.push(#[verifier::truncate] (((v >> 24) & 0xff) as u8));
    proof {
        assert(out@ =~= old(out)@ + le32(v));
    }
}

/// The sixteen-bit value whose little-endian bytes are `lo`, `hi`.
pub open spec fn u16_from_le(lo: u8, hi: u8) -> u16 {
    (lo + hi * 256) as u16
}

/// Decode the kernel's answer to a hardware-address read: the thirty-two
/// byte record comes back with the address-family tag at offset sixteen
/// and the raw address bytes at offset eighteen, of which the first six
/// are the address. A record of any other size is refused.
pub fn decode_hardware_reply(buf: &[u8]) -> (r: Option<(u16, MAC)>)
    ensures
        match r {
            Some(pair) => {
                &&& buf@.len() == 32
                &&& pair.0 == u16_from_le(buf@[16], buf@[17])
                &&& pair.1@ == buf@.subrange(18, 24)
            },
            None => buf@.len() != 32,
        },
{
    if buf.len() != 32 {
        return None;
    }
    let family: u16 = buf[16] as u16 + buf[17] as u16 * 256;
    let m = MAC::from_bytes([buf[18], buf[19], buf[20], buf[21], buf[22], buf[23]]);
    proof {
        assert(m@ =~= buf@.subrange(18, 24));
    }
    Some((family, m))
}

/// Decode the kernel's answer to a permanent-address query: the fifty-six
/// byte record comes back with the extension data buffer at offset
/// twenty-four, of which the first six bytes are the address; the rest of
/// the buffer is driver-specific padding and is discarded. A record of any
/// other size is refused.
pub fn decode_permanent_reply(buf: &[u8]) -> (r: Option<MAC>)
    ensures
        match r {
            Some(m) => buf@.len() == 56 && m@ == buf@.subrange(24, 30),
            None => buf@.len() != 56,
        },
{
    if buf.len() != 56 {
        return None;
    }
    let m = MAC::from_bytes([buf[24], buf[25], buf[26], buf[27], buf[28], buf[29]]);
    proof {
        assert(m@ =~= buf@.subrange(24, 30));
    }
    Some(m)
}

/// Serializing a set-hardware-address request and reading the record back
/// yields the same family tag and the same six address bytes that were
/// put in.
pub proof fn lemma_hardware_encode_decode(name: Vec<u8>, family: u16, addr: [i8; 14])
    requires
        name@.len() == 16,
    ensures
        ({
            let image = (Request::SetHardware { name, family, addr }).spec_encode();
            &&& image.len() == 32
            &&& u16_from_le(image[16], image[17]) == family
            &&& image.subrange(18, 24) == Seq::new(6, |i: int| addr@[i] as u8)
        }),
{
    let image = (Request::SetHardware { name, family, addr }).spec_encode();
    assert(image.len() == 32);
    assert(image[16] == (family & 0xff) as u8);
    assert(image[17] == (family >> 8) as u8);
    assert((family & 0xff) as u8 + ((family >> 8) as u8) * 256 == family) by (bit_vector);
    assert(image.subrange(18, 24) =~= Seq::new(6, |i: int| addr@[i] as u8));
}

} // verus!
