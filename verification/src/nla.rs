//! Manual netlink attribute (NLA) encoding: a tagged, length-prefixed,
//! 4-byte-aligned type-length-value layout, written as a pure function from
//! attribute lists to byte buffers.
//!
//! Length and type fields are emitted least-significant byte first, the byte
//! order of the platforms this library drives the kernel on.

use vstd::prelude::*;

verus! {

/// One raw attribute: a 16-bit type tag and its payload bytes.
#[derive(Clone, PartialEq, Eq, Debug)]
pub struct RawNla {
    pub kind: u16,
    pub value: Vec<u8>,
}

/// The mathematical image of a raw attribute.
pub struct NlaModel {
    pub kind: u16,
    pub value: Seq<u8>,
}

impl DeepView for RawNla {
    type V = NlaModel;

    open spec fn deep_view(&self) -> NlaModel {
        NlaModel { kind: self.kind, value: self.value@ }
    }
}

impl RawNla {
    pub fn new(kind: u16, value: Vec<u8>) -> (r: Self)
        ensures
            r.kind == kind,
            r.value@ == value@,
    {
        RawNla { kind, value }
    }
}

/// `len` rounded up to the next multiple of four.
pub open spec fn spec_align_nla(len: int) -> int {
    ((len + 3) / 4) * 4
}

/// `len` rounded up to the next multiple of four.
pub fn align_nla(len: usize) -> (r: usize)
    requires
        len <= 0xfffc,
    ensures
        r == spec_align_nla(len as int),
        len <= r < len + 4,
        r % 4 == 0,
{
    ((len + 3) / 4) * 4
}

/// The two bytes of `x`, least significant first.
pub open spec fn spec_u16_le(x: u16) -> Seq<u8> {
    seq![(x & 0xff) as u8, ((x >> 8u16) & 0xff) as u8]
}

/// The number of zero bytes that pad a payload of `value_len` bytes (plus
/// its four header bytes) to a four-byte boundary.
pub open spec fn spec_nla_pad(value_len: int) -> int {
    spec_align_nla(value_len + 4) - (value_len + 4)
}

/// The wire bytes of one attribute: little-endian total length (header
/// included), little-endian type, the payload, then zero padding to a
/// four-byte boundary.
pub open spec fn spec_nla_bytes(kind: u16, value: Seq<u8>) -> Seq<u8> {
    spec_u16_le(((value.len() + 4) as u16)) + spec_u16_le(kind) + value + Seq::new(
        spec_nla_pad(value.len() as int) as nat,
        |i: int| 0u8,
    )
}

/// An attribute list is encodable when every payload leaves its total
/// length within the 16-bit length field.
pub open spec fn spec_nlas_encodable(attrs: Seq<NlaModel>) -> bool {
    forall|i: int| 0 <= i < attrs.len() ==> (#[trigger] attrs[i]).value.len() <= 0xfff8
}

/// The concatenated wire bytes of an attribute list, in order.
pub open spec fn spec_encode_nlas(attrs: Seq<NlaModel>) -> Seq<u8>
    decreases attrs.len(),
{
    if attrs.len() == 0 {
        Seq::empty()
    } else {
        spec_encode_nlas(attrs.drop_last()) + spec_nla_bytes(
            attrs.last().kind,
            attrs.last().value,
        )
    }
}

/// The four bytes of `x`, most significant first (network order).
pub open spec fn spec_u32_be(x: u32) -> Seq<u8> {
    seq![
        (((x >> 24u32) & 0xff) as u8),
        (((x >> 16u32) & 0xff) as u8),
        (((x >> 8u32) & 0xff) as u8),
        ((x & 0xff) as u8),
    ]
}

/// The four bytes of `x`, least significant first: the layout of a 32-bit
/// field in the kernel's native order on the platforms this library runs
/// on.
pub open spec fn spec_u32_le(x: u32) -> Seq<u8> {
    seq![
        ((x & 0xff) as u8),
        (((x >> 8u32) & 0xff) as u8),
        (((x >> 16u32) & 0xff) as u8),
        (((x >> 24u32) & 0xff) as u8),
    ]
}

/// The network-order bytes of a 32-bit value.
pub fn u32_be_octets(x: u32) -> (r: Vec<u8>)
    ensures
        r@ == spec_u32_be(x),
{
    let mut r: Vec<u8> = Vec::new();
    r.push(((x >> 24u32) & 0xff) as u8);
    r.push(((x >> 16u32) & 0xff) as u8);
    r.push(((x >> 8u32) & 0xff) as u8);
    r.push((x & 0xff) as u8);
    proof {
        assert(r@ =~= spec_u32_be(x));
    }
    r
}

/// The native-order bytes of a 32-bit value, least significant first.
pub fn u32_le_octets(x: u32) -> (r: Vec<u8>)
    ensures
        r@ == spec_u32_le(x),
{
    let mut r: Vec<u8> = Vec::new();
    r.push((x & 0xff) as u8);
    r.push(((x >> 8u32) & 0xff) as u8);
    r.push(((x >> 16u32) & 0xff) as u8);
    r.push(((x >> 24u32) & 0xff) as u8);
    proof {
        assert(r@ =~= spec_u32_le(x));
    }
    r
}

/// A one-byte payload.
pub fn byte_vec(b: u8) -> (r: Vec<u8>)
    ensures
        r@ == seq![b],
{
    let mut r: Vec<u8> = Vec::new();
    r.push(b);
    proof {
        assert(r@ =~= seq![b]);
    }
    r
}

/// Appends the wire encoding of one attribute to `buf`.
fn push_nla(buf: &mut Vec<u8>, attr: &RawNla)
    requires
        attr.value@.len() <= 0xfff8,
    ensures
        final(buf)@ == old(buf)@ + spec_nla_bytes(attr.kind, attr.value@),
{
    let value_len: usize = attr.value.len();
    let payload_len: usize = value_len + 4;
    let plen16: u16 = payload_len as u16;
    buf.push(#[verifier::truncate] ((plen16 & 0xff) as u8));
    buf.push(#[verifier::truncate] (((plen16 >> 8u16) & 0xff) as u8));
    buf.push(#[verifier::truncate] ((attr.kind & 0xff) as u8));
    buf.push(#[verifier::truncate] (((attr.kind >> 8u16) & 0xff) as u8));
    let mut i: usize = 0;
    while i < value_len
        invariant
            i <= value_len,
            value_len == attr.value@.len() <= 0xfff8,
            plen16 == value_len + 4,
            buf@ == old(buf)@ + spec_u16_le(plen16) + spec_u16_le(attr.kind) + attr.value@.take(
                i as int,
            ),
        decreases value_len - i,
    {
        let b = attr.value[i];
        buf.push(b);
        proof {
            assert(attr.value@.take(i + 1) =~= attr.value@.take(i as int) + seq![attr.value@[
            i as int]]);
        }
        i = i + 1;
    }
    proof {
        assert(attr.value@.take(value_len as int) =~= attr.value@);
    }
    let aligned: usize = align_nla(payload_len);
    let pad: usize = aligned - payload_len;
    let mut j: usize = 0;
    while j < pad
        invariant
            j <= pad,
            buf@ == old(buf)@ + spec_u16_le(plen16) + spec_u16_le(attr.kind) + attr.value@
                + Seq::new(j as nat, |k: int| 0u8),
        decreases pad - j,
    {
        buf.push(0u8);
        proof {
            assert(Seq::new((j + 1) as nat, |k: int| 0u8) =~= Seq::new(j as nat, |k: int| 0u8)
                + seq![0u8]);
        }
        j = j + 1;
    }
    proof {
        assert(pad == spec_nla_pad(attr.value@.len() as int));
        assert(buf@ =~= old(buf)@ + spec_nla_bytes(attr.kind, attr.value@));
    }
}

/// Encodes a whole attribute list into one byte buffer, each attribute laid
/// out as a length-prefixed, 4-byte-aligned record in list order.
pub fn encode_nlas(attrs: &Vec<RawNla>) -> (r: Vec<u8>)
    requires
        spec_nlas_encodable(attrs.deep_view()),
    ensures
        r@ == spec_encode_nlas(attrs.deep_view()),
{
    let mut buf: Vec<u8> = Vec::new();
    let n: usize = attrs.len();
    let mut i: usize = 0;
    while i < n
        invariant
            i <= n,
            n == attrs@.len(),
            spec_nlas_encodable(attrs.deep_view()),
            buf@ == spec_encode_nlas(attrs.deep_view().take(i as int)),
        decreases n - i,
    {
        proof {
            assert(attrs.deep_view()[i as int] == attrs@[i as int].deep_view());
            assert(attrs.deep_view()[i as int].value.len() <= 0xfff8);
        }
        push_nla(&mut buf, &attrs[i]);
        proof {
            let dv = attrs.deep_view();
            assert(dv.take(i + 1).drop_last() =~= dv.take(i as int));
            assert(dv.take(i + 1).last() == dv[i as int]);
        }
        i = i + 1;
    }
    proof {
        assert(attrs.deep_view().take(n as int) =~= attrs.deep_view());
    }
    buf
}

} // verus!
