//! Core types of the firmware interface: fixed-width aliases, the one-byte
//! boolean, opaque handle tokens, and the globally unique identifier with its
//! pinned 16-byte wire layout.

use vstd::prelude::*;

use crate::endian::u16_be;
use crate::endian::u16_hi;
use crate::endian::u16_join;
use crate::endian::u16_lo;
use crate::endian::u16_le;
use crate::endian::u16_of_bytes;
use crate::endian::u16_swap;
use crate::endian::u16_swapped;
use crate::endian::u32_b0;
use crate::endian::u32_b1;
use crate::endian::u32_b2;
use crate::endian::u32_b3;
use crate::endian::u32_be;
use crate::endian::u32_join;
use crate::endian::u32_le;
use crate::endian::u32_of_bytes;
use crate::endian::u32_swap;
use crate::endian::u32_swapped;

verus! {

broadcast use vstd::array::group_array_axioms;

/// Boolean type with a stable one-byte wire representation.
///
/// The firmware interface defines booleans as one-byte integers whose only
/// legal stored values are `0` (false) and `1` (true). This enum has exactly
/// those two tags, so no other value is representable in the type; a producer
/// that stores any other byte violates the interface contract.
#[derive(Clone, Copy, PartialEq, Eq, Structural, Debug)]
pub enum Boolean {
    False,
    True,
}

/// Single-byte character type: an ASCII-compatible ISO-Latin-1 code unit.
pub type Char8 = u8;

/// Dual-byte character type: a UCS-2 code unit in native byte order.
pub type Char16 = u16;

/// Status code: a native-width integer; zero conventionally denotes success,
/// nonzero denotes a failure or warning defined by an external enumeration.
pub type Status = usize;

/// Logical block address on a block device: a plain 64-bit integer.
pub type Lba = u64;

/// Task priority level: a native-width integer; higher means more urgent.
pub type Tpl = usize;

/// Physical memory address: a plain 64-bit integer.
pub type PhysicalAddress = u64;

/// Virtual memory address: a plain 64-bit integer.
pub type VirtualAddress = u64;

/// Opaque handle to a firmware-managed object.
///
/// A handle is a pointer-sized token with no structure of its own; this layer
/// never dereferences it. The value zero is the distinguished "no object"
/// sentinel.
#[derive(Clone, Copy, PartialEq, Eq, Structural, Debug)]
pub struct Handle {
    pub addr: usize,
}

impl Handle {
    /// The "no object" sentinel handle.
    pub fn null() -> (r: Handle)
        ensures
            r.addr == 0,
    {
        Handle { addr: 0 }
    }

    /// Whether this handle is the "no object" sentinel.
    pub fn is_null(&self) -> (r: bool)
        ensures
            r == (self.addr == 0),
    {
        self.addr == 0
    }
}

/// Opaque event token: a hook into the firmware main loop.
///
/// Like [`Handle`], an event is a pointer-sized token that this layer never
/// dereferences; zero is the "no event" sentinel.
#[derive(Clone, Copy, PartialEq, Eq, Structural, Debug)]
pub struct Event {
    pub addr: usize,
}

impl Event {
    /// The "no event" sentinel.
    pub fn null() -> (r: Event)
        ensures
            r.addr == 0,
    {
        Event { addr: 0 }
    }

    /// Whether this event is the "no event" sentinel.
    pub fn is_null(&self) -> (r: bool)
        ensures
            r == (self.addr == 0),
    {
        self.addr == 0
    }
}

/// Globally unique identifier in the Microsoft-style field layout.
///
/// The wire format is 16 bytes: `time_low` (4 bytes), `time_mid` (2 bytes),
/// `time_hi_and_version` (2 bytes), `clk_seq_hi_res` (1 byte), `clk_seq_low`
/// (1 byte) and `node` (6 bytes), with every multi-byte scalar field stored
/// in big-endian byte order regardless of the host's native order, and `node`
/// stored byte for byte.
///
/// The stored scalar fields hold the big-endian encoding of the logical field
/// values: [`Guid::from_native`] byte-swaps its arguments before storing them,
/// so that serializing the stored fields least-significant-byte first — the
/// layout of the supported little-endian hosts — yields the big-endian wire
/// bytes. The serialization itself is [`Guid::as_bytes`], and the crate-level
/// view of a `Guid` is that 16-byte sequence.
#[derive(Clone, Copy, Debug)]
pub struct Guid {
    pub time_low: u32,
    pub time_mid: u16,
    pub time_hi_and_version: u16,
    pub clk_seq_hi_res: u8,
    pub clk_seq_low: u8,
    pub node: [u8; 6],
}

impl View for Guid {
    type V = Seq<u8>;

    /// The 16 wire bytes of the identifier: each stored scalar field
    /// serialized least-significant-byte first, then the two clock-sequence
    /// bytes, then `node` verbatim.
    open spec fn view(&self) -> Seq<u8> {
        u32_le(self.time_low) + u16_le(self.time_mid) + u16_le(self.time_hi_and_version)
            + seq![self.clk_seq_hi_res, self.clk_seq_low] + self.node@
    }
}

/// The identifier that [`Guid::from_native`] builds from logical field
/// values: every multi-byte scalar field is stored byte-swapped (that is, in
/// big-endian storage order), and `node` is stored unchanged.
pub open spec fn guid_of_native_fields(
    time_low: u32,
    time_mid: u16,
    time_hi_and_version: u16,
    clk_seq_hi_res: u8,
    clk_seq_low: u8,
    node: [u8; 6],
) -> Guid {
    Guid {
        time_low: u32_swapped(time_low),
        time_mid: u16_swapped(time_mid),
        time_hi_and_version: u16_swapped(time_hi_and_version),
        clk_seq_hi_res,
        clk_seq_low,
        node,
    }
}

impl Guid {
    /// Initialize a `Guid` from its individual fields in native endianness.
    ///
    /// Each multi-byte scalar field is converted to big-endian storage order;
    /// `node` is copied unchanged. The resulting wire bytes are therefore the
    /// big-endian serialization of the scalar arguments followed by the two
    /// clock-sequence bytes and `node`, on any host. The operation is total:
    /// every combination of field values is accepted.
    pub fn from_native(
        time_low: u32,
        time_mid: u16,
        time_hi_and_version: u16,
        clk_seq_hi_res: u8,
        clk_seq_low: u8,
        node: &[u8; 6],
    ) -> (r: Guid)
        ensures
            r == guid_of_native_fields(
                time_low,
                time_mid,
                time_hi_and_version,
                clk_seq_hi_res,
                clk_seq_low,
                *node,
            ),
            r@ == u32_be(time_low) + u16_be(time_mid) + u16_be(time_hi_and_version)
                + seq![clk_seq_hi_res, clk_seq_low] + node@,
    {
        let r = Guid {
            time_low: u32_swap(time_low),
            time_mid: u16_swap(time_mid),
            time_hi_and_version: u16_swap(time_hi_and_version),
            clk_seq_hi_res,
            clk_seq_low,
            node: *node,
        };
        proof {
            crate::endian::lemma_u32_le_of_swapped(time_low);
            crate::endian::lemma_u16_le_of_swapped(time_mid);
            crate::endian::lemma_u16_le_of_swapped(time_hi_and_version);
            assert(r@ =~= u32_be(time_low) + u16_be(time_mid) + u16_be(time_hi_and_version)
                + seq![clk_seq_hi_res, clk_seq_low] + node@);
        }
        r
    }

    /// Initialize a `Guid` from its individual fields as printed in firmware
    /// interface documents.
    ///
    /// Such documents publish identifier literals pre-encoded for little-endian
    /// hosts: each scalar literal's bytes are already reversed relative to the
    /// logical value. This constructor first reverses the byte order of each
    /// scalar argument (a no-op for the single-byte fields, which are included
    /// for interface symmetry) and then delegates to [`Guid::from_native`], so
    /// literals copied verbatim from such a document produce the correct
    /// stored identifier on any host. The pre-swap cancels the big-endian
    /// store: the scalar fields end up stored exactly as the literals were
    /// written, and the wire bytes are their little-endian serialization.
    pub fn from_spec(
        time_low: u32,
        time_mid: u16,
        time_hi_and_version: u16,
        clk_seq_hi_res: u8,
        clk_seq_low: u8,
        node: &[u8; 6],
    ) -> (r: Guid)
        ensures
            r == guid_of_native_fields(
                u32_swapped(time_low),
                u16_swapped(time_mid),
                u16_swapped(time_hi_and_version),
                clk_seq_hi_res,
                clk_seq_low,
                *node,
            ),
            r.time_low == time_low,
            r.time_mid == time_mid,
            r.time_hi_and_version == time_hi_and_version,
            r@ == u32_le(time_low) + u16_le(time_mid) + u16_le(time_hi_and_version)
                + seq![clk_seq_hi_res, clk_seq_low] + node@,
    {
        let r = Guid::from_native(
            u32_swap(time_low),
            u16_swap(time_mid),
            u16_swap(time_hi_and_version),
            clk_seq_hi_res,
            clk_seq_low,
            node,
        );
        proof {
            crate::endian::lemma_u32_swap_involutive(time_low);
            crate::endian::lemma_u16_swap_involutive(time_mid);
            crate::endian::lemma_u16_swap_involutive(time_hi_and_version);
            assert(r@ =~= u32_le(time_low) + u16_le(time_mid) + u16_le(time_hi_and_version)
                + seq![clk_seq_hi_res, clk_seq_low] + node@);
        }
        r
    }

    /// Serialize a `Guid` as its raw 16-byte wire representation.
    ///
    /// The result is exactly the identifier's stored bytes: each stored scalar
    /// field least-significant-byte first, then the two clock-sequence bytes,
    /// then `node` verbatim. No conversion is performed; called after either
    /// constructor this yields the specification-conformant wire bytes.
    pub fn as_bytes(&self) -> (r: [u8; 16])
        ensures
            r@ == self@,
    {
        let r: [u8; 16] = [
            (self.time_low & 0xff) as u8,
            ((self.time_low >> 8) & 0xff) as u8,
            ((self.time_low >> 16) & 0xff) as u8,
            ((self.time_low >> 24) & 0xff) as u8,
            (self.time_mid & 0xff) as u8,
            ((self.time_mid >> 8) & 0xff) as u8,
            (self.time_hi_and_version & 0xff) as u8,
            ((self.time_hi_and_version >> 8) & 0xff) as u8,
            self.clk_seq_hi_res,
            self.clk_seq_low,
            self.node[0],
            self.node[1],
            self.node[2],
            self.node[3],
            self.node[4],
            self.node[5],
        ];
        proof {
            assert(r@ =~= self@);
        }
        r
    }

    /// Reinterpret 16 raw wire bytes as a `Guid`.
    ///
    /// This is the inverse of [`Guid::as_bytes`]: the bytes are copied into
    /// the field layout with no transformation, so serializing the result
    /// reproduces the input bytes exactly.
    pub fn from_bytes(bytes: &[u8; 16]) -> (r: Guid)
        ensures
            r@ == bytes@,
            r.time_low == u32_of_bytes(bytes@[0], bytes@[1], bytes@[2], bytes@[3]),
            r.time_mid == u16_of_bytes(bytes@[4], bytes@[5]),
            r.time_hi_and_version == u16_of_bytes(bytes@[6], bytes@[7]),
            r.clk_seq_hi_res == bytes@[8],
            r.clk_seq_low == bytes@[9],
            r.node@ == bytes@.subrange(10, 16),
    {
        let r = Guid {
            time_low: u32_join(bytes[0], bytes[1], bytes[2], bytes[3]),
            time_mid: u16_join(bytes[4], bytes[5]),
            time_hi_and_version: u16_join(bytes[6], bytes[7]),
            clk_seq_hi_res: bytes[8],
            clk_seq_low: bytes[9],
            node: [bytes[10], bytes[11], bytes[12], bytes[13], bytes[14], bytes[15]],
        };
        proof {
            crate::endian::lemma_u32_decompose(bytes[0], bytes[1], bytes[2], bytes[3]);
            crate::endian::lemma_u16_decompose(bytes[4], bytes[5]);
            crate::endian::lemma_u16_decompose(bytes[6], bytes[7]);
            assert(r@ =~= bytes@);
            assert(r.node@ =~= bytes@.subrange(10, 16));
        }
        r
    }
}

/// Law: the wire view determines the identifier. Two identifiers with the
/// same 16 wire bytes are equal, field for field; together with the
/// constructors' contracts this makes reinterpreting an identifier's raw
/// bytes and re-serializing them an exact round trip.
pub proof fn lemma_wire_determines_guid(a: Guid, b: Guid)
    requires
        a@ == b@,
    ensures
        a == b,
{
    crate::endian::lemma_u32_compose(a.time_low);
    crate::endian::lemma_u32_compose(b.time_low);
    crate::endian::lemma_u16_compose(a.time_mid);
    crate::endian::lemma_u16_compose(b.time_mid);
    crate::endian::lemma_u16_compose(a.time_hi_and_version);
    crate::endian::lemma_u16_compose(b.time_hi_and_version);
    assert(a@[0] == u32_b0(a.time_low) && b@[0] == u32_b0(b.time_low));
    assert(a@[1] == u32_b1(a.time_low) && b@[1] == u32_b1(b.time_low));
    assert(a@[2] == u32_b2(a.time_low) && b@[2] == u32_b2(b.time_low));
    assert(a@[3] == u32_b3(a.time_low) && b@[3] == u32_b3(b.time_low));
    assert(a@[4] == u16_lo(a.time_mid) && b@[4] == u16_lo(b.time_mid));
    assert(a@[5] == u16_hi(a.time_mid) && b@[5] == u16_hi(b.time_mid));
    assert(a@[6] == u16_lo(a.time_hi_and_version) && b@[6] == u16_lo(b.time_hi_and_version));
    assert(a@[7] == u16_hi(a.time_hi_and_version) && b@[7] == u16_hi(b.time_hi_and_version));
    assert(a@[8] == a.clk_seq_hi_res && b@[8] == b.clk_seq_hi_res);
    assert(a@[9] == a.clk_seq_low && b@[9] == b.clk_seq_low);
    assert forall|i: int| 0 <= i < 6 implies a.node@[i] == b.node@[i] by {
        assert(a@[10 + i] == a.node@[i]);
        assert(b@[10 + i] == b.node@[i]);
    }
    assert(a.node =~= b.node);
}

} // verus!
