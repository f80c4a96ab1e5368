//! A read-only window over the bytes of a packet.

use vstd::prelude::*;

verus! {

/// What a [`PacketData`] stands for: the bytes it borrows and the offset at
/// which its header of interest begins.
pub ghost struct PacketDataModel {
    pub bytes: Seq<u8>,
    pub base_offset: nat,
}

impl PacketDataModel {
    /// The base offset lies within the bytes (it may equal their length).
    pub open spec fn well_formed(self) -> bool {
        self.base_offset <= self.bytes.len()
    }
}

/// A borrowed, never copied, never mutated window over packet bytes, together
/// with a base offset that lies within them.
#[derive(Clone, Copy)]
pub struct PacketData<'packet> {
    bytes: &'packet [u8],
    base_offset: usize,
}

impl<'packet> View for PacketData<'packet> {
    type V = PacketDataModel;

    closed spec fn view(&self) -> PacketDataModel {
        PacketDataModel { bytes: self.bytes@, base_offset: self.base_offset as nat }
    }
}

impl<'packet> PacketData<'packet> {
    #[verifier::type_invariant]
    closed spec fn inv(self) -> bool {
        self.base_offset <= self.bytes@.len()
    }

    /// Wraps `bytes` with the given base offset; `None` when the offset lies
    /// past the end of the bytes.
    pub fn new(bytes: &'packet [u8], base_offset: usize) -> (r: Option<PacketData<'packet>>)
        ensures
            base_offset <= bytes@.len() <==> r is Some,
            r matches Some(d) ==> d@ == (PacketDataModel {
                bytes: bytes@,
                base_offset: base_offset as nat,
            }),
    {
        if base_offset <= bytes.len() {
            Some(PacketData { bytes, base_offset })
        } else {
            None
        }
    }

    /// Wraps `bytes` with a base offset of zero.
    pub fn from_bytes(bytes: &'packet [u8]) -> (r: PacketData<'packet>)
        ensures
            r@ == (PacketDataModel { bytes: bytes@, base_offset: 0 }),
    {
        PacketData { bytes, base_offset: 0 }
    }

    /// The number of bytes in the window.
    pub fn len(&self) -> (r: usize)
        ensures
            r == self@.bytes.len(),
            self@.well_formed(),
    {
        proof {
            use_type_invariant(self);
        }
        self.bytes.len()
    }

    /// The byte at position `i`.
    pub fn byte(&self, i: usize) -> (r: u8)
        requires
            i < self@.bytes.len(),
        ensures
            r == self@.bytes[i as int],
    {
        self.bytes[i]
    }

    /// The offset at which the window's header of interest begins.
    pub fn base_offset(&self) -> (r: usize)
        ensures
            r == self@.base_offset,
            self@.well_formed(),
    {
        proof {
            use_type_invariant(self);
        }
        self.base_offset
    }

    /// The borrowed bytes themselves.
    pub fn as_slice(&self) -> (r: &'packet [u8])
        ensures
            r@ == self@.bytes,
    {
        self.bytes
    }
}

} // verus!
