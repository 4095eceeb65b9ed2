//! The kernel-dispatch packet: its fields, the encoding of its header and
//! setup words, and its 64-byte layout.

use vstd::prelude::*;

verus! {

/// The packet type of a kernel dispatch.
pub const PACKET_TYPE_KERNEL_DISPATCH: u16 = 2;

/// The fence scope that covers every agent and the host.
pub const FENCE_SCOPE_SYSTEM: u16 = 2;

/// Bit offset of the packet type in the header.
pub const PACKET_HEADER_TYPE: u16 = 0;

/// Bit offset of the acquire fence scope in the header.
pub const PACKET_HEADER_SCACQUIRE_FENCE_SCOPE: u16 = 9;

/// Bit offset of the release fence scope in the header.
pub const PACKET_HEADER_SCRELEASE_FENCE_SCOPE: u16 = 11;

/// Bit offset of the dimension count in the setup word.
pub const KERNEL_DISPATCH_PACKET_SETUP_DIMENSIONS: u16 = 0;

/// The size of a packet in bytes.
pub const PACKET_SIZE: usize = 64;

/// The size of the header in bytes. The header is the first field of a
/// packet; the body of the packet is what follows it.
pub const HEADER_SIZE: usize = 2;

/// What a caller asks to launch: a kernel, its arguments and its geometry.
#[derive(Debug, Clone, Copy, PartialEq, Eq)]
pub struct KernelDispatch {
    pub kernel_object: u64,
    pub kernarg_address: usize,
    pub workgroup_size: (u16, u16, u16),
    pub grid_size: (u32, u32, u32),
    pub private_segment_size: u32,
    pub group_segment_size: u32,
}

/// One slot of the ring, field by field in the order of the packet layout.
#[derive(Debug, Clone, Copy, PartialEq, Eq, Structural)]
pub struct DispatchPacket {
    pub header: u16,
    pub setup: u16,
    pub workgroup_size_x: u16,
    pub workgroup_size_y: u16,
    pub workgroup_size_z: u16,
    pub reserved0: u16,
    pub grid_size_x: u32,
    pub grid_size_y: u32,
    pub grid_size_z: u32,
    pub private_segment_size: u32,
    pub group_segment_size: u32,
    pub kernel_object: u64,
    pub kernarg_address: u64,
    pub reserved2: u64,
    pub completion_signal: u64,
}

/// The `width` bytes that hold `value` in little-endian order: the lowest
/// eight bits first.
pub open spec fn le_bytes(value: nat, width: nat) -> Seq<u8>
    decreases width,
{
    if width == 0 {
        Seq::empty()
    } else {
        seq![(value % 256) as u8] + le_bytes(value / 256, (width - 1) as nat)
    }
}

/// Little-endian bytes are as many as asked for.
pub proof fn lemma_le_bytes_len(value: nat, width: nat)
    ensures
        le_bytes(value, width).len() == width,
    decreases width,
{
    if width > 0 {
        lemma_le_bytes_len(value / 256, (width - 1) as nat);
    }
}

/// Appends `value` in `width` little-endian bytes.
fn push_le(bytes: &mut Vec<u8>, value: u64, width: usize)
    ensures
        final(bytes)@ == old(bytes)@ + le_bytes(value as nat, width as nat),
{
    let mut rest: u64 = value;
    let mut written: usize = 0;
    assert(bytes@ + le_bytes(value as nat, width as nat) =~= old(bytes)@ + le_bytes(
        value as nat,
        width as nat,
    ));
    while written < width
        invariant
            0 <= written <= width,
            bytes@ + le_bytes(rest as nat, (width - written) as nat) == old(bytes)@ + le_bytes(
                value as nat,
                width as nat,
            ),
        decreases width - written,
    {
        let ghost before = bytes@;
        let low: u8 = (rest % 256) as u8;
        bytes.push(low);
        proof {
            let tail = le_bytes((rest / 256) as nat, (width - written - 1) as nat);
            assert(le_bytes(rest as nat, (width - written) as nat) == seq![low] + tail);
            assert(before.push(low) + tail =~= before + (seq![low] + tail));
        }
        rest = rest / 256;
        written += 1;
    }
    assert(bytes@ + Seq::<u8>::empty() =~= bytes@);
}

/// The number of dimensions of a grid: the highest axis that is larger than
/// one, and one where none is.
pub open spec fn dimensions_of(grid: (u32, u32, u32)) -> u16 {
    if grid.2 > 1 {
        3
    } else if grid.1 > 1 {
        2
    } else {
        1
    }
}

/// The setup word for a number of dimensions.
pub open spec fn setup_word(dimensions: u16) -> u16 {
    dimensions << KERNEL_DISPATCH_PACKET_SETUP_DIMENSIONS
}

/// The header of a kernel dispatch whose acquire and release fences both
/// have system scope.
pub open spec fn dispatch_header() -> u16 {
    PACKET_TYPE_KERNEL_DISPATCH << PACKET_HEADER_TYPE | FENCE_SCOPE_SYSTEM
        << PACKET_HEADER_SCACQUIRE_FENCE_SCOPE | FENCE_SCOPE_SYSTEM
        << PACKET_HEADER_SCRELEASE_FENCE_SCOPE
}

/// The header word, which is `0x1402`.
pub fn kernel_dispatch_header() -> (h: u16)
    ensures
        h == dispatch_header(),
        h == 0x1402,
{
    assert((2u16 << 0u16 | 2u16 << 9u16 | 2u16 << 11u16) == 0x1402u16) by (bit_vector);
    PACKET_TYPE_KERNEL_DISPATCH << PACKET_HEADER_TYPE | FENCE_SCOPE_SYSTEM
        << PACKET_HEADER_SCACQUIRE_FENCE_SCOPE | FENCE_SCOPE_SYSTEM
        << PACKET_HEADER_SCRELEASE_FENCE_SCOPE
}

impl KernelDispatch {
    /// The number of dimensions of the grid.
    pub fn dimensions(&self) -> (d: u16)
        ensures
            d == dimensions_of(self.grid_size),
            1 <= d <= 3,
    {
        if self.grid_size.2 > 1 {
            3
        } else if self.grid_size.1 > 1 {
            2
        } else {
            1
        }
    }
}

impl DispatchPacket {
    /// The packet whose every field is zero. Its header names no valid
    /// packet type, so a device that reads it passes over it.
    pub open spec fn zero() -> DispatchPacket {
        DispatchPacket {
            header: 0,
            setup: 0,
            workgroup_size_x: 0,
            workgroup_size_y: 0,
            workgroup_size_z: 0,
            reserved0: 0,
            grid_size_x: 0,
            grid_size_y: 0,
            grid_size_z: 0,
            private_segment_size: 0,
            group_segment_size: 0,
            kernel_object: 0,
            kernarg_address: 0,
            reserved2: 0,
            completion_signal: 0,
        }
    }

    /// This packet with the body of a dispatch written into it: every field
    /// of the launch, and neither the header nor the reserved fields.
    pub open spec fn populated(self, dispatch: KernelDispatch, completion_signal: u64) -> DispatchPacket {
        DispatchPacket {
            header: self.header,
            setup: setup_word(dimensions_of(dispatch.grid_size)),
            workgroup_size_x: dispatch.workgroup_size.0,
            workgroup_size_y: dispatch.workgroup_size.1,
            workgroup_size_z: dispatch.workgroup_size.2,
            reserved0: self.reserved0,
            grid_size_x: dispatch.grid_size.0,
            grid_size_y: dispatch.grid_size.1,
            grid_size_z: dispatch.grid_size.2,
            private_segment_size: dispatch.private_segment_size,
            group_segment_size: dispatch.group_segment_size,
            kernel_object: dispatch.kernel_object,
            kernarg_address: dispatch.kernarg_address as u64,
            reserved2: self.reserved2,
            completion_signal,
        }
    }

    /// This packet with its header replaced.
    pub open spec fn with_header(self, header: u16) -> DispatchPacket {
        DispatchPacket { header, ..self }
    }

    /// The packet that a finished dispatch leaves in its slot.
    pub open spec fn encoded(dispatch: KernelDispatch, completion_signal: u64) -> DispatchPacket {
        Self::zero().populated(dispatch, completion_signal).with_header(dispatch_header())
    }

    /// The 64 bytes of this packet: each field in little-endian order, one
    /// after the other in the order of the fields.
    pub open spec fn layout(self) -> Seq<u8> {
        le_bytes(self.header as nat, 2) + le_bytes(self.setup as nat, 2) + le_bytes(
            self.workgroup_size_x as nat,
            2,
        ) + le_bytes(self.workgroup_size_y as nat, 2) + le_bytes(self.workgroup_size_z as nat, 2)
            + le_bytes(self.reserved0 as nat, 2) + le_bytes(self.grid_size_x as nat, 4)
            + le_bytes(self.grid_size_y as nat, 4) + le_bytes(self.grid_size_z as nat, 4)
            + le_bytes(self.private_segment_size as nat, 4) + le_bytes(
            self.group_segment_size as nat,
            4,
        ) + le_bytes(self.kernel_object as nat, 8) + le_bytes(self.kernarg_address as nat, 8)
            + le_bytes(self.reserved2 as nat, 8) + le_bytes(self.completion_signal as nat, 8)
    }

    /// A packet of zeros.
    pub fn zeroed() -> (p: DispatchPacket)
        ensures
            p == Self::zero(),
    {
        DispatchPacket {
            header: 0,
            setup: 0,
            workgroup_size_x: 0,
            workgroup_size_y: 0,
            workgroup_size_z: 0,
            reserved0: 0,
            grid_size_x: 0,
            grid_size_y: 0,
            grid_size_z: 0,
            private_segment_size: 0,
            group_segment_size: 0,
            kernel_object: 0,
            kernarg_address: 0,
            reserved2: 0,
            completion_signal: 0,
        }
    }

    /// Clears every field, the header among them.
    pub fn clear(&mut self)
        ensures
            *final(self) == Self::zero(),
    {
        *self = Self::zeroed();
    }

    /// Writes the body of a dispatch. The header is left as it is: on a
    /// cleared packet it still reads zero afterwards.
    pub fn populate(&mut self, dispatch: &KernelDispatch, completion_signal: u64)
        ensures
            *final(self) == old(self).populated(*dispatch, completion_signal),
            final(self).header == old(self).header,
    {
        self.setup = dispatch.dimensions() << KERNEL_DISPATCH_PACKET_SETUP_DIMENSIONS;
        self.workgroup_size_x = dispatch.workgroup_size.0;
        self.workgroup_size_y = dispatch.workgroup_size.1;
        self.workgroup_size_z = dispatch.workgroup_size.2;
        self.grid_size_x = dispatch.grid_size.0;
        self.grid_size_y = dispatch.grid_size.1;
        self.grid_size_z = dispatch.grid_size.2;
        self.kernel_object = dispatch.kernel_object;
        self.kernarg_address = dispatch.kernarg_address as u64;
        self.private_segment_size = dispatch.private_segment_size;
        self.group_segment_size = dispatch.group_segment_size;
        self.completion_signal = completion_signal;
    }

    /// Writes the header of a kernel dispatch. This is the write that makes
    /// the packet eligible for execution, so it comes after every other.
    pub fn commit(&mut self)
        ensures
            *final(self) == old(self).with_header(dispatch_header()),
    {
        self.header = kernel_dispatch_header();
    }

    /// The dimension count that the setup word holds.
    pub fn dimensions(&self) -> (d: u16)
        ensures
            d == self.setup >> KERNEL_DISPATCH_PACKET_SETUP_DIMENSIONS,
    {
        self.setup >> KERNEL_DISPATCH_PACKET_SETUP_DIMENSIONS
    }

    /// The packet as the device reads it.
    pub fn to_bytes(&self) -> (bytes: Vec<u8>)
        ensures
            bytes@ == self.layout(),
    {
        let mut bytes: Vec<u8> = Vec::new();
        push_le(&mut bytes, self.header as u64, 2);
        push_le(&mut bytes, self.setup as u64, 2);
        push_le(&mut bytes, self.workgroup_size_x as u64, 2);
        push_le(&mut bytes, self.workgroup_size_y as u64, 2);
        push_le(&mut bytes, self.workgroup_size_z as u64, 2);
        push_le(&mut bytes, self.reserved0 as u64, 2);
        push_le(&mut bytes, self.grid_size_x as u64, 4);
        push_le(&mut bytes, self.grid_size_y as u64, 4);
        push_le(&mut bytes, self.grid_size_z as u64, 4);
        push_le(&mut bytes, self.private_segment_size as u64, 4);
        push_le(&mut bytes, self.group_segment_size as u64, 4);
        push_le(&mut bytes, self.kernel_object, 8);
        push_le(&mut bytes, self.kernarg_address, 8);
        push_le(&mut bytes, self.reserved2, 8);
        push_le(&mut bytes, self.completion_signal, 8);
        assert(bytes@ =~= self.layout());
        bytes
    }
}

/// The layout of a packet is 64 bytes long, and each field stands at its
/// offset: the header at 0, the setup word at 2, the workgroup sizes at 4, 6
/// and 8, the grid sizes at 12, 16 and 20, the private and group segment
/// sizes at 24 and 28, the kernel object at 32, the kernarg address at 40
/// and the completion signal at 56. The bytes at 10 and at 48 are reserved.
pub proof fn lemma_layout_offsets(packet: DispatchPacket)
    ensures
        packet.layout().len() == PACKET_SIZE,
        packet.layout().subrange(0, 2) == le_bytes(packet.header as nat, 2),
        packet.layout().subrange(2, 4) == le_bytes(packet.setup as nat, 2),
        packet.layout().subrange(4, 6) == le_bytes(packet.workgroup_size_x as nat, 2),
        packet.layout().subrange(6, 8) == le_bytes(packet.workgroup_size_y as nat, 2),
        packet.layout().subrange(8, 10) == le_bytes(packet.workgroup_size_z as nat, 2),
        packet.layout().subrange(10, 12) == le_bytes(packet.reserved0 as nat, 2),
        packet.layout().subrange(12, 16) == le_bytes(packet.grid_size_x as nat, 4),
        packet.layout().subrange(16, 20) == le_bytes(packet.grid_size_y as nat, 4),
        packet.layout().subrange(20, 24) == le_bytes(packet.grid_size_z as nat, 4),
        packet.layout().subrange(24, 28) == le_bytes(packet.private_segment_size as nat, 4),
        packet.layout().subrange(28, 32) == le_bytes(packet.group_segment_size as nat, 4),
        packet.layout().subrange(32, 40) == le_bytes(packet.kernel_object as nat, 8),
        packet.layout().subrange(40, 48) == le_bytes(packet.kernarg_address as nat, 8),
        packet.layout().subrange(48, 56) == le_bytes(packet.reserved2 as nat, 8),
        packet.layout().subrange(56, 64) == le_bytes(packet.completion_signal as nat, 8),
{
    lemma_le_bytes_len(packet.header as nat, 2);
    lemma_le_bytes_len(packet.setup as nat, 2);
    lemma_le_bytes_len(packet.workgroup_size_x as nat, 2);
    lemma_le_bytes_len(packet.workgroup_size_y as nat, 2);
    lemma_le_bytes_len(packet.workgroup_size_z as nat, 2);
    lemma_le_bytes_len(packet.reserved0 as nat, 2);
    lemma_le_bytes_len(packet.grid_size_x as nat, 4);
    lemma_le_bytes_len(packet.grid_size_y as nat, 4);
    lemma_le_bytes_len(packet.grid_size_z as nat, 4);
    lemma_le_bytes_len(packet.private_segment_size as nat, 4);
    lemma_le_bytes_len(packet.group_segment_size as nat, 4);
    lemma_le_bytes_len(packet.kernel_object as nat, 8);
    lemma_le_bytes_len(packet.kernarg_address as nat, 8);
    lemma_le_bytes_len(packet.reserved2 as nat, 8);
    lemma_le_bytes_len(packet.completion_signal as nat, 8);
    let l = packet.layout();
    assert(l.subrange(0, 2) =~= le_bytes(packet.header as nat, 2));
    assert(l.subrange(2, 4) =~= le_bytes(packet.setup as nat, 2));
    assert(l.subrange(4, 6) =~= le_bytes(packet.workgroup_size_x as nat, 2));
    assert(l.subrange(6, 8) =~= le_bytes(packet.workgroup_size_y as nat, 2));
    assert(l.subrange(8, 10) =~= le_bytes(packet.workgroup_size_z as nat, 2));
    assert(l.subrange(10, 12) =~= le_bytes(packet.reserved0 as nat, 2));
    assert(l.subrange(12, 16) =~= le_bytes(packet.grid_size_x as nat, 4));
    assert(l.subrange(16, 20) =~= le_bytes(packet.grid_size_y as nat, 4));
    assert(l.subrange(20, 24) =~= le_bytes(packet.grid_size_z as nat, 4));
    assert(l.subrange(24, 28) =~= le_bytes(packet.private_segment_size as nat, 4));
    assert(l.subrange(28, 32) =~= le_bytes(packet.group_segment_size as nat, 4));
    assert(l.subrange(32, 40) =~= le_bytes(packet.kernel_object as nat, 8));
    assert(l.subrange(40, 48) =~= le_bytes(packet.kernarg_address as nat, 8));
    assert(l.subrange(48, 56) =~= le_bytes(packet.reserved2 as nat, 8));
    assert(l.subrange(56, 64) =~= le_bytes(packet.completion_signal as nat, 8));
}

/// The header of a dispatch reads back as what it was made of: the packet
/// type is kernel dispatch, the barrier bit is clear, and the acquire and the
/// release fence both have system scope.
pub proof fn lemma_header_fields()
    ensures
        (dispatch_header() >> PACKET_HEADER_TYPE) & 0xff == PACKET_TYPE_KERNEL_DISPATCH,
        (dispatch_header() >> 8u16) & 0x1 == 0,
        (dispatch_header() >> PACKET_HEADER_SCACQUIRE_FENCE_SCOPE) & 0x3 == FENCE_SCOPE_SYSTEM,
        (dispatch_header() >> PACKET_HEADER_SCRELEASE_FENCE_SCOPE) & 0x3 == FENCE_SCOPE_SYSTEM,
{
    assert(((2u16 << 0u16 | 2u16 << 9u16 | 2u16 << 11u16) >> 0u16) & 0xff == 2u16) by (bit_vector);
    assert(((2u16 << 0u16 | 2u16 << 9u16 | 2u16 << 11u16) >> 8u16) & 0x1 == 0u16) by (bit_vector);
    assert(((2u16 << 0u16 | 2u16 << 9u16 | 2u16 << 11u16) >> 9u16) & 0x3 == 2u16) by (bit_vector);
    assert(((2u16 << 0u16 | 2u16 << 9u16 | 2u16 << 11u16) >> 11u16) & 0x3 == 2u16) by (
        bit_vector
    );
}

/// The setup word of a populated packet holds the dimension count of the
/// grid: one, two or three.
pub proof fn lemma_setup_holds_dimensions(
    packet: DispatchPacket,
    dispatch: KernelDispatch,
    completion_signal: u64,
)
    ensures
        packet.populated(dispatch, completion_signal).setup == dimensions_of(dispatch.grid_size),
        1 <= dimensions_of(dispatch.grid_size) <= 3,
{
    let d = dimensions_of(dispatch.grid_size);
    assert(d << 0u16 == d) by (bit_vector);
}

/// A packet that was cleared and then populated still has a zero header:
/// only the final write of the header makes it valid.
pub proof fn lemma_header_zero_until_commit(dispatch: KernelDispatch, completion_signal: u64)
    ensures
        DispatchPacket::zero().populated(dispatch, completion_signal).header == 0,
        DispatchPacket::encoded(dispatch, completion_signal).header == 0x1402,
{
    assert((2u16 << 0u16 | 2u16 << 9u16 | 2u16 << 11u16) == 0x1402u16) by (bit_vector);
}

} // verus!
