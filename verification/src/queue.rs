//! The dispatch ring: a fixed number of packet slots, a write index that
//! producers advance to reserve slots, a read index that the device
//! advances, and a doorbell.

use crate::agent::Agent;
use crate::error::{translated_with_context, ErrorKind, ErrorView, HsaError};
use crate::log::{lines, LineView, LogLevel, LogLine};
use crate::packet::{kernel_dispatch_header, DispatchPacket, KernelDispatch};
use crate::signal::Signal;
use crate::status::{Reply, Status};
use crate::text::{decimal, format_decimal, format_hex, hex};
use vstd::arithmetic::power2::is_pow2;
use vstd::prelude::*;

verus! {

/// The queue type that lets several producers submit at once.
pub const QUEUE_TYPE_MULTI: u32 = 0;

/// What the runtime reports of a ring that it created.
#[derive(Debug, Clone, Copy, PartialEq, Eq, Structural)]
pub struct QueueDescriptor {
    /// Where the descriptor itself lies; zero where the runtime returned
    /// none.
    pub address: usize,
    pub id: u64,
    /// The number of packet slots.
    pub size: u32,
    pub queue_type: u32,
    pub features: u32,
    /// Where the first packet slot lies.
    pub base_address: usize,
    /// The handle of the doorbell signal.
    pub doorbell_signal: u64,
}

/// What the runtime is asked for when a ring is created.
#[derive(Debug, Clone, Copy, PartialEq, Eq, Structural)]
pub struct QueueRequest {
    /// The handle of the agent that will consume the packets.
    pub agent: u64,
    /// The number of packet slots.
    pub size: u32,
    pub queue_type: u32,
    pub private_segment_size: u32,
    pub group_segment_size: u32,
}

/// One write that a producer makes to a ring in the course of a dispatch.
/// The device reads the ring while the producer writes, so the writes of a
/// dispatch are made one by one in the order in which
/// [`KernelDispatch::dispatch`] lists them.
#[derive(Debug, Clone, Copy, PartialEq, Eq, Structural)]
pub enum DispatchStep {
    /// Clear every field of a slot, the header among them.
    ClearSlot { slot: usize },
    /// Write every field of `packet` but the header into a slot.
    WriteBody { slot: usize, packet: DispatchPacket },
    /// Write the header of a slot, which makes its packet valid.
    WriteHeader { slot: usize, header: u16 },
    /// Store the write index.
    StoreWriteIndex { index: u64 },
    /// Store a value to the doorbell.
    RingDoorbell { value: i64 },
}

impl DispatchStep {
    /// Whether the slot that the step names, if it names one, is a slot of a
    /// ring with `capacity` slots.
    pub open spec fn fits(self, capacity: nat) -> bool {
        match self {
            DispatchStep::ClearSlot { slot } => slot < capacity,
            DispatchStep::WriteBody { slot, .. } => slot < capacity,
            DispatchStep::WriteHeader { slot, .. } => slot < capacity,
            DispatchStep::StoreWriteIndex { .. } => true,
            DispatchStep::RingDoorbell { .. } => true,
        }
    }
}

/// A ring as a mathematical value.
pub struct QueueView {
    pub descriptor: QueueDescriptor,
    pub write_index: u64,
    pub read_index: u64,
    /// The value last written to the doorbell, if any was.
    pub doorbell: Option<i64>,
    /// The packet slots; as many as the descriptor's size.
    pub ring: Seq<DispatchPacket>,
}

impl QueueView {
    /// The number of packet slots.
    pub open spec fn capacity(self) -> nat {
        self.descriptor.size as nat
    }

    /// Whether the ring is as every ring is: the number of slots is a power
    /// of two, and so not zero; there are as many slots as the descriptor
    /// says; and the descriptor has an address.
    pub open spec fn well_formed(self) -> bool {
        &&& is_pow2(self.capacity() as int)
        &&& self.capacity() > 0
        &&& self.ring.len() == self.capacity()
        &&& self.descriptor.address != 0
    }

    /// The slot that a packet index falls on.
    pub open spec fn slot(self, index: u64) -> int {
        index as int % self.capacity() as int
    }

    /// The ring as the runtime creates it: both indices at zero, every slot
    /// cleared, the doorbell not yet rung.
    pub open spec fn fresh(descriptor: QueueDescriptor) -> QueueView {
        QueueView {
            descriptor,
            write_index: 0,
            read_index: 0,
            doorbell: None,
            ring: Seq::new(descriptor.size as nat, |i: int| DispatchPacket::zero()),
        }
    }

    /// The ring after `count` slots were reserved.
    pub open spec fn reserve(self, count: u64) -> QueueView {
        QueueView { write_index: self.write_index.wrapping_add(count), ..self }
    }

    /// The ring after `count` reservations of one slot each.
    pub open spec fn reserve_each(self, count: nat) -> QueueView
        decreases count,
    {
        if count == 0 {
            self
        } else {
            self.reserve_each((count - 1) as nat).reserve(1)
        }
    }

    /// The packet index that the `k`-th of a run of reservations of one slot
    /// each hands out, counting from zero: the write index as the
    /// reservations before it left it.
    pub open spec fn reserved(self, k: nat) -> u64 {
        self.reserve_each(k).write_index
    }

    /// The ring after one dispatch was submitted: the packet stands in the
    /// slot of the old write index, the write index is one further, and the
    /// doorbell holds the packet's index.
    pub open spec fn submit(self, dispatch: KernelDispatch, completion_signal: u64) -> QueueView {
        QueueView {
            write_index: self.write_index.wrapping_add(1),
            doorbell: Some(self.write_index as i64),
            ring: self.ring.update(
                self.slot(self.write_index),
                DispatchPacket::encoded(dispatch, completion_signal),
            ),
            ..self
        }
    }

    /// The ring after one step was performed on it.
    pub open spec fn perform(self, step: DispatchStep) -> QueueView {
        match step {
            DispatchStep::ClearSlot { slot } => QueueView {
                ring: self.ring.update(slot as int, DispatchPacket::zero()),
                ..self
            },
            DispatchStep::WriteBody { slot, packet } => QueueView {
                ring: self.ring.update(
                    slot as int,
                    packet.with_header(self.ring[slot as int].header),
                ),
                ..self
            },
            DispatchStep::WriteHeader { slot, header } => QueueView {
                ring: self.ring.update(slot as int, self.ring[slot as int].with_header(header)),
                ..self
            },
            DispatchStep::StoreWriteIndex { index } => QueueView { write_index: index, ..self },
            DispatchStep::RingDoorbell { value } => QueueView { doorbell: Some(value), ..self },
        }
    }

    /// The ring after a list of steps was performed on it, the first step
    /// first.
    pub open spec fn perform_all(self, steps: Seq<DispatchStep>) -> QueueView
        decreases steps.len(),
    {
        if steps.len() == 0 {
            self
        } else {
            self.perform_all(steps.drop_last()).perform(steps.last())
        }
    }

    /// The steps of one dispatch to this ring, in the order in which they
    /// are made. The packet goes to the slot of the write index as it stands
    /// before the dispatch reserves it. The slot is cleared; the body of the
    /// packet is written; the header is written; the index after the
    /// reserved one is stored as the write index; the doorbell is rung with
    /// the reserved index.
    pub open spec fn dispatch_steps(self, dispatch: KernelDispatch, completion_signal: u64) -> Seq<
        DispatchStep,
    > {
        let slot = self.slot(self.write_index) as usize;
        seq![
            DispatchStep::ClearSlot { slot },
            DispatchStep::WriteBody {
                slot,
                packet: DispatchPacket::zero().populated(dispatch, completion_signal),
            },
            DispatchStep::WriteHeader { slot, header: crate::packet::dispatch_header() },
            DispatchStep::StoreWriteIndex { index: self.write_index.wrapping_add(1) },
            DispatchStep::RingDoorbell { value: self.write_index as i64 },
        ]
    }

    /// The number of packets that were reserved and that the device has not
    /// yet consumed.
    pub open spec fn pending(self) -> u64 {
        self.write_index.wrapping_sub(self.read_index)
    }

    /// The lines that describe the ring and its state, all at level info.
    pub open spec fn info_lines(self) -> Seq<LineView> {
        seq![
            info_line("Queue Information:"@, Seq::empty()),
            info_line("  ID: "@, decimal(self.descriptor.id as nat)),
            info_line("  Size: "@, decimal(self.descriptor.size as nat)),
            info_line("  Type: "@, decimal(self.descriptor.queue_type as nat)),
            info_line("  Features: 0x"@, hex(self.descriptor.features as nat)),
            info_line("  Base Address: 0x"@, hex(self.descriptor.base_address as nat)),
            info_line("  Doorbell Signal: 0x"@, hex(self.descriptor.doorbell_signal as nat)),
            info_line("  Current State:"@, Seq::empty()),
            info_line("    Read Index: "@, decimal(self.read_index as nat)),
            info_line("    Write Index: "@, decimal(self.write_index as nat)),
            info_line("    Pending Packets: "@, decimal(self.pending() as nat)),
        ]
    }
}

/// The line at level info that reads `label` and then `value`.
pub open spec fn info_line(label: Seq<char>, value: Seq<char>) -> LineView {
    LineView { level: LogLevel::Info, message: label + value }
}

/// One dispatch ring. The number of its slots is a power of two.
///
/// The ring is owned by one producer at a time: every operation that changes
/// it takes it by unique reference, so two reservations can never hand out
/// the same slot. Nothing here keeps a producer from reserving a slot that
/// the device has not consumed yet; a producer that may run ahead of the
/// device checks [`Queue::pending`] against [`Queue::get_size`] first.
#[derive(Debug)]
pub struct Queue {
    descriptor: QueueDescriptor,
    write_index: u64,
    read_index: u64,
    doorbell: Option<i64>,
    ring: Vec<DispatchPacket>,
}

/// Why a ring size is refused for an agent, if it is: the message.
///
/// A size that is no power of two is refused whatever the agent says. Then
/// the agent's minimum and maximum must both be known: a query for either
/// that failed is the fault, and its message is that of the translated
/// status. Then the size must lie within the two.
pub open spec fn size_fault(agent: Agent, size: u32) -> Option<Seq<char>> {
    if !is_pow2(size as int) {
        Some("Queue size "@ + decimal(size as nat) + " must be a power of 2 and greater than 0"@)
    } else if !agent.queue_min_size.status.succeeded() {
        Some(
            translated_with_context(
                agent.queue_min_size.status,
                "Failed to get queue min size"@,
            ).display(),
        )
    } else if !agent.queue_max_size.status.succeeded() {
        Some(
            translated_with_context(
                agent.queue_max_size.status,
                "Failed to get queue max size"@,
            ).display(),
        )
    } else if size < agent.queue_min_size.value {
        Some(
            "Queue size "@ + decimal(size as nat) + " is below minimum "@ + decimal(
                agent.queue_min_size.value as nat,
            ) + " for this agent"@,
        )
    } else if size > agent.queue_max_size.value {
        Some(
            "Queue size "@ + decimal(size as nat) + " exceeds maximum "@ + decimal(
                agent.queue_max_size.value as nat,
            ) + " for this agent"@,
        )
    } else {
        None
    }
}

/// What the context of a failed creation reads.
pub open spec fn create_context(agent: Agent, size: u32) -> Seq<char> {
    "Failed to create queue with size "@ + decimal(size as nat) + " for agent 0x"@ + hex(
        agent.handle as nat,
    )
}

/// Why the creation of a ring fails, if it does: the message.
pub open spec fn create_failure(agent: Agent, size: u32, reply: Reply<QueueDescriptor>) -> Option<
    Seq<char>,
> {
    if size_fault(agent, size) is Some {
        size_fault(agent, size)
    } else if !reply.status.succeeded() {
        Some(translated_with_context(reply.status, create_context(agent, size)).display())
    } else if reply.value.address == 0 {
        Some("Queue creation returned null pointer"@)
    } else {
        size_fault(agent, reply.value.size)
    }
}

/// A power of two shares no bit with its predecessor.
proof fn lemma_pow2_has_one_bit(size: u32)
    requires
        is_pow2(size as int),
    ensures
        size != 0,
        size & ((size - 1) as u32) == 0,
    decreases size,
{
    reveal(is_pow2);
    if size == 1 {
        assert(1u32 & 0u32 == 0) by (bit_vector);
    } else {
        let half = (size / 2) as u32;
        lemma_pow2_has_one_bit(half);
        assert(size & ((size - 1) as u32) == 0) by (bit_vector)
            requires
                size % 2 == 0,
                size >= 2,
                half == size / 2,
                half & ((half - 1) as u32) == 0,
        ;
    }
}

/// A number that is not zero and shares no bit with its predecessor is a
/// power of two.
proof fn lemma_one_bit_is_pow2(size: u32)
    requires
        size != 0,
        size & ((size - 1) as u32) == 0,
    ensures
        is_pow2(size as int),
    decreases size,
{
    reveal(is_pow2);
    if size != 1 {
        let half = (size / 2) as u32;
        assert(size % 2 == 0 && half != 0 && half & ((half - 1) as u32) == 0) by (bit_vector)
            requires
                size != 0,
                size != 1,
                half == size / 2,
                size & ((size - 1) as u32) == 0,
        ;
        lemma_one_bit_is_pow2(half);
    }
}

/// A number is a power of two exactly if it is not zero and shares no bit
/// with its predecessor.
proof fn lemma_pow2_bits(size: u32)
    ensures
        is_pow2(size as int) <==> (size != 0 && size & ((size - 1) as u32) == 0),
{
    if is_pow2(size as int) {
        lemma_pow2_has_one_bit(size);
    }
    if size != 0 && size & ((size - 1) as u32) == 0 {
        lemma_one_bit_is_pow2(size);
    }
}

/// A ring size is accepted exactly if it is a power of two, and so not zero,
/// the agent answered the queries for its minimum and its maximum, and the
/// size lies within the two. The creation of a ring of a refused size fails
/// for that reason, whatever the runtime answered.
pub proof fn lemma_refused_sizes(agent: Agent, size: u32, reply: Reply<QueueDescriptor>)
    ensures
        size_fault(agent, size) is None <==> (size != 0 && is_pow2(size as int)
            && agent.queue_min_size.status.succeeded() && agent.queue_max_size.status.succeeded()
            && agent.queue_min_size.value <= size <= agent.queue_max_size.value),
        size_fault(agent, size) is Some ==> create_failure(agent, size, reply) == size_fault(
            agent,
            size,
        ),
{
    reveal(is_pow2);
}

/// A ring that is created has a number of slots that is a power of two and
/// within what the agent accepts, and so had the size that was asked for.
pub proof fn lemma_created_sizes(agent: Agent, size: u32, reply: Reply<QueueDescriptor>)
    requires
        create_failure(agent, size, reply) is None,
    ensures
        agent.queue_min_size.status.succeeded(),
        agent.queue_max_size.status.succeeded(),
        is_pow2(size as int),
        agent.queue_min_size.value <= size <= agent.queue_max_size.value,
        is_pow2(reply.value.size as int),
        agent.queue_min_size.value <= reply.value.size <= agent.queue_max_size.value,
        QueueView::fresh(reply.value).well_formed(),
{
    reveal(is_pow2);
}

/// Performing a list of steps and then one more is performing the list with
/// that step at its end.
proof fn lemma_perform_one_more(queue: QueueView, steps: Seq<DispatchStep>, step: DispatchStep)
    ensures
        queue.perform_all(steps.push(step)) == queue.perform_all(steps).perform(step),
{
    assert(steps.push(step).drop_last() =~= steps);
}

/// The order of a dispatch. Its steps are five: the slot is cleared, the
/// body is written, the header is written, the write index is stored and
/// the doorbell is rung. After the first two the header of the slot still
/// reads zero and the doorbell is untouched; the third completes the packet;
/// the write index is stored only then, and the doorbell rung last. Performed
/// in that order on the ring with one slot reserved, the steps leave the
/// ring as one dispatch leaves it.
pub proof fn lemma_dispatch_order(queue: QueueView, dispatch: KernelDispatch, completion_signal: u64)
    requires
        queue.well_formed(),
    ensures
        ({
            let steps = queue.dispatch_steps(dispatch, completion_signal);
            let slot = queue.slot(queue.write_index);
            let reserved = queue.reserve(1);
            &&& steps.len() == 5
            &&& 0 <= slot < queue.capacity()
            &&& forall|k: int| 0 <= k < 5 ==> (#[trigger] steps[k]).fits(queue.capacity())
            &&& steps[0] == (DispatchStep::ClearSlot { slot: slot as usize })
            &&& steps[1] matches DispatchStep::WriteBody { slot: at, packet }
            &&& at == slot && packet.header == 0
            &&& steps[2] == (DispatchStep::WriteHeader {
                slot: slot as usize,
                header: crate::packet::dispatch_header(),
            })
            &&& steps[3] == (DispatchStep::StoreWriteIndex {
                index: queue.write_index.wrapping_add(1),
            })
            &&& steps[4] == (DispatchStep::RingDoorbell { value: queue.write_index as i64 })
            &&& reserved.perform_all(steps.take(1)).ring[slot] == DispatchPacket::zero()
            &&& reserved.perform_all(steps.take(2)).ring[slot] == DispatchPacket::zero().populated(
                dispatch,
                completion_signal,
            )
            &&& reserved.perform_all(steps.take(2)).ring[slot].header == 0
            &&& reserved.perform_all(steps.take(2)).doorbell == queue.doorbell
            &&& reserved.perform_all(steps.take(3)).ring[slot] == DispatchPacket::encoded(
                dispatch,
                completion_signal,
            )
            &&& reserved.perform_all(steps.take(4)).doorbell == queue.doorbell
            &&& reserved.perform_all(steps) == queue.submit(dispatch, completion_signal)
        }),
{
    let steps = queue.dispatch_steps(dispatch, completion_signal);
    let slot = queue.slot(queue.write_index);
    let reserved = queue.reserve(1);
    let none = Seq::<DispatchStep>::empty();
    assert(steps.take(0) =~= none);
    assert(steps.take(1) =~= none.push(steps[0]));
    assert(steps.take(2) =~= steps.take(1).push(steps[1]));
    assert(steps.take(3) =~= steps.take(2).push(steps[2]));
    assert(steps.take(4) =~= steps.take(3).push(steps[3]));
    assert(steps =~= steps.take(4).push(steps[4]));
    lemma_perform_one_more(reserved, none, steps[0]);
    lemma_perform_one_more(reserved, steps.take(1), steps[1]);
    lemma_perform_one_more(reserved, steps.take(2), steps[2]);
    lemma_perform_one_more(reserved, steps.take(3), steps[3]);
    lemma_perform_one_more(reserved, steps.take(4), steps[4]);
    let after1 = reserved.perform_all(steps.take(1));
    let after2 = reserved.perform_all(steps.take(2));
    let after3 = reserved.perform_all(steps.take(3));
    let after4 = reserved.perform_all(steps.take(4));
    let after5 = reserved.perform_all(steps);
    assert(after1 == reserved.perform(steps[0]));
    assert(after2 == after1.perform(steps[1]));
    assert(after3 == after2.perform(steps[2]));
    assert(after4 == after3.perform(steps[3]));
    assert(after5 == after4.perform(steps[4]));
    assert(after5.ring =~= queue.submit(dispatch, completion_signal).ring);
}

/// A reservation never moves the write index back, short of the wrap at the
/// bounds of a 64-bit number.
pub proof fn lemma_reservation_advances(queue: QueueView, count: u64)
    requires
        queue.write_index + count <= u64::MAX,
    ensures
        queue.reserve(count).write_index == queue.write_index + count,
        queue.reserve(count).write_index >= queue.write_index,
        queue.reserve(count).ring == queue.ring,
        queue.reserve(count).read_index == queue.read_index,
{
}

/// A run of reservations changes the write index alone, and the `k`-th
/// starts `k` past the first, wrapping at the bounds of a 64-bit number.
proof fn lemma_reserved_offset(queue: QueueView, k: nat)
    ensures
        queue.reserved(k) as int == (queue.write_index + k) % 0x1_0000_0000_0000_0000,
        queue.reserve_each(k) == (QueueView { write_index: queue.reserved(k), ..queue }),
    decreases k,
{
    if k > 0 {
        lemma_reserved_offset(queue, (k - 1) as nat);
    }
}

/// A power of two that fits in 32 bits divides the range of a 64-bit number.
proof fn lemma_pow2_divides_range(capacity: u32)
    requires
        is_pow2(capacity as int),
    ensures
        0x1_0000_0000_0000_0000int % (capacity as int) == 0,
{
    lemma_pow2_has_one_bit(capacity);
    assert(0x1_0000_0000u64 % (capacity as u64) == 0) by (bit_vector)
        requires
            capacity != 0,
            capacity & ((capacity - 1) as u32) == 0,
    ;
    let c = capacity as int;
    let q = 0x1_0000_0000int / c;
    vstd::arithmetic::div_mod::lemma_fundamental_div_mod(0x1_0000_0000int, c);
    assert(0x1_0000_0000_0000_0000int == c * (q * 0x1_0000_0000) + 0) by (nonlinear_arith)
        requires
            0x1_0000_0000int == c * q + 0,
    ;
    vstd::arithmetic::div_mod::lemma_mod_multiples_vanish(q * 0x1_0000_0000, 0, c);
}

/// Two numbers less than a modulus apart, and not equal, differ modulo it.
proof fn lemma_near_numbers_differ(a: int, b: int, m: int)
    requires
        0 < m,
        a < b < a + m,
    ensures
        a % m != b % m,
{
    vstd::arithmetic::div_mod::lemma_mod_equivalence(b, a, m);
    vstd::arithmetic::div_mod::lemma_small_mod((b - a) as nat, m as nat);
}

/// Reservations by one slot each hand out consecutive packet indices,
/// starting at the write index as it was before the first. Where there are
/// fewer of them than the ring has slots, and the number of slots is a power
/// of two, no two of them get the same index or the same slot.
pub proof fn lemma_reservations_disjoint(queue: QueueView, count: nat, i: nat, j: nat)
    requires
        is_pow2(queue.capacity() as int),
        count < queue.capacity(),
        i < count,
        j < count,
        i != j,
    ensures
        queue.reserved(i).wrapping_sub(queue.write_index) == i,
        queue.reserved(i) != queue.reserved(j),
        queue.slot(queue.reserved(i)) != queue.slot(queue.reserved(j)),
{
    let range = 0x1_0000_0000_0000_0000int;
    let c = queue.capacity() as int;
    let w = queue.write_index as int;
    lemma_reserved_offset(queue, i);
    lemma_reserved_offset(queue, j);
    lemma_pow2_divides_range(queue.descriptor.size);
    reveal(is_pow2);
    assert(c > 0);
    let q = range / c;
    vstd::arithmetic::div_mod::lemma_fundamental_div_mod(range, c);
    assert(range == c * q);
    assert(q > 0) by (nonlinear_arith)
        requires
            range == c * q,
            c > 0,
            range > 0,
    ;
    vstd::arithmetic::div_mod::lemma_mod_mod(w + i, c, q);
    vstd::arithmetic::div_mod::lemma_mod_mod(w + j, c, q);
    assert(queue.slot(queue.reserved(i)) == (w + i) % c);
    assert(queue.slot(queue.reserved(j)) == (w + j) % c);
    if i < j {
        lemma_near_numbers_differ(w + i, w + j, c);
    } else {
        lemma_near_numbers_differ(w + j, w + i, c);
    }
}

impl View for Queue {
    type V = QueueView;

    closed spec fn view(&self) -> QueueView {
        QueueView {
            descriptor: self.descriptor,
            write_index: self.write_index,
            read_index: self.read_index,
            doorbell: self.doorbell,
            ring: self.ring@,
        }
    }
}

impl Queue {
    #[verifier::type_invariant]
    spec fn sound(self) -> bool {
        &&& is_pow2(self.descriptor.size as int)
        &&& self.descriptor.size > 0
        &&& self.ring@.len() == self.descriptor.size
        &&& self.descriptor.address != 0
    }

    /// Checks a ring size against the rules and against what the agent
    /// accepts: a power of two, not below the agent's minimum and not above
    /// its maximum. An agent whose minimum or maximum is not known, because
    /// the query for it failed, accepts no size: the failed query is the
    /// error.
    pub fn check_size(agent: &Agent, size: u32) -> (r: Result<(), HsaError>)
        ensures
            match size_fault(*agent, size) {
                Some(message) => r matches Err(e) && e@ == ErrorView::with(
                    ErrorKind::QueueCreationFailed,
                    message,
                ),
                None => r is Ok,
            },
    {
        proof {
            lemma_pow2_bits(size);
        }
        if size == 0 || (size & (size - 1)) != 0 {
            let mut message = String::from_str("Queue size ");
            let number = format_decimal(size as u64);
            message.append(number.as_str());
            message.append(" must be a power of 2 and greater than 0");
            return Err(HsaError::QueueCreationFailed(message));
        }
        let min_size = match agent.get_queue_min_size() {
            Ok(v) => v,
            Err(e) => {
                return Err(HsaError::QueueCreationFailed(e.to_string()));
            },
        };
        let max_size = match agent.get_queue_max_size() {
            Ok(v) => v,
            Err(e) => {
                return Err(HsaError::QueueCreationFailed(e.to_string()));
            },
        };
        if size < min_size {
            let mut message = String::from_str("Queue size ");
            let number = format_decimal(size as u64);
            message.append(number.as_str());
            message.append(" is below minimum ");
            let bound = format_decimal(min_size as u64);
            message.append(bound.as_str());
            message.append(" for this agent");
            return Err(HsaError::QueueCreationFailed(message));
        }
        if size > max_size {
            let mut message = String::from_str("Queue size ");
            let number = format_decimal(size as u64);
            message.append(number.as_str());
            message.append(" exceeds maximum ");
            let bound = format_decimal(max_size as u64);
            message.append(bound.as_str());
            message.append(" for this agent");
            return Err(HsaError::QueueCreationFailed(message));
        }
        Ok(())
    }

    /// The request to put to the runtime for a ring of `size` packets on
    /// `agent`: a multi-producer ring, with no segment sizes of its own. A
    /// size that [`Queue::check_size`] refuses gives no request.
    pub fn request(agent: &Agent, size: u32) -> (r: Result<QueueRequest, HsaError>)
        ensures
            match size_fault(*agent, size) {
                Some(message) => r matches Err(e) && e@ == ErrorView::with(
                    ErrorKind::QueueCreationFailed,
                    message,
                ),
                None => r == Ok::<QueueRequest, HsaError>(
                    QueueRequest {
                        agent: agent.handle,
                        size,
                        queue_type: QUEUE_TYPE_MULTI,
                        private_segment_size: 0,
                        group_segment_size: 0,
                    },
                ),
            },
    {
        match Self::check_size(agent, size) {
            Err(e) => Err(e),
            Ok(_) => Ok(
                QueueRequest {
                    agent: agent.handle,
                    size,
                    queue_type: QUEUE_TYPE_MULTI,
                    private_segment_size: 0,
                    group_segment_size: 0,
                },
            ),
        }
    }

    /// Makes the ring that the runtime answered a creation request with.
    ///
    /// `reply` is the runtime's answer to a request for a multi-producer ring
    /// of `size` packets on `agent`. The size is checked first, as
    /// [`Queue::check_size`] does, and a refused size is the error whatever
    /// the reply holds. Then a status other than success, or a descriptor
    /// without an address, is an error; and so is a descriptor that reports
    /// a number of slots that the same check refuses. Otherwise the ring
    /// starts with both indices at zero and as many cleared slots as the
    /// descriptor reports.
    pub fn create(agent: &Agent, size: u32, reply: Reply<QueueDescriptor>) -> (r: Result<
        Queue,
        HsaError,
    >)
        ensures
            match create_failure(*agent, size, reply) {
                Some(message) => r matches Err(e) && e@ == ErrorView::with(
                    ErrorKind::QueueCreationFailed,
                    message,
                ),
                None => r matches Ok(q) && q@ == QueueView::fresh(reply.value)
                    && q@.well_formed(),
            },
    {
        match Self::check_size(agent, size) {
            Err(e) => {
                return Err(e);
            },
            Ok(_) => {},
        }
        if !reply.status.is_success() {
            let mut context = String::from_str("Failed to create queue with size ");
            let number = format_decimal(size as u64);
            context.append(number.as_str());
            context.append(" for agent 0x");
            let handle = format_hex(agent.handle);
            context.append(handle.as_str());
            let error = HsaError::from_status_with_context(reply.status, context.as_str());
            return Err(HsaError::QueueCreationFailed(error.to_string()));
        }
        if reply.value.address == 0 {
            return Err(
                HsaError::QueueCreationFailed(
                    String::from_str("Queue creation returned null pointer"),
                ),
            );
        }
        match Self::check_size(agent, reply.value.size) {
            Err(e) => {
                return Err(e);
            },
            Ok(_) => {},
        }
        let mut ring: Vec<DispatchPacket> = Vec::new();
        let mut i: u32 = 0;
        while i < reply.value.size
            invariant
                0 <= i <= reply.value.size,
                ring@.len() == i,
                forall|k: int| 0 <= k < i ==> ring@[k] == DispatchPacket::zero(),
            decreases reply.value.size - i,
        {
            ring.push(DispatchPacket::zeroed());
            i += 1;
        }
        proof {
            reveal(is_pow2);
        }
        let queue = Queue {
            descriptor: reply.value,
            write_index: 0,
            read_index: 0,
            doorbell: None,
            ring,
        };
        assert(queue@.ring =~= QueueView::fresh(reply.value).ring);
        Ok(queue)
    }

    /// The address of the ring's descriptor.
    pub fn as_ptr(&self) -> (address: usize)
        ensures
            address == self@.descriptor.address,
    {
        self.descriptor.address
    }

    /// The ring's descriptor.
    pub fn get(&self) -> (descriptor: &QueueDescriptor)
        ensures
            *descriptor == self@.descriptor,
            self@.well_formed(),
    {
        proof {
            use_type_invariant(self);
        }
        &self.descriptor
    }

    /// Reserves `value` consecutive packet indices and returns the first:
    /// the write index as it was before. The index wraps at the bounds of a
    /// 64-bit number.
    pub fn add_write_index(&mut self, value: u64) -> (base: u64)
        ensures
            base == old(self)@.write_index,
            final(self)@ == old(self)@.reserve(value),
            final(self)@.well_formed(),
    {
        proof {
            use_type_invariant(&*self);
        }
        let base = self.write_index;
        self.write_index = base.wrapping_add(value);
        base
    }

    /// Publishes `value` as the write index: the device takes every packet
    /// below it as ready. A producer stores the index only after it has
    /// written the packets, and rings the doorbell only after that.
    pub fn store_write_index(&mut self, value: u64)
        ensures
            final(self)@ == (QueueView { write_index: value, ..old(self)@ }),
    {
        proof {
            use_type_invariant(&*self);
        }
        self.write_index = value;
    }

    /// The read index as it was last observed.
    pub fn load_read_index(&self) -> (index: u64)
        ensures
            index == self@.read_index,
    {
        self.read_index
    }

    /// The write index.
    pub fn load_write_index(&self) -> (index: u64)
        ensures
            index == self@.write_index,
    {
        self.write_index
    }

    /// Records a read index that the device reported.
    pub fn observe_read_index(&mut self, value: u64)
        ensures
            final(self)@ == (QueueView { read_index: value, ..old(self)@ }),
    {
        proof {
            use_type_invariant(&*self);
        }
        self.read_index = value;
    }

    /// The identifier that the runtime gave the ring.
    pub fn get_id(&self) -> (id: u64)
        ensures
            id == self@.descriptor.id,
    {
        self.descriptor.id
    }

    /// The number of packet slots, which is a power of two.
    pub fn get_size(&self) -> (size: u32)
        ensures
            size == self@.descriptor.size,
            size > 0,
            self@.well_formed(),
    {
        proof {
            use_type_invariant(self);
            reveal(is_pow2);
        }
        self.descriptor.size
    }

    /// The queue type that the runtime reports.
    pub fn get_type(&self) -> (queue_type: u32)
        ensures
            queue_type == self@.descriptor.queue_type,
    {
        self.descriptor.queue_type
    }

    /// The number of packets reserved and not yet consumed.
    pub fn pending(&self) -> (count: u64)
        ensures
            count == self@.pending(),
    {
        self.write_index.wrapping_sub(self.read_index)
    }

    /// Whether fewer packets are pending than the ring has slots, so that one
    /// more can be reserved without running into a slot that the device has
    /// not consumed. This goes by the read index last observed.
    pub fn has_room(&self) -> (room: bool)
        ensures
            room == (self@.pending() < self@.capacity()),
    {
        self.pending() < self.descriptor.size as u64
    }

    /// The value last written to the doorbell.
    pub fn doorbell(&self) -> (value: Option<i64>)
        ensures
            value == self@.doorbell,
    {
        self.doorbell
    }

    /// The number of the slot that a packet index falls on: the index modulo
    /// the number of slots.
    pub fn slot(&self, index: u64) -> (slot: usize)
        ensures
            slot == self@.slot(index),
            slot < self@.capacity(),
            self@.well_formed(),
    {
        proof {
            use_type_invariant(self);
            reveal(is_pow2);
        }
        (index % (self.descriptor.size as u64)) as usize
    }

    /// The packet in the slot of `index`.
    pub fn packet(&self, index: u64) -> (packet: DispatchPacket)
        ensures
            packet == self@.ring[self@.slot(index)],
            self@.well_formed(),
    {
        proof {
            use_type_invariant(self);
        }
        let slot = self.slot(index);
        self.ring[slot]
    }

    /// Performs one step of a dispatch on this ring.
    pub fn perform(&mut self, step: DispatchStep)
        requires
            step.fits(old(self)@.capacity()),
        ensures
            final(self)@ == old(self)@.perform(step),
            final(self)@.well_formed(),
    {
        proof {
            use_type_invariant(&*self);
        }
        match step {
            DispatchStep::ClearSlot { slot } => {
                self.ring[slot] = DispatchPacket::zeroed();
            },
            DispatchStep::WriteBody { slot, packet } => {
                let mut written = packet;
                written.header = self.ring[slot].header;
                self.ring[slot] = written;
            },
            DispatchStep::WriteHeader { slot, header } => {
                let mut written = self.ring[slot];
                written.header = header;
                self.ring[slot] = written;
            },
            DispatchStep::StoreWriteIndex { index } => {
                self.write_index = index;
            },
            DispatchStep::RingDoorbell { value } => {
                self.doorbell = Some(value);
            },
        }
    }

    /// Writes `value` to the doorbell, which tells the device that packets
    /// up to that index are ready.
    pub fn ring_doorbell(&mut self, value: i64)
        ensures
            final(self)@ == (QueueView { doorbell: Some(value), ..old(self)@ }),
    {
        proof {
            use_type_invariant(&*self);
        }
        self.doorbell = Some(value);
    }

    /// Describes the ring: its descriptor, both indices, and the number of
    /// packets pending.
    pub fn print_info(&self) -> (list: Vec<LogLine>)
        ensures
            lines(list@) == self@.info_lines(),
    {
        let id = format_decimal(self.descriptor.id);
        let size = format_decimal(self.descriptor.size as u64);
        let queue_type = format_decimal(self.descriptor.queue_type as u64);
        let features = format_hex(self.descriptor.features as u64);
        let base = format_hex(self.descriptor.base_address as u64);
        let doorbell = format_hex(self.descriptor.doorbell_signal);
        let read = format_decimal(self.load_read_index());
        let write = format_decimal(self.load_write_index());
        let pending = format_decimal(self.pending());
        let mut list: Vec<LogLine> = Vec::new();
        list.push(LogLine::info("Queue Information:", ""));
        list.push(LogLine::info("  ID: ", id.as_str()));
        list.push(LogLine::info("  Size: ", size.as_str()));
        list.push(LogLine::info("  Type: ", queue_type.as_str()));
        list.push(LogLine::info("  Features: 0x", features.as_str()));
        list.push(LogLine::info("  Base Address: 0x", base.as_str()));
        list.push(LogLine::info("  Doorbell Signal: 0x", doorbell.as_str()));
        list.push(LogLine::info("  Current State:", ""));
        list.push(LogLine::info("    Read Index: ", read.as_str()));
        list.push(LogLine::info("    Write Index: ", write.as_str()));
        list.push(LogLine::info("    Pending Packets: ", pending.as_str()));
        proof {
            reveal_strlit("");
            assert(""@ =~= Seq::<char>::empty());
            assert(lines(list@) =~= self@.info_lines());
        }
        list
    }

    /// Gives the ring up. Returns the address of the descriptor to hand
    /// back to the runtime, which is never null.
    pub fn destroy(self) -> (address: usize)
        ensures
            address == self@.descriptor.address,
            address != 0,
    {
        proof {
            use_type_invariant(&self);
        }
        self.descriptor.address
    }

    /// Takes the runtime's answer to a request to inactivate the ring.
    pub fn inactivate(&self, status: Status) -> (r: Result<(), HsaError>)
        ensures
            match r {
                Ok(_) => status.succeeded(),
                Err(e) => !status.succeeded() && e@ == translated_with_context(
                    status,
                    "Failed to inactivate queue"@,
                ),
            },
    {
        if !status.is_success() {
            return Err(HsaError::from_status_with_context(status, "Failed to inactivate queue"));
        }
        Ok(())
    }
}

impl KernelDispatch {
    /// Submits this dispatch to a ring, and returns the writes that this
    /// takes, in the order in which they are made.
    ///
    /// Reserves one packet index. Then the slot of that index is cleared,
    /// the body of the packet is written, the header is written last, the
    /// index after the reserved one is stored as the write index, and the
    /// doorbell is rung with the reserved index: these five steps are
    /// performed on the ring one by one, and are the list returned. A caller
    /// that keeps a ring of the device in step with this one makes the same
    /// writes there in the same order. Once the index is reserved nothing
    /// can fail.
    pub fn dispatch(&self, queue: &mut Queue, completion_signal: &Signal) -> (r: Result<
        Vec<DispatchStep>,
        HsaError,
    >)
        ensures
            r matches Ok(steps) && steps@ == old(queue)@.dispatch_steps(
                *self,
                completion_signal@.handle,
            ),
            final(queue)@ == old(queue)@.reserve(1).perform_all(
                old(queue)@.dispatch_steps(*self, completion_signal@.handle),
            ),
            final(queue)@ == old(queue)@.submit(*self, completion_signal@.handle),
            old(queue)@.well_formed(),
            final(queue)@.well_formed(),
    {
        proof {
            use_type_invariant(&*queue);
            lemma_dispatch_order(queue@, *self, completion_signal@.handle);
        }
        let ghost planned = queue@.dispatch_steps(*self, completion_signal@.handle);
        let ghost reserved = queue@.reserve(1);
        let packet_id = queue.add_write_index(1);
        let slot = queue.slot(packet_id);
        let mut body = DispatchPacket::zeroed();
        body.populate(self, completion_signal.handle());
        let mut steps: Vec<DispatchStep> = Vec::new();
        steps.push(DispatchStep::ClearSlot { slot });
        steps.push(DispatchStep::WriteBody { slot, packet: body });
        steps.push(DispatchStep::WriteHeader { slot, header: kernel_dispatch_header() });
        steps.push(DispatchStep::StoreWriteIndex { index: packet_id.wrapping_add(1) });
        steps.push(DispatchStep::RingDoorbell { value: #[verifier::truncate] (packet_id as i64) });
        assert(steps@ =~= planned);
        let mut done: usize = 0;
        assert(planned.take(0) =~= Seq::<DispatchStep>::empty());
        while done < steps.len()
            invariant
                0 <= done <= steps.len(),
                steps@ == planned,
                forall|k: int| 0 <= k < planned.len() ==> (#[trigger] planned[k]).fits(
                    reserved.capacity(),
                ),
                queue@ == reserved.perform_all(planned.take(done as int)),
                queue@.descriptor == reserved.descriptor,
            decreases steps.len() - done,
        {
            proof {
                lemma_perform_one_more(reserved, planned.take(done as int), planned[done as int]);
                assert(planned.take(done + 1) =~= planned.take(done as int).push(
                    planned[done as int],
                ));
            }
            queue.perform(steps[done]);
            done += 1;
        }
        assert(planned.take(planned.len() as int) =~= planned);
        Ok(steps)
    }
}

} // verus!
