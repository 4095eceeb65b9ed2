//! Memory regions, and the allocations drawn from them.

use crate::agent::Agent;
use crate::error::{
    agrees, answered, translated_with_context, ErrorKind, ErrorView, HsaError,
};
use crate::status::{Reply, Status};
use crate::text::{decimal, format_decimal};
use vstd::prelude::*;

verus! {

/// The segment codes of the runtime.
pub const REGION_SEGMENT_GLOBAL: u32 = 0;

pub const REGION_SEGMENT_READONLY: u32 = 1;

pub const REGION_SEGMENT_PRIVATE: u32 = 2;

pub const REGION_SEGMENT_GROUP: u32 = 3;

pub const REGION_SEGMENT_KERNARG: u32 = 4;

/// The flag bits of a region of the global segment.
pub const REGION_GLOBAL_FLAG_KERNARG: u32 = 1;

pub const REGION_GLOBAL_FLAG_FINE_GRAINED: u32 = 2;

pub const REGION_GLOBAL_FLAG_COARSE_GRAINED: u32 = 4;

/// One pool of memory, as the runtime reported it: its handle, and the
/// answer to each query about it.
#[derive(Debug, Clone, Copy)]
pub struct MemoryRegion {
    pub handle: u64,
    pub segment: Reply<u32>,
    pub global_flags: Reply<u32>,
    pub size: Reply<usize>,
    pub max_alloc_size: Reply<usize>,
    pub runtime_alloc_allowed: Reply<bool>,
}

/// An allocation as a mathematical value.
pub struct MemoryView {
    pub address: usize,
    pub size: usize,
    /// The handles of the agents that were granted access.
    pub access: Set<u64>,
}

/// One allocation: an address range, and the agents that may touch it
/// beside the one that allocated it. The address is never null.
#[derive(Debug)]
pub struct Memory {
    address: usize,
    size: usize,
    access: Vec<u64>,
}

/// The name of a segment.
pub open spec fn segment_name(segment: u32) -> Seq<char> {
    if segment == REGION_SEGMENT_GLOBAL {
        "GLOBAL"@
    } else if segment == REGION_SEGMENT_READONLY {
        "READONLY"@
    } else if segment == REGION_SEGMENT_PRIVATE {
        "PRIVATE"@
    } else if segment == REGION_SEGMENT_GROUP {
        "GROUP"@
    } else if segment == REGION_SEGMENT_KERNARG {
        "KERNARG"@
    } else {
        "UNKNOWN"@
    }
}

/// `list` with `name` added where `flags` has `bit` set, after a bar where
/// the list holds a name already.
pub open spec fn with_flag(list: Seq<char>, flags: u32, bit: u32, name: Seq<char>) -> Seq<char> {
    if flags & bit == 0 {
        list
    } else if list.len() == 0 {
        name
    } else {
        list + "|"@ + name
    }
}

/// The names of the flags that are set, separated by bars, in the order
/// kernarg, fine-grained, coarse-grained; `NONE` where none is set.
pub open spec fn flag_text(flags: u32) -> Seq<char> {
    let list = with_flag(
        with_flag(
            with_flag(Seq::empty(), flags, REGION_GLOBAL_FLAG_KERNARG, "KERNARG"@),
            flags,
            REGION_GLOBAL_FLAG_FINE_GRAINED,
            "FINE_GRAINED"@,
        ),
        flags,
        REGION_GLOBAL_FLAG_COARSE_GRAINED,
        "COARSE_GRAINED"@,
    );
    if list.len() == 0 {
        "NONE"@
    } else {
        list
    }
}

/// Adds the name of a flag to a list of names.
fn add_flag(list: &mut String, any: &mut bool, flags: u32, bit: u32, name: &str)
    requires
        *old(any) == (old(list)@.len() > 0),
        name@.len() > 0,
    ensures
        final(list)@ == with_flag(old(list)@, flags, bit, name@),
        *final(any) == (final(list)@.len() > 0),
{
    if flags & bit != 0 {
        if *any {
            list.append("|");
        } else {
            assert(list@ + name@ =~= name@);
        }
        list.append(name);
        *any = true;
    }
}

/// The name of a segment.
pub fn segment_label(segment: u32) -> (name: &'static str)
    ensures
        name@ == segment_name(segment),
{
    if segment == REGION_SEGMENT_GLOBAL {
        "GLOBAL"
    } else if segment == REGION_SEGMENT_READONLY {
        "READONLY"
    } else if segment == REGION_SEGMENT_PRIVATE {
        "PRIVATE"
    } else if segment == REGION_SEGMENT_GROUP {
        "GROUP"
    } else if segment == REGION_SEGMENT_KERNARG {
        "KERNARG"
    } else {
        "UNKNOWN"
    }
}

/// The names of the global flags that are set.
pub fn flag_label(flags: u32) -> (text: String)
    ensures
        text@ == flag_text(flags),
{
    proof {
        reveal_strlit("KERNARG");
        reveal_strlit("FINE_GRAINED");
        reveal_strlit("COARSE_GRAINED");
    }
    let mut list = String::new();
    let mut any = false;
    add_flag(&mut list, &mut any, flags, REGION_GLOBAL_FLAG_KERNARG, "KERNARG");
    add_flag(&mut list, &mut any, flags, REGION_GLOBAL_FLAG_FINE_GRAINED, "FINE_GRAINED");
    add_flag(&mut list, &mut any, flags, REGION_GLOBAL_FLAG_COARSE_GRAINED, "COARSE_GRAINED");
    if any {
        list
    } else {
        String::from_str("NONE")
    }
}

/// The handles of a list of agents.
pub open spec fn handles(agents: Seq<Agent>) -> Set<u64> {
    agents.map_values(|a: Agent| a.handle).to_set()
}

impl MemoryRegion {
    /// Why a request for `size` bytes is refused before the allocator is
    /// asked, if it is. Every refusal is a failed allocation: where a query
    /// of the region failed, the error carries the message of the translated
    /// status.
    pub open spec fn refusal(self, size: usize) -> Option<ErrorView> {
        if !self.runtime_alloc_allowed.status.succeeded() {
            Some(
                ErrorView::with(
                    ErrorKind::MemoryAllocationFailed,
                    translated_with_context(
                        self.runtime_alloc_allowed.status,
                        "Failed to get memory region allocation permission"@,
                    ).display(),
                ),
            )
        } else if !self.runtime_alloc_allowed.value {
            Some(
                ErrorView::with(
                    ErrorKind::MemoryAllocationFailed,
                    "Runtime allocation not allowed for this memory region"@,
                ),
            )
        } else if !self.max_alloc_size.status.succeeded() {
            Some(
                ErrorView::with(
                    ErrorKind::MemoryAllocationFailed,
                    translated_with_context(
                        self.max_alloc_size.status,
                        "Failed to get memory region max allocation size"@,
                    ).display(),
                ),
            )
        } else if size > self.max_alloc_size.value {
            Some(
                ErrorView::with(
                    ErrorKind::MemoryAllocationFailed,
                    "Requested size "@ + decimal(size as nat)
                        + " exceeds maximum allocation size "@ + decimal(
                        self.max_alloc_size.value as nat,
                    ) + " for this region"@,
                ),
            )
        } else {
            None
        }
    }

    /// Why an allocation fails, if it does.
    pub open spec fn allocation_failure(self, size: usize, reply: Reply<usize>) -> Option<
        ErrorView,
    > {
        if self.refusal(size) is Some {
            self.refusal(size)
        } else if !reply.status.succeeded() {
            Some(
                ErrorView::with(
                    ErrorKind::MemoryAllocationFailed,
                    translated_with_context(
                        reply.status,
                        "Failed to allocate "@ + decimal(size as nat)
                            + " bytes from memory region"@,
                    ).display(),
                ),
            )
        } else if reply.value == 0 {
            Some(
                ErrorView::with(
                    ErrorKind::MemoryAllocationFailed,
                    "Memory allocation returned null pointer"@,
                ),
            )
        } else {
            None
        }
    }

    /// The line that describes the region as the `index`-th of its agent: its
    /// segment and, for a region of the global segment whose flags are
    /// known, the flags. There is none where the segment is not known.
    pub open spec fn description(self, index: usize) -> Option<Seq<char>> {
        let head = "  Region "@ + decimal(index as nat) + ": "@ + segment_name(self.segment.value);
        if !self.segment.status.succeeded() {
            None
        } else if self.segment.value == REGION_SEGMENT_GLOBAL
            && self.global_flags.status.succeeded() {
            Some(head + " (flags: "@ + flag_text(self.global_flags.value) + ")"@)
        } else {
            Some(head)
        }
    }

    /// Describes the region as the `index`-th of its agent.
    pub fn describe(&self, index: usize) -> (line: Option<String>)
        ensures
            match line {
                Some(text) => self.description(index) == Some(text@),
                None => self.description(index) is None,
            },
    {
        let segment = match self.segment() {
            Ok(segment) => segment,
            Err(_) => {
                return None;
            },
        };
        let mut text = String::from_str("  Region ");
        let number = format_decimal(index as u64);
        text.append(number.as_str());
        text.append(": ");
        text.append(segment_label(segment));
        if segment == REGION_SEGMENT_GLOBAL {
            match self.global_flags() {
                Ok(flags) => {
                    text.append(" (flags: ");
                    let names = flag_label(flags);
                    text.append(names.as_str());
                    text.append(")");
                },
                Err(_) => {},
            }
        }
        Some(text)
    }

    /// The segment that the region belongs to.
    pub fn segment(&self) -> (r: Result<u32, HsaError>)
        ensures
            agrees(r, answered(self.segment, "Failed to get memory region segment"@)),
    {
        if !self.segment.status.is_success() {
            return Err(
                HsaError::from_status_with_context(
                    self.segment.status,
                    "Failed to get memory region segment",
                ),
            );
        }
        Ok(self.segment.value)
    }

    /// The flags of a region of the global segment.
    pub fn global_flags(&self) -> (r: Result<u32, HsaError>)
        ensures
            agrees(r, answered(self.global_flags, "Failed to get memory region global flags"@)),
    {
        if !self.global_flags.status.is_success() {
            return Err(
                HsaError::from_status_with_context(
                    self.global_flags.status,
                    "Failed to get memory region global flags",
                ),
            );
        }
        Ok(self.global_flags.value)
    }

    /// The size of the region in bytes.
    pub fn size(&self) -> (r: Result<usize, HsaError>)
        ensures
            agrees(r, answered(self.size, "Failed to get memory region size"@)),
    {
        if !self.size.status.is_success() {
            return Err(
                HsaError::from_status_with_context(
                    self.size.status,
                    "Failed to get memory region size",
                ),
            );
        }
        Ok(self.size.value)
    }

    /// The size of the largest single allocation that the region grants.
    pub fn max_alloc_size(&self) -> (r: Result<usize, HsaError>)
        ensures
            agrees(
                r,
                answered(self.max_alloc_size, "Failed to get memory region max allocation size"@),
            ),
    {
        if !self.max_alloc_size.status.is_success() {
            return Err(
                HsaError::from_status_with_context(
                    self.max_alloc_size.status,
                    "Failed to get memory region max allocation size",
                ),
            );
        }
        Ok(self.max_alloc_size.value)
    }

    /// Whether the region grants allocations at run time.
    pub fn runtime_alloc_allowed(&self) -> (r: Result<bool, HsaError>)
        ensures
            agrees(
                r,
                answered(
                    self.runtime_alloc_allowed,
                    "Failed to get memory region allocation permission"@,
                ),
            ),
    {
        if !self.runtime_alloc_allowed.status.is_success() {
            return Err(
                HsaError::from_status_with_context(
                    self.runtime_alloc_allowed.status,
                    "Failed to get memory region allocation permission",
                ),
            );
        }
        Ok(self.runtime_alloc_allowed.value)
    }

    /// Decides whether the allocator may be asked for `size` bytes: the
    /// region must grant allocations at run time, and `size` must not exceed
    /// the largest allocation that it grants. Where the region did not
    /// answer one of the two queries, the allocator is not asked.
    pub fn check_allocation(&self, size: usize) -> (r: Result<(), HsaError>)
        ensures
            match self.refusal(size) {
                Some(error) => r matches Err(e) && e@ == error,
                None => r is Ok,
            },
    {
        match self.runtime_alloc_allowed() {
            Err(e) => {
                return Err(HsaError::MemoryAllocationFailed(e.to_string()));
            },
            Ok(allowed) => {
                if !allowed {
                    return Err(
                        HsaError::MemoryAllocationFailed(
                            String::from_str(
                                "Runtime allocation not allowed for this memory region",
                            ),
                        ),
                    );
                }
            },
        }
        let max_size = match self.max_alloc_size() {
            Err(e) => {
                return Err(HsaError::MemoryAllocationFailed(e.to_string()));
            },
            Ok(max_size) => max_size,
        };
        if size > max_size {
            let mut message = String::from_str("Requested size ");
            let number = format_decimal(size as u64);
            message.append(number.as_str());
            message.append(" exceeds maximum allocation size ");
            let bound = format_decimal(max_size as u64);
            message.append(bound.as_str());
            message.append(" for this region");
            return Err(HsaError::MemoryAllocationFailed(message));
        }
        Ok(())
    }

    /// Makes the allocation that the allocator answered a request with.
    ///
    /// `reply` is the allocator's answer to a request for `size` bytes from
    /// this region: its status and the address. The request is checked
    /// first, as [`MemoryRegion::check_allocation`] does, and a refused
    /// request is the error whatever the reply holds. Then a status other
    /// than success, or a null address, is an error. The allocation starts
    /// with no agent granted access, and is no larger than the region
    /// grants.
    pub fn allocate(&self, size: usize, reply: Reply<usize>) -> (r: Result<Memory, HsaError>)
        ensures
            match self.allocation_failure(size, reply) {
                Some(error) => r matches Err(e) && e@ == error,
                None => r matches Ok(m) && m@ == (MemoryView {
                    address: reply.value,
                    size,
                    access: Set::empty(),
                }) && m@.address != 0 && size <= self.max_alloc_size.value,
            },
    {
        match self.check_allocation(size) {
            Err(e) => {
                return Err(e);
            },
            Ok(_) => {},
        }
        if !reply.status.is_success() {
            let mut context = String::from_str("Failed to allocate ");
            let number = format_decimal(size as u64);
            context.append(number.as_str());
            context.append(" bytes from memory region");
            let error = HsaError::from_status_with_context(reply.status, context.as_str());
            return Err(HsaError::MemoryAllocationFailed(error.to_string()));
        }
        if reply.value == 0 {
            return Err(
                HsaError::MemoryAllocationFailed(
                    String::from_str("Memory allocation returned null pointer"),
                ),
            );
        }
        let memory = Memory { address: reply.value, size, access: Vec::new() };
        assert(memory@.access =~= Set::empty());
        Ok(memory)
    }
}

impl View for Memory {
    type V = MemoryView;

    closed spec fn view(&self) -> MemoryView {
        MemoryView { address: self.address, size: self.size, access: self.access@.to_set() }
    }
}

impl Memory {
    #[verifier::type_invariant]
    spec fn sound(self) -> bool {
        self.address != 0
    }

    /// The address of the first byte.
    pub fn as_ptr(&self) -> (address: usize)
        ensures
            address == self@.address,
            address != 0,
    {
        proof {
            use_type_invariant(self);
        }
        self.address
    }

    /// The length in bytes.
    pub fn size(&self) -> (size: usize)
        ensures
            size == self@.size,
    {
        self.size
    }

    /// Whether the address is null, which it never is.
    pub fn is_null(&self) -> (null: bool)
        ensures
            null == (self@.address == 0),
            !null,
    {
        proof {
            use_type_invariant(self);
        }
        self.address == 0
    }

    /// Gives the allocation up. Returns the address to hand back to the
    /// allocator, which is never null.
    pub fn free(self) -> (address: usize)
        ensures
            address == self@.address,
            address != 0,
    {
        proof {
            use_type_invariant(&self);
        }
        self.address
    }

    /// The handles to put to the runtime when `agents` are to be granted
    /// access; `None` for no agents, where there is nothing to ask.
    pub fn access_request(agents: &[Agent]) -> (request: Option<Vec<u64>>)
        ensures
            match request {
                Some(list) => agents@.len() > 0 && list@ == agents@.map_values(
                    |a: Agent| a.handle,
                ),
                None => agents@.len() == 0,
            },
    {
        if agents.len() == 0 {
            return None;
        }
        let mut list: Vec<u64> = Vec::new();
        let mut i: usize = 0;
        while i < agents.len()
            invariant
                0 <= i <= agents.len(),
                list@ == agents@.take(i as int).map_values(|a: Agent| a.handle),
            decreases agents.len() - i,
        {
            list.push(agents[i].handle);
            assert(agents@.take(i + 1) =~= agents@.take(i as int).push(agents@[i as int]));
            assert(list@ =~= agents@.take(i + 1).map_values(|a: Agent| a.handle));
            i += 1;
        }
        assert(agents@.take(agents@.len() as int) =~= agents@);
        Some(list)
    }

    /// Whether `agent` was granted access.
    pub fn allows(&self, agent: &Agent) -> (granted: bool)
        ensures
            granted == self@.access.contains(agent.handle),
    {
        let mut i: usize = 0;
        while i < self.access.len()
            invariant
                0 <= i <= self.access.len(),
                forall|k: int| 0 <= k < i ==> self.access@[k] != agent.handle,
            decreases self.access.len() - i,
        {
            if self.access[i] == agent.handle {
                assert(self.access@.contains(agent.handle));
                return true;
            }
            i += 1;
        }
        assert(!self.access@.contains(agent.handle));
        false
    }

    /// Takes the runtime's answer to granting `agents` access.
    ///
    /// With no agents there is nothing to grant: the call succeeds and
    /// `status` is not looked at. Otherwise a status other than success is
    /// the error and the allocation is unchanged, and on success every
    /// listed agent has access beside those that had it before.
    pub fn allow_access(&mut self, agents: &[Agent], status: Status) -> (r: Result<(), HsaError>)
        ensures
            if agents@.len() == 0 {
                r is Ok && final(self)@ == old(self)@
            } else if status.succeeded() {
                r is Ok && final(self)@ == (MemoryView {
                    access: old(self)@.access.union(handles(agents@)),
                    ..old(self)@
                })
            } else {
                r matches Err(e) && e@ == translated_with_context(
                    status,
                    "Failed to allow memory access for agents"@,
                ) && final(self)@ == old(self)@
            },
    {
        if agents.len() == 0 {
            return Ok(());
        }
        if !status.is_success() {
            return Err(
                HsaError::from_status_with_context(
                    status,
                    "Failed to allow memory access for agents",
                ),
            );
        }
        proof {
            use_type_invariant(&*self);
        }
        let mut list: Vec<u64> = self.access.clone();
        let mut i: usize = 0;
        assert(agents@.take(0) =~= Seq::<Agent>::empty());
        assert(handles(Seq::<Agent>::empty()) =~= Set::<u64>::empty());
        assert(old(self)@.access.union(Set::<u64>::empty()) =~= old(self)@.access);
        while i < agents.len()
            invariant
                0 <= i <= agents.len(),
                list@.to_set() == old(self).access@.to_set().union(
                    handles(agents@.take(i as int)),
                ),
            decreases agents.len() - i,
        {
            let ghost before = list@;
            list.push(agents[i].handle);
            proof {
                let grown = agents@.take(i + 1);
                let prior = agents@.take(i as int);
                assert(grown =~= prior.push(agents@[i as int]));
                assert(grown.map_values(|a: Agent| a.handle) =~= prior.map_values(
                    |a: Agent| a.handle,
                ).push(agents@[i as int].handle));
                lemma_push_to_set(before, agents@[i as int].handle);
                lemma_push_to_set(
                    prior.map_values(|a: Agent| a.handle),
                    agents@[i as int].handle,
                );
                assert(list@.to_set() =~= old(self).access@.to_set().union(handles(grown)));
            }
            i += 1;
        }
        assert(agents@.take(agents@.len() as int) =~= agents@);
        self.access = list;
        Ok(())
    }
}

/// In a region that grants allocations and says how large they may be, a
/// request above that size fails as too large, whatever the allocator
/// answered, and a request within it succeeds exactly if the allocator
/// granted it and returned an address.
pub proof fn lemma_allocation_bounds(region: MemoryRegion, size: usize, reply: Reply<usize>)
    requires
        region.runtime_alloc_allowed.status.succeeded(),
        region.runtime_alloc_allowed.value,
        region.max_alloc_size.status.succeeded(),
    ensures
        size > region.max_alloc_size.value ==> region.allocation_failure(size, reply) == Some(
            ErrorView::with(
                ErrorKind::MemoryAllocationFailed,
                "Requested size "@ + decimal(size as nat) + " exceeds maximum allocation size "@
                    + decimal(region.max_alloc_size.value as nat) + " for this region"@,
            ),
        ),
        size <= region.max_alloc_size.value ==> (region.allocation_failure(size, reply) is None
            <==> reply.status.succeeded() && reply.value != 0),
{
}

/// Whatever keeps an allocation from being made, the error is a failed
/// allocation: a query of the region that failed, a region that grants no
/// allocations, a size above what it grants, a refusal of the allocator, and
/// a null address alike.
pub proof fn lemma_allocation_fails_as_such(region: MemoryRegion, size: usize, reply: Reply<usize>)
    ensures
        region.allocation_failure(size, reply) matches Some(error) ==> error.kind
            == ErrorKind::MemoryAllocationFailed && error.status is None,
        region.allocation_failure(size, reply) is None <==> (
        region.runtime_alloc_allowed.status.succeeded() && region.runtime_alloc_allowed.value
            && region.max_alloc_size.status.succeeded() && size <= region.max_alloc_size.value
            && reply.status.succeeded() && reply.value != 0),
{
}

/// Pushing onto a sequence inserts into its set of elements.
proof fn lemma_push_to_set(s: Seq<u64>, x: u64)
    ensures
        s.push(x).to_set() == s.to_set().insert(x),
{
    assert forall|y: u64| s.push(x).to_set().contains(y) <==> s.to_set().insert(x).contains(
        y,
    ) by {
        if s.push(x).contains(y) {
            let k = choose|k: int| 0 <= k < s.push(x).len() && s.push(x)[k] == y;
            if k < s.len() {
                assert(s[k] == y);
                assert(s.contains(y));
            }
        }
        if s.contains(y) {
            let k = choose|k: int| 0 <= k < s.len() && s[k] == y;
            assert(s.push(x)[k] == y);
        }
        if y == x {
            assert(s.push(x)[s.len() as int] == x);
        }
    }
    assert(s.push(x).to_set() =~= s.to_set().insert(x));
}

} // verus!
