//! Agents: what the runtime reports of a compute unit, and how one is found.

use crate::error::{
    agrees, answered, translated_with_context, ErrorKind, ErrorView, HsaError,
};
use crate::log::{lines, report, LineView, LogLevel, LogLine};
use crate::memory::MemoryRegion;
use crate::status::{Reply, Status, STATUS_INFO_BREAK, STATUS_SUCCESS};
use crate::text::{decimal, format_decimal, format_hex, hex};
use vstd::prelude::*;
use vstd::utf8::{decode_utf8, valid_utf8};

verus! {

/// The device codes of the runtime.
pub const DEVICE_TYPE_CPU: u32 = 0;

pub const DEVICE_TYPE_GPU: u32 = 1;

pub const DEVICE_TYPE_DSP: u32 = 2;

pub const DEVICE_TYPE_AIE: u32 = 3;

/// The feature bit of an agent that accepts kernel dispatch packets.
pub const AGENT_FEATURE_KERNEL_DISPATCH: u32 = 1;

/// The kind of device behind an agent.
#[derive(Debug, Clone, Copy, PartialEq, Eq, Structural)]
pub enum DeviceType {
    Cpu,
    Gpu,
    Dsp,
    Aie,
}

/// One compute unit, as the runtime reported it: its handle, and the answer
/// to each query about it. The answers are those of the moment the agent
/// was looked up; to see a later state, look the agent up again.
#[derive(Debug, Clone, Copy)]
pub struct Agent {
    pub handle: u64,
    pub device: Reply<u32>,
    pub name: Reply<[u8; 64]>,
    pub vendor_name: Reply<[u8; 64]>,
    pub feature: Reply<u32>,
    pub queue_max_size: Reply<u32>,
    pub queue_min_size: Reply<u32>,
}

/// What `String::from_utf8_lossy` makes of a sequence of bytes.
pub uninterp spec fn lossy_utf8(bytes: Seq<u8>) -> Seq<char>;

/// The device kind that a raw device code stands for, if any.
pub open spec fn device_of(raw: u32) -> Option<DeviceType> {
    if raw == DEVICE_TYPE_CPU {
        Some(DeviceType::Cpu)
    } else if raw == DEVICE_TYPE_GPU {
        Some(DeviceType::Gpu)
    } else if raw == DEVICE_TYPE_DSP {
        Some(DeviceType::Dsp)
    } else if raw == DEVICE_TYPE_AIE {
        Some(DeviceType::Aie)
    } else {
        None
    }
}

/// The number of bytes before the first zero byte, or the length of the
/// whole sequence where it holds none.
pub open spec fn terminated_len(bytes: Seq<u8>) -> nat
    decreases bytes.len(),
{
    if bytes.len() == 0 || bytes[0] == 0 {
        0
    } else {
        1 + terminated_len(bytes.drop_first())
    }
}

/// The bytes of a zero-terminated name in a buffer.
pub open spec fn name_bytes(buffer: Seq<u8>) -> Seq<u8> {
    buffer.take(terminated_len(buffer) as int)
}

/// The status that the visitor of a search for a GPU returns for an agent:
/// the failing status of the device query, the break status for a GPU, and
/// success for anything else.
pub open spec fn gpu_visit(agent: Agent) -> u32 {
    if !agent.device.status.succeeded() {
        agent.device.status.code
    } else if agent.device.value == DEVICE_TYPE_GPU {
        STATUS_INFO_BREAK
    } else {
        STATUS_SUCCESS
    }
}

/// The index of the first agent at which the visitor stops the enumeration,
/// or the number of agents where it never does.
pub open spec fn first_stop(agents: Seq<Agent>) -> nat
    decreases agents.len(),
{
    if agents.len() == 0 || gpu_visit(agents[0]) != STATUS_SUCCESS {
        0
    } else {
        1 + first_stop(agents.drop_first())
    }
}

/// The status that an enumeration with the GPU visitor ends with: that of the
/// visitor where it stopped the enumeration, else the runtime's own.
pub open spec fn gpu_walk_status(agents: Seq<Agent>, walk: Status) -> Status {
    let stop = first_stop(agents) as int;
    if stop < agents.len() && !agents[stop].device.status.succeeded() {
        agents[stop].device.status
    } else if stop < agents.len() {
        Status { code: STATUS_INFO_BREAK, text: None }
    } else {
        walk
    }
}

/// The agent that the GPU visitor recorded, if it recorded one.
pub open spec fn gpu_found(agents: Seq<Agent>) -> Option<Agent> {
    let stop = first_stop(agents) as int;
    if stop < agents.len() && agents[stop].device.status.succeeded() {
        Some(agents[stop])
    } else {
        None
    }
}

/// The result of a search for a GPU, from the status that the enumeration
/// ended with and the agent that the visitor recorded. A status that is
/// neither success nor a break is the error. Else the agent recorded is the
/// result, unless none was recorded or its handle is zero.
pub open spec fn gpu_search_outcome(status: Status, found: Option<Agent>) -> Result<
    Agent,
    ErrorView,
> {
    if status.code != STATUS_SUCCESS && status.code != STATUS_INFO_BREAK {
        Err(translated_with_context(status, "Failed to iterate agents"@))
    } else {
        match found {
            Some(agent) if agent.handle != 0 => Ok(agent),
            _ => Err(ErrorView::bare(ErrorKind::AgentNotFound)),
        }
    }
}

/// The result of a search for a GPU among `agents`, in the order in which
/// the runtime presents them.
pub open spec fn gpu_search(agents: Seq<Agent>, walk: Status) -> Result<Agent, ErrorView> {
    gpu_search_outcome(gpu_walk_status(agents, walk), gpu_found(agents))
}

/// The lines that describe the first `count` regions of an enumeration: one
/// at level debug for each region that has a description.
pub open spec fn region_lines(regions: Seq<MemoryRegion>, count: nat) -> Seq<LineView>
    decreases count,
{
    if count == 0 {
        Seq::empty()
    } else {
        let before = region_lines(regions, (count - 1) as nat);
        match regions[count - 1].description((count - 1) as usize) {
            Some(message) => before.push(LineView { level: LogLevel::Debug, message }),
            None => before,
        }
    }
}

/// The name of a device kind.
pub open spec fn device_name(kind: DeviceType) -> Seq<char> {
    match kind {
        DeviceType::Cpu => "Cpu"@,
        DeviceType::Gpu => "Gpu"@,
        DeviceType::Dsp => "Dsp"@,
        DeviceType::Aie => "Aie"@,
    }
}

/// A truth value as text.
pub open spec fn truth_text(value: bool) -> Seq<char> {
    if value {
        "true"@
    } else {
        "false"@
    }
}

/// Before the first stop the visitor passed every agent, and at the stop it
/// did not.
proof fn lemma_first_stop(agents: Seq<Agent>)
    ensures
        first_stop(agents) <= agents.len(),
        forall|k: int| 0 <= k < first_stop(agents) ==> gpu_visit(#[trigger] agents[k]) == STATUS_SUCCESS,
        first_stop(agents) < agents.len() ==> gpu_visit(agents[first_stop(agents) as int])
            != STATUS_SUCCESS,
    decreases agents.len(),
{
    if agents.len() > 0 && gpu_visit(agents[0]) == STATUS_SUCCESS {
        let rest = agents.drop_first();
        lemma_first_stop(rest);
        assert forall|k: int| 0 <= k < first_stop(agents) implies gpu_visit(
            #[trigger] agents[k],
        ) == STATUS_SUCCESS by {
            if k > 0 {
                assert(agents[k] == rest[k - 1]);
            }
        }
        if first_stop(agents) < agents.len() {
            assert(agents[first_stop(agents) as int] == rest[first_stop(rest) as int]);
        }
    }
}

/// A search that succeeds returns the first GPU of the enumeration: the
/// agent found is one of the agents, it reports a GPU, and every agent
/// before it answered its device query and reported something else.
pub proof fn lemma_search_finds_first_gpu(agents: Seq<Agent>, walk: Status)
    requires
        gpu_search(agents, walk) is Ok,
    ensures
        ({
            let found = gpu_search(agents, walk)->Ok_0;
            let at = first_stop(agents) as int;
            &&& 0 <= at < agents.len()
            &&& agents[at] == found
            &&& found.handle != 0
            &&& found.device_kind() == Ok::<DeviceType, ErrorView>(DeviceType::Gpu)
            &&& forall|k: int|
                0 <= k < at ==> (#[trigger] agents[k]).device.status.succeeded()
                    && agents[k].device.value != DEVICE_TYPE_GPU
        }),
{
    lemma_first_stop(agents);
}

/// A search over agents that all answered their device query, none of them
/// a GPU, finds nothing, provided that the enumeration itself succeeded.
pub proof fn lemma_search_without_gpu(agents: Seq<Agent>, walk: Status)
    requires
        walk.succeeded(),
        forall|k: int|
            0 <= k < agents.len() ==> (#[trigger] agents[k]).device.status.succeeded()
                && agents[k].device.value != DEVICE_TYPE_GPU,
    ensures
        gpu_search(agents, walk) == Err::<Agent, ErrorView>(
            ErrorView::bare(ErrorKind::AgentNotFound),
        ),
{
    lemma_first_stop(agents);
}

/// `String::from_utf8_lossy`, made into an owned string. Claims that the
/// text depends on the bytes alone, and that bytes that are UTF-8 give the
/// text that they encode.
#[verifier::external_body]
fn decode_lossy(bytes: &Vec<u8>) -> (text: String)
    ensures
        text@ == lossy_utf8(bytes@),
        valid_utf8(bytes@) ==> text@ == decode_utf8(bytes@),
{
    String::from_utf8_lossy(bytes.as_slice()).into_owned()
}

/// The bytes of the name in a buffer: those before its first zero byte, and
/// the whole buffer where it holds none.
pub fn name_prefix(buffer: &[u8; 64]) -> (name: Vec<u8>)
    ensures
        name@ == name_bytes(buffer@),
{
    let mut name: Vec<u8> = Vec::new();
    let mut i: usize = 0;
    assert(buffer@.skip(0) =~= buffer@);
    while i < 64 && buffer[i] != 0
        invariant
            0 <= i <= 64,
            buffer@.len() == 64,
            name@ == buffer@.take(i as int),
            terminated_len(buffer@) == i + terminated_len(buffer@.skip(i as int)),
        decreases 64 - i,
    {
        proof {
            let rest = buffer@.skip(i as int);
            assert(rest[0] == buffer@[i as int]);
            assert(rest.drop_first() =~= buffer@.skip(i + 1));
            assert(buffer@.take(i as int).push(buffer@[i as int]) =~= buffer@.take(i + 1));
        }
        name.push(buffer[i]);
        i += 1;
    }
    proof {
        let rest = buffer@.skip(i as int);
        if i < 64 {
            assert(rest[0] == buffer@[i as int]);
        }
        assert(terminated_len(rest) == 0);
    }
    name
}

/// The visitor of a search for a GPU: records the agent if it is one.
/// Returns the status that tells the enumeration how to go on: the failing
/// status of the agent's device query, which ends the enumeration with that
/// status; the break status for a GPU, which ends it without a failure; and
/// success for any other agent, which lets it go on.
pub fn find_gpu_callback(agent: &Agent, found: &mut Option<Agent>) -> (status: Status)
    ensures
        status.code == gpu_visit(*agent),
        !agent.device.status.succeeded() ==> status == agent.device.status,
        agent.device.status.succeeded() ==> status.text is None,
        *final(found) == if status.code == STATUS_INFO_BREAK && agent.device.status.succeeded() {
            Some(*agent)
        } else {
            *old(found)
        },
{
    if !agent.device.status.is_success() {
        return agent.device.status;
    }
    if agent.device.value == DEVICE_TYPE_GPU {
        *found = Some(*agent);
        return Status::new(STATUS_INFO_BREAK, None);
    }
    Status::success()
}

impl Agent {
    /// The device kind that this agent reports.
    pub open spec fn device_kind(self) -> Result<DeviceType, ErrorView> {
        match answered(self.device, "Failed to get agent device type"@) {
            Ok(raw) => match device_of(raw) {
                Some(kind) => Ok(kind),
                None => Err(ErrorView::with(ErrorKind::InvalidArgument, "Unknown device type"@)),
            },
            Err(e) => Err(e),
        }
    }

    /// The name of the agent, as [`Agent::get_name`] gives it.
    pub open spec fn name_outcome(self) -> Result<Seq<char>, ErrorView> {
        match answered(self.name, "Failed to get agent name"@) {
            Ok(buffer) => Ok(lossy_utf8(name_bytes(buffer@))),
            Err(e) => Err(e),
        }
    }

    /// The name of the vendor, as [`Agent::get_vendor_name`] gives it.
    pub open spec fn vendor_outcome(self) -> Result<Seq<char>, ErrorView> {
        match answered(self.vendor_name, "Failed to get agent vendor name"@) {
            Ok(buffer) => Ok(lossy_utf8(name_bytes(buffer@))),
            Err(e) => Err(e),
        }
    }

    /// Whether the agent accepts kernel dispatch packets, as
    /// [`Agent::supports_kernel_dispatch`] gives it.
    pub open spec fn dispatch_outcome(self) -> Result<bool, ErrorView> {
        match answered(self.feature, "Failed to get agent features"@) {
            Ok(feature) => Ok(feature & AGENT_FEATURE_KERNEL_DISPATCH != 0),
            Err(e) => Err(e),
        }
    }

    /// The line on the sizes of ring that the agent accepts. Where both
    /// queries failed, the line shows the error of the one for the minimum.
    pub open spec fn queue_range_line(self) -> LineView {
        match (
            answered(self.queue_min_size, "Failed to get queue min size"@),
            answered(self.queue_max_size, "Failed to get queue max size"@),
        ) {
            (Ok(min), Ok(max)) => LineView {
                level: LogLevel::Info,
                message: "  Queue Size Range: "@ + decimal(min as nat) + " - "@ + decimal(max as nat),
            },
            (Err(e), _) => LineView {
                level: LogLevel::Error,
                message: "  Queue Size Range: Error - "@ + e.display(),
            },
            (_, Err(e)) => LineView {
                level: LogLevel::Error,
                message: "  Queue Size Range: Error - "@ + e.display(),
            },
        }
    }

    /// The lines that describe the agent and an enumeration of its regions.
    pub open spec fn info_lines(self, region_count: nat, walk: Status) -> Seq<LineView> {
        seq![
            LineView {
                level: LogLevel::Info,
                message: "Agent Information (Handle: 0x"@ + hex(self.handle as nat) + "):"@,
            },
            report(
                match self.device_kind() {
                    Ok(kind) => Ok(device_name(kind)),
                    Err(e) => Err(e),
                },
                "  Device Type: "@,
                "  Device Type: Error - "@,
            ),
            report(self.name_outcome(), "  Name: "@, "  Name: Error - "@),
            report(self.vendor_outcome(), "  Vendor: "@, "  Vendor: Error - "@),
            report(
                match self.dispatch_outcome() {
                    Ok(supports) => Ok(truth_text(supports)),
                    Err(e) => Err(e),
                },
                "  Supports Kernel Dispatch: "@,
                "  Kernel Dispatch Support: Error - "@,
            ),
            self.queue_range_line(),
            report(
                if walk.succeeded() {
                    Ok(decimal(region_count) + " found"@)
                } else {
                    Err(translated_with_context(walk, "Failed to iterate memory regions"@))
                },
                "  Memory Regions: "@,
                "  Memory Regions: Error - "@,
            ),
        ]
    }

    /// Finds the first GPU among the agents of an enumeration.
    ///
    /// `agents` are the agents in the order in which the runtime presents
    /// them, and `walk` is the status with which the runtime ends an
    /// enumeration that no visitor stops. The search visits the agents in
    /// turn and stops at the first whose device query failed or which is a
    /// GPU; agents after that one are not looked at. A failed query is the
    /// error of the whole search. An enumeration that ends without a GPU, or
    /// with one whose handle is zero, gives [`HsaError::AgentNotFound`].
    pub fn find_gpu(agents: &Vec<Agent>, walk: Status) -> (r: Result<Agent, HsaError>)
        ensures
            agrees(r, gpu_search(agents@, walk)),
    {
        let mut found: Option<Agent> = None;
        let mut status = walk;
        let mut i: usize = 0;
        assert(agents@.skip(0) =~= agents@);
        while i < agents.len()
            invariant_except_break
                0 <= i <= agents.len(),
                found is None,
                status == walk,
                first_stop(agents@) == i + first_stop(agents@.skip(i as int)),
            ensures
                status == gpu_walk_status(agents@, walk),
                found == gpu_found(agents@),
            decreases agents.len() - i,
        {
            proof {
                let rest = agents@.skip(i as int);
                assert(rest[0] == agents@[i as int]);
                assert(rest.drop_first() =~= agents@.skip(i + 1));
            }
            let visited = find_gpu_callback(&agents[i], &mut found);
            if !visited.is_success() {
                status = visited;
                break;
            }
            i += 1;
        }
        Self::found_gpu(status, found)
    }

    /// Concludes a search for a GPU: `status` is the status that the
    /// enumeration ended with, and `found` the agent that
    /// [`find_gpu_callback`] recorded.
    pub fn found_gpu(status: Status, found: Option<Agent>) -> (r: Result<Agent, HsaError>)
        ensures
            agrees(r, gpu_search_outcome(status, found)),
    {
        if !status.is_success() && status.code != STATUS_INFO_BREAK {
            return Err(HsaError::from_status_with_context(status, "Failed to iterate agents"));
        }
        match found {
            Some(agent) => {
                if agent.handle == 0 {
                    Err(HsaError::AgentNotFound)
                } else {
                    Ok(agent)
                }
            },
            None => Err(HsaError::AgentNotFound),
        }
    }

    /// Every agent of an enumeration, whatever its kind.
    ///
    /// `walk` is the status with which the enumeration ended; anything but
    /// success is an error.
    pub fn find_all(agents: Vec<Agent>, walk: Status) -> (r: Result<Vec<Agent>, HsaError>)
        ensures
            match r {
                Ok(all) => walk.succeeded() && all@ == agents@,
                Err(e) => !walk.succeeded() && e@ == translated_with_context(
                    walk,
                    "Failed to iterate all agents"@,
                ),
            },
    {
        if !walk.is_success() {
            return Err(HsaError::from_status_with_context(walk, "Failed to iterate all agents"));
        }
        Ok(agents)
    }

    /// The kind of device. A device code that stands for no known kind is an
    /// invalid-argument error.
    pub fn device_type(&self) -> (r: Result<DeviceType, HsaError>)
        ensures
            agrees(r, self.device_kind()),
            self.device.status.succeeded() && self.device.value == DEVICE_TYPE_GPU ==> r == Ok::<
                DeviceType,
                HsaError,
            >(DeviceType::Gpu),
    {
        if !self.device.status.is_success() {
            return Err(
                HsaError::from_status_with_context(
                    self.device.status,
                    "Failed to get agent device type",
                ),
            );
        }
        let raw = self.device.value;
        if raw == DEVICE_TYPE_CPU {
            Ok(DeviceType::Cpu)
        } else if raw == DEVICE_TYPE_GPU {
            Ok(DeviceType::Gpu)
        } else if raw == DEVICE_TYPE_DSP {
            Ok(DeviceType::Dsp)
        } else if raw == DEVICE_TYPE_AIE {
            Ok(DeviceType::Aie)
        } else {
            Err(HsaError::InvalidArgument(String::from_str("Unknown device type")))
        }
    }

    /// The name of the agent: the bytes of the name buffer up to the first
    /// zero byte, read as UTF-8 with each invalid sequence replaced. A name
    /// that is UTF-8 is the text that its bytes encode.
    pub fn get_name(&self) -> (r: Result<String, HsaError>)
        ensures
            match r {
                Ok(name) => self.name_outcome() == Ok::<Seq<char>, ErrorView>(name@) && (
                valid_utf8(name_bytes(self.name.value@)) ==> name@ == decode_utf8(
                    name_bytes(self.name.value@),
                )),
                Err(e) => self.name_outcome() == Err::<Seq<char>, ErrorView>(e@),
            },
    {
        if !self.name.status.is_success() {
            return Err(
                HsaError::from_status_with_context(self.name.status, "Failed to get agent name"),
            );
        }
        let bytes = name_prefix(&self.name.value);
        Ok(decode_lossy(&bytes))
    }

    /// The name of the vendor, read as [`Agent::get_name`] reads a name.
    pub fn get_vendor_name(&self) -> (r: Result<String, HsaError>)
        ensures
            match r {
                Ok(name) => self.vendor_outcome() == Ok::<Seq<char>, ErrorView>(name@) && (
                valid_utf8(name_bytes(self.vendor_name.value@)) ==> name@ == decode_utf8(
                    name_bytes(self.vendor_name.value@),
                )),
                Err(e) => self.vendor_outcome() == Err::<Seq<char>, ErrorView>(e@),
            },
    {
        if !self.vendor_name.status.is_success() {
            return Err(
                HsaError::from_status_with_context(
                    self.vendor_name.status,
                    "Failed to get agent vendor name",
                ),
            );
        }
        let bytes = name_prefix(&self.vendor_name.value);
        Ok(decode_lossy(&bytes))
    }

    /// Whether the agent accepts kernel dispatch packets.
    pub fn supports_kernel_dispatch(&self) -> (r: Result<bool, HsaError>)
        ensures
            agrees(r, self.dispatch_outcome()),
    {
        if !self.feature.status.is_success() {
            return Err(
                HsaError::from_status_with_context(
                    self.feature.status,
                    "Failed to get agent features",
                ),
            );
        }
        Ok((self.feature.value & AGENT_FEATURE_KERNEL_DISPATCH) != 0)
    }

    /// The largest number of packets that a ring of this agent can hold.
    pub fn get_queue_max_size(&self) -> (r: Result<u32, HsaError>)
        ensures
            agrees(r, answered(self.queue_max_size, "Failed to get queue max size"@)),
    {
        if !self.queue_max_size.status.is_success() {
            return Err(
                HsaError::from_status_with_context(
                    self.queue_max_size.status,
                    "Failed to get queue max size",
                ),
            );
        }
        Ok(self.queue_max_size.value)
    }

    /// The smallest number of packets that a ring of this agent can hold.
    pub fn get_queue_min_size(&self) -> (r: Result<u32, HsaError>)
        ensures
            agrees(r, answered(self.queue_min_size, "Failed to get queue min size"@)),
    {
        if !self.queue_min_size.status.is_success() {
            return Err(
                HsaError::from_status_with_context(
                    self.queue_min_size.status,
                    "Failed to get queue min size",
                ),
            );
        }
        Ok(self.queue_min_size.value)
    }

    /// The memory regions of this agent.
    ///
    /// `regions` are the regions that the enumeration presented, and `walk`
    /// is the status with which it ended; anything but success is an error.
    pub fn iterate_memory_regions(&self, regions: Vec<MemoryRegion>, walk: Status) -> (r: Result<
        Vec<MemoryRegion>,
        HsaError,
    >)
        ensures
            match r {
                Ok(all) => walk.succeeded() && all@ == regions@,
                Err(e) => !walk.succeeded() && e@ == translated_with_context(
                    walk,
                    "Failed to iterate memory regions"@,
                ),
            },
    {
        if !walk.is_success() {
            return Err(
                HsaError::from_status_with_context(walk, "Failed to iterate memory regions"),
            );
        }
        Ok(regions)
    }

    /// The line for each region of an enumeration that has one, in order.
    pub fn describe_regions(regions: &Vec<MemoryRegion>) -> (list: Vec<LogLine>)
        ensures
            lines(list@) == region_lines(regions@, regions@.len()),
    {
        let mut list: Vec<LogLine> = Vec::new();
        let mut i: usize = 0;
        assert(lines(list@) =~= region_lines(regions@, 0));
        while i < regions.len()
            invariant
                0 <= i <= regions.len(),
                lines(list@) == region_lines(regions@, i as nat),
            decreases regions.len() - i,
        {
            let ghost before = list@;
            match regions[i].describe(i) {
                Some(message) => {
                    let line = LogLine { level: LogLevel::Debug, message };
                    list.push(line);
                    assert(lines(list@) =~= lines(before).push(line@));
                },
                None => {},
            }
            i += 1;
        }
        list
    }

    /// Describes the agent: one line for the handle and one for each query,
    /// at level info where the query gave a value and at level error where
    /// it failed, and last a line for the enumeration of its regions that
    /// ended with `walk`.
    pub fn print_info(&self, regions: Vec<MemoryRegion>, walk: Status) -> (r: Result<
        Vec<LogLine>,
        HsaError,
    >)
        ensures
            r matches Ok(list) && lines(list@) == self.info_lines(regions@.len(), walk),
    {
        let ghost expected = self.info_lines(regions@.len(), walk);
        let mut head = String::from_str("Agent Information (Handle: 0x");
        let handle = format_hex(self.handle);
        head.append(handle.as_str());
        head.append("):");
        let line0 = LogLine { level: LogLevel::Info, message: head };
        assert(line0@ == expected[0]);
        let line1 = match self.device_type() {
            Ok(kind) => {
                let name = match kind {
                    DeviceType::Cpu => "Cpu",
                    DeviceType::Gpu => "Gpu",
                    DeviceType::Dsp => "Dsp",
                    DeviceType::Aie => "Aie",
                };
                LogLine::info("  Device Type: ", name)
            },
            Err(e) => LogLine::error("  Device Type: Error - ", &e),
        };
        assert(line1@ == expected[1]);
        let line2 = match self.get_name() {
            Ok(name) => LogLine::info("  Name: ", name.as_str()),
            Err(e) => LogLine::error("  Name: Error - ", &e),
        };
        assert(line2@ == expected[2]);
        let line3 = match self.get_vendor_name() {
            Ok(vendor) => LogLine::info("  Vendor: ", vendor.as_str()),
            Err(e) => LogLine::error("  Vendor: Error - ", &e),
        };
        assert(line3@ == expected[3]);
        let line4 = match self.supports_kernel_dispatch() {
            Ok(supports) => LogLine::info(
                "  Supports Kernel Dispatch: ",
                if supports {
                    "true"
                } else {
                    "false"
                },
            ),
            Err(e) => LogLine::error("  Kernel Dispatch Support: Error - ", &e),
        };
        assert(line4@ == expected[4]);
        let line5 = match self.get_queue_min_size() {
            Ok(min) => match self.get_queue_max_size() {
                Ok(max) => {
                    let mut range = format_decimal(min as u64);
                    range.append(" - ");
                    let upper = format_decimal(max as u64);
                    range.append(upper.as_str());
                    let line = LogLine::info("  Queue Size Range: ", range.as_str());
                    assert(line@.message =~= "  Queue Size Range: "@ + decimal(min as nat)
                        + " - "@ + decimal(max as nat));
                    line
                },
                Err(e) => LogLine::error("  Queue Size Range: Error - ", &e),
            },
            Err(e) => LogLine::error("  Queue Size Range: Error - ", &e),
        };
        assert(line5@ == expected[5]);
        let count = regions.len();
        let line6 = match self.iterate_memory_regions(regions, walk) {
            Ok(_) => {
                let mut found = format_decimal(count as u64);
                found.append(" found");
                LogLine::info("  Memory Regions: ", found.as_str())
            },
            Err(e) => LogLine::error("  Memory Regions: Error - ", &e),
        };
        assert(line6@ == expected[6]);
        let mut list: Vec<LogLine> = Vec::new();
        list.push(line0);
        list.push(line1);
        list.push(line2);
        list.push(line3);
        list.push(line4);
        list.push(line5);
        list.push(line6);
        assert(lines(list@) =~= expected);
        Ok(list)
    }
}

} // verus!
