//! The context of a session: one GPU, its dispatch ring, and the memory
//! regions that a launch draws on.

use crate::agent::{gpu_search, Agent};
use crate::error::{
    agrees, answered, translated, translated_with_context, ErrorKind, ErrorView, HsaError,
};
use crate::memory::{
    MemoryRegion, REGION_GLOBAL_FLAG_FINE_GRAINED, REGION_SEGMENT_GLOBAL, REGION_SEGMENT_KERNARG,
};
use crate::queue::{create_failure, Queue, QueueDescriptor, QueueView};
use crate::status::{Reply, Status};
use vstd::prelude::*;

verus! {

/// The number of packets in the ring of a context.
pub const CONTEXT_QUEUE_SIZE: u32 = 1024;

/// What a session works with. The context owns the ring; it is made once
/// the runtime is initialized and given up before the runtime is shut down.
#[derive(Debug)]
pub struct HsaContext {
    pub agent: Agent,
    pub queue: Option<Queue>,
    pub kernarg_region: Option<MemoryRegion>,
    pub fine_grained_region: Option<MemoryRegion>,
    pub coarse_grained_region: Option<MemoryRegion>,
}

/// The regions of an agent by what a launch uses them for.
#[derive(Debug, Clone, Copy)]
pub struct RegionClasses {
    pub kernarg: Option<MemoryRegion>,
    pub fine_grained: Option<MemoryRegion>,
    pub coarse_grained: Option<MemoryRegion>,
}

/// What is known before the ring is requested: the GPU and its regions.
#[derive(Debug, Clone, Copy)]
pub struct Discovery {
    pub agent: Agent,
    pub regions: RegionClasses,
}

impl RegionClasses {
    /// No region in any class.
    pub open spec fn none() -> RegionClasses {
        RegionClasses { kernarg: None, fine_grained: None, coarse_grained: None }
    }

    /// The classes after one more region was looked at. A region of the
    /// kernarg segment becomes the kernarg region. A region of the global
    /// segment becomes the fine-grained region where its flags say so, and
    /// the coarse-grained region otherwise. A region of any other segment
    /// changes nothing. A query that failed is the error.
    pub open spec fn with(self, region: MemoryRegion) -> Result<RegionClasses, ErrorView> {
        match answered(region.segment, "Failed to get memory region segment"@) {
            Err(e) => Err(e),
            Ok(segment) => if segment == REGION_SEGMENT_KERNARG {
                Ok(RegionClasses { kernarg: Some(region), ..self })
            } else if segment == REGION_SEGMENT_GLOBAL {
                match answered(region.global_flags, "Failed to get memory region global flags"@) {
                    Err(e) => Err(e),
                    Ok(flags) => if flags & REGION_GLOBAL_FLAG_FINE_GRAINED != 0 {
                        Ok(RegionClasses { fine_grained: Some(region), ..self })
                    } else {
                        Ok(RegionClasses { coarse_grained: Some(region), ..self })
                    },
                }
            } else {
                Ok(self)
            },
        }
    }
}

/// The classes of the first `count` regions of a list, looked at in order:
/// of several regions of one class the last one stands, and the first query
/// that failed is the error.
pub open spec fn classified(regions: Seq<MemoryRegion>, count: nat) -> Result<
    RegionClasses,
    ErrorView,
>
    decreases count,
{
    if count == 0 {
        Ok(RegionClasses::none())
    } else {
        match classified(regions, (count - 1) as nat) {
            Err(e) => Err(e),
            Ok(classes) => classes.with(regions[count - 1]),
        }
    }
}

/// Whether the queries that a classification makes of a region succeeded: the
/// one for the segment and, for a region of the global segment, the one for
/// the flags.
pub open spec fn answers(region: MemoryRegion) -> bool {
    region.segment.status.succeeded() && (region.segment.value == REGION_SEGMENT_GLOBAL
        ==> region.global_flags.status.succeeded())
}

/// Whether a region is of the kernarg segment.
pub open spec fn is_kernarg(region: MemoryRegion) -> bool {
    region.segment.value == REGION_SEGMENT_KERNARG
}

/// Whether a region is of the global segment and fine-grained.
pub open spec fn is_fine_grained(region: MemoryRegion) -> bool {
    region.segment.value == REGION_SEGMENT_GLOBAL && region.global_flags.value
        & REGION_GLOBAL_FLAG_FINE_GRAINED != 0
}

/// Whether a region is of the global segment and not fine-grained.
pub open spec fn is_coarse_grained(region: MemoryRegion) -> bool {
    region.segment.value == REGION_SEGMENT_GLOBAL && region.global_flags.value
        & REGION_GLOBAL_FLAG_FINE_GRAINED == 0
}

/// The last of the first `count` regions that is wanted, if any is.
pub open spec fn last_where(
    regions: Seq<MemoryRegion>,
    count: nat,
    wanted: spec_fn(MemoryRegion) -> bool,
) -> Option<MemoryRegion>
    decreases count,
{
    if count == 0 {
        None
    } else if wanted(regions[count - 1]) {
        Some(regions[count - 1])
    } else {
        last_where(regions, (count - 1) as nat, wanted)
    }
}

/// A classification succeeds exactly if every region answered the queries
/// made of it, and then each class holds the last region of its kind.
pub proof fn lemma_classes_hold_the_last(regions: Seq<MemoryRegion>, count: nat)
    requires
        count <= regions.len(),
    ensures
        classified(regions, count) is Ok <==> forall|k: int|
            0 <= k < count ==> answers(#[trigger] regions[k]),
        classified(regions, count) matches Ok(classes) ==> {
            &&& classes.kernarg == last_where(regions, count, |r: MemoryRegion| is_kernarg(r))
            &&& classes.fine_grained == last_where(
                regions,
                count,
                |r: MemoryRegion| is_fine_grained(r),
            )
            &&& classes.coarse_grained == last_where(
                regions,
                count,
                |r: MemoryRegion| is_coarse_grained(r),
            )
        },
    decreases count,
{
    if count > 0 {
        lemma_classes_hold_the_last(regions, (count - 1) as nat);
        if classified(regions, count) is Ok {
            assert forall|k: int| 0 <= k < count implies answers(#[trigger] regions[k]) by {
                if k == count - 1 {
                    assert(answers(regions[count - 1]));
                }
            }
        }
        if forall|k: int| 0 <= k < count ==> answers(#[trigger] regions[k]) {
            assert(answers(regions[count - 1]));
        }
    }
}

/// A classification fails with the error of the first region that did not
/// answer a query made of it: the query for the segment, or else the one for
/// the flags.
pub proof fn lemma_classification_fails_first(regions: Seq<MemoryRegion>, count: nat, first: nat)
    requires
        first < count <= regions.len(),
        !answers(regions[first as int]),
        forall|k: int| 0 <= k < first ==> answers(#[trigger] regions[k]),
    ensures
        classified(regions, count) == Err::<RegionClasses, ErrorView>(
            if !regions[first as int].segment.status.succeeded() {
                translated_with_context(
                    regions[first as int].segment.status,
                    "Failed to get memory region segment"@,
                )
            } else {
                translated_with_context(
                    regions[first as int].global_flags.status,
                    "Failed to get memory region global flags"@,
                )
            },
        ),
{
    lemma_classes_hold_the_last(regions, first);
    assert(classified(regions, (first + 1) as nat) is Err);
    lemma_classified_error_stays(regions, (first + 1) as nat, count);
}

/// What a discovery gives.
pub open spec fn discovered(
    init: Status,
    agents: Seq<Agent>,
    agents_walk: Status,
    regions: Seq<MemoryRegion>,
    regions_walk: Status,
) -> Result<Discovery, ErrorView> {
    if !init.succeeded() {
        Err(translated(init))
    } else {
        match gpu_search(agents, agents_walk) {
            Err(e) => Err(e),
            Ok(agent) => if !regions_walk.succeeded() {
                Err(translated_with_context(regions_walk, "Failed to iterate memory regions"@))
            } else {
                match classified(regions, regions.len()) {
                    Err(e) => Err(e),
                    Ok(classes) => if classes.coarse_grained is None
                        || classes.fine_grained is None {
                        Err(ErrorView::bare(ErrorKind::MemoryRegionNotFound))
                    } else {
                        Ok(Discovery { agent, regions: classes })
                    },
                }
            },
        }
    }
}

impl HsaContext {
    /// Whether this is the context of a discovery and a ring as the runtime
    /// created it: the GPU and the regions are those found, and the ring is
    /// fresh.
    pub open spec fn made_of(self, found: Discovery, descriptor: QueueDescriptor) -> bool {
        &&& self.agent == found.agent
        &&& self.kernarg_region == found.regions.kernarg
        &&& self.fine_grained_region == found.regions.fine_grained
        &&& self.coarse_grained_region == found.regions.coarse_grained
        &&& self.fine_grained_region is Some
        &&& self.coarse_grained_region is Some
        &&& self.queue matches Some(queue)
        &&& queue@ == QueueView::fresh(descriptor)
    }

    /// Sorts the regions of an agent into classes.
    pub fn classify(regions: &Vec<MemoryRegion>) -> (r: Result<RegionClasses, HsaError>)
        ensures
            agrees(r, classified(regions@, regions@.len())),
    {
        let mut classes = RegionClasses { kernarg: None, fine_grained: None, coarse_grained: None };
        let mut i: usize = 0;
        while i < regions.len()
            invariant
                0 <= i <= regions.len(),
                classified(regions@, i as nat) == Ok::<RegionClasses, ErrorView>(classes),
            decreases regions.len() - i,
        {
            let region = regions[i];
            let segment = match region.segment() {
                Ok(segment) => segment,
                Err(e) => {
                    proof {
                        lemma_classified_error_stays(regions@, (i + 1) as nat, regions@.len());
                    }
                    return Err(e);
                },
            };
            if segment == REGION_SEGMENT_KERNARG {
                classes.kernarg = Some(region);
            } else if segment == REGION_SEGMENT_GLOBAL {
                let flags = match region.global_flags() {
                    Ok(flags) => flags,
                    Err(e) => {
                        proof {
                            lemma_classified_error_stays(regions@, (i + 1) as nat, regions@.len());
                        }
                        return Err(e);
                    },
                };
                if flags & REGION_GLOBAL_FLAG_FINE_GRAINED != 0 {
                    classes.fine_grained = Some(region);
                } else {
                    classes.coarse_grained = Some(region);
                }
            }
            i += 1;
        }
        Ok(classes)
    }

    /// Finds the GPU of a session and classifies its regions: everything
    /// that comes before the ring is requested.
    ///
    /// `init` is the status of the runtime's initialization, `agents` and
    /// `agents_walk` are an enumeration of the agents as
    /// [`Agent::find_gpu`] takes it, and `regions` and `regions_walk` an
    /// enumeration of the regions of the GPU found. The first of these
    /// fails: an initialization that did not succeed, a search that found no
    /// GPU, an enumeration of regions that did not succeed, a region whose
    /// query failed, and a GPU that lacks a coarse-grained or a fine-grained
    /// region. A kernarg region is not required.
    pub fn discover(
        init: Status,
        agents: &Vec<Agent>,
        agents_walk: Status,
        regions: &Vec<MemoryRegion>,
        regions_walk: Status,
    ) -> (r: Result<Discovery, HsaError>)
        ensures
            agrees(r, discovered(init, agents@, agents_walk, regions@, regions_walk)),
    {
        if !init.is_success() {
            return Err(HsaError::from_status(init));
        }
        let agent = match Agent::find_gpu(agents, agents_walk) {
            Ok(agent) => agent,
            Err(e) => {
                return Err(e);
            },
        };
        if !regions_walk.is_success() {
            return Err(
                HsaError::from_status_with_context(
                    regions_walk,
                    "Failed to iterate memory regions",
                ),
            );
        }
        let classes = match Self::classify(regions) {
            Ok(classes) => classes,
            Err(e) => {
                return Err(e);
            },
        };
        if classes.coarse_grained.is_none() {
            return Err(HsaError::MemoryRegionNotFound);
        }
        if classes.fine_grained.is_none() {
            return Err(HsaError::MemoryRegionNotFound);
        }
        Ok(Discovery { agent, regions: classes })
    }

    /// Makes the context of a session.
    ///
    /// The first five arguments are those of [`HsaContext::discover`], and
    /// `ring` is the runtime's answer to a request for a ring of
    /// [`CONTEXT_QUEUE_SIZE`] packets on the GPU found. A discovery that
    /// fails is the error whatever `ring` holds; then the ring is made as
    /// [`Queue::create`] makes it.
    pub fn new(
        init: Status,
        agents: &Vec<Agent>,
        agents_walk: Status,
        regions: &Vec<MemoryRegion>,
        regions_walk: Status,
        ring: Reply<QueueDescriptor>,
    ) -> (r: Result<HsaContext, HsaError>)
        ensures
            match discovered(init, agents@, agents_walk, regions@, regions_walk) {
                Err(error) => r matches Err(e) && e@ == error,
                Ok(found) => match create_failure(found.agent, CONTEXT_QUEUE_SIZE, ring) {
                    Some(message) => r matches Err(e) && e@ == ErrorView::with(
                        ErrorKind::QueueCreationFailed,
                        message,
                    ),
                    None => r matches Ok(context) && context.made_of(found, ring.value),
                },
            },
    {
        let found = match Self::discover(init, agents, agents_walk, regions, regions_walk) {
            Ok(found) => found,
            Err(e) => {
                return Err(e);
            },
        };
        let queue = match Queue::create(&found.agent, CONTEXT_QUEUE_SIZE, ring) {
            Ok(queue) => queue,
            Err(e) => {
                return Err(e);
            },
        };
        Ok(
            HsaContext {
                agent: found.agent,
                queue: Some(queue),
                kernarg_region: found.regions.kernarg,
                fine_grained_region: found.regions.fine_grained,
                coarse_grained_region: found.regions.coarse_grained,
            },
        )
    }
}

/// Once a region's query has failed, looking at more regions does not
/// change the error.
proof fn lemma_classified_error_stays(regions: Seq<MemoryRegion>, failed: nat, count: nat)
    requires
        failed <= count,
        classified(regions, failed) is Err,
    ensures
        classified(regions, count) == classified(regions, failed),
    decreases count,
{
    if failed < count {
        lemma_classified_error_stays(regions, failed, (count - 1) as nat);
    }
}

} // verus!
