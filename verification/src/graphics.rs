//! Capability query and device selector.
//!
//! The application enumerates the platform's physical devices and reports
//! each one as a [`GpuCandidate`]: its class, API version, the two extensions
//! the engine cares about, and per-queue-family capability flags for the
//! presentation target. Selection itself is pure: it filters the candidates,
//! ranks the survivors by device class, and picks the first of the best rank,
//! so the result is deterministic for a fixed enumeration order.

use vstd::prelude::*;

verus! {

/// Coarse class of a physical device, ordered here by selection preference.
#[derive(Debug, Clone, Copy, PartialEq, Eq, Structural)]
pub enum DeviceClass {
    DiscreteGpu,
    IntegratedGpu,
    VirtualGpu,
    Cpu,
    Other,
    Unknown,
}

/// The selector prefers lower ranks; ties go to the first-enumerated candidate.
pub open spec fn class_rank(class: DeviceClass) -> int {
    match class {
        DeviceClass::DiscreteGpu => 0,
        DeviceClass::IntegratedGpu => 1,
        DeviceClass::VirtualGpu => 2,
        DeviceClass::Cpu => 3,
        DeviceClass::Other => 4,
        DeviceClass::Unknown => 5,
    }
}

/// Capability flags of one queue family, queried against one presentation target.
#[derive(Debug, Clone, Copy, PartialEq, Eq, Structural)]
pub struct QueueFamily {
    /// The family accepts graphics work.
    pub graphics: bool,
    /// The family can present images to the target.
    pub present: bool,
}

/// One enumerated physical device, as the capability query reports it.
#[derive(Debug, Clone)]
pub struct GpuCandidate {
    pub device_class: DeviceClass,
    pub api_major: u32,
    pub api_minor: u32,
    /// The mandatory presentation (swapchain) extension is available.
    pub khr_swapchain: bool,
    /// The explicit dynamic-rendering extension is available.
    pub khr_dynamic_rendering: bool,
    /// Capability flags of every queue family, in the device's own order.
    pub queue_families: Vec<QueueFamily>,
}

/// A family qualifies when it can both render and present.
pub open spec fn family_qualifies(f: QueueFamily) -> bool {
    f.graphics && f.present
}

/// At least one of the candidate's queue families qualifies.
pub open spec fn has_qualifying_family(c: GpuCandidate) -> bool {
    exists|i: int| 0 <= i < c.queue_families@.len() && family_qualifies(c.queue_families@[i])
}

/// The API version alone already includes dynamic per-frame rendering.
pub open spec fn api_includes_dynamic_rendering(c: GpuCandidate) -> bool {
    c.api_major > 1 || (c.api_major == 1 && c.api_minor >= 3)
}

/// Dynamic rendering is reachable, by API version or by the explicit extension.
pub open spec fn supports_dynamic_rendering(c: GpuCandidate) -> bool {
    api_includes_dynamic_rendering(c) || c.khr_dynamic_rendering
}

/// A candidate survives the selector's filters: swapchain support, a path to
/// dynamic rendering, and a queue family that can both render and present.
pub open spec fn eligible(c: GpuCandidate) -> bool {
    &&& c.khr_swapchain
    &&& supports_dynamic_rendering(c)
    &&& has_qualifying_family(c)
}

/// `i` is the index the ranking policy picks out of `cands`: eligible, of
/// minimal rank among the eligible, and first-enumerated within that rank.
pub open spec fn is_selected_index(cands: Seq<GpuCandidate>, i: int) -> bool {
    &&& 0 <= i < cands.len()
    &&& eligible(cands[i])
    &&& forall|j: int|
        0 <= j < cands.len() && eligible(cands[j]) ==> class_rank(cands[i].device_class)
            <= class_rank(#[trigger] cands[j].device_class)
    &&& forall|j: int|
        0 <= j < i && eligible(cands[j]) ==> class_rank(#[trigger] cands[j].device_class)
            > class_rank(cands[i].device_class)
}

/// The selector's whole decision: which candidate, which of its queue
/// families, and whether the dynamic-rendering extension must be enabled
/// when the logical device is created.
#[derive(Debug, Clone, Copy, PartialEq, Eq, Structural)]
pub struct SelectedDevice {
    pub candidate_index: usize,
    pub queue_family_index: usize,
    pub enable_khr_dynamic_rendering: bool,
}

/// A graphics-subsystem failure class together with its account.
#[derive(Debug)]
pub struct GraphicsError {
    pub error_type: GraphicsErrorType,
    pub message: String,
}

impl GraphicsError {
    pub fn new(error_type: GraphicsErrorType, message: String) -> (e: GraphicsError)
        ensures
            e.error_type == error_type,
            e.message == message,
    {
        GraphicsError { error_type, message }
    }
}

#[derive(Debug, Clone, Copy, PartialEq, Eq, Structural)]
pub enum GraphicsErrorType {
    FailedToGetVKLibrary,
    FailedToCreateVKInstance,
    FailedToCreateMainWindow,
    CouldNotEnumerateGraphicsDevices,
    NoSuitableGPU,
    DeviceOrQueueCreationFailed,
    NoGraphicsQueueAvailable,
    GetSurfaceCapabilitiesFailed,
    GetSurfaceFormatsFailed,
}

/// Rank of a device class, as executable code.
pub fn device_class_rank(class: DeviceClass) -> (r: u32)
    ensures
        r == class_rank(class),
{
    match class {
        DeviceClass::DiscreteGpu => 0,
        DeviceClass::IntegratedGpu => 1,
        DeviceClass::VirtualGpu => 2,
        DeviceClass::Cpu => 3,
        DeviceClass::Other => 4,
        DeviceClass::Unknown => 5,
    }
}

/// First queue family that can both render and present, if any.
pub fn find_queue_family(families: &Vec<QueueFamily>) -> (r: Option<usize>)
    ensures
        match r {
            Some(i) => i < families@.len() && family_qualifies(families@[i as int]) && (forall|
                j: int,
            |
                0 <= j < i ==> !family_qualifies(families@[j])),
            None => forall|j: int| 0 <= j < families@.len() ==> !family_qualifies(families@[j]),
        },
{
    let mut i: usize = 0;
    while i < families.len()
        invariant
            i <= families@.len(),
            forall|j: int| 0 <= j < i ==> !family_qualifies(families@[j]),
        decreases families@.len() - i,
    {
        let f = families[i];
        if f.graphics && f.present {
            return Some(i);
        }
        i = i + 1;
    }
    None
}

/// What the capability query reports for one capable candidate: its index in
/// the enumeration, and the first of its queue families that can both render
/// and present.
#[derive(Debug, Clone, Copy, PartialEq, Eq, Structural)]
pub struct CandidateQueue {
    pub candidate_index: usize,
    pub queue_family_index: usize,
}

/// The capability query: of all enumerated candidates, those with at least
/// one queue family that can both render and present to the target, each
/// annotated with the first such family, in enumeration order. A candidate
/// with no qualifying family is silently excluded -- that is not an error.
/// Whether the platform could enumerate at all is the caller's concern.
pub fn capable_candidates(candidates: &Vec<GpuCandidate>) -> (r: Vec<CandidateQueue>)
    ensures
        forall|t: int|
            0 <= t < r@.len() ==> {
                let cq = #[trigger] r@[t];
                &&& cq.candidate_index < candidates@.len()
                &&& has_qualifying_family(candidates@[cq.candidate_index as int])
                &&& cq.queue_family_index < candidates@[cq.candidate_index as int].queue_families@.len()
                &&& family_qualifies(
                    candidates@[cq.candidate_index as int].queue_families@[cq.queue_family_index as int],
                )
                &&& forall|j: int|
                    0 <= j < cq.queue_family_index ==> !family_qualifies(
                        candidates@[cq.candidate_index as int].queue_families@[j],
                    )
            },
        forall|i: int|
            0 <= i < candidates@.len() && has_qualifying_family(#[trigger] candidates@[i])
                ==> exists|t: int| 0 <= t < r@.len() && (#[trigger] r@[t]).candidate_index == i,
        forall|t1: int, t2: int|
            0 <= t1 < t2 < r@.len() ==> (#[trigger] r@[t1]).candidate_index < (
            #[trigger] r@[t2]).candidate_index,
{
    let mut r: Vec<CandidateQueue> = Vec::new();
    let mut i: usize = 0;
    while i < candidates.len()
        invariant
            i <= candidates@.len(),
            forall|t: int|
                0 <= t < r@.len() ==> {
                    let cq = #[trigger] r@[t];
                    &&& cq.candidate_index < i
                    &&& has_qualifying_family(candidates@[cq.candidate_index as int])
                    &&& cq.queue_family_index
                        < candidates@[cq.candidate_index as int].queue_families@.len()
                    &&& family_qualifies(
                        candidates@[cq.candidate_index as int].queue_families@[cq.queue_family_index as int],
                    )
                    &&& forall|j: int|
                        0 <= j < cq.queue_family_index ==> !family_qualifies(
                            candidates@[cq.candidate_index as int].queue_families@[j],
                        )
                },
            forall|c: int|
                0 <= c < i && has_qualifying_family(#[trigger] candidates@[c]) ==> exists|t: int|
                    0 <= t < r@.len() && (#[trigger] r@[t]).candidate_index == c,
            forall|t1: int, t2: int|
                0 <= t1 < t2 < r@.len() ==> (#[trigger] r@[t1]).candidate_index < (
                #[trigger] r@[t2]).candidate_index,
        decreases candidates@.len() - i,
    {
        let ghost r0 = r@;
        match find_queue_family(&candidates[i].queue_families) {
            Some(fam) => {
                r.push(CandidateQueue { candidate_index: i, queue_family_index: fam });
                proof {
                    assert forall|c: int|
                        0 <= c < i + 1 && has_qualifying_family(#[trigger] candidates@[c])
                            implies exists|t: int|
                        0 <= t < r@.len() && (#[trigger] r@[t]).candidate_index == c by {
                        if c == i as int {
                            assert(r@[r0.len() as int].candidate_index == c);
                        } else {
                            let t0 = choose|t: int|
                                0 <= t < r0.len() && (#[trigger] r0[t]).candidate_index == c;
                            assert(r@[t0] == r0[t0]);
                        }
                    }
                }
            },
            None => {},
        }
        i = i + 1;
    }
    r
}

/// Applies the selection policy to the enumerated candidates: keep those with
/// swapchain support, a path to dynamic rendering and a qualifying queue
/// family; among the survivors take the best-ranked class, first-enumerated
/// on a tie. An empty survivor set is a selection failure, reported as
/// `NoSuitableGPU` -- never as an enumeration failure, which only the
/// platform itself can raise.
pub fn select_physical_device(candidates: &Vec<GpuCandidate>) -> (r: Result<
    SelectedDevice,
    GraphicsError,
>)
    ensures
        (r is Ok) <==> (exists|i: int|
            0 <= i < candidates@.len() && eligible(#[trigger] candidates@[i])),
        r matches Ok(sel) ==> is_selected_index(candidates@, sel.candidate_index as int),
        r matches Ok(sel) ==> ({
            let c = candidates@[sel.candidate_index as int];
            &&& sel.queue_family_index < c.queue_families@.len()
            &&& family_qualifies(c.queue_families@[sel.queue_family_index as int])
            &&& forall|j: int|
                0 <= j < sel.queue_family_index ==> !family_qualifies(c.queue_families@[j])
            &&& sel.enable_khr_dynamic_rendering == !api_includes_dynamic_rendering(c)
        }),
        r matches Err(e) ==> e.error_type is NoSuitableGPU,
{
    let mut best: Option<SelectedDevice> = None;
    let mut best_rank: u32 = 0;
    let mut i: usize = 0;
    while i < candidates.len()
        invariant
            i <= candidates@.len(),
            best is None ==> forall|j: int| 0 <= j < i ==> !eligible(#[trigger] candidates@[j]),
            best matches Some(sel) ==> ({
                let c = candidates@[sel.candidate_index as int];
                &&& sel.candidate_index < i
                &&& eligible(c)
                &&& best_rank == class_rank(c.device_class)
                &&& forall|j: int|
                    0 <= j < i && eligible(candidates@[j]) ==> best_rank <= class_rank(
                        #[trigger] candidates@[j].device_class,
                    )
                &&& forall|j: int|
                    0 <= j < sel.candidate_index && eligible(candidates@[j]) ==> class_rank(
                        #[trigger] candidates@[j].device_class,
                    ) > best_rank
                &&& sel.queue_family_index < c.queue_families@.len()
                &&& family_qualifies(c.queue_families@[sel.queue_family_index as int])
                &&& forall|j: int|
                    0 <= j < sel.queue_family_index ==> !family_qualifies(c.queue_families@[j])
                &&& sel.enable_khr_dynamic_rendering == !api_includes_dynamic_rendering(c)
            }),
        decreases candidates@.len() - i,
    {
        let c = &candidates[i];
        let api_ok = c.api_major > 1 || (c.api_major == 1 && c.api_minor >= 3);
        if c.khr_swapchain && (api_ok || c.khr_dynamic_rendering) {
            match find_queue_family(&c.queue_families) {
                Some(fam) => {
                    let rank = device_class_rank(c.device_class);
                    let better = match best {
                        None => true,
                        Some(_) => rank < best_rank,
                    };
                    if better {
                        best = Some(
                            SelectedDevice {
                                candidate_index: i,
                                queue_family_index: fam,
                                enable_khr_dynamic_rendering: !api_ok,
                            },
                        );
                        best_rank = rank;
                    }
                },
                None => {},
            }
        }
        i = i + 1;
    }
    match best {
        Some(sel) => Ok(sel),
        None => Err(
            GraphicsError::new(
                GraphicsErrorType::NoSuitableGPU,
                "Could not find GPU with support for Vulkan dynamic rendering. Try updating your graphics drivers".to_string(),
            ),
        ),
    }
}

/// The ranking policy never passes over an eligible discrete GPU: whatever
/// index it selects -- however many integrated, virtual or software
/// candidates stand beside it -- names a discrete device too.
pub proof fn lemma_selector_prefers_discrete(cands: Seq<GpuCandidate>, d: int, s: int)
    requires
        0 <= d < cands.len(),
        eligible(cands[d]),
        cands[d].device_class is DiscreteGpu,
        is_selected_index(cands, s),
    ensures
        cands[s].device_class is DiscreteGpu,
{
    assert(class_rank(cands[s].device_class) <= class_rank(cands[d].device_class));
}

/// Where no candidate has a qualifying queue family, none is eligible and no
/// index is selectable: selection must fail, and `select_physical_device`
/// then reports the no-suitable-device error, never an enumeration failure.
pub proof fn lemma_no_qualifying_family_no_selection(cands: Seq<GpuCandidate>)
    requires
        forall|i: int| 0 <= i < cands.len() ==> !has_qualifying_family(#[trigger] cands[i]),
    ensures
        forall|i: int| 0 <= i < cands.len() ==> !eligible(#[trigger] cands[i]),
        forall|s: int| !is_selected_index(cands, s),
{
}

/// The ranking policy is deterministic: at most one index satisfies it.
pub proof fn lemma_selected_index_unique(cands: Seq<GpuCandidate>, a: int, b: int)
    requires
        is_selected_index(cands, a),
        is_selected_index(cands, b),
    ensures
        a == b,
{
    if a < b {
        assert(class_rank(cands[a].device_class) > class_rank(cands[b].device_class));
        assert(class_rank(cands[b].device_class) <= class_rank(cands[a].device_class));
    } else if b < a {
        assert(class_rank(cands[b].device_class) > class_rank(cands[a].device_class));
        assert(class_rank(cands[a].device_class) <= class_rank(cands[b].device_class));
    }
}

} // verus!
