//! Device and queue-family selection.
//!
//! Startup enumerates the physical GPUs, discards every one that misses a
//! required capability or has no queue family that is usable for this
//! renderer, ranks the survivors (discrete before integrated before other,
//! ties broken by enumeration order), and picks the first usable queue family
//! of the winner. Selection failure is fatal and aborts startup.

use vstd::prelude::*;

verus! {

/// The broad class of a physical GPU, used only for ranking candidates.
#[derive(Clone, Copy, Debug, PartialEq, Eq, Structural)]
pub enum DeviceKind {
    Discrete,
    Integrated,
    Other,
}

impl DeviceKind {
    /// Rank used to order candidates; a lower rank wins.
    pub open spec fn spec_rank(self) -> int {
        match self {
            DeviceKind::Discrete => 0,
            DeviceKind::Integrated => 1,
            DeviceKind::Other => 2,
        }
    }

    /// Executable form of [`Self::spec_rank`].
    pub fn rank(self) -> (r: u32)
        ensures
            r == self.spec_rank(),
    {
        match self {
            DeviceKind::Discrete => 0,
            DeviceKind::Integrated => 1,
            DeviceKind::Other => 2,
        }
    }
}

/// The capability set a device can offer, and equally the set a renderer
/// variant requires: presentation and storage-image writes for every variant,
/// plus acceleration structures, a ray-tracing pipeline and buffer device
/// addresses for the ray-tracing variant.
#[derive(Clone, Copy, Debug, PartialEq, Eq, Structural)]
pub struct Capabilities {
    pub presentation: bool,
    pub storage_image_write: bool,
    pub acceleration_structure: bool,
    pub ray_tracing_pipeline: bool,
    pub buffer_device_address: bool,
}

impl Capabilities {
    /// Every capability demanded by `req` is offered by `self`.
    pub open spec fn supports(self, req: Capabilities) -> bool {
        &&& req.presentation ==> self.presentation
        &&& req.storage_image_write ==> self.storage_image_write
        &&& req.acceleration_structure ==> self.acceleration_structure
        &&& req.ray_tracing_pipeline ==> self.ray_tracing_pipeline
        &&& req.buffer_device_address ==> self.buffer_device_address
    }

    /// Executable form of [`Self::supports`].
    pub fn supports_all(&self, req: &Capabilities) -> (r: bool)
        ensures
            r == self.supports(*req),
    {
        (!req.presentation || self.presentation)
            && (!req.storage_image_write || self.storage_image_write)
            && (!req.acceleration_structure || self.acceleration_structure)
            && (!req.ray_tracing_pipeline || self.ray_tracing_pipeline)
            && (!req.buffer_device_address || self.buffer_device_address)
    }

    /// Requirements of the plain compute variant: presentation and
    /// storage-image writes.
    pub fn compute_variant() -> (r: Capabilities)
        ensures
            r == (Capabilities {
                presentation: true,
                storage_image_write: true,
                acceleration_structure: false,
                ray_tracing_pipeline: false,
                buffer_device_address: false,
            }),
    {
        Capabilities {
            presentation: true,
            storage_image_write: true,
            acceleration_structure: false,
            ray_tracing_pipeline: false,
            buffer_device_address: false,
        }
    }

    /// Requirements of the ray-tracing variant: everything the compute
    /// variant needs plus the hardware ray-tracing capabilities.
    pub fn ray_tracing_variant() -> (r: Capabilities)
        ensures
            r == (Capabilities {
                presentation: true,
                storage_image_write: true,
                acceleration_structure: true,
                ray_tracing_pipeline: true,
                buffer_device_address: true,
            }),
    {
        Capabilities {
            presentation: true,
            storage_image_write: true,
            acceleration_structure: true,
            ray_tracing_pipeline: true,
            buffer_device_address: true,
        }
    }
}

/// One queue family of a physical device, as enumeration reports it.
#[derive(Clone, Copy, Debug, PartialEq, Eq, Structural)]
pub struct QueueFamily {
    pub graphics: bool,
    pub compute: bool,
    /// Presentation support for the target surface, as queried per family.
    pub present: bool,
}

impl QueueFamily {
    /// Usable for this renderer: graphics and compute together, and able to
    /// present to the target surface.
    pub open spec fn is_usable(self) -> bool {
        self.graphics && self.compute && self.present
    }

    /// Executable form of [`Self::is_usable`].
    pub fn usable(&self) -> (r: bool)
        ensures
            r == self.is_usable(),
    {
        self.graphics && self.compute && self.present
    }
}

/// The plain facts the selector reads of one enumerated physical device.
#[derive(Clone, Debug)]
pub struct PhysicalDevice {
    pub kind: DeviceKind,
    pub caps: Capabilities,
    pub queue_families: Vec<QueueFamily>,
}

impl PhysicalDevice {
    /// Survives filtering: offers every required capability and has at least
    /// one usable queue family.
    pub open spec fn is_suitable(self, req: Capabilities) -> bool {
        &&& self.caps.supports(req)
        &&& exists|j: int|
            0 <= j < self.queue_families@.len() && (#[trigger] self.queue_families@[j]).is_usable()
    }
}

/// Outcome of selection: the index of the chosen device in enumeration order
/// and the index of its chosen queue family.
#[derive(Clone, Copy, Debug, PartialEq, Eq, Structural)]
pub struct Selection {
    pub device: usize,
    pub family: usize,
}

/// Fatal startup failure: no enumerated device passed the capability and
/// queue-family filters.
#[derive(Clone, Copy, Debug, PartialEq, Eq, Structural)]
pub struct NoSuitableDeviceError;

/// Index of the first usable queue family, if any.
fn first_usable_family(families: &Vec<QueueFamily>) -> (r: Option<usize>)
    ensures
        r is Some <==> exists|j: int|
            0 <= j < families@.len() && (#[trigger] families@[j]).is_usable(),
        r matches Some(f) ==> {
            &&& f < families@.len()
            &&& families@[f as int].is_usable()
            &&& forall|j: int| 0 <= j < f ==> !(#[trigger] families@[j]).is_usable()
        },
{
    let mut j: usize = 0;
    while j < families.len()
        invariant
            j <= families@.len(),
            forall|k: int| 0 <= k < j ==> !(#[trigger] families@[k]).is_usable(),
        decreases families@.len() - j,
    {
        if families[j].usable() {
            return Some(j);
        }
        j = j + 1;
    }
    None
}

/// Picks the device and queue family to create the logical device on.
///
/// The winner is suitable, no suitable device ranks strictly better, and no
/// earlier-enumerated suitable device ranks as well; its family is the first
/// usable one. The selection fails exactly when no device is suitable.
pub fn select(devices: &Vec<PhysicalDevice>, req: Capabilities) -> (r: Result<
    Selection,
    NoSuitableDeviceError,
>)
    ensures
        r is Ok <==> exists|i: int|
            0 <= i < devices@.len() && (#[trigger] devices@[i]).is_suitable(req),
        r matches Ok(sel) ==> {
            &&& sel.device < devices@.len()
            &&& devices@[sel.device as int].is_suitable(req)
            &&& forall|i: int|
                0 <= i < devices@.len() && (#[trigger] devices@[i]).is_suitable(req)
                    ==> devices@[sel.device as int].kind.spec_rank() <= devices@[i].kind.spec_rank()
            &&& forall|i: int|
                0 <= i < sel.device && (#[trigger] devices@[i]).is_suitable(req)
                    ==> devices@[sel.device as int].kind.spec_rank() < devices@[i].kind.spec_rank()
            &&& sel.family < devices@[sel.device as int].queue_families@.len()
            &&& devices@[sel.device as int].queue_families@[sel.family as int].is_usable()
            &&& forall|j: int|
                0 <= j < sel.family
                    ==> !(#[trigger] devices@[sel.device as int].queue_families@[j]).is_usable()
        },
{
    let mut best: Option<Selection> = None;
    let ghost mut best_rank: int = 3;
    let mut best_rank_exec: u32 = 3;
    let mut i: usize = 0;
    while i < devices.len()
        invariant
            i <= devices@.len(),
            best_rank == best_rank_exec as int,
            best is None ==> best_rank == 3,
            best is None ==> forall|k: int|
                0 <= k < i ==> !(#[trigger] devices@[k]).is_suitable(req),
            best matches Some(sel) ==> {
                &&& sel.device < i
                &&& devices@[sel.device as int].is_suitable(req)
                &&& best_rank == devices@[sel.device as int].kind.spec_rank()
                &&& forall|k: int|
                    0 <= k < i && (#[trigger] devices@[k]).is_suitable(req)
                        ==> best_rank <= devices@[k].kind.spec_rank()
                &&& forall|k: int|
                    0 <= k < sel.device && (#[trigger] devices@[k]).is_suitable(req)
                        ==> best_rank < devices@[k].kind.spec_rank()
                &&& sel.family < devices@[sel.device as int].queue_families@.len()
                &&& devices@[sel.device as int].queue_families@[sel.family as int].is_usable()
                &&& forall|j: int|
                    0 <= j < sel.family
                        ==> !(#[trigger] devices@[sel.device as int].queue_families@[j]).is_usable()
            },
        decreases devices@.len() - i,
    {
        let candidate = &devices[i];
        if candidate.caps.supports_all(&req) {
            if let Some(f) = first_usable_family(&candidate.queue_families) {
                let rank = candidate.kind.rank();
                if rank < best_rank_exec {
                    best = Some(Selection { device: i, family: f });
                    best_rank_exec = rank;
                    proof {
                        best_rank = rank as int;
                    }
                }
            }
        }
        i = i + 1;
    }
    match best {
        Some(sel) => Ok(sel),
        None => Err(NoSuitableDeviceError),
    }
}

} // verus!
