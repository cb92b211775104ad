//! The one-time build protocol for two-level acceleration structures.
//!
//! The ray-tracing variant builds a bottom-level structure over immutable
//! triangle geometry and a top-level structure over instances of it, once,
//! before the frame loop starts. Sizing is two-phase: the required backing
//! size is queried first and storage of exactly that size is allocated. The
//! build commands are recorded once and submitted to the queue the frame loop
//! uses; same-queue submission order then completes them before any trace
//! dispatch recorded afterwards, and the structures are immutable from then
//! on.

use vstd::prelude::*;

verus! {

/// Immutable triangle geometry for a bottom-level structure: vertex count
/// and layout, and an index count where the geometry is indexed.
#[derive(Clone, Copy, Debug, PartialEq, Eq, Structural)]
pub struct GeometryDescriptor {
    pub vertex_count: u32,
    /// Bytes from one vertex to the next in the bound buffer.
    pub vertex_stride: u32,
    /// Index count of indexed geometry; `None` for non-indexed.
    pub index_count: Option<u32>,
}

impl GeometryDescriptor {
    /// Backing bytes the vertex data of this geometry needs.
    pub open spec fn required_size(self) -> int {
        self.vertex_count * self.vertex_stride
    }
}

/// First phase of sizing: the backing-store size the geometry requires.
pub fn query_blas_size(geometry: &GeometryDescriptor) -> (size: u64)
    ensures
        size == geometry.required_size(),
{
    proof {
        assert(geometry.vertex_count * geometry.vertex_stride <= 0xffff_ffff * 0xffff_ffff)
            by (nonlinear_arith)
            requires
                geometry.vertex_count <= 0xffff_ffffu32,
                geometry.vertex_stride <= 0xffff_ffffu32,
        ;
    }
    (geometry.vertex_count as u64) * (geometry.vertex_stride as u64)
}

/// A bottom-level structure: its geometry and the backing storage allocated
/// for it in the second sizing phase.
#[derive(Clone, Copy, Debug, PartialEq, Eq, Structural)]
pub struct Blas {
    pub geometry: GeometryDescriptor,
    pub storage_size: u64,
}

/// One top-level instance: a reference to a bottom-level structure (by its
/// index in the builder), an instance id, and the visibility mask the trace
/// call filters by. The instance's affine transform is GPU-side data the
/// orchestration never reads; the unverified shell pairs it back in.
#[derive(Clone, Copy, Debug, PartialEq, Eq, Structural)]
pub struct TlasInstance {
    pub blas_index: usize,
    pub custom_index: u32,
    pub mask: u32,
}

/// A top-level structure: its instance list and the capacity it was created
/// with.
#[derive(Clone, Debug)]
pub struct Tlas {
    pub instances: Vec<TlasInstance>,
    pub max_instances: u32,
}

/// Where the one-time build stands.
#[derive(Clone, Copy, Debug, PartialEq, Eq, Structural)]
pub enum BuildPhase {
    /// Structures are being created; nothing recorded yet.
    Collecting,
    /// The build commands stand in a command stream, one build per structure.
    Recorded,
    /// The command stream was submitted to the frame loop's queue.
    Submitted,
    /// The builds are complete relative to every later submission on that
    /// queue; the structures are immutable now.
    Completed,
}

/// Builder and owner of the two-level structures, tracking the build
/// protocol and how many builds of each level were ever recorded.
#[derive(Clone, Debug)]
pub struct AccelBuilder {
    pub blas_list: Vec<Blas>,
    pub tlas: Option<Tlas>,
    pub phase: BuildPhase,
    pub blas_builds_recorded: usize,
    pub tlas_builds_recorded: usize,
}

impl AccelBuilder {
    /// Protocol invariant: past the collecting phase the top-level structure
    /// exists and exactly one build per structure was recorded; instance
    /// references stay inside the bottom-level list and inside the created
    /// capacity.
    pub open spec fn wf(self) -> bool {
        &&& self.phase is Collecting ==> self.blas_builds_recorded == 0
            && self.tlas_builds_recorded == 0
        &&& !(self.phase is Collecting) ==> {
            &&& self.tlas is Some
            &&& self.blas_builds_recorded == self.blas_list@.len()
            &&& self.tlas_builds_recorded == 1
        }
        &&& self.tlas matches Some(t) ==> {
            &&& t.instances@.len() <= t.max_instances
            &&& forall|i: int|
                0 <= i < t.instances@.len()
                    ==> (#[trigger] t.instances@[i]).blas_index < self.blas_list@.len()
        }
    }

    /// The structures are built and readable by trace dispatches.
    pub open spec fn is_complete(self) -> bool {
        self.phase is Completed
    }

    /// A fresh builder with nothing created.
    pub fn new() -> (b: AccelBuilder)
        ensures
            b.wf(),
            b.phase is Collecting,
            b.blas_list@.len() == 0,
            b.tlas is None,
    {
        AccelBuilder {
            blas_list: Vec::new(),
            tlas: None,
            phase: BuildPhase::Collecting,
            blas_builds_recorded: 0,
            tlas_builds_recorded: 0,
        }
    }

    /// Creates a bottom-level structure over `geometry`: queries the
    /// required size, allocates backing storage of exactly that size, and
    /// returns the structure's index.
    pub fn create_blas(&mut self, geometry: GeometryDescriptor) -> (index: usize)
        requires
            old(self).wf(),
            old(self).phase is Collecting,
            old(self).blas_list@.len() < usize::MAX,
        ensures
            final(self).wf(),
            final(self).phase is Collecting,
            final(self).tlas == old(self).tlas,
            index == old(self).blas_list@.len(),
            final(self).blas_list@ == old(self).blas_list@.push(
                Blas { geometry, storage_size: geometry.required_size() as u64 },
            ),
    {
        let size = query_blas_size(&geometry);
        let index = self.blas_list.len();
        self.blas_list.push(Blas { geometry, storage_size: size });
        index
    }

    /// Creates the top-level structure over the given instances with the
    /// given capacity. Every instance must reference a structure already
    /// created, and the instances must fit the capacity.
    pub fn create_tlas(&mut self, instances: Vec<TlasInstance>, max_instances: u32)
        requires
            old(self).wf(),
            old(self).phase is Collecting,
            old(self).tlas is None,
            instances@.len() <= max_instances,
            forall|i: int|
                0 <= i < instances@.len()
                    ==> (#[trigger] instances@[i]).blas_index < old(self).blas_list@.len(),
        ensures
            final(self).wf(),
            final(self).phase is Collecting,
            final(self).blas_list@ == old(self).blas_list@,
            final(self).tlas matches Some(t) && t.instances@ == instances@
                && t.max_instances == max_instances,
    {
        self.tlas = Some(Tlas { instances, max_instances });
    }

    /// Records the build commands into one command stream: exactly one build
    /// per bottom-level structure and exactly one top-level build.
    pub fn record_build(&mut self)
        requires
            old(self).wf(),
            old(self).phase is Collecting,
            old(self).tlas is Some,
        ensures
            final(self).wf(),
            final(self).phase is Recorded,
            final(self).blas_list@ == old(self).blas_list@,
            final(self).tlas == old(self).tlas,
            final(self).blas_builds_recorded == old(self).blas_list@.len(),
            final(self).tlas_builds_recorded == 1,
    {
        self.blas_builds_recorded = self.blas_list.len();
        self.tlas_builds_recorded = 1;
        self.phase = BuildPhase::Recorded;
    }

    /// Submits the recorded command stream to the frame loop's queue.
    pub fn submit(&mut self)
        requires
            old(self).wf(),
            old(self).phase is Recorded,
        ensures
            final(self).wf(),
            final(self).phase is Submitted,
            final(self).blas_list@ == old(self).blas_list@,
            final(self).tlas == old(self).tlas,
            final(self).blas_builds_recorded == old(self).blas_builds_recorded,
            final(self).tlas_builds_recorded == old(self).tlas_builds_recorded,
    {
        self.phase = BuildPhase::Submitted;
    }

    /// Marks the builds complete relative to later work on the same queue:
    /// within one queue, submitted command sequences execute in submission
    /// order, so every frame submitted after this point observes the built
    /// structures.
    pub fn complete_by_queue_order(&mut self)
        requires
            old(self).wf(),
            old(self).phase is Submitted,
        ensures
            final(self).wf(),
            final(self).is_complete(),
            final(self).blas_list@ == old(self).blas_list@,
            final(self).tlas == old(self).tlas,
            final(self).blas_builds_recorded == old(self).blas_builds_recorded,
            final(self).tlas_builds_recorded == old(self).tlas_builds_recorded,
    {
        self.phase = BuildPhase::Completed;
    }
}

/// The builds a completed builder ever recorded: one per bottom-level
/// structure and exactly one top-level build. In particular a single-geometry
/// scene records exactly one build of each level.
pub proof fn lemma_completed_build_counts(b: AccelBuilder)
    requires
        b.wf(),
        b.is_complete(),
    ensures
        b.blas_builds_recorded == b.blas_list@.len(),
        b.tlas_builds_recorded == 1,
        b.blas_list@.len() == 1 ==> b.blas_builds_recorded == 1,
{
}

} // verus!
