//! The off-screen render target, its bind sets, and their regeneration.
//!
//! One render-target generation exists at a time. An extent or format change
//! retires the whole generation and creates the next one atomically from the
//! frame loop's point of view: the target and every bind set referencing its
//! view are made together, and generation numbers only grow, so a bind set of
//! a retired generation can never be mistaken for one of the current target.

use vstd::prelude::*;
use crate::extent::Extent;
use crate::pipeline::BindingSlot;

verus! {

/// The off-screen image written by the compute or ray pass and read by the
/// presentation pass. Its generation number identifies it among all targets
/// this binder ever creates.
#[derive(Clone, Copy, Debug, PartialEq, Eq, Structural)]
pub struct RenderTarget {
    pub extent: Extent,
    pub format: u32,
    pub generation: u64,
}

/// A view of one render target, carrying the facts bind sets are checked
/// against: which target generation it views and that target's extent and
/// format.
#[derive(Clone, Copy, Debug, PartialEq, Eq, Structural)]
pub struct TargetView {
    pub target_generation: u64,
    pub extent: Extent,
    pub format: u32,
}

/// Creates the render target of the given generation together with its view.
pub fn create_render_target(extent: Extent, format: u32, generation: u64) -> (r: (
    RenderTarget,
    TargetView,
))
    ensures
        r.0 == (RenderTarget { extent, format, generation }),
        r.1.target_generation == generation,
        r.1.extent == extent,
        r.1.format == format,
{
    (
        RenderTarget { extent, format, generation },
        TargetView { target_generation: generation, extent, format },
    )
}

/// An immutable-once-created set of resource bindings matching a fixed
/// layout. It records which target generation its image view belongs to and
/// that view's extent; it is never patched, only replaced.
#[derive(Clone, Debug)]
pub struct BindSet {
    pub layout: Vec<BindingSlot>,
    pub target_generation: u64,
    pub view_extent: Extent,
}

/// Creates a bind set over the given layout whose image view is `view`.
pub fn create_bind_set(layout: &Vec<BindingSlot>, view: &TargetView) -> (b: BindSet)
    ensures
        b.layout@ == layout@,
        b.target_generation == view.target_generation,
        b.view_extent == view.extent,
{
    BindSet {
        layout: layout.clone(),
        target_generation: view.target_generation,
        view_extent: view.extent,
    }
}

/// One generation of bound resources: the render target and the two bind
/// sets (compute pass and presentation pass) referencing its view.
#[derive(Clone, Debug)]
pub struct BoundGeneration {
    pub target: RenderTarget,
    pub compute_bind: BindSet,
    pub render_bind: BindSet,
}

impl BoundGeneration {
    /// Both bind sets reference the generation's own target: same generation
    /// number and same extent as the target they view.
    pub open spec fn wf(self) -> bool {
        &&& self.compute_bind.target_generation == self.target.generation
        &&& self.compute_bind.view_extent == self.target.extent
        &&& self.render_bind.target_generation == self.target.generation
        &&& self.render_bind.view_extent == self.target.extent
    }
}

/// The binder: owner of the current bound generation and of the counter that
/// numbers every generation it ever creates.
#[derive(Clone, Debug)]
pub struct Binder {
    pub next_generation: u64,
    pub current: Option<BoundGeneration>,
}

impl Binder {
    /// The current generation, if any, is internally consistent and was
    /// numbered before the counter's present value.
    pub open spec fn wf(self) -> bool {
        self.current matches Some(g) ==> g.wf() && g.target.generation < self.next_generation
    }

    /// The generation counter has room; holds for any realistic number of
    /// resizes.
    pub open spec fn can_rebuild(self) -> bool {
        self.next_generation < u64::MAX
    }

    /// A fresh binder with nothing bound yet.
    pub fn new() -> (b: Binder)
        ensures
            b.wf(),
            b.current is None,
            b.next_generation == 0,
    {
        Binder { next_generation: 0, current: None }
    }

    /// How a rebuild to `extent` and `format` relates the binder before it to
    /// the binder after it: the counter advances by one and the new current
    /// generation holds a target of that extent and format, numbered with the
    /// old counter value, with both bind sets referencing its view over the
    /// given layouts.
    pub open spec fn rebuilt(
        pre: Binder,
        post: Binder,
        extent: Extent,
        format: u32,
        compute_layout: Seq<BindingSlot>,
        render_layout: Seq<BindingSlot>,
    ) -> bool {
        &&& post.next_generation == pre.next_generation + 1
        &&& post.current matches Some(g) && {
            &&& g.wf()
            &&& g.target == (RenderTarget { extent, format, generation: pre.next_generation })
            &&& g.compute_bind.layout@ == compute_layout
            &&& g.render_bind.layout@ == render_layout
        }
    }

    /// Retires the current generation (if any) and builds the next one: a
    /// render target of the given extent and format, and the compute and
    /// presentation bind sets over its view. The new generation carries a
    /// number no earlier generation ever carried.
    pub fn rebuild(
        &mut self,
        extent: Extent,
        format: u32,
        compute_layout: &Vec<BindingSlot>,
        render_layout: &Vec<BindingSlot>,
    )
        requires
            old(self).wf(),
            old(self).can_rebuild(),
        ensures
            final(self).wf(),
            Binder::rebuilt(
                *old(self),
                *final(self),
                extent,
                format,
                compute_layout@,
                render_layout@,
            ),
            final(self).current matches Some(g) && {
                &&& g.wf()
                &&& g.target.extent == extent
                &&& g.target.format == format
                &&& g.target.generation == old(self).next_generation
                &&& g.compute_bind.layout@ == compute_layout@
                &&& g.render_bind.layout@ == render_layout@
            },
            final(self).next_generation == old(self).next_generation + 1,
            old(self).current matches Some(prev)
                ==> final(self).current matches Some(g)
                    && prev.target.generation < g.target.generation,
    {
        let generation = self.next_generation;
        let (target, view) = create_render_target(extent, format, generation);
        let compute_bind = create_bind_set(compute_layout, &view);
        let render_bind = create_bind_set(render_layout, &view);
        self.current = Some(BoundGeneration { target, compute_bind, render_bind });
        self.next_generation = generation + 1;
    }
}

} // verus!
