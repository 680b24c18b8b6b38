//! Render targets: the places that painted frames are sent to, each with
//! the renderer that draws it once there is one.

use vstd::prelude::*;

verus! {

/// The name of a render target.
#[derive(Clone, Copy, Debug, PartialEq, Eq, Structural)]
pub struct RenderTargetHandle(pub usize);

/// The render targets, each with its renderer of type `R` or, until the
/// first frame is presented, without one. Handles are given out in order,
/// from 0, and none is ever taken back.
pub struct RenderTargets<R> {
    renderers: Vec<Option<R>>,
}

impl<R> Default for RenderTargets<R> {
    /// No render targets.
    fn default() -> (t: RenderTargets<R>)
        ensures
            t.slots() == Seq::<Option<R>>::empty(),
    {
        RenderTargets::new()
    }
}

impl<R> RenderTargets<R> {
    /// For each handle, in order, the renderer of its target, if it has
    /// one.
    pub closed spec fn slots(&self) -> Seq<Option<R>> {
        self.renderers@
    }

    /// No render targets.
    pub fn new() -> (t: RenderTargets<R>)
        ensures
            t.slots() == Seq::<Option<R>>::empty(),
    {
        RenderTargets { renderers: Vec::new() }
    }

    /// The number of render targets.
    pub fn len(&self) -> (n: usize)
        ensures
            n == self.slots().len(),
    {
        self.renderers.len()
    }

    /// Adds a render target without a renderer and returns its handle: the
    /// number of targets that there were.
    pub fn create_uninitialized_render_target(&mut self) -> (handle: RenderTargetHandle)
        ensures
            handle.0 == old(self).slots().len(),
            final(self).slots() == old(self).slots().push(None),
    {
        let handle = RenderTargetHandle(self.renderers.len());
        self.renderers.push(None);
        handle
    }

    /// Whether `handle` names a target that has its renderer.
    pub fn is_initialized(&self, handle: RenderTargetHandle) -> (r: bool)
        ensures
            r == (handle.0 < self.slots().len() && self.slots()[handle.0 as int] is Some),
    {
        handle.0 < self.renderers.len() && self.renderers[handle.0].is_some()
    }

    /// The renderer of the target `handle`, to draw with; nothing where the
    /// handle names no target or the target has no renderer yet.
    pub fn from_handle(&mut self, handle: RenderTargetHandle) -> (r: Option<&mut R>)
        ensures
            match r {
                Some(renderer) => {
                    &&& handle.0 < old(self).slots().len()
                    &&& old(self).slots()[handle.0 as int] == Some(*renderer)
                    &&& final(self).slots() == old(self).slots().update(
                        handle.0 as int,
                        Some(*final(renderer)),
                    )
                },
                None => {
                    &&& final(self).slots() == old(self).slots()
                    &&& handle.0 >= old(self).slots().len() || old(self).slots()[handle.0 as int]
                        is None
                },
            },
    {
        if handle.0 < self.renderers.len() {
            match &mut self.renderers[handle.0] {
                Some(renderer) => Some(renderer),
                None => None,
            }
        } else {
            None
        }
    }

    /// The handles of the targets that have no renderer yet, in ascending
    /// order.
    pub fn uninitialized(&self) -> (handles: Vec<RenderTargetHandle>)
        ensures
            forall|k: int|
                0 <= k < handles@.len() ==> (#[trigger] handles@[k]).0 < self.slots().len()
                    && self.slots()[handles@[k].0 as int] is None,
            forall|j: int, k: int| 0 <= j < k < handles@.len() ==> handles@[j].0 < handles@[k].0,
            forall|i: int|
                0 <= i < self.slots().len() && self.slots()[i] is None ==> exists|k: int|
                    0 <= k < handles@.len() && (#[trigger] handles@[k]).0 == i,
    {
        let mut handles: Vec<RenderTargetHandle> = Vec::new();
        let mut i: usize = 0;
        while i < self.renderers.len()
            invariant
                i <= self.renderers@.len(),
                forall|k: int|
                    0 <= k < handles@.len() ==> (#[trigger] handles@[k]).0 < i
                        && self.renderers@[handles@[k].0 as int] is None,
                forall|j: int, k: int|
                    0 <= j < k < handles@.len() ==> handles@[j].0 < handles@[k].0,
                forall|m: int|
                    0 <= m < i && self.renderers@[m] is None ==> exists|k: int|
                        0 <= k < handles@.len() && (#[trigger] handles@[k]).0 == m,
            decreases self.renderers@.len() - i,
        {
            if self.renderers[i].is_none() {
                let ghost before = handles@;
                handles.push(RenderTargetHandle(i));
                proof {
                    assert(handles@[before.len() as int].0 == i);
                    assert forall|m: int|
                        0 <= m < i + 1 && self.renderers@[m] is None implies exists|k: int|
                        0 <= k < handles@.len() && (#[trigger] handles@[k]).0 == m by {
                        if m < i {
                            let k = choose|k: int|
                                0 <= k < before.len() && (#[trigger] before[k]).0 == m;
                            assert(handles@[k].0 == m);
                        }
                    }
                }
            }
            i = i + 1;
        }
        handles
    }

    /// Gives every target that has no renderer yet the renderer that `make`
    /// builds for it. Targets that have their renderer keep it.
    pub fn setup_renderers<F: Fn() -> R>(&mut self, make: F)
        requires
            call_requires(make, ()),
        ensures
            final(self).slots().len() == old(self).slots().len(),
            forall|i: int|
                0 <= i < old(self).slots().len() ==> match old(self).slots()[i] {
                    Some(renderer) => (#[trigger] final(self).slots()[i]) == Some(renderer),
                    None => final(self).slots()[i] matches Some(renderer) && call_ensures(
                        make,
                        (),
                        renderer,
                    ),
                },
    {
        let n = self.renderers.len();
        let mut i: usize = 0;
        while i < n
            invariant
                call_requires(make, ()),
                n == self.renderers@.len(),
                n == old(self).slots().len(),
                i <= n,
                forall|m: int| i <= m < n ==> self.renderers@[m] == old(self).slots()[m],
                forall|m: int|
                    0 <= m < i ==> match old(self).slots()[m] {
                        Some(renderer) => (#[trigger] self.renderers@[m]) == Some(renderer),
                        None => self.renderers@[m] matches Some(renderer) && call_ensures(
                            make,
                            (),
                            renderer,
                        ),
                    },
            decreases n - i,
        {
            if self.renderers[i].is_none() {
                let renderer = make();
                self.renderers.set(i, Some(renderer));
            }
            i = i + 1;
        }
    }
}

} // verus!
