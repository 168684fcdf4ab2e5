//! Per-frame submission queues. Callers append draw requests during a frame;
//! the pass that needs them takes the whole queue once, leaving it empty.
use vstd::prelude::*;

verus! {

/// An ordered queue of one category of draw requests.
#[derive(Debug)]
pub struct DrawQueue<T> {
    pub items: Vec<T>,
}

impl<T> DrawQueue<T> {
    /// An empty queue.
    pub fn new() -> (r: DrawQueue<T>)
        ensures
            r.items@ == Seq::<T>::empty(),
    {
        DrawQueue { items: Vec::new() }
    }

    /// Appends `item` after everything queued so far.
    pub fn push(&mut self, item: T)
        ensures
            final(self).items@ == old(self).items@.push(item),
    {
        self.items.push(item);
    }

    /// Number of queued requests.
    pub fn len(&self) -> (r: usize)
        ensures
            r == self.items@.len(),
    {
        self.items.len()
    }

    /// Whether nothing is queued.
    pub fn is_empty(&self) -> (r: bool)
        ensures
            r == (self.items@.len() == 0),
    {
        self.items.len() == 0
    }

    /// Takes every queued request, in the order queued, and leaves the queue empty.
    pub fn take_all(&mut self) -> (r: Vec<T>)
        ensures
            r@ == old(self).items@,
            final(self).items@ == Seq::<T>::empty(),
    {
        let mut taken: Vec<T> = Vec::new();
        std::mem::swap(&mut taken, &mut self.items);
        taken
    }

    /// Drops every queued request.
    pub fn clear(&mut self)
        ensures
            final(self).items@ == Seq::<T>::empty(),
    {
        self.items.clear();
    }
}

/// The submission queues of one frame: meshes, debug line batches, text
/// batches and occlusion geometry.
#[derive(Debug)]
pub struct RenderQueues<M, L, X, O> {
    pub meshes: DrawQueue<M>,
    pub lines: DrawQueue<L>,
    pub text: DrawQueue<X>,
    pub occlusion: DrawQueue<O>,
}

impl<M, L, X, O> RenderQueues<M, L, X, O> {
    /// Every queue empty.
    pub open spec fn all_empty(&self) -> bool {
        &&& self.meshes.items@.len() == 0
        &&& self.lines.items@.len() == 0
        &&& self.text.items@.len() == 0
        &&& self.occlusion.items@.len() == 0
    }

    /// Empty queues.
    pub fn new() -> (r: RenderQueues<M, L, X, O>)
        ensures
            r.all_empty(),
    {
        RenderQueues {
            meshes: DrawQueue::new(),
            lines: DrawQueue::new(),
            text: DrawQueue::new(),
            occlusion: DrawQueue::new(),
        }
    }

    /// Appends a mesh to the mesh queue.
    pub fn queue_mesh(&mut self, mesh: M)
        ensures
            final(self).meshes.items@ == old(self).meshes.items@.push(mesh),
            final(self).lines == old(self).lines,
            final(self).text == old(self).text,
            final(self).occlusion == old(self).occlusion,
    {
        self.meshes.push(mesh);
    }

    /// Empties every queue once the frame's passes were submitted.
    pub fn clear_after_submit(&mut self)
        ensures
            final(self).all_empty(),
    {
        self.meshes.clear();
        self.lines.clear();
        self.text.clear();
        self.occlusion.clear();
    }
}

} // verus!
