//! Registry of texture views that shaders reach by index.
use std::ops::Range;
use vstd::prelude::*;

verus! {

/// Growable store of texture views. Views are only ever appended, so the
/// index of a view never changes once it is handed out.
pub struct BindlessTextures<V> {
    views: Vec<V>,
}

impl<V> View for BindlessTextures<V> {
    type V = Seq<V>;

    closed spec fn view(&self) -> Seq<V> {
        self.views@
    }
}

impl<V> BindlessTextures<V> {
    /// A registry without views.
    pub fn new() -> (registry: Self)
        ensures
            registry@ == Seq::<V>::empty(),
    {
        BindlessTextures { views: Vec::new() }
    }

    /// Number of views in the registry.
    pub fn len(&self) -> (len: usize)
        ensures
            len == self@.len(),
    {
        self.views.len()
    }

    /// Appends `views` in their order and returns the range of indices that
    /// they got. Every view that was in the registry keeps its index.
    pub fn push(&mut self, views: Vec<V>) -> (range: Range<u32>)
        requires
            old(self)@.len() + views@.len() <= u32::MAX,
        ensures
            final(self)@ == old(self)@ + views@,
            range.start == old(self)@.len(),
            range.end == final(self)@.len(),
    {
        let mut views = views;
        let start = self.views.len() as u32;
        self.views.append(&mut views);
        let end = self.views.len() as u32;
        start..end
    }

    /// The views in the order of their indices.
    pub fn texture_view_array(&self) -> (array: Vec<&V>)
        ensures
            array@.len() == self@.len(),
            forall|i: int| 0 <= i < self@.len() ==> *(#[trigger] array@[i]) == self@[i],
    {
        let mut array: Vec<&V> = Vec::new();
        let mut i: usize = 0;
        while i < self.views.len()
            invariant
                i <= self.views.len(),
                array@.len() == i,
                forall|k: int| 0 <= k < i ==> *(#[trigger] array@[k]) == self.views@[k],
            decreases self.views.len() - i,
        {
            array.push(&self.views[i]);
            i = i + 1;
        }
        array
    }
}

} // verus!
