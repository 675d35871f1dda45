use vstd::prelude::*;

verus! {

/// The shapes of a scene, in the order they were added. The order decides
/// nothing but which of two equally near hits is reported.
pub struct HitList<T> {
    hitable_items: Vec<T>,
}

impl<T> View for HitList<T> {
    type V = Seq<T>;

    closed spec fn view(&self) -> Seq<T> {
        self.hitable_items@
    }
}

impl<T> HitList<T> {
    /// An empty scene.
    pub fn new() -> (l: Self)
        ensures
            l@ == Seq::<T>::empty(),
    {
        Self { hitable_items: Vec::new() }
    }

    /// Appends a shape.
    pub fn add(&mut self, item: T)
        ensures
            final(self)@ == old(self)@.push(item),
    {
        self.hitable_items.push(item);
    }

    /// The shape at `index`, if there is one.
    pub fn get(&self, index: usize) -> (r: Option<&T>)
        ensures
            index < self@.len() ==> r == Some(&self@[index as int]),
            index >= self@.len() ==> r is None,
    {
        if index < self.hitable_items.len() {
            Some(&self.hitable_items[index])
        } else {
            None
        }
    }

    /// The number of shapes.
    pub fn len(&self) -> (n: usize)
        ensures
            n == self@.len(),
    {
        self.hitable_items.len()
    }
}

} // verus!
