//! The bodies that make up one controller.

use vstd::prelude::*;
use crate::query::Entity;

verus! {

/// The bodies, besides the controller's own, that are a part of the controller.
#[derive(Debug, Default)]
pub struct Parts {
    /// The other bodies, in the order in which they were added.
    pub parts: Vec<Entity>,
}

impl Parts {
    /// Every body of the controller: the parts in their order, and then the controller's own
    /// body `controller`.
    pub fn parts(&self, controller: Entity) -> (all: Vec<Entity>)
        ensures
            all@ == self.parts@.push(controller),
    {
        let mut all: Vec<Entity> = Vec::new();
        let mut index: usize = 0;
        while index < self.parts.len()
            invariant
                index <= self.parts.len(),
                all@ == self.parts@.subrange(0, index as int),
            decreases self.parts.len() - index,
        {
            all.push(self.parts[index]);
            index = index + 1;
            assert(all@ == self.parts@.subrange(0, index as int));
        }
        assert(self.parts@.subrange(0, self.parts.len() as int) == self.parts@);
        all.push(controller);
        all
    }
}

} // verus!
