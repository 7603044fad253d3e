//! The attributes of a poll on an extended completion queue.

use vstd::prelude::*;

verus! {

/// What a poll asks for beyond the completions themselves. Nothing can be
/// asked for yet: the mask of further attributes is zero.
#[derive(Debug, Clone, Copy, PartialEq, Eq, Structural)]
pub struct PollCQAttr {
    pub comp_mask: u32,
}

impl PollCQAttr {
    /// The attributes that ask for nothing.
    pub fn new_empty() -> (a: Self)
        ensures
            a.comp_mask == 0,
    {
        PollCQAttr { comp_mask: 0 }
    }
}

impl Default for PollCQAttr {
    fn default() -> (a: Self)
        ensures
            a.comp_mask == 0,
    {
        PollCQAttr { comp_mask: 0 }
    }
}

} // verus!
