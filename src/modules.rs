//! The contract that every status provider implements.

use vstd::prelude::*;
use crate::powerline::{Powerline, PowerlineView};

verus! {

/// A status provider: it appends zero or more segments to a prompt, and
/// absorbs its own failures (it appends a complete set of segments or none).
pub trait Module {
    /// The prompt after this provider has appended its segments to `v`.
    spec fn contributed(&self, v: PowerlineView) -> PowerlineView;

    /// Appends this provider's segments: the prompt becomes exactly
    /// `contributed`, and what was written before stays in front.
    fn append_segments(&mut self, powerline: &mut Powerline)
        requires
            old(powerline).wf(),
        ensures
            final(powerline).wf(),
            final(powerline)@ == old(self).contributed(old(powerline)@),
            old(powerline)@.text.is_prefix_of(final(powerline)@.text),
    ;
}

} // verus!
