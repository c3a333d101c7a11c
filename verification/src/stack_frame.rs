use vstd::prelude::*;

use crate::rendering::{RenderNodePtr, RenderNodePtrList};

verus! {

/// The abstract state of a stack frame: the adoptees handed to the
/// component, and how many of them have been handed out so far.
pub struct FrameState {
    pub adoptees: Seq<RenderNodePtr>,
    pub next: nat,
}

/// The frame that a component pushes while its template is rendered. It
/// holds the nodes the component adopts from its caller, and hands them out
/// one by one, in order, to the `Yield` nodes of the template.
pub struct StackFrame {
    adoptees: RenderNodePtrList,
    adoptee_index: usize,
}

/// A frame that has handed out none of its adoptees yet.
pub open spec fn fresh_frame(adoptees: Seq<RenderNodePtr>) -> FrameState {
    FrameState { adoptees, next: 0 }
}

/// The adoptee that the next call of `next_adoptee` hands out, if any.
pub open spec fn next_adoptee_of(frame: FrameState) -> Option<RenderNodePtr> {
    if frame.next < frame.adoptees.len() {
        Some(frame.adoptees[frame.next as int])
    } else {
        None
    }
}

/// The frame after one call of `next_adoptee`.
pub open spec fn advanced(frame: FrameState) -> FrameState {
    if frame.next < frame.adoptees.len() {
        FrameState { adoptees: frame.adoptees, next: frame.next + 1 }
    } else {
        frame
    }
}

/// The frame after `n` calls of `next_adoptee`.
pub open spec fn advanced_times(frame: FrameState, n: nat) -> FrameState
    decreases n,
{
    if n == 0 {
        frame
    } else {
        advanced(advanced_times(frame, (n - 1) as nat))
    }
}

/// After `n` calls of `next_adoptee`, a fresh frame has handed out its first
/// `n` adoptees, or all of them when it has fewer.
pub proof fn fresh_frame_after_calls(adoptees: Seq<RenderNodePtr>, n: nat)
    ensures
        advanced_times(fresh_frame(adoptees), n) == (FrameState {
            adoptees,
            next: if n < adoptees.len() { n } else { adoptees.len() },
        }),
    decreases n,
{
    if n > 0 {
        fresh_frame_after_calls(adoptees, (n - 1) as nat);
    }
}

/// A frame hands out its adoptees one at a time, in the order it was given
/// them: the call after `n` earlier calls hands out adoptee `n`, and once all
/// of them have been handed out every further call hands out nothing.
pub proof fn adoptees_handed_out_in_order(adoptees: Seq<RenderNodePtr>, n: nat)
    ensures
        next_adoptee_of(advanced_times(fresh_frame(adoptees), n)) == (if n < adoptees.len() {
            Some(adoptees[n as int])
        } else {
            None
        }),
{
    fresh_frame_after_calls(adoptees, n);
}

impl View for StackFrame {
    type V = FrameState;

    closed spec fn view(&self) -> FrameState {
        FrameState { adoptees: self.adoptees@, next: self.adoptee_index as nat }
    }
}

impl StackFrame {
    /// A frame for a component that adopts `adoptees`.
    pub fn new(adoptees: RenderNodePtrList) -> (frame: Self)
        ensures
            frame@ == fresh_frame(adoptees@),
    {
        StackFrame { adoptees, adoptee_index: 0 }
    }

    /// Hands out the next adoptee of this frame, or `None` once all of them
    /// have been handed out.
    pub fn next_adoptee(&mut self) -> (adoptee: Option<RenderNodePtr>)
        ensures
            adoptee == next_adoptee_of(old(self)@),
            final(self)@ == advanced(old(self)@),
    {
        if self.adoptee_index < self.adoptees.len() {
            let adoptee = self.adoptees[self.adoptee_index];
            self.adoptee_index = self.adoptee_index + 1;
            Some(adoptee)
        } else {
            None
        }
    }
}

} // verus!
